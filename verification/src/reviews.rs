//! The code-review source: pull requests, fetched either over numbered
//! REST pages or over a cursor-paged search query.
//!
//! Both adapters decode page elements into [`PullRequest`] records and
//! apply the merge-timestamp override during decode: a pull request with a
//! merge timestamp is `merged`, whatever raw state the feed reported. The
//! REST feed ends on an empty page; the cursor feed ends when its page
//! info reports no further page, and a non-empty error array in a query
//! response is an upstream failure.

use vstd::prelude::*;

use crate::failure::{FailureKind, FetchFailure, SourceName};
use crate::json::{json_get, JsonValue};
use crate::paging::{
    paginate, run_model, DecodedPage, NextCursor, PageModel, PageSource, PageStep, PagingStyle,
};
use crate::records::{views_of, Assignees, Label, PullRequest, PullRequestModel, Reviewers, State};

verus! {

/// The login of a user object.
pub open spec fn parse_login(v: JsonValue) -> Option<Seq<char>> {
    match json_get(v, "login"@) {
        Some(JsonValue::Str(s)) => Some(s@),
        _ => None,
    }
}

/// The name of a label object.
pub open spec fn parse_name(v: JsonValue) -> Option<Seq<char>> {
    match json_get(v, "name"@) {
        Some(JsonValue::Str(s)) => Some(s@),
        _ => None,
    }
}

/// The logins of a user array, in order; nothing when any element is
/// malformed.
pub open spec fn parse_login_items(items: Seq<JsonValue>) -> Option<Seq<Seq<char>>>
    decreases items.len(),
{
    if items.len() == 0 {
        Some(Seq::empty())
    } else {
        match (parse_login_items(items.drop_last()), parse_login(items.last())) {
            (Some(rest), Some(s)) => Some(rest.push(s)),
            _ => None,
        }
    }
}

/// The names of a label array, in order; nothing when any element is
/// malformed.
pub open spec fn parse_name_items(items: Seq<JsonValue>) -> Option<Seq<Seq<char>>>
    decreases items.len(),
{
    if items.len() == 0 {
        Some(Seq::empty())
    } else {
        match (parse_name_items(items.drop_last()), parse_name(items.last())) {
            (Some(rest), Some(s)) => Some(rest.push(s)),
            _ => None,
        }
    }
}

/// The state string of the feed as a [`State`].
pub open spec fn parse_state(v: JsonValue) -> Option<State> {
    match v {
        JsonValue::Str(s) => if s@ == "open"@ {
            Some(State::open)
        } else if s@ == "closed"@ {
            Some(State::closed)
        } else if s@ == "merged"@ {
            Some(State::merged)
        } else if s@ == "any"@ {
            Some(State::any)
        } else {
            None
        },
        _ => None,
    }
}

/// The merge timestamp of a pull-request object: absent or null means no
/// timestamp; any shape other than a string is malformed.
pub open spec fn parse_merged_at(v: JsonValue) -> Option<Option<Seq<char>>> {
    match json_get(v, "merged_at"@) {
        None => Some(None),
        Some(JsonValue::Null) => Some(None),
        Some(JsonValue::Str(s)) => Some(Some(s@)),
        Some(_) => None,
    }
}

/// What a JSON object means as a [`PullRequest`], the merge-timestamp
/// override already applied.
pub open spec fn parse_pull_request(v: JsonValue) -> Option<PullRequestModel> {
    match (json_get(v, "number"@), json_get(v, "assignees"@), json_get(v, "labels"@)) {
        (
            Some(JsonValue::UInt(number)),
            Some(JsonValue::Array(asg)),
            Some(JsonValue::Array(lbl)),
        ) => match (json_get(v, "requested_reviewers"@), json_get(v, "state"@)) {
            (Some(JsonValue::Array(rev)), Some(st)) => if number <= u32::MAX {
                match (parse_login_items(asg@), parse_name_items(lbl@), parse_login_items(rev@)) {
                    (Some(assignees), Some(labels), Some(requested_reviewers)) => match (
                        parse_state(st),
                        parse_merged_at(v),
                    ) {
                        (Some(raw_state), Some(merged_at)) => Some(
                            PullRequestModel {
                                number: number as u32,
                                assignees,
                                labels,
                                requested_reviewers,
                                state: if merged_at is Some {
                                    State::merged
                                } else {
                                    raw_state
                                },
                                merged_at,
                            },
                        ),
                        _ => None,
                    },
                    _ => None,
                }
            } else {
                None
            },
            _ => None,
        },
        _ => None,
    }
}

/// All elements of a page parsed as pull requests, in page order; nothing
/// when any element is malformed.
pub open spec fn parse_pull_request_items(items: Seq<JsonValue>) -> Option<Seq<PullRequestModel>>
    decreases items.len(),
{
    if items.len() == 0 {
        Some(Seq::empty())
    } else {
        match (parse_pull_request_items(items.drop_last()), parse_pull_request(items.last())) {
            (Some(rest), Some(pr)) => Some(rest.push(pr)),
            _ => None,
        }
    }
}

/// The merge-timestamp override, stated of the decoding itself: whatever
/// raw state a well-formed pull-request object carries, the decoded
/// record of one with a merge timestamp is `merged`, and the decoded
/// record of one without keeps the raw state.
pub proof fn lemma_merge_timestamp_overrides(v: JsonValue)
    ensures
        (parse_pull_request(v) matches Some(pr) ==> (pr.merged_at is Some ==> pr.state
            is merged)),
        (parse_pull_request(v) matches Some(pr) ==> (pr.merged_at is None ==> parse_state(
            json_get(v, "state"@)->Some_0,
        ) == Some(pr.state))),
{
}

proof fn lemma_login_items_fail(items: Seq<JsonValue>, i: int)
    requires
        0 <= i < items.len(),
        parse_login(items[i]) is None,
    ensures
        parse_login_items(items) is None,
    decreases items.len(),
{
    if i < items.len() - 1 {
        lemma_login_items_fail(items.drop_last(), i);
    }
}

proof fn lemma_name_items_fail(items: Seq<JsonValue>, i: int)
    requires
        0 <= i < items.len(),
        parse_name(items[i]) is None,
    ensures
        parse_name_items(items) is None,
    decreases items.len(),
{
    if i < items.len() - 1 {
        lemma_name_items_fail(items.drop_last(), i);
    }
}

proof fn lemma_pull_request_items_fail(items: Seq<JsonValue>, i: int)
    requires
        0 <= i < items.len(),
        parse_pull_request(items[i]) is None,
    ensures
        parse_pull_request_items(items) is None,
    decreases items.len(),
{
    if i < items.len() - 1 {
        lemma_pull_request_items_fail(items.drop_last(), i);
    }
}

/// Decodes a user array into assignees.
pub fn decode_assignees(items: &Vec<JsonValue>) -> (r: Option<Vec<Assignees>>)
    ensures
        (match r {
            Some(out) => parse_login_items(items@) == Some(views_of(out@)),
            None => parse_login_items(items@) is None,
        }),
{
    let mut out: Vec<Assignees> = Vec::new();
    let mut i: usize = 0;
    while i < items.len()
        invariant
            i <= items@.len(),
            parse_login_items(items@.take(i as int)) == Some(views_of(out@)),
        decreases items@.len() - i,
    {
        let login = match items[i].get("login") {
            Some(x) => match x.as_str() {
                Some(s) => s.clone(),
                None => {
                    proof {
                        lemma_login_items_fail(items@, i as int);
                    }
                    return None;
                },
            },
            None => {
                proof {
                    lemma_login_items_fail(items@, i as int);
                }
                return None;
            },
        };
        proof {
            assert(items@.take(i as int + 1).drop_last() =~= items@.take(i as int));
            assert(items@.take(i as int + 1).last() == items@[i as int]);
            assert(views_of(out@.push(Assignees { login })) =~= views_of(out@).push(login@));
        }
        out.push(Assignees { login });
        i = i + 1;
    }
    proof {
        assert(items@.take(items@.len() as int) =~= items@);
    }
    Some(out)
}

/// Decodes a user array into the requested-user entries.
pub fn decode_reviewers(items: &Vec<JsonValue>) -> (r: Option<Vec<Reviewers>>)
    ensures
        (match r {
            Some(out) => parse_login_items(items@) == Some(views_of(out@)),
            None => parse_login_items(items@) is None,
        }),
{
    let mut out: Vec<Reviewers> = Vec::new();
    let mut i: usize = 0;
    while i < items.len()
        invariant
            i <= items@.len(),
            parse_login_items(items@.take(i as int)) == Some(views_of(out@)),
        decreases items@.len() - i,
    {
        let login = match items[i].get("login") {
            Some(x) => match x.as_str() {
                Some(s) => s.clone(),
                None => {
                    proof {
                        lemma_login_items_fail(items@, i as int);
                    }
                    return None;
                },
            },
            None => {
                proof {
                    lemma_login_items_fail(items@, i as int);
                }
                return None;
            },
        };
        proof {
            assert(items@.take(i as int + 1).drop_last() =~= items@.take(i as int));
            assert(items@.take(i as int + 1).last() == items@[i as int]);
            assert(views_of(out@.push(Reviewers { login })) =~= views_of(out@).push(login@));
        }
        out.push(Reviewers { login });
        i = i + 1;
    }
    proof {
        assert(items@.take(items@.len() as int) =~= items@);
    }
    Some(out)
}

/// Decodes a label array.
pub fn decode_labels(items: &Vec<JsonValue>) -> (r: Option<Vec<Label>>)
    ensures
        (match r {
            Some(out) => parse_name_items(items@) == Some(views_of(out@)),
            None => parse_name_items(items@) is None,
        }),
{
    let mut out: Vec<Label> = Vec::new();
    let mut i: usize = 0;
    while i < items.len()
        invariant
            i <= items@.len(),
            parse_name_items(items@.take(i as int)) == Some(views_of(out@)),
        decreases items@.len() - i,
    {
        let name = match items[i].get("name") {
            Some(x) => match x.as_str() {
                Some(s) => s.clone(),
                None => {
                    proof {
                        lemma_name_items_fail(items@, i as int);
                    }
                    return None;
                },
            },
            None => {
                proof {
                    lemma_name_items_fail(items@, i as int);
                }
                return None;
            },
        };
        proof {
            assert(items@.take(i as int + 1).drop_last() =~= items@.take(i as int));
            assert(items@.take(i as int + 1).last() == items@[i as int]);
            assert(views_of(out@.push(Label { name })) =~= views_of(out@).push(name@));
        }
        out.push(Label { name });
        i = i + 1;
    }
    proof {
        assert(items@.take(items@.len() as int) =~= items@);
    }
    Some(out)
}

/// Decodes the state string of the feed.
pub fn decode_state(v: &JsonValue) -> (r: Option<State>)
    ensures
        r == parse_state(*v),
{
    let s = match v {
        JsonValue::Str(s) => s,
        _ => {
            return None;
        },
    };
    let open_text: String = "open".to_owned();
    if *s == open_text {
        return Some(State::open);
    }
    let closed_text: String = "closed".to_owned();
    if *s == closed_text {
        return Some(State::closed);
    }
    let merged_text: String = "merged".to_owned();
    if *s == merged_text {
        return Some(State::merged);
    }
    let any_text: String = "any".to_owned();
    if *s == any_text {
        return Some(State::any);
    }
    None
}

/// Decodes one page element into a pull request, the merge-timestamp
/// override already applied.
pub fn decode_pull_request(v: &JsonValue) -> (r: Option<PullRequest>)
    ensures
        (match r {
            Some(pr) => parse_pull_request(*v) == Some(pr@),
            None => parse_pull_request(*v) is None,
        }),
{
    let number_raw = match v.get("number") {
        Some(x) => match x.as_u64() {
            Some(n) => n,
            None => {
                return None;
            },
        },
        None => {
            return None;
        },
    };
    if number_raw > u32::MAX as u64 {
        return None;
    }
    let number = number_raw as u32;
    let assignees = match v.get("assignees") {
        Some(x) => match x.as_array() {
            Some(items) => match decode_assignees(items) {
                Some(a) => a,
                None => {
                    return None;
                },
            },
            None => {
                return None;
            },
        },
        None => {
            return None;
        },
    };
    let labels = match v.get("labels") {
        Some(x) => match x.as_array() {
            Some(items) => match decode_labels(items) {
                Some(l) => l,
                None => {
                    return None;
                },
            },
            None => {
                return None;
            },
        },
        None => {
            return None;
        },
    };
    let requested_reviewers = match v.get("requested_reviewers") {
        Some(x) => match x.as_array() {
            Some(items) => match decode_reviewers(items) {
                Some(rv) => rv,
                None => {
                    return None;
                },
            },
            None => {
                return None;
            },
        },
        None => {
            return None;
        },
    };
    let state = match v.get("state") {
        Some(x) => match decode_state(x) {
            Some(st) => st,
            None => {
                return None;
            },
        },
        None => {
            return None;
        },
    };
    let merged_at: Option<String> = match v.get("merged_at") {
        None => None,
        Some(x) => match x {
            JsonValue::Null => None,
            JsonValue::Str(s) => Some(s.clone()),
            _ => {
                return None;
            },
        },
    };
    let pr = PullRequest { number, assignees, labels, requested_reviewers, state, merged_at };
    Some(pr.is_merged())
}

/// The step a cursor-paged response's page info carries: resume after the
/// end cursor while a further page is reported, stop when none is.
pub open spec fn parse_page_info(v: JsonValue) -> Option<PageStep> {
    match json_get(v, "hasNextPage"@) {
        Some(JsonValue::Bool(more)) => if more {
            match json_get(v, "endCursor"@) {
                Some(JsonValue::Str(c)) => Some(PageStep::Next(NextCursor::Mark(c))),
                _ => None,
            }
        } else {
            Some(PageStep::Terminal)
        },
        _ => None,
    }
}

/// The body of a well-shaped cursor-paged response: the pull requests
/// under `data.search.nodes` and the step its page info carries.
pub open spec fn parse_search_data(raw: JsonValue) -> Result<
    PageModel<PullRequestModel>,
    FailureKind,
> {
    match json_get(raw, "data"@) {
        Some(data) => match json_get(data, "search"@) {
            Some(found) => match (json_get(found, "nodes"@), json_get(found, "pageInfo"@)) {
                (Some(JsonValue::Array(nodes)), Some(info)) => match (
                    parse_pull_request_items(nodes@),
                    parse_page_info(info),
                ) {
                    (Some(records), Some(step)) => Ok(PageModel { records, step }),
                    _ => Err(FailureKind::Decode),
                },
                _ => Err(FailureKind::Decode),
            },
            None => Err(FailureKind::Decode),
        },
        None => Err(FailureKind::Decode),
    }
}

/// One cursor-paged response: a non-empty error array is an upstream
/// failure of the source itself; otherwise the body must be well shaped.
pub open spec fn parse_search_page(raw: JsonValue) -> Result<
    PageModel<PullRequestModel>,
    FailureKind,
> {
    match json_get(raw, "errors"@) {
        Some(e) => match e {
            JsonValue::Array(errs) => if errs.len() > 0 {
                Err(FailureKind::Upstream)
            } else {
                parse_search_data(raw)
            },
            _ => Err(FailureKind::Decode),
        },
        None => parse_search_data(raw),
    }
}

/// Decodes the page info of a cursor-paged response.
pub fn decode_page_info(v: &JsonValue) -> (r: Option<PageStep>)
    ensures
        r == parse_page_info(*v),
{
    let more = match v.get("hasNextPage") {
        Some(x) => match x {
            JsonValue::Bool(b) => *b,
            _ => {
                return None;
            },
        },
        None => {
            return None;
        },
    };
    if more {
        match v.get("endCursor") {
            Some(x) => match x.as_str() {
                Some(c) => Some(PageStep::Next(NextCursor::Mark(c.clone()))),
                None => None,
            },
            None => None,
        }
    } else {
        Some(PageStep::Terminal)
    }
}

fn decode_pull_request_list(items: &Vec<JsonValue>) -> (r: Option<Vec<PullRequest>>)
    ensures
        (match r {
            Some(out) => parse_pull_request_items(items@) == Some(views_of(out@)),
            None => parse_pull_request_items(items@) is None,
        }),
{
    let mut out: Vec<PullRequest> = Vec::new();
    let mut i: usize = 0;
    while i < items.len()
        invariant
            i <= items@.len(),
            parse_pull_request_items(items@.take(i as int)) == Some(views_of(out@)),
        decreases items@.len() - i,
    {
        let pr = match decode_pull_request(&items[i]) {
            Some(pr) => pr,
            None => {
                proof {
                    lemma_pull_request_items_fail(items@, i as int);
                }
                return None;
            },
        };
        proof {
            assert(items@.take(i as int + 1).drop_last() =~= items@.take(i as int));
            assert(items@.take(i as int + 1).last() == items@[i as int]);
            assert(views_of(out@.push(pr)) =~= views_of(out@).push(pr@));
        }
        out.push(pr);
        i = i + 1;
    }
    proof {
        assert(items@.take(items@.len() as int) =~= items@);
    }
    Some(out)
}

/// The review adapter over numbered REST pages.
#[derive(Clone, Copy, Debug)]
pub struct RestReviewAdapter {
}

impl PageSource for RestReviewAdapter {
    type Record = PullRequest;

    open spec fn source_spec(&self) -> SourceName {
        SourceName::Reviews
    }

    open spec fn style_spec(&self) -> PagingStyle {
        PagingStyle::Numbered
    }

    /// A page must be an array. An empty page is the terminal page; any
    /// other page yields its pull requests and asks for the next page
    /// number. A non-array page or a malformed element is a decode failure.
    open spec fn decode_spec(&self, raw: JsonValue) -> Result<
        PageModel<PullRequestModel>,
        FailureKind,
    > {
        match raw {
            JsonValue::Array(items) => {
                if items@.len() == 0 {
                    Ok(PageModel { records: Seq::empty(), step: PageStep::Terminal })
                } else {
                    match parse_pull_request_items(items@) {
                        Some(records) => Ok(
                            PageModel { records, step: PageStep::Next(NextCursor::Increment) },
                        ),
                        None => Err(FailureKind::Decode),
                    }
                }
            },
            _ => Err(FailureKind::Decode),
        }
    }

    proof fn lemma_step_style(&self, raw: JsonValue) {
    }

    fn source(&self) -> SourceName {
        SourceName::Reviews
    }

    fn style(&self) -> PagingStyle {
        PagingStyle::Numbered
    }

    fn decode_page(&self, raw: &JsonValue) -> (r: Result<DecodedPage<PullRequest>, FailureKind>) {
        let items = match raw.as_array() {
            Some(a) => a,
            None => {
                return Err(FailureKind::Decode);
            },
        };
        if items.len() == 0 {
            return Ok(DecodedPage { records: Vec::new(), step: PageStep::Terminal });
        }
        match decode_pull_request_list(items) {
            Some(records) => Ok(
                DecodedPage { records, step: PageStep::Next(NextCursor::Increment) },
            ),
            None => Err(FailureKind::Decode),
        }
    }
}

/// The review adapter over the cursor-paged search query.
#[derive(Clone, Copy, Debug)]
pub struct CursorReviewAdapter {
}

impl PageSource for CursorReviewAdapter {
    type Record = PullRequest;

    open spec fn source_spec(&self) -> SourceName {
        SourceName::Reviews
    }

    open spec fn style_spec(&self) -> PagingStyle {
        PagingStyle::Cursor
    }

    open spec fn decode_spec(&self, raw: JsonValue) -> Result<
        PageModel<PullRequestModel>,
        FailureKind,
    > {
        parse_search_page(raw)
    }

    proof fn lemma_step_style(&self, raw: JsonValue) {
    }

    fn source(&self) -> SourceName {
        SourceName::Reviews
    }

    fn style(&self) -> PagingStyle {
        PagingStyle::Cursor
    }

    fn decode_page(&self, raw: &JsonValue) -> (r: Result<DecodedPage<PullRequest>, FailureKind>) {
        match raw.get("errors") {
            Some(e) => match e.as_array() {
                Some(errs) => {
                    if errs.len() > 0 {
                        return Err(FailureKind::Upstream);
                    }
                },
                None => {
                    return Err(FailureKind::Decode);
                },
            },
            None => {},
        }
        let data = match raw.get("data") {
            Some(d) => d,
            None => {
                return Err(FailureKind::Decode);
            },
        };
        let found = match data.get("search") {
            Some(s) => s,
            None => {
                return Err(FailureKind::Decode);
            },
        };
        let nodes = match found.get("nodes") {
            Some(x) => match x.as_array() {
                Some(n) => n,
                None => {
                    return Err(FailureKind::Decode);
                },
            },
            None => {
                return Err(FailureKind::Decode);
            },
        };
        let info = match found.get("pageInfo") {
            Some(x) => x,
            None => {
                return Err(FailureKind::Decode);
            },
        };
        let step = match decode_page_info(info) {
            Some(st) => st,
            None => {
                return Err(FailureKind::Decode);
            },
        };
        match decode_pull_request_list(nodes) {
            Some(records) => Ok(DecodedPage { records, step }),
            None => Err(FailureKind::Decode),
        }
    }
}

/// Gathers the full pull-request record set of one refresh cycle from the
/// delivered REST pages: every pull request in page order, the
/// merge-timestamp override applied, or the failure that ended the run,
/// stamped with the review source and the failing page.
pub fn collect_pull_requests(responses: &Vec<JsonValue>) -> (r: Result<
    Vec<PullRequest>,
    FetchFailure,
>)
    requires
        responses@.len() + 1 < u64::MAX,
    ensures
        ({
            let m = run_model(RestReviewAdapter {  }, responses@);
            match r {
                Ok(v) => m.failure is None && views_of(v@) == m.records,
                Err(f) => {
                    &&& m.failure matches Some(k) && f.kind == k
                    &&& f.source == SourceName::Reviews
                    &&& f.page_index == (if m.pages == 0 {
                        0nat
                    } else {
                        (m.pages - 1) as nat
                    })
                },
            }
        }),
{
    let out = paginate(RestReviewAdapter {  }, responses);
    match out.failure {
        None => Ok(out.records),
        Some(k) => {
            let page_index = if out.pages_fetched == 0 {
                0
            } else {
                out.pages_fetched - 1
            };
            Err(FetchFailure::at(SourceName::Reviews, k, page_index))
        },
    }
}

} // verus!
