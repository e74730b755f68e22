//! The pagination engine.
//!
//! A paged resource is fetched page by page under one of three styles:
//! numbered pages, opaque offset tokens, or query cursors. A
//! [`PageSource`] decodes one raw page into records and the step that
//! follows it — advance with a fresh cursor, or stop because the page is
//! terminal. A [`PageSession`] holds one fetch in flight: the transport
//! outside this crate asks it for the current cursor, fetches, and feeds
//! the raw page back in. [`paginate`] drives a whole session over an
//! already-delivered sequence of pages and is pinned to [`run_model`],
//! the mathematical account of a full pagination run.

use vstd::prelude::*;

use crate::failure::{FailureKind, FetchFailure, SourceName};
use crate::json::JsonValue;
use crate::records::views_of;

verus! {

/// The three paging styles of the sources.
#[derive(Clone, Copy, Debug, PartialEq, Eq, Structural)]
pub enum PagingStyle {
    /// Pages are numbered from one; the feed ends on an empty page.
    Numbered,
    /// Each page carries the opaque offset of the next; the feed ends when
    /// a page carries none.
    OffsetToken,
    /// Each page carries a query cursor; the feed ends when the page
    /// reports no further page.
    Cursor,
}

/// The position marker a page request carries, one variant per style.
#[derive(Clone, Debug)]
pub enum Cursor {
    /// The one-based number of the page to fetch.
    PageNumber(u64),
    /// The offset token of the page to fetch; `None` asks for the first page.
    Offset(Option<String>),
    /// The cursor to resume after; `None` asks for the first page.
    After(Option<String>),
}

/// How a non-terminal page tells the paginator to move on.
#[derive(Clone, Debug)]
pub enum NextCursor {
    /// Ask for the next page number.
    Increment,
    /// Resume at this offset token.
    Token(String),
    /// Resume after this query cursor.
    Mark(String),
}

/// What follows a decoded page: a move to the next page, or the end of the
/// feed. The terminal page's own records are part of the result; only the
/// would-be-next fetch is suppressed.
#[derive(Clone, Debug)]
pub enum PageStep {
    Next(NextCursor),
    Terminal,
}

/// One decoded page: its records in arrival order and the step after it.
pub struct DecodedPage<R> {
    pub records: Vec<R>,
    pub step: PageStep,
}

impl Cursor {
    /// The style this cursor belongs to.
    pub open spec fn style(&self) -> PagingStyle {
        match *self {
            Cursor::PageNumber(_) => PagingStyle::Numbered,
            Cursor::Offset(_) => PagingStyle::OffsetToken,
            Cursor::After(_) => PagingStyle::Cursor,
        }
    }

    /// The cursor a fetch starts from: page one, no offset, no resume mark.
    pub open spec fn initial_spec(style: PagingStyle) -> Cursor {
        match style {
            PagingStyle::Numbered => Cursor::PageNumber(1),
            PagingStyle::OffsetToken => Cursor::Offset(None),
            PagingStyle::Cursor => Cursor::After(None),
        }
    }

    /// Builds the initial cursor of a style.
    pub fn initial(style: PagingStyle) -> (r: Cursor)
        ensures
            r == Cursor::initial_spec(style),
    {
        match style {
            PagingStyle::Numbered => Cursor::PageNumber(1),
            PagingStyle::OffsetToken => Cursor::Offset(None),
            PagingStyle::Cursor => Cursor::After(None),
        }
    }

    /// The query parameter the cursor turns into: `page` with the page
    /// number, `offset` with the token, `after` with the resume mark, and
    /// no parameter at all on the first page of the token and cursor styles.
    pub fn query_param(&self) -> (r: Option<(&'static str, ParamValue)>)
        ensures
            match *self {
                Cursor::PageNumber(n) => r matches Some(p) && p.0@ == "page"@ && p.1
                    == ParamValue::Number(n),
                Cursor::Offset(o) => match o {
                    Some(t) => r matches Some(p) && p.0@ == "offset"@ && p.1 == ParamValue::Text(t),
                    None => r is None,
                },
                Cursor::After(a) => match a {
                    Some(m) => r matches Some(p) && p.0@ == "after"@ && p.1 == ParamValue::Text(m),
                    None => r is None,
                },
            },
    {
        match self {
            Cursor::PageNumber(n) => Some(("page", ParamValue::Number(*n))),
            Cursor::Offset(Some(t)) => Some(("offset", ParamValue::Text(t.clone()))),
            Cursor::Offset(None) => None,
            Cursor::After(Some(m)) => Some(("after", ParamValue::Text(m.clone()))),
            Cursor::After(None) => None,
        }
    }
}

/// The value half of a query parameter.
#[derive(Clone, Debug)]
pub enum ParamValue {
    Number(u64),
    Text(String),
}

impl NextCursor {
    /// The style this step belongs to.
    pub open spec fn style(&self) -> PagingStyle {
        match *self {
            NextCursor::Increment => PagingStyle::Numbered,
            NextCursor::Token(_) => PagingStyle::OffsetToken,
            NextCursor::Mark(_) => PagingStyle::Cursor,
        }
    }
}

/// The cursor after taking a step: the page number grows by one, a token
/// or mark replaces the cursor wholesale.
pub open spec fn advanced(c: Cursor, n: NextCursor) -> Cursor {
    match n {
        NextCursor::Increment => match c {
            Cursor::PageNumber(k) => Cursor::PageNumber((k + 1) as u64),
            _ => c,
        },
        NextCursor::Token(t) => Cursor::Offset(Some(t)),
        NextCursor::Mark(m) => Cursor::After(Some(m)),
    }
}

/// The request state of one paged fetch: the cursor of the next page and
/// how many pages were already consumed.
#[derive(Clone, Debug)]
pub struct PagedRequest {
    pub cursor: Cursor,
    pub page_index: u64,
}

impl PagedRequest {
    /// A fresh request at the style's initial cursor.
    pub fn new(style: PagingStyle) -> (r: PagedRequest)
        ensures
            r.cursor == Cursor::initial_spec(style),
            r.page_index == 0,
    {
        PagedRequest { cursor: Cursor::initial(style), page_index: 0 }
    }

    /// Takes one step: the cursor is replaced wholesale and the page count
    /// grows by one.
    pub fn advance(&mut self, next: NextCursor)
        requires
            old(self).cursor.style() == next.style(),
            old(self).page_index < u64::MAX,
            (old(self).cursor matches Cursor::PageNumber(k) ==> k < u64::MAX),
        ensures
            final(self).cursor == advanced(old(self).cursor, next),
            final(self).page_index == old(self).page_index + 1,
    {
        match next {
            NextCursor::Increment => {
                if let Cursor::PageNumber(k) = &self.cursor {
                    self.cursor = Cursor::PageNumber(*k + 1);
                } else {
                    proof {
                        assert(false);
                    }
                }
            },
            NextCursor::Token(t) => {
                self.cursor = Cursor::Offset(Some(t));
            },
            NextCursor::Mark(m) => {
                self.cursor = Cursor::After(Some(m));
            },
        }
        self.page_index = self.page_index + 1;
    }
}

/// What one raw page means: the views of its records and the step after it.
pub struct PageModel<R> {
    pub records: Seq<R>,
    pub step: PageStep,
}


/// A source of paged records. The decoding of one raw page — which fields
/// are read, what counts as malformed, where the next-page marker sits and
/// when the feed is over — is fixed by `decode_spec`, and `decode_page` is
/// held to it.
pub trait PageSource: Sized {
    type Record: View;

    /// The source this adapter fetches from.
    spec fn source_spec(&self) -> SourceName;

    /// The paging style of the markers this adapter emits.
    spec fn style_spec(&self) -> PagingStyle;

    /// What one raw page decodes to, or the failure its shape signals.
    spec fn decode_spec(&self, raw: JsonValue) -> Result<
        PageModel<<Self::Record as View>::V>,
        FailureKind,
    >;

    /// Every next-page marker the adapter emits matches its paging style.
    proof fn lemma_step_style(&self, raw: JsonValue)
        ensures
            (match self.decode_spec(raw) {
                Ok(m) => m.step matches PageStep::Next(n) ==> n.style() == self.style_spec(),
                Err(_) => true,
            }),
    ;

    fn source(&self) -> (s: SourceName)
        ensures
            s == self.source_spec(),
    ;

    fn style(&self) -> (st: PagingStyle)
        ensures
            st == self.style_spec(),
    ;

    fn decode_page(&self, raw: &JsonValue) -> (r: Result<DecodedPage<Self::Record>, FailureKind>)
        ensures
            (match r {
                Ok(p) => self.decode_spec(*raw) matches Ok(m) && views_of(p.records@) == m.records
                    && p.step == m.step,
                Err(k) => self.decode_spec(*raw) matches Err(mk) && k == mk,
            }),
    ;
}

/// Where a session stands: still expecting pages, finished at a terminal
/// page, or stopped by a failure.
#[derive(Clone, Copy, Debug, PartialEq, Eq, Structural)]
pub enum SessionStatus {
    InProgress,
    Done,
    Failed(FailureKind),
}

/// One paged fetch in flight: the adapter, the request state, and the
/// records of the pages consumed so far, in page order.
pub struct PageSession<A: PageSource> {
    pub adapter: A,
    pub request: PagedRequest,
    pub records: Vec<A::Record>,
    pub status: SessionStatus,
}

impl<A: PageSource> PageSession<A> {
    /// The session's request state agrees with its adapter's style, and a
    /// numbered cursor always names the page after the ones consumed.
    pub open spec fn wf(&self) -> bool {
        &&& self.request.cursor.style() == self.adapter.style_spec()
        &&& (self.request.cursor matches Cursor::PageNumber(k) ==> k == self.request.page_index
            + 1)
    }

    /// Opens a session at the adapter's initial cursor.
    pub fn new(adapter: A) -> (s: PageSession<A>)
        ensures
            s.wf(),
            s.adapter == adapter,
            s.request.cursor == Cursor::initial_spec(adapter.style_spec()),
            s.request.page_index == 0,
            s.records@ == Seq::<A::Record>::empty(),
            s.status is InProgress,
    {
        let style = adapter.style();
        PageSession {
            adapter,
            request: PagedRequest::new(style),
            records: Vec::new(),
            status: SessionStatus::InProgress,
        }
    }

    /// The cursor the next fetch must use.
    pub fn current_cursor(&self) -> (c: &Cursor)
        ensures
            *c == self.request.cursor,
    {
        &self.request.cursor
    }

    /// Consumes one raw page: on a decode failure the session stops and
    /// keeps the records gathered so far; on a terminal page it finishes
    /// with that page's records appended; otherwise it appends the records
    /// and replaces the cursor wholesale with the page's marker. Returns
    /// whether the session is over.
    pub fn feed(&mut self, raw: &JsonValue) -> (done: bool)
        requires
            old(self).wf(),
            old(self).status is InProgress,
            old(self).request.page_index + 1 < u64::MAX,
        ensures
            final(self).wf(),
            final(self).adapter == old(self).adapter,
            done == !(final(self).status is InProgress),
            (match old(self).adapter.decode_spec(*raw) {
                Err(k) => {
                    &&& final(self).status == SessionStatus::Failed(k)
                    &&& final(self).records@ == old(self).records@
                    &&& final(self).request == old(self).request
                },
                Ok(m) => {
                    &&& views_of(final(self).records@) == views_of(old(self).records@) + m.records
                    &&& match m.step {
                        PageStep::Terminal => final(self).status is Done && final(self).request
                            == old(self).request,
                        PageStep::Next(n) => {
                            &&& final(self).status is InProgress
                            &&& final(self).request.cursor == advanced(old(self).request.cursor, n)
                            &&& final(self).request.page_index == old(self).request.page_index + 1
                        },
                    }
                },
            }),
    {
        let r = self.adapter.decode_page(raw);
        match r {
            Err(k) => {
                self.status = SessionStatus::Failed(k);
                true
            },
            Ok(mut page) => {
                proof {
                    assert(views_of(self.records@ + page.records@) =~= views_of(self.records@)
                        + views_of(page.records@));
                }
                self.records.append(&mut page.records);
                match page.step {
                    PageStep::Terminal => {
                        self.status = SessionStatus::Done;
                        true
                    },
                    PageStep::Next(n) => {
                        proof {
                            self.adapter.lemma_step_style(*raw);
                        }
                        self.request.advance(n);
                        false
                    },
                }
            },
        }
    }

    /// Closes a finished session: the full record set on success, or the
    /// failure stamped with the source and the index of the failing page.
    pub fn finish(self, source: SourceName) -> (r: Result<Vec<A::Record>, FetchFailure>)
        requires
            !(self.status is InProgress),
        ensures
            (match self.status {
                SessionStatus::Done => r matches Ok(v) && v@ == self.records@,
                SessionStatus::Failed(k) => r matches Err(f) && f.kind == k && f.source == source
                    && f.page_index == self.request.page_index,
                SessionStatus::InProgress => false,
            }),
    {
        match self.status {
            SessionStatus::Done => Ok(self.records),
            SessionStatus::Failed(k) => Err(
                FetchFailure::at(source, k, self.request.page_index),
            ),
            SessionStatus::InProgress => {
                proof {
                    assert(false);
                }
                Err(FetchFailure::at(source, FailureKind::Transport, 0))
            },
        }
    }
}

/// The outcome of a full pagination run: the records of the consumed pages
/// in page order, how many pages were consumed, and the failure that ended
/// the run, if any did.
pub struct RunOutcome<R> {
    pub records: Vec<R>,
    pub pages_fetched: u64,
    pub failure: Option<FailureKind>,
}

/// The mathematical account of a pagination run over a delivered page
/// sequence: pages are consumed in order; a malformed page ends the run
/// with its failure and the records of the pages before it; a terminal
/// page ends the run cleanly with its own records included; a sequence
/// that runs out before a terminal page stands for a transport failure.
pub open spec fn run_model<A: PageSource>(a: A, responses: Seq<JsonValue>) -> RunModel<
    <A::Record as View>::V,
>
    decreases responses.len(),
{
    if responses.len() == 0 {
        RunModel { records: Seq::empty(), pages: 0nat, failure: Some(FailureKind::Transport) }
    } else {
        match a.decode_spec(responses[0]) {
            Err(k) => RunModel { records: Seq::empty(), pages: 1nat, failure: Some(k) },
            Ok(m) => match m.step {
                PageStep::Terminal => RunModel { records: m.records, pages: 1nat, failure: None },
                PageStep::Next(_) => {
                    let rest = run_model(a, responses.drop_first());
                    RunModel {
                        records: m.records + rest.records,
                        pages: rest.pages + 1,
                        failure: rest.failure,
                    }
                },
            },
        }
    }
}

/// The spec-level counterpart of [`RunOutcome`].
pub struct RunModel<R> {
    pub records: Seq<R>,
    pub pages: nat,
    pub failure: Option<FailureKind>,
}

/// The record views one raw page decodes to; none when the page is malformed.
pub open spec fn page_records<A: PageSource>(a: A, raw: JsonValue) -> Seq<<A::Record as View>::V> {
    match a.decode_spec(raw) {
        Ok(m) => m.records,
        Err(_) => Seq::empty(),
    }
}

/// The record views of a page sequence, page by page, in page order.
pub open spec fn concat_records<A: PageSource>(a: A, responses: Seq<JsonValue>) -> Seq<
    <A::Record as View>::V,
>
    decreases responses.len(),
{
    if responses.len() == 0 {
        Seq::empty()
    } else {
        page_records(a, responses[0]) + concat_records(a, responses.drop_first())
    }
}

/// A run consumes each delivered page at most once: it can never take
/// more pages than the feed handed over.
pub proof fn lemma_run_consumes_each_page_once<A: PageSource>(a: A, responses: Seq<JsonValue>)
    ensures
        run_model(a, responses).pages <= responses.len(),
    decreases responses.len(),
{
    if responses.len() > 0 {
        lemma_run_consumes_each_page_once(a, responses.drop_first());
    }
}

/// The paginator's termination law: when every page before position `t`
/// asks for a further page and the page at `t` is terminal, a run consumes
/// exactly the pages up to and including `t` — never one beyond — and
/// yields their records in page order, with no failure.
pub proof fn lemma_run_stops_at_terminal<A: PageSource>(a: A, responses: Seq<JsonValue>, t: int)
    requires
        0 <= t < responses.len(),
        forall|j: int|
            0 <= j < t ==> ((#[trigger] a.decode_spec(responses[j])) matches Ok(m) && m.step
                is Next),
        a.decode_spec(responses[t]) matches Ok(m) && m.step is Terminal,
    ensures
        run_model(a, responses).pages == t + 1,
        run_model(a, responses).failure is None,
        run_model(a, responses).records == concat_records(a, responses.take(t + 1)),
    decreases t,
{
    if t == 0 {
        assert(responses.take(1)[0] == responses[0]);
        assert(responses.take(1).drop_first() =~= Seq::<JsonValue>::empty());
        assert(concat_records(a, Seq::<JsonValue>::empty()) =~= Seq::<
            <A::Record as View>::V,
        >::empty());
        assert(concat_records(a, responses.take(1)) =~= page_records(a, responses[0]));
        assert(run_model(a, responses).records =~= concat_records(a, responses.take(1)));
    } else {
        let rest = responses.drop_first();
        assert forall|j: int|
            0 <= j < t - 1 implies ((#[trigger] a.decode_spec(rest[j])) matches Ok(m) && m.step
            is Next) by {
            assert(rest[j] == responses[j + 1]);
            assert(a.decode_spec(responses[j + 1]) matches Ok(m) && m.step is Next);
        }
        assert(rest[t - 1] == responses[t]);
        lemma_run_stops_at_terminal(a, rest, t - 1);
        assert(responses.take(t + 1)[0] == responses[0]);
        assert(responses.take(t + 1).drop_first() =~= rest.take(t));
        assert(run_model(a, responses).records =~= concat_records(a, responses.take(t + 1)));
    }
}

/// Consumes a delivered page sequence as the fetch loop would: one page at
/// a time, in order, stopping at the first terminal or malformed page and
/// never touching a page beyond it.
pub fn paginate<A: PageSource>(adapter: A, responses: &Vec<JsonValue>) -> (out: RunOutcome<
    A::Record,
>)
    requires
        responses@.len() + 1 < u64::MAX,
    ensures
        ({
            let m = run_model(adapter, responses@);
            &&& views_of(out.records@) == m.records
            &&& out.pages_fetched == m.pages
            &&& out.failure == m.failure
        }),
{
    let mut session = PageSession::new(adapter);
    let mut i: usize = 0;
    let mut done = false;
    proof {
        assert(responses@.skip(0) =~= responses@);
        assert(views_of(Seq::<A::Record>::empty()) =~= Seq::<<A::Record as View>::V>::empty());
        assert(Seq::<<A::Record as View>::V>::empty() + run_model(adapter, responses@).records
            =~= run_model(adapter, responses@).records);
    }
    while !done && i < responses.len()
        invariant
            responses@.len() + 1 < u64::MAX,
            i <= responses@.len(),
            session.wf(),
            session.adapter == adapter,
            done == !(session.status is InProgress),
            (match session.status {
                SessionStatus::InProgress => {
                    let rest = run_model(adapter, responses@.skip(i as int));
                    let whole = run_model(adapter, responses@);
                    &&& session.request.page_index == i
                    &&& whole.records == views_of(session.records@) + rest.records
                    &&& whole.pages == i + rest.pages
                    &&& whole.failure == rest.failure
                },
                SessionStatus::Done => {
                    let whole = run_model(adapter, responses@);
                    &&& whole.records == views_of(session.records@)
                    &&& whole.pages == i
                    &&& whole.failure is None
                },
                SessionStatus::Failed(k) => {
                    let whole = run_model(adapter, responses@);
                    &&& session.request.page_index + 1 == i
                    &&& whole.records == views_of(session.records@)
                    &&& whole.pages == i
                    &&& whole.failure == Some(k)
                },
            }),
        decreases responses@.len() - i,
    {
        proof {
            assert(responses@.skip(i as int).len() > 0);
            assert(responses@.skip(i as int)[0] == responses@[i as int]);
            assert(responses@.skip(i as int).drop_first() =~= responses@.skip(i as int + 1));
        }
        let d = session.feed(&responses[i]);
        done = d;
        i = i + 1;
    }
    match session.status {
        SessionStatus::InProgress => {
            proof {
                assert(responses@.skip(i as int) =~= Seq::<JsonValue>::empty());
            }
            RunOutcome {
                records: session.records,
                pages_fetched: i as u64,
                failure: Some(FailureKind::Transport),
            }
        },
        SessionStatus::Done => RunOutcome {
            records: session.records,
            pages_fetched: i as u64,
            failure: None,
        },
        SessionStatus::Failed(k) => RunOutcome {
            records: session.records,
            pages_fetched: i as u64,
            failure: Some(k),
        },
    }
}

} // verus!
