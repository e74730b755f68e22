//! The bank-transfer source: numbered pages of grant transfers.
//!
//! A page is a bare JSON array; the feed ends on an empty page. Each
//! element decodes into a [`Transfer`] with its transaction and
//! organization expanded, and a transfer whose amount lies above the
//! configured ceiling is discarded during decode, so it reaches neither
//! the count nor the average.

use vstd::prelude::*;

use crate::failure::{FailureKind, FetchFailure, SourceName};
use crate::json::{json_get, JsonValue};
use crate::paging::{
    paginate, run_model, DecodedPage, NextCursor, PageModel, PageSource, PageStep, PagingStyle,
};
use crate::records::{
    views_of, Organization, OrganizationModel, Transaction, TransactionModel, Transfer,
    TransferModel,
};

verus! {

/// What a JSON object means as a [`Transaction`]; nothing when a field is
/// missing or of the wrong shape. The feed writes the transaction type
/// under the key `type`.
pub open spec fn parse_transaction(v: JsonValue) -> Option<TransactionModel> {
    match (json_get(v, "id"@), json_get(v, "object"@), json_get(v, "href"@)) {
        (
            Some(JsonValue::Str(id)),
            Some(JsonValue::Str(object)),
            Some(JsonValue::Str(href)),
        ) => match (json_get(v, "amount_cents"@), json_get(v, "memo"@), json_get(v, "date"@)) {
            (
                Some(JsonValue::UInt(amount_cents)),
                Some(JsonValue::Str(memo)),
                Some(JsonValue::Str(date)),
            ) => match (json_get(v, "type"@), json_get(v, "pending"@)) {
                (Some(JsonValue::Str(type_)), Some(JsonValue::Bool(pending))) => Some(
                    TransactionModel {
                        id: id@,
                        object: object@,
                        href: href@,
                        amount_cents,
                        memo: memo@,
                        date: date@,
                        type_: type_@,
                        pending,
                    },
                ),
                _ => None,
            },
            _ => None,
        },
        _ => None,
    }
}

/// What a JSON object means as an [`Organization`].
pub open spec fn parse_organization(v: JsonValue) -> Option<OrganizationModel> {
    match (json_get(v, "id"@), json_get(v, "object"@), json_get(v, "href"@)) {
        (
            Some(JsonValue::Str(id)),
            Some(JsonValue::Str(object)),
            Some(JsonValue::Str(href)),
        ) => Some(OrganizationModel { id: id@, object: object@, href: href@ }),
        _ => None,
    }
}

/// What a JSON object means as a [`Transfer`].
pub open spec fn parse_transfer(v: JsonValue) -> Option<TransferModel> {
    match (json_get(v, "id"@), json_get(v, "object"@), json_get(v, "href"@)) {
        (
            Some(JsonValue::Str(id)),
            Some(JsonValue::Str(object)),
            Some(JsonValue::Str(href)),
        ) => match (json_get(v, "amount_cents"@), json_get(v, "date"@), json_get(v, "status"@)) {
            (
                Some(JsonValue::UInt(amount_cents)),
                Some(JsonValue::Str(date)),
                Some(JsonValue::Str(status)),
            ) => match (json_get(v, "transaction"@), json_get(v, "organization"@)) {
                (Some(tx), Some(org)) => match (parse_transaction(tx), parse_organization(org)) {
                    (Some(transaction), Some(organization)) => Some(
                        TransferModel {
                            id: id@,
                            object: object@,
                            href: href@,
                            transaction,
                            organization,
                            amount_cents,
                            date: date@,
                            status: status@,
                        },
                    ),
                    _ => None,
                },
                _ => None,
            },
            _ => None,
        },
        _ => None,
    }
}

/// All elements of a page parsed as transfers, in page order; nothing when
/// any element is malformed.
pub open spec fn parse_transfer_items(items: Seq<JsonValue>) -> Option<Seq<TransferModel>>
    decreases items.len(),
{
    if items.len() == 0 {
        Some(Seq::empty())
    } else {
        match (parse_transfer_items(items.drop_last()), parse_transfer(items.last())) {
            (Some(rest), Some(t)) => Some(rest.push(t)),
            _ => None,
        }
    }
}

/// The transfers at or under the ceiling, in their original order.
pub open spec fn filter_transfers(s: Seq<TransferModel>, ceiling_cents: u64) -> Seq<
    TransferModel,
>
    decreases s.len(),
{
    if s.len() == 0 {
        Seq::empty()
    } else {
        let rest = filter_transfers(s.drop_last(), ceiling_cents);
        if s.last().amount_cents <= ceiling_cents {
            rest.push(s.last())
        } else {
            rest
        }
    }
}

/// A transfer above the ceiling leaves the filtered sequence exactly as it
/// was: it is excluded from everything computed over it, the count and the
/// average among them.
pub proof fn lemma_ceiling_excludes(s: Seq<TransferModel>, t: TransferModel, ceiling_cents: u64)
    requires
        t.amount_cents > ceiling_cents,
    ensures
        filter_transfers(s.push(t), ceiling_cents) == filter_transfers(s, ceiling_cents),
{
    assert(s.push(t).drop_last() =~= s);
}

/// A transfer at or under the ceiling is kept, in order.
pub proof fn lemma_ceiling_keeps(s: Seq<TransferModel>, t: TransferModel, ceiling_cents: u64)
    requires
        t.amount_cents <= ceiling_cents,
    ensures
        filter_transfers(s.push(t), ceiling_cents) == filter_transfers(s, ceiling_cents).push(t),
{
    assert(s.push(t).drop_last() =~= s);
}

proof fn lemma_items_fail(items: Seq<JsonValue>, i: int)
    requires
        0 <= i < items.len(),
        parse_transfer(items[i]) is None,
    ensures
        parse_transfer_items(items) is None,
    decreases items.len(),
{
    if i < items.len() - 1 {
        lemma_items_fail(items.drop_last(), i);
    }
}

/// Decodes one page element into a transfer.
pub fn decode_transfer(v: &JsonValue) -> (r: Option<Transfer>)
    ensures
        (match r {
            Some(t) => parse_transfer(*v) == Some(t@),
            None => parse_transfer(*v) is None,
        }),
{
    let id = match v.get("id") {
        Some(x) => match x.as_str() {
            Some(s) => s.clone(),
            None => {
                return None;
            },
        },
        None => {
            return None;
        },
    };
    let object = match v.get("object") {
        Some(x) => match x.as_str() {
            Some(s) => s.clone(),
            None => {
                return None;
            },
        },
        None => {
            return None;
        },
    };
    let href = match v.get("href") {
        Some(x) => match x.as_str() {
            Some(s) => s.clone(),
            None => {
                return None;
            },
        },
        None => {
            return None;
        },
    };
    let amount_cents = match v.get("amount_cents") {
        Some(x) => match x.as_u64() {
            Some(n) => n,
            None => {
                return None;
            },
        },
        None => {
            return None;
        },
    };
    let date = match v.get("date") {
        Some(x) => match x.as_str() {
            Some(s) => s.clone(),
            None => {
                return None;
            },
        },
        None => {
            return None;
        },
    };
    let status = match v.get("status") {
        Some(x) => match x.as_str() {
            Some(s) => s.clone(),
            None => {
                return None;
            },
        },
        None => {
            return None;
        },
    };
    let transaction = match v.get("transaction") {
        Some(x) => match decode_transaction(x) {
            Some(t) => t,
            None => {
                return None;
            },
        },
        None => {
            return None;
        },
    };
    let organization = match v.get("organization") {
        Some(x) => match decode_organization(x) {
            Some(o) => o,
            None => {
                return None;
            },
        },
        None => {
            return None;
        },
    };
    Some(Transfer { id, object, href, transaction, organization, amount_cents, date, status })
}

/// Decodes the expanded transaction of a transfer.
pub fn decode_transaction(v: &JsonValue) -> (r: Option<Transaction>)
    ensures
        (match r {
            Some(t) => parse_transaction(*v) == Some(t@),
            None => parse_transaction(*v) is None,
        }),
{
    let id = match v.get("id") {
        Some(x) => match x.as_str() {
            Some(s) => s.clone(),
            None => {
                return None;
            },
        },
        None => {
            return None;
        },
    };
    let object = match v.get("object") {
        Some(x) => match x.as_str() {
            Some(s) => s.clone(),
            None => {
                return None;
            },
        },
        None => {
            return None;
        },
    };
    let href = match v.get("href") {
        Some(x) => match x.as_str() {
            Some(s) => s.clone(),
            None => {
                return None;
            },
        },
        None => {
            return None;
        },
    };
    let amount_cents = match v.get("amount_cents") {
        Some(x) => match x.as_u64() {
            Some(n) => n,
            None => {
                return None;
            },
        },
        None => {
            return None;
        },
    };
    let memo = match v.get("memo") {
        Some(x) => match x.as_str() {
            Some(s) => s.clone(),
            None => {
                return None;
            },
        },
        None => {
            return None;
        },
    };
    let date = match v.get("date") {
        Some(x) => match x.as_str() {
            Some(s) => s.clone(),
            None => {
                return None;
            },
        },
        None => {
            return None;
        },
    };
    let type_ = match v.get("type") {
        Some(x) => match x.as_str() {
            Some(s) => s.clone(),
            None => {
                return None;
            },
        },
        None => {
            return None;
        },
    };
    let pending = match v.get("pending") {
        Some(x) => match x {
            JsonValue::Bool(b) => *b,
            _ => {
                return None;
            },
        },
        None => {
            return None;
        },
    };
    Some(Transaction { id, object, href, amount_cents, memo, date, type_, pending })
}

/// Decodes the organization of a transfer.
pub fn decode_organization(v: &JsonValue) -> (r: Option<Organization>)
    ensures
        (match r {
            Some(o) => parse_organization(*v) == Some(o@),
            None => parse_organization(*v) is None,
        }),
{
    let id = match v.get("id") {
        Some(x) => match x.as_str() {
            Some(s) => s.clone(),
            None => {
                return None;
            },
        },
        None => {
            return None;
        },
    };
    let object = match v.get("object") {
        Some(x) => match x.as_str() {
            Some(s) => s.clone(),
            None => {
                return None;
            },
        },
        None => {
            return None;
        },
    };
    let href = match v.get("href") {
        Some(x) => match x.as_str() {
            Some(s) => s.clone(),
            None => {
                return None;
            },
        },
        None => {
            return None;
        },
    };
    Some(Organization { id, object, href })
}

/// The transfer adapter: numbered pages, with the grant-size ceiling the
/// decode filter applies. The ceiling is explicit configuration, not a
/// built-in constant.
#[derive(Clone, Copy, Debug)]
pub struct TransferAdapter {
    pub ceiling_cents: u64,
}

impl PageSource for TransferAdapter {
    type Record = Transfer;

    open spec fn source_spec(&self) -> SourceName {
        SourceName::Transfers
    }

    open spec fn style_spec(&self) -> PagingStyle {
        PagingStyle::Numbered
    }

    /// A page must be an array. An empty page is the terminal page; any
    /// other page yields its well-formed transfers at or under the
    /// ceiling, and asks for the next page number. A non-array page or a
    /// malformed element is a decode failure.
    open spec fn decode_spec(&self, raw: JsonValue) -> Result<
        PageModel<TransferModel>,
        FailureKind,
    > {
        match raw {
            JsonValue::Array(items) => {
                if items@.len() == 0 {
                    Ok(PageModel { records: Seq::empty(), step: PageStep::Terminal })
                } else {
                    match parse_transfer_items(items@) {
                        Some(ts) => Ok(
                            PageModel {
                                records: filter_transfers(ts, self.ceiling_cents),
                                step: PageStep::Next(NextCursor::Increment),
                            },
                        ),
                        None => Err(FailureKind::Decode),
                    }
                }
            },
            _ => Err(FailureKind::Decode),
        }
    }

    proof fn lemma_step_style(&self, raw: JsonValue) {
    }

    fn source(&self) -> SourceName {
        SourceName::Transfers
    }

    fn style(&self) -> PagingStyle {
        PagingStyle::Numbered
    }

    fn decode_page(&self, raw: &JsonValue) -> (r: Result<DecodedPage<Transfer>, FailureKind>) {
        let items = match raw.as_array() {
            Some(a) => a,
            None => {
                return Err(FailureKind::Decode);
            },
        };
        if items.len() == 0 {
            return Ok(DecodedPage { records: Vec::new(), step: PageStep::Terminal });
        }
        let mut out: Vec<Transfer> = Vec::new();
        let mut i: usize = 0;
        while i < items.len()
            invariant
                i <= items@.len(),
                *raw == JsonValue::Array(*items),
                items@.len() > 0,
                parse_transfer_items(items@.take(i as int)) matches Some(ts) && views_of(out@)
                    == filter_transfers(ts, self.ceiling_cents),
            decreases items@.len() - i,
        {
            let t = match decode_transfer(&items[i]) {
                Some(t) => t,
                None => {
                    proof {
                        lemma_items_fail(items@, i as int);
                    }
                    return Err(FailureKind::Decode);
                },
            };
            proof {
                let ts = parse_transfer_items(items@.take(i as int))->Some_0;
                assert(items@.take(i as int + 1).drop_last() =~= items@.take(i as int));
                assert(items@.take(i as int + 1).last() == items@[i as int]);
                if t.amount_cents <= self.ceiling_cents {
                    lemma_ceiling_keeps(ts, t@, self.ceiling_cents);
                    assert(views_of(out@.push(t)) =~= views_of(out@).push(t@));
                } else {
                    lemma_ceiling_excludes(ts, t@, self.ceiling_cents);
                }
            }
            if t.amount_cents <= self.ceiling_cents {
                out.push(t);
            }
            i = i + 1;
        }
        proof {
            assert(items@.take(items@.len() as int) =~= items@);
        }
        Ok(DecodedPage { records: out, step: PageStep::Next(NextCursor::Increment) })
    }
}

/// Gathers the full transfer record set of one refresh cycle from the
/// delivered pages: every well-formed transfer at or under the ceiling, in
/// page order, or the failure that ended the run, stamped with the
/// transfer source and the failing page.
pub fn collect_transfers(ceiling_cents: u64, responses: &Vec<JsonValue>) -> (r: Result<
    Vec<Transfer>,
    FetchFailure,
>)
    requires
        responses@.len() + 1 < u64::MAX,
    ensures
        ({
            let m = run_model(TransferAdapter { ceiling_cents }, responses@);
            match r {
                Ok(v) => m.failure is None && views_of(v@) == m.records,
                Err(f) => {
                    &&& m.failure matches Some(k) && f.kind == k
                    &&& f.source == SourceName::Transfers
                    &&& f.page_index == (if m.pages == 0 {
                        0nat
                    } else {
                        (m.pages - 1) as nat
                    })
                },
            }
        }),
{
    let out = paginate(TransferAdapter { ceiling_cents }, responses);
    match out.failure {
        None => Ok(out.records),
        Some(k) => {
            let page_index = if out.pages_fetched == 0 {
                0
            } else {
                out.pages_fetched - 1
            };
            Err(FetchFailure::at(SourceName::Transfers, k, page_index))
        },
    }
}

} // verus!
