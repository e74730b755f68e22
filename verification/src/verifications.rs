//! The form-verification source: offset-token pages of records that are
//! counted, never inspected.
//!
//! A page is an object whose `records` array carries the page's records
//! and whose `offset` field, when present, is the token of the next page;
//! a page without one is terminal. A page carrying an `error` field is an
//! upstream failure. The source requires a credential: without one the
//! pipeline reports the absence and the scheduler publishes the defined
//! zero result.

use vstd::prelude::*;

use crate::credential::Credential;
use crate::failure::{FailureKind, FetchFailure, SourceName};
use crate::json::{json_get, JsonValue};
use crate::paging::{
    paginate, run_model, DecodedPage, NextCursor, PageModel, PageSource, PageStep, PagingStyle,
};
use crate::records::{views_of, VerificationRecord};

verus! {

/// What one offset-token page means: as many records as its `records`
/// array holds, and the next offset token when one is present.
pub open spec fn parse_verification_page(raw: JsonValue) -> Result<
    PageModel<VerificationRecord>,
    FailureKind,
> {
    match json_get(raw, "error"@) {
        Some(_) => Err(FailureKind::Upstream),
        None => match json_get(raw, "records"@) {
            Some(JsonValue::Array(items)) => {
                let records = Seq::new(items@.len(), |i: int| VerificationRecord {  });
                match json_get(raw, "offset"@) {
                    Some(JsonValue::Str(s)) => Ok(
                        PageModel { records, step: PageStep::Next(NextCursor::Token(s)) },
                    ),
                    Some(_) => Err(FailureKind::Decode),
                    None => Ok(PageModel { records, step: PageStep::Terminal }),
                }
            },
            _ => Err(FailureKind::Decode),
        },
    }
}

/// The verification adapter: offset-token pages of existence-only records.
#[derive(Clone, Copy, Debug)]
pub struct VerificationAdapter {
}

impl PageSource for VerificationAdapter {
    type Record = VerificationRecord;

    open spec fn source_spec(&self) -> SourceName {
        SourceName::Verifications
    }

    open spec fn style_spec(&self) -> PagingStyle {
        PagingStyle::OffsetToken
    }

    open spec fn decode_spec(&self, raw: JsonValue) -> Result<
        PageModel<VerificationRecord>,
        FailureKind,
    > {
        parse_verification_page(raw)
    }

    proof fn lemma_step_style(&self, raw: JsonValue) {
    }

    fn source(&self) -> SourceName {
        SourceName::Verifications
    }

    fn style(&self) -> PagingStyle {
        PagingStyle::OffsetToken
    }

    fn decode_page(&self, raw: &JsonValue) -> (r: Result<
        DecodedPage<VerificationRecord>,
        FailureKind,
    >) {
        match raw.get("error") {
            Some(_) => {
                return Err(FailureKind::Upstream);
            },
            None => {},
        }
        let items = match raw.get("records") {
            Some(x) => match x.as_array() {
                Some(a) => a,
                None => {
                    return Err(FailureKind::Decode);
                },
            },
            None => {
                return Err(FailureKind::Decode);
            },
        };
        let mut records: Vec<VerificationRecord> = Vec::new();
        let mut i: usize = 0;
        while i < items.len()
            invariant
                i <= items@.len(),
                records@.len() == i,
            decreases items@.len() - i,
        {
            records.push(VerificationRecord {  });
            i = i + 1;
        }
        proof {
            assert(views_of(records@) =~= Seq::new(
                items@.len(),
                |j: int| VerificationRecord {  },
            ));
        }
        match raw.get("offset") {
            Some(x) => match x.as_str() {
                Some(s) => Ok(
                    DecodedPage { records, step: PageStep::Next(NextCursor::Token(s.clone())) },
                ),
                None => Err(FailureKind::Decode),
            },
            None => Ok(DecodedPage { records, step: PageStep::Terminal }),
        }
    }
}

/// Counts the verification records of one view of the table.
///
/// Without a credential the count is not attempted: the pipeline reports
/// the absent credential, for which the scheduler publishes the defined
/// zero result. With one, the delivered pages are consumed in order and
/// the records of all pages up to the terminal one are counted; a failure
/// is stamped with the verification source and the failing page.
pub fn airtable_verifications(credential: &Credential, responses: &Vec<JsonValue>) -> (r: Result<
    u64,
    FetchFailure,
>)
    requires
        responses@.len() + 1 < u64::MAX,
    ensures
        (match credential.token {
            None => r matches Err(f) && f.kind == FailureKind::AuthAbsent && f.source
                == SourceName::Verifications && f.page_index == 0,
            Some(_) => {
                let m = run_model(VerificationAdapter {  }, responses@);
                match r {
                    Ok(n) => m.failure is None && n == m.records.len(),
                    Err(f) => {
                        &&& m.failure matches Some(k) && f.kind == k
                        &&& f.source == SourceName::Verifications
                        &&& f.page_index == (if m.pages == 0 {
                            0nat
                        } else {
                            (m.pages - 1) as nat
                        })
                    },
                }
            },
        }),
{
    if !credential.has_token() {
        return Err(
            FetchFailure::at(SourceName::Verifications, FailureKind::AuthAbsent, 0),
        );
    }
    let out = paginate(VerificationAdapter {  }, responses);
    match out.failure {
        None => {
            proof {
                assert(views_of(out.records@).len() == out.records@.len());
            }
            Ok(out.records.len() as u64)
        },
        Some(k) => {
            let page_index = if out.pages_fetched == 0 {
                0
            } else {
                out.pages_fetched - 1
            };
            Err(FetchFailure::at(SourceName::Verifications, k, page_index))
        },
    }
}

} // verus!
