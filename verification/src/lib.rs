//! A metrics aggregation core: paginated records from three remote sources
//! (a numbered-page bank-transfer feed, a REST- and cursor-paged code-review
//! feed, and an offset-token-paged form-verification feed) are folded into
//! summary statistics — counts, an exact running average, and per-identifier
//! tallies. The pagination engine, the per-source page decoding, the
//! aggregation, and the refresh scheduling are verified; the HTTP transport
//! and the metric export live outside this crate and hand pages in as plain
//! JSON values.

mod aggregate;
mod credential;
mod failure;
mod json;
mod paging;
mod records;
mod reviews;
mod scheduler;
mod transfers;
mod verifications;

pub use aggregate::{
    add_logins, avg_grant, awaiting_count, awaiting_reviews, bump, count_transfers, distinct_keys,
    entries_map, lemma_ceiling_excluded_from_aggregates, lemma_tally_bounded,
    lemma_unlabeled_excluded, map_bounded, parse_reviewer_stats, pr_awaiting, pr_participates,
    sum_dollars, tally_of, total_assignments, GrantAverage, Tally,
};
pub use credential::Credential;
pub use failure::{FailureKind, FetchFailure, SourceName};
pub use json::{json_get, json_lookup, lookup_field, JsonValue};
pub use paging::{
    advanced, concat_records, lemma_run_consumes_each_page_once, lemma_run_stops_at_terminal,
    page_records, paginate, run_model,
    Cursor, DecodedPage, NextCursor, PageModel, PageSession, PageSource, PageStep, PagedRequest,
    PagingStyle, ParamValue, RunModel, RunOutcome, SessionStatus,
};
pub use records::{
    views_of, AirTableViews, Assignees, Comment, Label, Organization, OrganizationModel,
    PullRequest, PullRequestModel, Reviewers, State, Transaction, TransactionModel, Transfer,
    TransferModel, VerificationRecord,
};
pub use reviews::{
    collect_pull_requests, decode_assignees, decode_labels, decode_page_info, decode_pull_request,
    decode_reviewers, decode_state, lemma_merge_timestamp_overrides, parse_login,
    parse_login_items, parse_merged_at, parse_name,
    parse_name_items, parse_page_info, parse_pull_request, parse_pull_request_items,
    parse_search_data, parse_search_page, parse_state, CursorReviewAdapter, RestReviewAdapter,
};
pub use scheduler::{CycleData, MetricsSnapshot, Phase, RefreshScheduler};
pub use transfers::{
    collect_transfers, decode_organization, decode_transaction, decode_transfer, filter_transfers,
    lemma_ceiling_excludes, lemma_ceiling_keeps, parse_organization, parse_transaction,
    parse_transfer, parse_transfer_items, TransferAdapter,
};
pub use verifications::{airtable_verifications, parse_verification_page, VerificationAdapter};
