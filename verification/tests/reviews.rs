use onboard_metrics::{
    awaiting_reviews, collect_pull_requests, decode_pull_request, decode_state,
    parse_reviewer_stats, Assignees, JsonValue, Label, PullRequest, Reviewers, State,
};

fn s(text: &str) -> String {
    text.to_string()
}

fn pr(
    number: u32,
    state: State,
    merged_at: Option<&str>,
    labels: &[&str],
    assignees: &[&str],
    reviewers: &[&str],
) -> PullRequest {
    PullRequest {
        number,
        assignees: assignees.iter().map(|l| Assignees { login: s(l) }).collect(),
        labels: labels.iter().map(|n| Label { name: s(n) }).collect(),
        requested_reviewers: reviewers.iter().map(|l| Reviewers { login: s(l) }).collect(),
        state,
        merged_at: merged_at.map(s),
    }
}

fn pr_json(
    number: u64,
    state: &str,
    merged_at: Option<&str>,
    labels: &[&str],
    assignees: &[&str],
) -> JsonValue {
    let assignee_objs = assignees
        .iter()
        .map(|l| JsonValue::Object(vec![(s("login"), JsonValue::Str(s(l)))]))
        .collect();
    let label_objs = labels
        .iter()
        .map(|n| JsonValue::Object(vec![(s("name"), JsonValue::Str(s(n)))]))
        .collect();
    let merged = match merged_at {
        Some(ts) => JsonValue::Str(s(ts)),
        None => JsonValue::Null,
    };
    JsonValue::Object(vec![
        (s("number"), JsonValue::UInt(number)),
        (s("assignees"), JsonValue::Array(assignee_objs)),
        (s("labels"), JsonValue::Array(label_objs)),
        (s("requested_reviewers"), JsonValue::Array(vec![])),
        (s("state"), JsonValue::Str(s(state))),
        (s("merged_at"), merged),
    ])
}

#[test]
fn merge_timestamp_overrides_a_closed_state() {
    let decoded = decode_pull_request(&pr_json(
        7,
        "closed",
        Some("2024-01-01"),
        &["Submission"],
        &["alice"],
    ))
    .unwrap();
    assert_eq!(decoded.state, State::merged);
    assert_eq!(decoded.merged_at.as_deref(), Some("2024-01-01"));
}

#[test]
fn without_a_merge_timestamp_the_raw_state_stands() {
    let decoded = decode_pull_request(&pr_json(8, "closed", None, &[], &[])).unwrap();
    assert_eq!(decoded.state, State::closed);
    let record = pr(8, State::open, None, &[], &[], &[]);
    assert_eq!(record.is_merged().state, State::open);
}

#[test]
fn is_open_reflects_the_state() {
    assert!(pr(1, State::open, None, &[], &[], &[]).is_open());
    assert!(!pr(1, State::closed, None, &[], &[], &[]).is_open());
}

#[test]
fn unlabeled_pull_request_reaches_no_tally_and_no_readiness_count() {
    let records = vec![pr(1, State::open, None, &[], &["alice"], &[])];
    let tally = parse_reviewer_stats(&records, State::any);
    assert_eq!(tally.get("alice"), 0);
    assert_eq!(tally.pairs().len(), 0);
    assert_eq!(awaiting_reviews(&records), 0);
}

#[test]
fn tally_counts_each_assignee_of_each_matching_record() {
    let records = vec![
        pr(1, State::open, None, &["Submission"], &["x", "y"], &[]),
        pr(2, State::open, None, &["Submission"], &["x"], &[]),
    ];
    let tally = parse_reviewer_stats(&records, State::any);
    assert_eq!(tally.get("x"), 2);
    assert_eq!(tally.get("y"), 1);
}

#[test]
fn merged_and_open_tallies_are_separate() {
    let records = vec![pr(
        3,
        State::closed,
        Some("2024-01-01"),
        &["Submission"],
        &["alice"],
        &[],
    )]
    .into_iter()
    .map(PullRequest::is_merged)
    .collect::<Vec<_>>();
    let merged_tally = parse_reviewer_stats(&records, State::merged);
    let open_tally = parse_reviewer_stats(&records, State::open);
    assert_eq!(merged_tally.get("alice"), 1);
    assert_eq!(open_tally.get("alice"), 0);
}

#[test]
fn non_submission_records_are_skipped_never_counted() {
    let records = vec![pr(4, State::open, None, &["Bug"], &["alice"], &[])];
    let tally = parse_reviewer_stats(&records, State::any);
    assert_eq!(tally.get("alice"), 0);
}

#[test]
fn state_filter_matches_the_record_state() {
    let records = vec![
        pr(5, State::open, None, &["Submission"], &["a"], &[]),
        pr(6, State::closed, None, &["Submission"], &["b"], &[]),
    ];
    let open_tally = parse_reviewer_stats(&records, State::open);
    assert_eq!(open_tally.get("a"), 1);
    assert_eq!(open_tally.get("b"), 0);
    let closed_tally = parse_reviewer_stats(&records, State::closed);
    assert_eq!(closed_tally.get("a"), 0);
    assert_eq!(closed_tally.get("b"), 1);
}

#[test]
fn awaiting_reviews_needs_tag_and_nobody_assigned() {
    let records = vec![
        pr(1, State::open, None, &["Submission"], &[], &[]),
        pr(2, State::open, None, &["Dev"], &[], &[]),
        pr(3, State::open, None, &["Submission"], &["alice"], &[]),
        pr(4, State::open, None, &["Submission"], &[], &["bob"]),
        pr(5, State::closed, None, &["Submission"], &[], &[]),
        pr(6, State::open, None, &["Bug"], &[], &[]),
    ];
    assert_eq!(awaiting_reviews(&records), 2);
}

#[test]
fn state_strings_decode_to_states() {
    assert_eq!(decode_state(&JsonValue::Str(s("open"))), Some(State::open));
    assert_eq!(decode_state(&JsonValue::Str(s("closed"))), Some(State::closed));
    assert_eq!(decode_state(&JsonValue::Str(s("merged"))), Some(State::merged));
    assert_eq!(decode_state(&JsonValue::Str(s("any"))), Some(State::any));
    assert_eq!(decode_state(&JsonValue::Str(s("draft"))), None);
    assert_eq!(decode_state(&JsonValue::UInt(1)), None);
}

#[test]
fn rest_pages_collect_in_page_order() {
    let responses = vec![
        JsonValue::Array(vec![pr_json(1, "open", None, &["Submission"], &["a"])]),
        JsonValue::Array(vec![pr_json(2, "closed", None, &[], &[])]),
        JsonValue::Array(vec![]),
    ];
    let records = collect_pull_requests(&responses).unwrap();
    let numbers: Vec<u32> = records.iter().map(|r| r.number).collect();
    assert_eq!(numbers, vec![1, 2]);
}

#[test]
fn malformed_pull_request_is_rejected() {
    let missing_state = JsonValue::Object(vec![
        (s("number"), JsonValue::UInt(1)),
        (s("assignees"), JsonValue::Array(vec![])),
        (s("labels"), JsonValue::Array(vec![])),
        (s("requested_reviewers"), JsonValue::Array(vec![])),
    ]);
    assert!(decode_pull_request(&missing_state).is_none());
    let huge_number = pr_json(5_000_000_000, "open", None, &[], &[]);
    assert!(decode_pull_request(&huge_number).is_none());
}
