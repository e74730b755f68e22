use onboard_metrics::{
    airtable_verifications, paginate, AirTableViews, Credential, Cursor, CursorReviewAdapter,
    FailureKind, JsonValue, PageSession, PagingStyle, ParamValue, TransferAdapter,
    VerificationAdapter,
};

fn s(text: &str) -> String {
    text.to_string()
}

fn transfer_json(id: &str, amount_cents: u64) -> JsonValue {
    let transaction = JsonValue::Object(vec![
        (s("id"), JsonValue::Str(s("txn_1"))),
        (s("object"), JsonValue::Str(s("transaction"))),
        (s("href"), JsonValue::Str(s("/transactions/txn_1"))),
        (s("amount_cents"), JsonValue::UInt(amount_cents)),
        (s("memo"), JsonValue::Str(s("grant"))),
        (s("date"), JsonValue::Str(s("2024-01-01"))),
        (s("type"), JsonValue::Str(s("transfer"))),
        (s("pending"), JsonValue::Bool(false)),
    ]);
    let organization = JsonValue::Object(vec![
        (s("id"), JsonValue::Str(s("org_1"))),
        (s("object"), JsonValue::Str(s("organization"))),
        (s("href"), JsonValue::Str(s("/organizations/org_1"))),
    ]);
    JsonValue::Object(vec![
        (s("id"), JsonValue::Str(s(id))),
        (s("object"), JsonValue::Str(s("transfer"))),
        (s("href"), JsonValue::Str(s("/transfers/1"))),
        (s("transaction"), transaction),
        (s("organization"), organization),
        (s("amount_cents"), JsonValue::UInt(amount_cents)),
        (s("date"), JsonValue::Str(s("2024-01-01"))),
        (s("status"), JsonValue::Str(s("settled"))),
    ])
}

fn pull_request_json(number: u64, login: &str) -> JsonValue {
    JsonValue::Object(vec![
        (s("number"), JsonValue::UInt(number)),
        (
            s("assignees"),
            JsonValue::Array(vec![JsonValue::Object(vec![(
                s("login"),
                JsonValue::Str(s(login)),
            )])]),
        ),
        (
            s("labels"),
            JsonValue::Array(vec![JsonValue::Object(vec![(
                s("name"),
                JsonValue::Str(s("Submission")),
            )])]),
        ),
        (s("requested_reviewers"), JsonValue::Array(vec![])),
        (s("state"), JsonValue::Str(s("open"))),
        (s("merged_at"), JsonValue::Null),
    ])
}

fn verification_page(count: usize, offset: Option<&str>) -> JsonValue {
    let mut records = Vec::new();
    for _ in 0..count {
        records.push(JsonValue::Object(vec![(s("id"), JsonValue::Str(s("rec")))]));
    }
    let mut fields = vec![(s("records"), JsonValue::Array(records))];
    if let Some(token) = offset {
        fields.push((s("offset"), JsonValue::Str(s(token))));
    }
    JsonValue::Object(fields)
}

fn search_page(numbers: &[u64], next: Option<&str>) -> JsonValue {
    let mut nodes = Vec::new();
    for n in numbers {
        nodes.push(pull_request_json(*n, "someone"));
    }
    let mut info = vec![(s("hasNextPage"), JsonValue::Bool(next.is_some()))];
    if let Some(cursor) = next {
        info.push((s("endCursor"), JsonValue::Str(s(cursor))));
    }
    let search = JsonValue::Object(vec![
        (s("nodes"), JsonValue::Array(nodes)),
        (s("pageInfo"), JsonValue::Object(info)),
    ]);
    JsonValue::Object(vec![(s("data"), JsonValue::Object(vec![(s("search"), search)]))])
}

#[test]
fn numbered_pages_stop_at_empty_page() {
    let adapter = TransferAdapter { ceiling_cents: u64::MAX };
    let responses = vec![
        JsonValue::Array(vec![transfer_json("a", 100), transfer_json("b", 200)]),
        JsonValue::Array(vec![transfer_json("c", 300)]),
        JsonValue::Array(vec![]),
        JsonValue::Array(vec![transfer_json("d", 400)]),
    ];
    let out = paginate(adapter, &responses);
    assert!(out.failure.is_none());
    assert_eq!(out.pages_fetched, 3);
    let ids: Vec<&str> = out.records.iter().map(|t| t.id.as_str()).collect();
    assert_eq!(ids, vec!["a", "b", "c"]);
}

#[test]
fn offset_pages_stop_when_offset_is_absent() {
    let responses = vec![
        verification_page(2, Some("tok1")),
        verification_page(3, None),
        verification_page(9, None),
    ];
    let out = paginate(VerificationAdapter {}, &responses);
    assert!(out.failure.is_none());
    assert_eq!(out.pages_fetched, 2);
    assert_eq!(out.records.len(), 5);
}

#[test]
fn cursor_pages_stop_when_no_further_page_is_reported() {
    let responses = vec![
        search_page(&[1, 2], Some("c1")),
        search_page(&[3], None),
        search_page(&[4], None),
    ];
    let out = paginate(CursorReviewAdapter {}, &responses);
    assert!(out.failure.is_none());
    assert_eq!(out.pages_fetched, 2);
    let numbers: Vec<u32> = out.records.iter().map(|pr| pr.number).collect();
    assert_eq!(numbers, vec![1, 2, 3]);
}

#[test]
fn numbered_cursor_counts_from_one() {
    let session = PageSession::new(TransferAdapter { ceiling_cents: 0 });
    match session.current_cursor() {
        Cursor::PageNumber(n) => assert_eq!(*n, 1),
        _ => panic!("a numbered session must start at page one"),
    }
}

#[test]
fn cursor_is_replaced_wholesale_after_each_page() {
    let mut session = PageSession::new(CursorReviewAdapter {});
    match session.current_cursor() {
        Cursor::After(mark) => assert!(mark.is_none()),
        _ => panic!("a cursor session must start with no resume mark"),
    }
    let done = session.feed(&search_page(&[1], Some("mark-1")));
    assert!(!done);
    match session.current_cursor() {
        Cursor::After(Some(mark)) => assert_eq!(mark.as_str(), "mark-1"),
        _ => panic!("the page's end cursor must replace the mark"),
    }
}

#[test]
fn exhausted_transcript_is_a_transport_failure() {
    let responses = vec![verification_page(2, Some("tok1"))];
    let out = paginate(VerificationAdapter {}, &responses);
    assert_eq!(out.failure, Some(FailureKind::Transport));
    assert_eq!(out.pages_fetched, 1);
    assert_eq!(out.records.len(), 2);
}

#[test]
fn malformed_page_is_a_decode_failure_with_partial_records_kept() {
    let adapter = TransferAdapter { ceiling_cents: u64::MAX };
    let responses = vec![
        JsonValue::Array(vec![transfer_json("a", 100)]),
        JsonValue::Str(s("not a page")),
    ];
    let out = paginate(adapter, &responses);
    assert_eq!(out.failure, Some(FailureKind::Decode));
    assert_eq!(out.pages_fetched, 2);
    assert_eq!(out.records.len(), 1);
    assert_eq!(out.records[0].id.as_str(), "a");
}

#[test]
fn error_array_in_a_query_response_is_an_upstream_failure() {
    let page = JsonValue::Object(vec![(
        s("errors"),
        JsonValue::Array(vec![JsonValue::Object(vec![(
            s("message"),
            JsonValue::Str(s("rate limited")),
        )])]),
    )]);
    let out = paginate(CursorReviewAdapter {}, &vec![page]);
    assert_eq!(out.failure, Some(FailureKind::Upstream));
    assert_eq!(out.records.len(), 0);
}

#[test]
fn absent_credential_reports_auth_absent() {
    let outcome = airtable_verifications(&Credential::absent(), &vec![]);
    match outcome {
        Err(f) => assert_eq!(f.kind, FailureKind::AuthAbsent),
        Ok(_) => panic!("a missing credential must not count records"),
    }
}

#[test]
fn verification_count_spans_all_pages() {
    let credential = Credential::present(s("key"));
    let responses = vec![verification_page(4, Some("t")), verification_page(1, None)];
    let outcome = airtable_verifications(&credential, &responses);
    assert_eq!(outcome.unwrap(), 5);
}

#[test]
fn cursor_query_parameters_follow_the_style() {
    match Cursor::PageNumber(4).query_param() {
        Some(("page", ParamValue::Number(4))) => {}
        _ => panic!("a numbered cursor must ask for its page number"),
    }
    match Cursor::Offset(Some("tok".to_string())).query_param() {
        Some(("offset", ParamValue::Text(t))) => assert_eq!(t.as_str(), "tok"),
        _ => panic!("an offset cursor must carry its token"),
    }
    match Cursor::After(Some("mark".to_string())).query_param() {
        Some(("after", ParamValue::Text(t))) => assert_eq!(t.as_str(), "mark"),
        _ => panic!("a query cursor must carry its resume mark"),
    }
    assert!(Cursor::Offset(None).query_param().is_none());
    assert!(Cursor::After(None).query_param().is_none());
}

#[test]
fn verification_views_select_by_name() {
    assert_eq!(AirTableViews::Pending.view_name(), "Pending");
    assert_eq!(AirTableViews::Approved.view_name(), "Approved");
}

#[test]
fn initial_cursor_of_each_style() {
    match Cursor::initial(PagingStyle::Numbered) {
        Cursor::PageNumber(n) => assert_eq!(n, 1),
        _ => panic!("wrong style"),
    }
    match Cursor::initial(PagingStyle::OffsetToken) {
        Cursor::Offset(o) => assert!(o.is_none()),
        _ => panic!("wrong style"),
    }
    match Cursor::initial(PagingStyle::Cursor) {
        Cursor::After(a) => assert!(a.is_none()),
        _ => panic!("wrong style"),
    }
}
