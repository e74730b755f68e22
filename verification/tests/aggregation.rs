use onboard_metrics::{
    avg_grant, collect_transfers, count_transfers, decode_transfer, JsonValue, Organization,
    Tally, Transaction, Transfer,
};

fn s(text: &str) -> String {
    text.to_string()
}

fn transfer(amount_cents: u64) -> Transfer {
    Transfer {
        id: s("xfr"),
        object: s("transfer"),
        href: s("/transfers/1"),
        transaction: Transaction {
            id: s("txn"),
            object: s("transaction"),
            href: s("/transactions/1"),
            amount_cents,
            memo: s("grant"),
            date: s("2024-01-01"),
            type_: s("transfer"),
            pending: false,
        },
        organization: Organization {
            id: s("org"),
            object: s("organization"),
            href: s("/organizations/1"),
        },
        amount_cents,
        date: s("2024-01-01"),
        status: s("settled"),
    }
}

fn transfer_json(amount_cents: u64, pending: bool) -> JsonValue {
    let transaction = JsonValue::Object(vec![
        (s("id"), JsonValue::Str(s("txn_1"))),
        (s("object"), JsonValue::Str(s("transaction"))),
        (s("href"), JsonValue::Str(s("/transactions/txn_1"))),
        (s("amount_cents"), JsonValue::UInt(amount_cents)),
        (s("memo"), JsonValue::Str(s("grant"))),
        (s("date"), JsonValue::Str(s("2024-01-01"))),
        (s("type"), JsonValue::Str(s("transfer"))),
        (s("pending"), JsonValue::Bool(pending)),
    ]);
    let organization = JsonValue::Object(vec![
        (s("id"), JsonValue::Str(s("org_1"))),
        (s("object"), JsonValue::Str(s("organization"))),
        (s("href"), JsonValue::Str(s("/organizations/org_1"))),
    ]);
    JsonValue::Object(vec![
        (s("id"), JsonValue::Str(s("xfr_1"))),
        (s("object"), JsonValue::Str(s("transfer"))),
        (s("href"), JsonValue::Str(s("/transfers/1"))),
        (s("transaction"), transaction),
        (s("organization"), organization),
        (s("amount_cents"), JsonValue::UInt(amount_cents)),
        (s("date"), JsonValue::Str(s("2024-01-01"))),
        (s("status"), JsonValue::Str(s("settled"))),
    ])
}

fn average_as_float(total_dollars: u128, count: u64) -> f64 {
    if count == 0 {
        0.0
    } else {
        total_dollars as f64 / count as f64
    }
}

#[test]
fn average_of_no_records_is_zero_not_a_fault() {
    let empty: Vec<Transfer> = Vec::new();
    let avg = avg_grant(&empty);
    assert_eq!(avg.total_dollars, 0);
    assert_eq!(avg.count, 0);
    assert_eq!(average_as_float(avg.total_dollars, avg.count), 0.0);
}

#[test]
fn transfer_above_ceiling_is_excluded_from_count_and_average() {
    let responses = vec![
        JsonValue::Array(vec![transfer_json(5000, false), transfer_json(15000, false)]),
        JsonValue::Array(vec![]),
    ];
    let records = collect_transfers(10000, &responses).unwrap();
    assert_eq!(count_transfers(&records), 1);
    let avg = avg_grant(&records);
    assert_eq!(avg.count, 1);
    assert_eq!(avg.total_dollars, 50);
    assert_eq!(average_as_float(avg.total_dollars, avg.count), 50.00);
}

#[test]
fn average_truncates_each_amount_to_whole_dollars() {
    let records = vec![transfer(199), transfer(101)];
    let avg = avg_grant(&records);
    assert_eq!(avg.total_dollars, 2);
    assert_eq!(avg.count, 2);
    assert_eq!(average_as_float(avg.total_dollars, avg.count), 1.0);
}

#[test]
fn count_is_the_record_set_size() {
    let records = vec![transfer(100), transfer(200), transfer(300)];
    assert_eq!(count_transfers(&records), 3);
}

#[test]
fn transfer_at_the_ceiling_is_kept() {
    let responses = vec![
        JsonValue::Array(vec![transfer_json(10000, false)]),
        JsonValue::Array(vec![]),
    ];
    let records = collect_transfers(10000, &responses).unwrap();
    assert_eq!(records.len(), 1);
    assert_eq!(records[0].amount_cents, 10000);
}

#[test]
fn malformed_transfer_is_rejected() {
    let missing_amount = JsonValue::Object(vec![
        (s("id"), JsonValue::Str(s("xfr_1"))),
        (s("object"), JsonValue::Str(s("transfer"))),
        (s("href"), JsonValue::Str(s("/transfers/1"))),
        (s("date"), JsonValue::Str(s("2024-01-01"))),
        (s("status"), JsonValue::Str(s("settled"))),
    ]);
    assert!(decode_transfer(&missing_amount).is_none());
    assert!(decode_transfer(&JsonValue::Null).is_none());
}

#[test]
fn decoded_transfer_keeps_its_fields() {
    let decoded = decode_transfer(&transfer_json(4200, true)).unwrap();
    assert_eq!(decoded.amount_cents, 4200);
    assert_eq!(decoded.id.as_str(), "xfr_1");
    assert_eq!(decoded.transaction.amount_cents, 4200);
    assert!(decoded.transaction.pending);
    assert_eq!(decoded.organization.id.as_str(), "org_1");
    assert_eq!(decoded.status.as_str(), "settled");
}

#[test]
fn tally_counts_from_zero_and_increments() {
    let mut tally = Tally::new();
    assert_eq!(tally.get("alice"), 0);
    tally.increment("alice");
    tally.increment("bob");
    tally.increment("alice");
    assert_eq!(tally.get("alice"), 2);
    assert_eq!(tally.get("bob"), 1);
    assert_eq!(tally.get("carol"), 0);
    let copy = tally.duplicate();
    assert_eq!(copy.get("alice"), 2);
    assert_eq!(copy.pairs().len(), 2);
}
