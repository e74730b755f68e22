use onboard_metrics::{
    Assignees, CycleData, FailureKind, FetchFailure, Label, MetricsSnapshot, Organization, Phase,
    PullRequest, RefreshScheduler, SourceName, State, Transaction, Transfer,
};

fn s(text: &str) -> String {
    text.to_string()
}

fn transfer(amount_cents: u64) -> Transfer {
    Transfer {
        id: s("xfr"),
        object: s("transfer"),
        href: s("/transfers/1"),
        transaction: Transaction {
            id: s("txn"),
            object: s("transaction"),
            href: s("/transactions/1"),
            amount_cents,
            memo: s("grant"),
            date: s("2024-01-01"),
            type_: s("transfer"),
            pending: false,
        },
        organization: Organization {
            id: s("org"),
            object: s("organization"),
            href: s("/organizations/1"),
        },
        amount_cents,
        date: s("2024-01-01"),
        status: s("settled"),
    }
}

fn submission_pr(number: u32, login: &str) -> PullRequest {
    PullRequest {
        number,
        assignees: vec![Assignees { login: s(login) }],
        labels: vec![Label { name: s("Submission") }],
        requested_reviewers: vec![],
        state: State::open,
        merged_at: None,
    }
}

fn all_ok(transfer_cents: &[u64], login: &str, approved: u64, pending: u64) -> CycleData {
    CycleData {
        transfers: Ok(transfer_cents.iter().map(|c| transfer(*c)).collect()),
        pull_requests: Ok(vec![submission_pr(1, login)]),
        approved: Ok(approved),
        pending: Ok(pending),
    }
}

#[test]
fn scrape_cycle_moves_between_idle_and_refreshing() {
    let mut scheduler = RefreshScheduler::new(MetricsSnapshot::init());
    assert_eq!(scheduler.phase, Phase::Idle);
    scheduler.begin_scrape();
    assert_eq!(scheduler.phase, Phase::Refreshing);
    scheduler.finish_scrape();
    assert_eq!(scheduler.phase, Phase::Idle);
}

#[test]
fn successful_cycle_publishes_every_source() {
    let mut scheduler = RefreshScheduler::new(MetricsSnapshot::init());
    scheduler.begin_scrape();
    scheduler.complete_cycle(&all_ok(&[5000, 7000], "alice", 11, 4));
    assert_eq!(scheduler.phase, Phase::Idle);
    assert_eq!(scheduler.snapshot.transfers_count, 2);
    assert_eq!(scheduler.snapshot.avg_grant.total_dollars, 120);
    assert_eq!(scheduler.snapshot.avg_grant.count, 2);
    assert_eq!(scheduler.snapshot.reviewer_stats.get("alice"), 1);
    assert_eq!(scheduler.snapshot.approved_verifications, 11);
    assert_eq!(scheduler.snapshot.pending_verifications, 4);
}

#[test]
fn failing_source_keeps_its_prior_snapshot_while_siblings_update() {
    let mut scheduler = RefreshScheduler::new(MetricsSnapshot::init());
    scheduler.begin_scrape();
    scheduler.complete_cycle(&all_ok(&[5000], "alice", 10, 3));

    scheduler.begin_scrape();
    let second = CycleData {
        transfers: Ok(vec![transfer(9000), transfer(1000)]),
        pull_requests: Err(FetchFailure::at(
            SourceName::Reviews,
            FailureKind::Transport,
            1,
        )),
        approved: Ok(12),
        pending: Ok(5),
    };
    scheduler.complete_cycle(&second);

    assert_eq!(scheduler.snapshot.transfers_count, 2);
    assert_eq!(scheduler.snapshot.avg_grant.total_dollars, 100);
    assert_eq!(scheduler.snapshot.approved_verifications, 12);
    assert_eq!(scheduler.snapshot.pending_verifications, 5);
    assert_eq!(scheduler.snapshot.reviewer_stats.get("alice"), 1);
    assert_eq!(scheduler.snapshot.waiting_review, 0);
}

#[test]
fn decode_and_upstream_failures_also_keep_the_prior_value() {
    let mut scheduler = RefreshScheduler::new(MetricsSnapshot::init());
    scheduler.begin_scrape();
    scheduler.complete_cycle(&all_ok(&[2000], "bob", 7, 2));

    scheduler.begin_scrape();
    let second = CycleData {
        transfers: Err(FetchFailure::at(SourceName::Transfers, FailureKind::Decode, 0)),
        pull_requests: Ok(vec![]),
        approved: Err(FetchFailure::at(
            SourceName::Verifications,
            FailureKind::Upstream,
            2,
        )),
        pending: Ok(9),
    };
    scheduler.complete_cycle(&second);

    assert_eq!(scheduler.snapshot.transfers_count, 1);
    assert_eq!(scheduler.snapshot.avg_grant.total_dollars, 20);
    assert_eq!(scheduler.snapshot.approved_verifications, 7);
    assert_eq!(scheduler.snapshot.pending_verifications, 9);
    assert_eq!(scheduler.snapshot.reviewer_stats.get("bob"), 0);
}

#[test]
fn absent_credential_publishes_the_zero_result() {
    let mut scheduler = RefreshScheduler::new(MetricsSnapshot::init());
    scheduler.begin_scrape();
    scheduler.complete_cycle(&all_ok(&[2000], "bob", 7, 2));

    scheduler.begin_scrape();
    let second = CycleData {
        transfers: Ok(vec![]),
        pull_requests: Ok(vec![]),
        approved: Err(FetchFailure::at(
            SourceName::Verifications,
            FailureKind::AuthAbsent,
            0,
        )),
        pending: Err(FetchFailure::at(
            SourceName::Verifications,
            FailureKind::AuthAbsent,
            0,
        )),
    };
    scheduler.complete_cycle(&second);
    assert_eq!(scheduler.snapshot.approved_verifications, 0);
    assert_eq!(scheduler.snapshot.pending_verifications, 0);
}

#[test]
fn tally_identifiers_are_not_carried_from_a_prior_cycle() {
    let mut scheduler = RefreshScheduler::new(MetricsSnapshot::init());
    scheduler.begin_scrape();
    scheduler.complete_cycle(&all_ok(&[], "alice", 0, 0));
    assert_eq!(scheduler.snapshot.reviewer_stats.get("alice"), 1);

    scheduler.begin_scrape();
    scheduler.complete_cycle(&all_ok(&[], "bob", 0, 0));
    assert_eq!(scheduler.snapshot.reviewer_stats.get("bob"), 1);
    assert_eq!(scheduler.snapshot.reviewer_stats.get("alice"), 0);
    assert_eq!(scheduler.snapshot.reviewer_stats.pairs().len(), 1);
}
