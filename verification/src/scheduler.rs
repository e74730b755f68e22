//! The refresh scheduler.
//!
//! The scheduler is idle between scrapes, holding the last published
//! snapshot set, and refreshing while one cycle is in flight. The three
//! source pipelines are independent: each publishes its own snapshot as it
//! finishes, a publication replaces that source's values wholesale, and a
//! failing source keeps its previously published values — one source's
//! failure never blocks or erases another's. A scrape that finds no
//! credential for the verification source publishes that source's defined
//! zero result. No retry happens within a cycle; the next scrape is the
//! retry.

use vstd::prelude::*;

use crate::aggregate::{
    avg_grant, awaiting_count, awaiting_reviews, count_transfers, parse_reviewer_stats,
    sum_dollars, tally_of, total_assignments, GrantAverage, Tally,
};
use crate::failure::{FailureKind, FetchFailure};
use crate::records::{views_of, AirTableViews, PullRequest, State, Transfer};

verus! {

/// Where the scheduler stands: between cycles, or with one in flight.
#[derive(Clone, Copy, Debug, PartialEq, Eq, Structural)]
pub enum Phase {
    Idle,
    Refreshing,
}

/// The published values of all sources: the latest successfully computed
/// value of each metric.
#[derive(Debug)]
pub struct MetricsSnapshot {
    /// How many transfers the last successful transfer cycle held.
    pub transfers_count: u64,
    /// The exact average grant of the last successful transfer cycle.
    pub avg_grant: GrantAverage,
    /// Assignee tally over every state.
    pub reviewer_stats: Tally,
    /// Assignee tally over merged pull requests.
    pub reviewer_stats_merged: Tally,
    /// How many pull requests wait for a review.
    pub waiting_review: u32,
    /// Approved verification records.
    pub approved_verifications: u64,
    /// Pending verification records.
    pub pending_verifications: u64,
}

impl MetricsSnapshot {
    /// Both tallies are well formed.
    pub open spec fn wf(&self) -> bool {
        &&& self.reviewer_stats.wf()
        &&& self.reviewer_stats_merged.wf()
    }

    /// The snapshot before any cycle ran: every value zero, every tally
    /// empty.
    pub fn init() -> (r: MetricsSnapshot)
        ensures
            r.wf(),
            r.transfers_count == 0,
            r.avg_grant == GrantAverage::zero_spec(),
            r.reviewer_stats@ == Map::<Seq<char>, nat>::empty(),
            r.reviewer_stats_merged@ == Map::<Seq<char>, nat>::empty(),
            r.waiting_review == 0,
            r.approved_verifications == 0,
            r.pending_verifications == 0,
    {
        MetricsSnapshot {
            transfers_count: 0,
            avg_grant: GrantAverage::zero(),
            reviewer_stats: Tally::new(),
            reviewer_stats_merged: Tally::new(),
            waiting_review: 0,
            approved_verifications: 0,
            pending_verifications: 0,
        }
    }
}

/// What one refresh cycle fetched, per pipeline. The two verification
/// queries run as separate pipelines of the verification source.
pub struct CycleData {
    pub transfers: Result<Vec<Transfer>, FetchFailure>,
    pub pull_requests: Result<Vec<PullRequest>, FetchFailure>,
    pub approved: Result<u64, FetchFailure>,
    pub pending: Result<u64, FetchFailure>,
}

/// The refresh scheduler: its phase and the published snapshot set.
#[derive(Debug)]
pub struct RefreshScheduler {
    pub phase: Phase,
    pub snapshot: MetricsSnapshot,
}

impl RefreshScheduler {
    /// Starts idle on a snapshot set.
    pub fn new(initial: MetricsSnapshot) -> (r: RefreshScheduler)
        ensures
            r.phase is Idle,
            r.snapshot == initial,
    {
        RefreshScheduler { phase: Phase::Idle, snapshot: initial }
    }

    /// A scrape trigger opens a cycle.
    pub fn begin_scrape(&mut self)
        requires
            old(self).phase is Idle,
        ensures
            final(self).phase is Refreshing,
            final(self).snapshot == old(self).snapshot,
    {
        self.phase = Phase::Refreshing;
    }

    /// Publishes the transfer source's snapshot: on success the count and
    /// the exact average of the fetched record set, wholesale; on failure
    /// the prior values stand. No other source's values move.
    pub fn publish_transfers(&mut self, outcome: &Result<Vec<Transfer>, FetchFailure>)
        requires
            old(self).phase is Refreshing,
        ensures
            final(self).phase == old(self).phase,
            final(self).snapshot.reviewer_stats == old(self).snapshot.reviewer_stats,
            final(self).snapshot.reviewer_stats_merged == old(self).snapshot.reviewer_stats_merged,
            final(self).snapshot.waiting_review == old(self).snapshot.waiting_review,
            final(self).snapshot.approved_verifications == old(
                self,
            ).snapshot.approved_verifications,
            final(self).snapshot.pending_verifications == old(self).snapshot.pending_verifications,
            (match *outcome {
                Ok(ts) => {
                    &&& final(self).snapshot.transfers_count == ts@.len()
                    &&& final(self).snapshot.avg_grant.total_dollars == sum_dollars(views_of(ts@))
                    &&& final(self).snapshot.avg_grant.count == ts@.len()
                },
                Err(_) => {
                    &&& final(self).snapshot.transfers_count == old(self).snapshot.transfers_count
                    &&& final(self).snapshot.avg_grant == old(self).snapshot.avg_grant
                },
            }),
    {
        match outcome {
            Ok(ts) => {
                self.snapshot.transfers_count = count_transfers(ts) as u64;
                self.snapshot.avg_grant = avg_grant(ts);
            },
            Err(_) => {},
        }
    }

    /// Publishes the review source's snapshot: on success both assignee
    /// tallies and the readiness count of the fetched record set,
    /// wholesale; on failure the prior values stand. No other source's
    /// values move.
    pub fn publish_reviews(&mut self, outcome: &Result<Vec<PullRequest>, FetchFailure>)
        requires
            old(self).phase is Refreshing,
            old(self).snapshot.wf(),
            (*outcome matches Ok(prs) ==> total_assignments(views_of(prs@)) <= u64::MAX && prs@.len()
                <= u32::MAX),
        ensures
            final(self).phase == old(self).phase,
            final(self).snapshot.wf(),
            final(self).snapshot.transfers_count == old(self).snapshot.transfers_count,
            final(self).snapshot.avg_grant == old(self).snapshot.avg_grant,
            final(self).snapshot.approved_verifications == old(
                self,
            ).snapshot.approved_verifications,
            final(self).snapshot.pending_verifications == old(self).snapshot.pending_verifications,
            (match *outcome {
                Ok(prs) => {
                    &&& final(self).snapshot.reviewer_stats@ == tally_of(
                        views_of(prs@),
                        State::any,
                    )
                    &&& final(self).snapshot.reviewer_stats_merged@ == tally_of(
                        views_of(prs@),
                        State::merged,
                    )
                    &&& final(self).snapshot.waiting_review == awaiting_count(views_of(prs@))
                },
                Err(_) => {
                    &&& final(self).snapshot.reviewer_stats == old(self).snapshot.reviewer_stats
                    &&& final(self).snapshot.reviewer_stats_merged == old(
                        self,
                    ).snapshot.reviewer_stats_merged
                    &&& final(self).snapshot.waiting_review == old(self).snapshot.waiting_review
                },
            }),
    {
        match outcome {
            Ok(prs) => {
                self.snapshot.reviewer_stats = parse_reviewer_stats(prs, State::any);
                self.snapshot.reviewer_stats_merged = parse_reviewer_stats(prs, State::merged);
                self.snapshot.waiting_review = awaiting_reviews(prs);
            },
            Err(_) => {},
        }
    }

    /// Publishes one verification view's count: the fetched count on
    /// success; the defined zero result when the credential was absent;
    /// the prior value on any other failure. The other view's count and
    /// every other source's values stand.
    pub fn publish_verifications(&mut self, view: AirTableViews, outcome: &Result<
        u64,
        FetchFailure,
    >)
        requires
            old(self).phase is Refreshing,
        ensures
            final(self).phase == old(self).phase,
            final(self).snapshot.transfers_count == old(self).snapshot.transfers_count,
            final(self).snapshot.avg_grant == old(self).snapshot.avg_grant,
            final(self).snapshot.reviewer_stats == old(self).snapshot.reviewer_stats,
            final(self).snapshot.reviewer_stats_merged == old(self).snapshot.reviewer_stats_merged,
            final(self).snapshot.waiting_review == old(self).snapshot.waiting_review,
            (view is Approved ==> final(self).snapshot.pending_verifications == old(
                self,
            ).snapshot.pending_verifications),
            (view is Pending ==> final(self).snapshot.approved_verifications == old(
                self,
            ).snapshot.approved_verifications),
            ({
                let published = match view {
                    AirTableViews::Approved => final(self).snapshot.approved_verifications,
                    AirTableViews::Pending => final(self).snapshot.pending_verifications,
                };
                let prior = match view {
                    AirTableViews::Approved => old(self).snapshot.approved_verifications,
                    AirTableViews::Pending => old(self).snapshot.pending_verifications,
                };
                match *outcome {
                    Ok(n) => published == n,
                    Err(f) => if f.kind is AuthAbsent {
                        published == 0
                    } else {
                        published == prior
                    },
                }
            }),
    {
        let value: Option<u64> = match outcome {
            Ok(n) => Some(*n),
            Err(f) => match f.kind {
                FailureKind::AuthAbsent => Some(0),
                _ => None,
            },
        };
        match value {
            Some(n) => {
                match view {
                    AirTableViews::Approved => {
                        self.snapshot.approved_verifications = n;
                    },
                    AirTableViews::Pending => {
                        self.snapshot.pending_verifications = n;
                    },
                }
            },
            None => {},
        }
    }

    /// Closes the cycle; the snapshot set as published stands until the
    /// next scrape.
    pub fn finish_scrape(&mut self)
        requires
            old(self).phase is Refreshing,
        ensures
            final(self).phase is Idle,
            final(self).snapshot == old(self).snapshot,
    {
        self.phase = Phase::Idle;
    }

    /// Runs one whole cycle's publications: each pipeline's outcome lands
    /// on its own values and nowhere else, a failing pipeline keeps its
    /// prior values, and the scheduler is idle again when the trigger
    /// returns.
    pub fn complete_cycle(&mut self, data: &CycleData)
        requires
            old(self).phase is Refreshing,
            old(self).snapshot.wf(),
            (data.pull_requests matches Ok(prs) ==> total_assignments(views_of(prs@)) <= u64::MAX
                && prs@.len() <= u32::MAX),
        ensures
            final(self).phase is Idle,
            final(self).snapshot.wf(),
            (match data.transfers {
                Ok(ts) => {
                    &&& final(self).snapshot.transfers_count == ts@.len()
                    &&& final(self).snapshot.avg_grant.total_dollars == sum_dollars(views_of(ts@))
                    &&& final(self).snapshot.avg_grant.count == ts@.len()
                },
                Err(_) => {
                    &&& final(self).snapshot.transfers_count == old(self).snapshot.transfers_count
                    &&& final(self).snapshot.avg_grant == old(self).snapshot.avg_grant
                },
            }),
            (match data.pull_requests {
                Ok(prs) => {
                    &&& final(self).snapshot.reviewer_stats@ == tally_of(
                        views_of(prs@),
                        State::any,
                    )
                    &&& final(self).snapshot.reviewer_stats_merged@ == tally_of(
                        views_of(prs@),
                        State::merged,
                    )
                    &&& final(self).snapshot.waiting_review == awaiting_count(views_of(prs@))
                },
                Err(_) => {
                    &&& final(self).snapshot.reviewer_stats == old(self).snapshot.reviewer_stats
                    &&& final(self).snapshot.reviewer_stats_merged == old(
                        self,
                    ).snapshot.reviewer_stats_merged
                    &&& final(self).snapshot.waiting_review == old(self).snapshot.waiting_review
                },
            }),
            (match data.approved {
                Ok(n) => final(self).snapshot.approved_verifications == n,
                Err(f) => if f.kind is AuthAbsent {
                    final(self).snapshot.approved_verifications == 0
                } else {
                    final(self).snapshot.approved_verifications == old(
                        self,
                    ).snapshot.approved_verifications
                },
            }),
            (match data.pending {
                Ok(n) => final(self).snapshot.pending_verifications == n,
                Err(f) => if f.kind is AuthAbsent {
                    final(self).snapshot.pending_verifications == 0
                } else {
                    final(self).snapshot.pending_verifications == old(
                        self,
                    ).snapshot.pending_verifications
                },
            }),
    {
        self.publish_transfers(&data.transfers);
        self.publish_reviews(&data.pull_requests);
        self.publish_verifications(AirTableViews::Approved, &data.approved);
        self.publish_verifications(AirTableViews::Pending, &data.pending);
        self.finish_scrape();
    }
}

} // verus!
