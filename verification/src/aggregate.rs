//! The aggregators: counts, the exact grant average, and per-identifier
//! tallies.
//!
//! An average is kept exact as a sum and a count; the division is left to
//! the exporter, with a zero count standing for the zero average. A tally
//! maps each identifier observed in the current cycle to its count;
//! identifiers not observed are absent, which means zero — nothing is
//! carried over from an earlier cycle.

use vstd::prelude::*;

use crate::records::{views_of, PullRequest, PullRequestModel, State, Transfer, TransferModel};
use crate::transfers::{filter_transfers, lemma_ceiling_excludes};

verus! {

/// The whole dollars of a transfer sequence: each amount in minor units
/// divided by one hundred, truncated, then summed.
pub open spec fn sum_dollars(s: Seq<TransferModel>) -> int
    decreases s.len(),
{
    if s.len() == 0 {
        0
    } else {
        sum_dollars(s.drop_last()) + s.last().amount_cents / 100
    }
}

proof fn lemma_sum_dollars_bound(s: Seq<TransferModel>)
    ensures
        0 <= sum_dollars(s) <= s.len() * ((u64::MAX as int) / 100),
    decreases s.len(),
{
    if s.len() > 0 {
        lemma_sum_dollars_bound(s.drop_last());
        assert((s.len() - 1) * ((u64::MAX as int) / 100) + ((u64::MAX as int) / 100) == s.len() * (
        (u64::MAX as int) / 100)) by (nonlinear_arith);
    }
}

/// An exact average: the summed whole dollars and the record count. The
/// value it denotes is the quotient of the two; a zero count denotes the
/// zero average, never a division fault.
#[derive(Clone, Copy, Debug, PartialEq, Eq, Structural)]
pub struct GrantAverage {
    pub total_dollars: u128,
    pub count: u64,
}

impl GrantAverage {
    /// The average of no records at all: the defined zero value.
    pub open spec fn zero_spec() -> GrantAverage {
        GrantAverage { total_dollars: 0, count: 0 }
    }

    /// The defined zero average.
    pub fn zero() -> (r: GrantAverage)
        ensures
            r == GrantAverage::zero_spec(),
    {
        GrantAverage { total_dollars: 0, count: 0 }
    }
}

/// Counts the transfers of a cycle's record set.
pub fn count_transfers(transfers: &Vec<Transfer>) -> (n: usize)
    ensures
        n == transfers@.len(),
{
    transfers.len()
}

/// The exact average grant: the whole-dollar sum over all transfers and
/// their count. An empty record set gives the defined zero average.
pub fn avg_grant(transfers: &Vec<Transfer>) -> (r: GrantAverage)
    requires
        transfers@.len() <= u64::MAX,
    ensures
        r.total_dollars == sum_dollars(views_of(transfers@)),
        r.count == transfers@.len(),
        transfers@.len() == 0 ==> r == GrantAverage::zero_spec(),
{
    let models = Ghost(views_of(transfers@));
    let mut total: u128 = 0;
    let mut i: usize = 0;
    while i < transfers.len()
        invariant
            i <= transfers@.len(),
            transfers@.len() <= u64::MAX,
            models@ == views_of(transfers@),
            models@.len() == transfers@.len(),
            total == sum_dollars(models@.take(i as int)),
        decreases transfers@.len() - i,
    {
        proof {
            lemma_sum_dollars_bound(models@.take(i as int));
            assert(models@.take(i as int).len() * ((u64::MAX as int) / 100) <= (u64::MAX as int) * (
            (u64::MAX as int) / 100)) by (nonlinear_arith)
                requires
                    0 <= models@.take(i as int).len() <= u64::MAX as int,
            ;
            assert((u64::MAX as int) * ((u64::MAX as int) / 100) + (u64::MAX as int) / 100
                < u128::MAX as int) by (nonlinear_arith);
            assert(models@.take(i as int + 1).drop_last() =~= models@.take(i as int));
            assert(models@.take(i as int + 1).last() == models@[i as int]);
            assert(models@[i as int] == transfers@[i as int]@);
        }
        let dollars = transfers[i].amount_cents / 100;
        total = total + dollars as u128;
        i = i + 1;
    }
    proof {
        assert(models@.take(models@.len() as int) =~= models@);
    }
    GrantAverage { total_dollars: total, count: transfers.len() as u64 }
}

/// The map a key sequence folds into: each occurrence raises its key's
/// count by one, a fresh key starting from one.
pub open spec fn bump(m: Map<Seq<char>, nat>, key: Seq<char>) -> Map<Seq<char>, nat> {
    if m.dom().contains(key) {
        m.insert(key, (m[key] + 1) as nat)
    } else {
        m.insert(key, 1nat)
    }
}

/// A tally of string identifiers: the counter map one refresh cycle
/// builds, holding exactly the identifiers observed in that cycle. An
/// absent identifier counts as zero.
#[derive(Debug)]
pub struct Tally {
    entries: Vec<(String, u64)>,
}

/// The counter map an entry list denotes.
pub open spec fn entries_map(s: Seq<(String, u64)>) -> Map<Seq<char>, nat>
    decreases s.len(),
{
    if s.len() == 0 {
        Map::empty()
    } else {
        entries_map(s.drop_last()).insert(s.last().0@, s.last().1 as nat)
    }
}

/// No identifier appears under two entries.
pub open spec fn distinct_keys(s: Seq<(String, u64)>) -> bool {
    forall|i: int, j: int| 0 <= i < j < s.len() ==> s[i].0@ != s[j].0@
}

proof fn lemma_key_found(s: Seq<(String, u64)>, key: Seq<char>, i: int)
    requires
        distinct_keys(s),
        0 <= i < s.len(),
        s[i].0@ == key,
    ensures
        entries_map(s).dom().contains(key),
        entries_map(s)[key] == s[i].1 as nat,
    decreases s.len(),
{
    if i < s.len() - 1 {
        lemma_key_found(s.drop_last(), key, i);
        assert(s.last().0@ != key);
    }
}

proof fn lemma_key_absent(s: Seq<(String, u64)>, key: Seq<char>)
    requires
        forall|i: int| 0 <= i < s.len() ==> s[i].0@ != key,
    ensures
        !entries_map(s).dom().contains(key),
    decreases s.len(),
{
    if s.len() > 0 {
        lemma_key_absent(s.drop_last(), key);
    }
}

proof fn lemma_update_key(s: Seq<(String, u64)>, i: int, k: String, c: u64)
    requires
        distinct_keys(s),
        0 <= i < s.len(),
        k == s[i].0,
    ensures
        entries_map(s.update(i, (k, c))) == entries_map(s).insert(s[i].0@, c as nat),
    decreases s.len(),
{
    let s2 = s.update(i, (k, c));
    if i == s.len() - 1 {
        assert(s2.drop_last() =~= s.drop_last());
        assert(entries_map(s.drop_last()).insert(s[i].0@, s[i].1 as nat).insert(s[i].0@, c as nat)
            =~= entries_map(s.drop_last()).insert(s[i].0@, c as nat));
    } else {
        assert(s2.drop_last() =~= s.drop_last().update(i, (k, c)));
        lemma_update_key(s.drop_last(), i, k, c);
        assert(s.last().0@ != s[i].0@);
        assert(entries_map(s.drop_last()).insert(s[i].0@, c as nat).insert(
            s.last().0@,
            s.last().1 as nat,
        ) =~= entries_map(s.drop_last()).insert(s.last().0@, s.last().1 as nat).insert(
            s[i].0@,
            c as nat,
        ));
        assert(s2.last() == s.last());
    }
}

impl View for Tally {
    type V = Map<Seq<char>, nat>;

    closed spec fn view(&self) -> Map<Seq<char>, nat> {
        entries_map(self.entries@)
    }
}

impl Tally {
    /// Each identifier is held by at most one entry.
    pub closed spec fn wf(&self) -> bool {
        distinct_keys(self.entries@)
    }

    /// An empty tally: every identifier implicitly zero.
    pub fn new() -> (r: Tally)
        ensures
            r.wf(),
            r@ == Map::<Seq<char>, nat>::empty(),
    {
        Tally { entries: Vec::new() }
    }

    /// The count of an identifier; zero when it was not observed.
    pub fn get(&self, key: &str) -> (n: u64)
        requires
            self.wf(),
        ensures
            self@.dom().contains(key@) ==> n == self@[key@],
            !self@.dom().contains(key@) ==> n == 0,
    {
        let owned: String = key.to_owned();
        let mut i: usize = 0;
        while i < self.entries.len()
            invariant
                self.wf(),
                i <= self.entries@.len(),
                owned@ == key@,
                forall|j: int| 0 <= j < i ==> self.entries@[j].0@ != key@,
            decreases self.entries@.len() - i,
        {
            if self.entries[i].0 == owned {
                proof {
                    lemma_key_found(self.entries@, key@, i as int);
                }
                return self.entries[i].1;
            }
            i = i + 1;
        }
        proof {
            lemma_key_absent(self.entries@, key@);
        }
        0
    }

    /// Raises an identifier's count by one, from zero when it was not yet
    /// observed.
    pub fn increment(&mut self, key: &str)
        requires
            old(self).wf(),
            old(self)@.dom().contains(key@) ==> old(self)@[key@] < u64::MAX,
        ensures
            final(self).wf(),
            final(self)@ == bump(old(self)@, key@),
    {
        let owned: String = key.to_owned();
        let mut i: usize = 0;
        while i < self.entries.len()
            invariant
                self.entries@ == old(self).entries@,
                distinct_keys(self.entries@),
                entries_map(self.entries@).dom().contains(key@) ==> entries_map(self.entries@)[key@]
                    < u64::MAX,
                i <= self.entries@.len(),
                owned@ == key@,
                forall|j: int| 0 <= j < i ==> self.entries@[j].0@ != key@,
            decreases self.entries@.len() - i,
        {
            if self.entries[i].0 == owned {
                proof {
                    lemma_key_found(self.entries@, key@, i as int);
                }
                let count = self.entries[i].1;
                let new_count = count + 1;
                let existing_key = self.entries[i].0.clone();
                proof {
                    lemma_update_key(self.entries@, i as int, existing_key, new_count);
                }
                self.entries.set(i, (existing_key, new_count));
                proof {
                    assert forall|a: int, b: int|
                        0 <= a < b < self.entries@.len() implies self.entries@[a].0@
                        != self.entries@[b].0@ by {
                        assert(old(self).entries@[a].0@ != old(self).entries@[b].0@);
                    }
                }
                return ;
            }
            i = i + 1;
        }
        proof {
            lemma_key_absent(self.entries@, key@);
            assert(self.entries@.push((owned, 1u64)).drop_last() =~= self.entries@);
        }
        self.entries.push((owned, 1));
        proof {
            assert forall|a: int, b: int|
                0 <= a < b < self.entries@.len() implies self.entries@[a].0@
                != self.entries@[b].0@ by {
                if b < self.entries@.len() - 1 {
                    assert(old(self).entries@[a].0@ != old(self).entries@[b].0@);
                } else {
                    assert(old(self).entries@[a].0@ != key@);
                }
            }
        }
    }

    /// The observed identifiers with their counts, in first-observation
    /// order.
    pub fn pairs(&self) -> (r: &Vec<(String, u64)>)
        ensures
            entries_map(r@) == self@,
            self.wf() ==> forall|i: int|
                0 <= i < r@.len() ==> self@.dom().contains(r@[i].0@) && self@[r@[i].0@] == r@[i].1
                    as nat,
    {
        proof {
            if self.wf() {
                assert forall|i: int| 0 <= i < self.entries@.len() implies self@.dom().contains(
                    self.entries@[i].0@,
                ) && self@[self.entries@[i].0@] == self.entries@[i].1 as nat by {
                    lemma_key_found(self.entries@, self.entries@[i].0@, i);
                }
            }
        }
        &self.entries
    }

    /// Makes an independent copy with the same counts.
    pub fn duplicate(&self) -> (r: Tally)
        ensures
            r@ == self@,
            r.wf() == self.wf(),
    {
        let mut out: Vec<(String, u64)> = Vec::new();
        let mut i: usize = 0;
        while i < self.entries.len()
            invariant
                i <= self.entries@.len(),
                out@ == self.entries@.take(i as int),
            decreases self.entries@.len() - i,
        {
            let k = self.entries[i].0.clone();
            let c = self.entries[i].1;
            proof {
                assert(self.entries@.take(i as int).push((k, c)) =~= self.entries@.take(
                    i as int + 1,
                ));
            }
            out.push((k, c));
            i = i + 1;
        }
        proof {
            assert(self.entries@.take(self.entries@.len() as int) =~= self.entries@);
        }
        Tally { entries: out }
    }
}

/// A transfer above the ceiling reaches neither the count nor the sum the
/// average is made of.
pub proof fn lemma_ceiling_excluded_from_aggregates(
    s: Seq<TransferModel>,
    t: TransferModel,
    ceiling_cents: u64,
)
    requires
        t.amount_cents > ceiling_cents,
    ensures
        filter_transfers(s.push(t), ceiling_cents).len() == filter_transfers(s, ceiling_cents).len(),
        sum_dollars(filter_transfers(s.push(t), ceiling_cents)) == sum_dollars(
            filter_transfers(s, ceiling_cents),
        ),
{
    lemma_ceiling_excludes(s, t, ceiling_cents);
}

/// Whether a pull request takes part in the assignee tally of a state
/// filter: it must carry the submission tag as its first label, and its
/// own state must pass the filter.
pub open spec fn pr_participates(pr: PullRequestModel, state: State) -> bool {
    &&& pr.labels.len() > 0
    &&& pr.labels[0] == "Submission"@
    &&& (state is any || pr.state == state)
}

/// The map a login sequence folds into, starting from `m`: one bump per
/// occurrence, in order.
pub open spec fn add_logins(m: Map<Seq<char>, nat>, logins: Seq<Seq<char>>) -> Map<Seq<char>, nat>
    decreases logins.len(),
{
    if logins.len() == 0 {
        m
    } else {
        bump(add_logins(m, logins.drop_last()), logins.last())
    }
}

/// The assignee tally of a record set under a state filter: each
/// participating pull request bumps the count of each of its assignees; a
/// pull request with none contributes to no key.
pub open spec fn tally_of(prs: Seq<PullRequestModel>, state: State) -> Map<Seq<char>, nat>
    decreases prs.len(),
{
    if prs.len() == 0 {
        Map::empty()
    } else {
        let m = tally_of(prs.drop_last(), state);
        if pr_participates(prs.last(), state) {
            add_logins(m, prs.last().assignees)
        } else {
            m
        }
    }
}

/// How many assignee entries a record set carries in all; no tally count
/// can exceed it.
pub open spec fn total_assignments(prs: Seq<PullRequestModel>) -> int
    decreases prs.len(),
{
    if prs.len() == 0 {
        0
    } else {
        total_assignments(prs.drop_last()) + prs.last().assignees.len()
    }
}

/// Every count of the map is at most `b`.
pub open spec fn map_bounded(m: Map<Seq<char>, nat>, b: int) -> bool {
    forall|k: Seq<char>| #[trigger] m.dom().contains(k) ==> m[k] <= b
}

proof fn lemma_bump_bounded(m: Map<Seq<char>, nat>, key: Seq<char>, b: int)
    requires
        map_bounded(m, b),
        b >= 0,
    ensures
        map_bounded(bump(m, key), b + 1),
{
}

proof fn lemma_add_logins_bounded(m: Map<Seq<char>, nat>, logins: Seq<Seq<char>>, b: int)
    requires
        map_bounded(m, b),
        b >= 0,
    ensures
        map_bounded(add_logins(m, logins), b + logins.len()),
    decreases logins.len(),
{
    if logins.len() > 0 {
        lemma_add_logins_bounded(m, logins.drop_last(), b);
        lemma_bump_bounded(
            add_logins(m, logins.drop_last()),
            logins.last(),
            b + logins.len() - 1,
        );
    }
}

proof fn lemma_total_assignments_nonneg(prs: Seq<PullRequestModel>)
    ensures
        total_assignments(prs) >= 0,
    decreases prs.len(),
{
    if prs.len() > 0 {
        lemma_total_assignments_nonneg(prs.drop_last());
    }
}

/// No identifier's tally count can exceed the total number of assignee
/// entries of the record set.
pub proof fn lemma_tally_bounded(prs: Seq<PullRequestModel>, state: State)
    ensures
        map_bounded(tally_of(prs, state), total_assignments(prs)),
    decreases prs.len(),
{
    if prs.len() > 0 {
        lemma_tally_bounded(prs.drop_last(), state);
        lemma_total_assignments_nonneg(prs.drop_last());
        if pr_participates(prs.last(), state) {
            lemma_add_logins_bounded(
                tally_of(prs.drop_last(), state),
                prs.last().assignees,
                total_assignments(prs.drop_last()),
            );
        }
    }
}

proof fn lemma_total_assignments_prefix(prs: Seq<PullRequestModel>, i: int)
    requires
        0 <= i <= prs.len(),
    ensures
        total_assignments(prs.take(i)) <= total_assignments(prs),
    decreases prs.len() - i,
{
    if i == prs.len() {
        assert(prs.take(i) =~= prs);
    } else {
        assert(prs.take(i + 1).drop_last() =~= prs.take(i));
        assert(prs.take(i + 1).last() == prs[i]);
        lemma_total_assignments_prefix(prs, i + 1);
    }
}

/// Folds a record set into the assignee tally of a state filter: each
/// pull request whose first label is the submission tag and whose state
/// passes the filter bumps the count of each of its assignees, in record
/// order. Non-matching records are skipped, never counted.
pub fn parse_reviewer_stats(prs: &Vec<PullRequest>, state: State) -> (r: Tally)
    requires
        total_assignments(views_of(prs@)) <= u64::MAX,
    ensures
        r.wf(),
        r@ == tally_of(views_of(prs@), state),
{
    let ghost models = views_of(prs@);
    let mut tally = Tally::new();
    let mut i: usize = 0;
    while i < prs.len()
        invariant
            i <= prs@.len(),
            models == views_of(prs@),
            models.len() == prs@.len(),
            total_assignments(models) <= u64::MAX,
            tally.wf(),
            tally@ == tally_of(models.take(i as int), state),
        decreases prs@.len() - i,
    {
        proof {
            assert(models.take(i as int + 1).drop_last() =~= models.take(i as int));
            assert(models.take(i as int + 1).last() == models[i as int]);
            assert(models[i as int] == prs@[i as int]@);
        }
        let pr = &prs[i];
        let participates: bool = if pr.labels.len() > 0 {
            let submission: String = "Submission".to_owned();
            if pr.labels[0].name == submission {
                match state {
                    State::any => true,
                    _ => pr.state == state,
                }
            } else {
                false
            }
        } else {
            false
        };
        proof {
            assert(pr@.labels.len() == pr.labels@.len());
            if pr.labels@.len() > 0 {
                assert(pr@.labels[0] == pr.labels@[0]@);
            }
            assert(participates == pr_participates(models[i as int], state));
        }
        if participates {
            proof {
                lemma_tally_bounded(models.take(i as int), state);
                lemma_total_assignments_prefix(models, i as int + 1);
                lemma_total_assignments_nonneg(models.take(i as int));
            }
            let mut j: usize = 0;
            while j < pr.assignees.len()
                invariant
                    i < prs@.len(),
                    models == views_of(prs@),
                    models.len() == prs@.len(),
                    total_assignments(models) <= u64::MAX,
                    pr == &prs[i as int],
                    models[i as int] == pr@,
                    j <= pr.assignees@.len(),
                    pr@.assignees == views_of(pr.assignees@),
                    pr@.assignees.len() == pr.assignees@.len(),
                    tally.wf(),
                    tally@ == add_logins(
                        tally_of(models.take(i as int), state),
                        pr@.assignees.take(j as int),
                    ),
                    map_bounded(tally@, total_assignments(models.take(i as int)) + j),
                    total_assignments(models.take(i as int)) >= 0,
                    total_assignments(models.take(i as int)) + pr.assignees@.len()
                        <= total_assignments(models),
                decreases pr.assignees@.len() - j,
            {
                proof {
                    assert(pr@.assignees.take(j as int + 1).drop_last() =~= pr@.assignees.take(
                        j as int,
                    ));
                    assert(pr@.assignees.take(j as int + 1).last() == pr@.assignees[j as int]);
                    assert(pr@.assignees[j as int] == pr.assignees@[j as int]@);
                    lemma_bump_bounded(
                        tally@,
                        pr.assignees@[j as int]@,
                        total_assignments(models.take(i as int)) + j,
                    );
                }
                tally.increment(pr.assignees[j].login.as_str());
                j = j + 1;
            }
            proof {
                assert(pr@.assignees.take(pr@.assignees.len() as int) =~= pr@.assignees);
            }
        }
        i = i + 1;
    }
    proof {
        assert(models.take(models.len() as int) =~= models);
    }
    tally
}

/// Whether a pull request is waiting for a review: still open, tagged as
/// a submission or a development change, and with nobody assigned and
/// nobody requested.
pub open spec fn pr_awaiting(pr: PullRequestModel) -> bool {
    &&& pr.labels.len() > 0
    &&& (pr.labels[0] == "Submission"@ || pr.labels[0] == "Dev"@)
    &&& pr.assignees.len() == 0
    &&& pr.requested_reviewers.len() == 0
    &&& pr.state is open
}

/// How many records of a set are waiting for a review.
pub open spec fn awaiting_count(prs: Seq<PullRequestModel>) -> int
    decreases prs.len(),
{
    if prs.len() == 0 {
        0
    } else {
        awaiting_count(prs.drop_last()) + if pr_awaiting(prs.last()) {
            1int
        } else {
            0int
        }
    }
}

/// Counts the pull requests waiting for a review.
pub fn awaiting_reviews(prs: &Vec<PullRequest>) -> (n: u32)
    requires
        prs@.len() <= u32::MAX,
    ensures
        n == awaiting_count(views_of(prs@)),
{
    let ghost models = views_of(prs@);
    let mut n: u32 = 0;
    let mut i: usize = 0;
    while i < prs.len()
        invariant
            i <= prs@.len(),
            prs@.len() <= u32::MAX,
            models == views_of(prs@),
            models.len() == prs@.len(),
            n == awaiting_count(models.take(i as int)),
            n <= i,
        decreases prs@.len() - i,
    {
        proof {
            assert(models.take(i as int + 1).drop_last() =~= models.take(i as int));
            assert(models.take(i as int + 1).last() == models[i as int]);
            assert(models[i as int] == prs@[i as int]@);
        }
        let pr = &prs[i];
        let tagged: bool = if pr.labels.len() > 0 {
            let submission: String = "Submission".to_owned();
            let dev: String = "Dev".to_owned();
            pr.labels[0].name == submission || pr.labels[0].name == dev
        } else {
            false
        };
        proof {
            assert(pr@.labels.len() == pr.labels@.len());
            if pr.labels@.len() > 0 {
                assert(pr@.labels[0] == pr.labels@[0]@);
            }
            assert(pr@.assignees.len() == pr.assignees@.len());
            assert(pr@.requested_reviewers.len() == pr.requested_reviewers@.len());
        }
        if tagged && pr.assignees.len() == 0 && pr.requested_reviewers.len() == 0 && pr.is_open() {
            n = n + 1;
        }
        i = i + 1;
    }
    proof {
        assert(models.take(models.len() as int) =~= models);
    }
    n
}

/// A pull request with no labels contributes to no per-label tally and is
/// excluded from the readiness count.
pub proof fn lemma_unlabeled_excluded(
    prs: Seq<PullRequestModel>,
    pr: PullRequestModel,
    state: State,
)
    requires
        pr.labels.len() == 0,
    ensures
        tally_of(prs.push(pr), state) == tally_of(prs, state),
        awaiting_count(prs.push(pr)) == awaiting_count(prs),
{
    assert(prs.push(pr).drop_last() =~= prs);
}

} // verus!
