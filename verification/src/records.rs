//! The typed records the source adapters decode pages into.

use vstd::prelude::*;

verus! {

/// The views of a record sequence, element by element.
pub open spec fn views_of<R: View>(s: Seq<R>) -> Seq<R::V> {
    s.map_values(|r: R| r@)
}

/// A free-standing count of comments, as some feeds report it.
#[derive(Clone, Copy, Debug)]
pub struct Comment {
    pub count: i32,
}

/// The transaction a bank transfer settles through.
#[derive(Clone, Debug)]
pub struct Transaction {
    pub id: String,
    pub object: String,
    pub href: String,
    pub amount_cents: u64,
    pub memo: String,
    pub date: String,
    pub type_: String,
    pub pending: bool,
}

/// The organization a bank transfer belongs to.
#[derive(Clone, Debug)]
pub struct Organization {
    pub id: String,
    pub object: String,
    pub href: String,
}

/// One outgoing grant transfer, with its settling transaction expanded.
#[derive(Clone, Debug)]
pub struct Transfer {
    pub id: String,
    pub object: String,
    pub href: String,
    pub transaction: Transaction,
    pub organization: Organization,
    pub amount_cents: u64,
    pub date: String,
    pub status: String,
}

/// The state of a pull request. A missing merge timestamp leaves the raw
/// `open`/`closed` value in force; `any` is the query filter that matches
/// every state.
#[allow(non_camel_case_types)]
#[derive(Clone, Copy, Debug, PartialEq, Eq, Structural)]
pub enum State {
    open,
    closed,
    merged,
    any,
}

/// A user assigned to review a pull request.
#[derive(Clone, Debug)]
pub struct Assignees {
    pub login: String,
}

/// A user whose review of a pull request was requested.
#[derive(Clone, Debug)]
pub struct Reviewers {
    pub login: String,
}

/// A label attached to a pull request.
#[derive(Clone, Debug)]
pub struct Label {
    pub name: String,
}

/// One pull request of the review feed.
#[derive(Clone, Debug)]
pub struct PullRequest {
    pub number: u32,
    pub assignees: Vec<Assignees>,
    pub labels: Vec<Label>,
    pub requested_reviewers: Vec<Reviewers>,
    pub state: State,
    pub merged_at: Option<String>,
}

impl PullRequest {
    /// Whether the pull request is still open.
    pub fn is_open(&self) -> (r: bool)
        ensures
            r == (self.state is open),
    {
        self.state == State::open
    }

    /// The merge-timestamp override: a pull request with a merge timestamp
    /// is `merged`, whatever raw state the feed reported; without one the
    /// raw state stands. Every other field is kept as it is.
    pub fn is_merged(self) -> (r: PullRequest)
        ensures
            r.state == (if self.merged_at is Some {
                State::merged
            } else {
                self.state
            }),
            r.number == self.number,
            r.assignees == self.assignees,
            r.labels == self.labels,
            r.requested_reviewers == self.requested_reviewers,
            r.merged_at == self.merged_at,
    {
        let mut pr = self;
        if pr.merged_at.is_some() {
            pr.state = State::merged;
        }
        pr
    }
}

/// The mathematical view of a [`Transaction`]: each text field as its
/// character sequence.
pub struct TransactionModel {
    pub id: Seq<char>,
    pub object: Seq<char>,
    pub href: Seq<char>,
    pub amount_cents: u64,
    pub memo: Seq<char>,
    pub date: Seq<char>,
    pub type_: Seq<char>,
    pub pending: bool,
}

impl View for Transaction {
    type V = TransactionModel;

    open spec fn view(&self) -> TransactionModel {
        TransactionModel {
            id: self.id@,
            object: self.object@,
            href: self.href@,
            amount_cents: self.amount_cents,
            memo: self.memo@,
            date: self.date@,
            type_: self.type_@,
            pending: self.pending,
        }
    }
}

/// The mathematical view of an [`Organization`].
pub struct OrganizationModel {
    pub id: Seq<char>,
    pub object: Seq<char>,
    pub href: Seq<char>,
}

impl View for Organization {
    type V = OrganizationModel;

    open spec fn view(&self) -> OrganizationModel {
        OrganizationModel { id: self.id@, object: self.object@, href: self.href@ }
    }
}

/// The mathematical view of a [`Transfer`].
pub struct TransferModel {
    pub id: Seq<char>,
    pub object: Seq<char>,
    pub href: Seq<char>,
    pub transaction: TransactionModel,
    pub organization: OrganizationModel,
    pub amount_cents: u64,
    pub date: Seq<char>,
    pub status: Seq<char>,
}

impl View for Transfer {
    type V = TransferModel;

    open spec fn view(&self) -> TransferModel {
        TransferModel {
            id: self.id@,
            object: self.object@,
            href: self.href@,
            transaction: self.transaction@,
            organization: self.organization@,
            amount_cents: self.amount_cents,
            date: self.date@,
            status: self.status@,
        }
    }
}

impl View for Assignees {
    /// An assignee is its login.
    type V = Seq<char>;

    open spec fn view(&self) -> Seq<char> {
        self.login@
    }
}

impl View for Reviewers {
    /// A requested user is its login.
    type V = Seq<char>;

    open spec fn view(&self) -> Seq<char> {
        self.login@
    }
}

impl View for Label {
    /// A label is its name.
    type V = Seq<char>;

    open spec fn view(&self) -> Seq<char> {
        self.name@
    }
}

/// The mathematical view of a [`PullRequest`]: logins and label names as
/// character sequences, in their arrival order.
pub struct PullRequestModel {
    pub number: u32,
    pub assignees: Seq<Seq<char>>,
    pub labels: Seq<Seq<char>>,
    pub requested_reviewers: Seq<Seq<char>>,
    pub state: State,
    pub merged_at: Option<Seq<char>>,
}

impl View for PullRequest {
    type V = PullRequestModel;

    open spec fn view(&self) -> PullRequestModel {
        PullRequestModel {
            number: self.number,
            assignees: views_of(self.assignees@),
            labels: views_of(self.labels@),
            requested_reviewers: views_of(self.requested_reviewers@),
            state: self.state,
            merged_at: match self.merged_at {
                Some(s) => Some(s@),
                None => None,
            },
        }
    }
}

/// A record of the form-verification feed. Records of that feed are counted,
/// never inspected, so the type carries nothing.
#[derive(Clone, Copy, Debug)]
pub struct VerificationRecord {
}

impl View for VerificationRecord {
    type V = VerificationRecord;

    open spec fn view(&self) -> VerificationRecord {
        *self
    }
}

/// The two views of the form-verification table, one per count the process
/// exports.
#[derive(Clone, Copy, Debug, PartialEq, Eq, Structural)]
pub enum AirTableViews {
    Pending,
    Approved,
}

impl AirTableViews {
    /// The view name the verification query selects by.
    pub fn view_name(&self) -> (r: &'static str)
        ensures
            *self is Pending ==> r@ == "Pending"@,
            *self is Approved ==> r@ == "Approved"@,
    {
        match self {
            AirTableViews::Pending => "Pending",
            AirTableViews::Approved => "Approved",
        }
    }
}

} // verus!
