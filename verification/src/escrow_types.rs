//! Data structures of the escrow module: the escrow entity, its lifecycle
//! phases, the 2-of-3 approval ballot, and payout instructions.

use vstd::prelude::*;
use vstd::std_specs::cmp::PartialOrdSpec;
use core::cmp::Ordering;
use crate::types::Address;

verus! {

/// Lifecycle phase of an escrow.
///
/// The lifecycle runs Pending, Funded, Released; a Funded escrow can instead
/// branch to Refunded or Disputed, and a Disputed one is resolved to Released
/// or Refunded. Released and Refunded are terminal.
#[derive(Clone, Copy, Debug, PartialEq, Eq, Structural)]
pub enum EscrowStatus {
    Pending,
    Funded,
    Released,
    Refunded,
    Disputed,
}

/// Position of a phase in the declaration order; the comparison operators on
/// `EscrowStatus` go by this rank, so phases reached later in the lifecycle
/// compare greater.
pub open spec fn status_rank(s: EscrowStatus) -> int {
    match s {
        EscrowStatus::Pending => 0,
        EscrowStatus::Funded => 1,
        EscrowStatus::Released => 2,
        EscrowStatus::Refunded => 3,
        EscrowStatus::Disputed => 4,
    }
}

/// The lifecycle's transition relation: exactly the steps some operation of
/// the escrow module may take. No step leads back to an earlier phase, and
/// no step leaves Released or Refunded.
pub open spec fn escrow_step_allowed(from: EscrowStatus, to: EscrowStatus) -> bool {
    ||| (from == EscrowStatus::Pending && to == EscrowStatus::Funded)
    ||| (from == EscrowStatus::Funded && to == EscrowStatus::Released)
    ||| (from == EscrowStatus::Funded && to == EscrowStatus::Refunded)
    ||| (from == EscrowStatus::Funded && to == EscrowStatus::Disputed)
    ||| (from == EscrowStatus::Disputed && to == EscrowStatus::Released)
    ||| (from == EscrowStatus::Disputed && to == EscrowStatus::Refunded)
}

impl EscrowStatus {
    /// The rank of this phase, as executable code.
    pub fn rank(&self) -> (r: u8)
        ensures
            r == status_rank(*self),
    {
        match self {
            EscrowStatus::Pending => 0,
            EscrowStatus::Funded => 1,
            EscrowStatus::Released => 2,
            EscrowStatus::Refunded => 3,
            EscrowStatus::Disputed => 4,
        }
    }
}

impl PartialOrd for EscrowStatus {
    fn partial_cmp(&self, other: &Self) -> (r: Option<Ordering>) {
        let a = self.rank();
        let b = other.rank();
        if a < b {
            Some(Ordering::Less)
        } else if a == b {
            Some(Ordering::Equal)
        } else {
            Some(Ordering::Greater)
        }
    }
}

impl vstd::std_specs::cmp::PartialOrdSpecImpl for EscrowStatus {
    open spec fn obeys_partial_cmp_spec() -> bool {
        true
    }

    open spec fn partial_cmp_spec(&self, other: &Self) -> Option<Ordering> {
        if status_rank(*self) < status_rank(*other) {
            Some(Ordering::Less)
        } else if status_rank(*self) == status_rank(*other) {
            Some(Ordering::Equal)
        } else {
            Some(Ordering::Greater)
        }
    }
}

/// The escrow lifecycle phases are ordered: Pending before Funded, and
/// Funded before each of the three phases a Funded escrow can move to. The
/// transition relation is irreversible: no step re-enters Pending or Funded,
/// no step loops, and no step leaves the terminal phases Released and
/// Refunded — so no phase is ever revisited once left.
pub proof fn lemma_escrow_status_ordering()
    ensures
        EscrowStatus::Pending.partial_cmp_spec(&EscrowStatus::Funded) == Some(Ordering::Less),
        EscrowStatus::Funded.partial_cmp_spec(&EscrowStatus::Released) == Some(Ordering::Less),
        EscrowStatus::Funded.partial_cmp_spec(&EscrowStatus::Refunded) == Some(Ordering::Less),
        EscrowStatus::Funded.partial_cmp_spec(&EscrowStatus::Disputed) == Some(Ordering::Less),
        forall|from: EscrowStatus, to: EscrowStatus|
            #[trigger] escrow_step_allowed(from, to) ==> from != to,
        forall|from: EscrowStatus| !escrow_step_allowed(from, EscrowStatus::Pending),
        forall|from: EscrowStatus|
            #[trigger] escrow_step_allowed(from, EscrowStatus::Funded)
                ==> from == EscrowStatus::Pending,
        forall|to: EscrowStatus| !escrow_step_allowed(EscrowStatus::Released, to),
        forall|to: EscrowStatus| !escrow_step_allowed(EscrowStatus::Refunded, to),
{
}

/// The direction a party's recorded approval points in: pay the beneficiary,
/// or give the deposit back to the depositor.
#[derive(Clone, Copy, Debug, PartialEq, Eq, Structural)]
pub enum ApprovalKind {
    Release,
    Refund,
}

/// The three roles a party can hold in an escrow.
#[derive(Clone, Copy, Debug, PartialEq, Eq, Structural)]
pub enum Role {
    Depositor,
    Beneficiary,
    Arbiter,
}

/// The per-escrow ballot of the 2-of-3 release mechanism: for each role, the
/// direction that role has approved, if any. A role re-voting overwrites its
/// earlier vote, so no role is ever counted twice.
#[derive(Clone, Copy, Debug, PartialEq, Eq)]
pub struct ReleaseApproval {
    pub depositor_vote: Option<ApprovalKind>,
    pub beneficiary_vote: Option<ApprovalKind>,
    pub arbiter_vote: Option<ApprovalKind>,
}

/// A ballot with no recorded votes.
pub open spec fn empty_approval() -> ReleaseApproval {
    ReleaseApproval { depositor_vote: None, beneficiary_vote: None, arbiter_vote: None }
}

/// Whether a ballot holds no votes.
pub open spec fn no_votes(a: ReleaseApproval) -> bool {
    a.depositor_vote is None && a.beneficiary_vote is None && a.arbiter_vote is None
}

/// The vote a ballot records for a role.
pub open spec fn vote_of(a: ReleaseApproval, role: Role) -> Option<ApprovalKind> {
    match role {
        Role::Depositor => a.depositor_vote,
        Role::Beneficiary => a.beneficiary_vote,
        Role::Arbiter => a.arbiter_vote,
    }
}

/// The ballot after `role` votes for `kind`, overwriting any earlier vote by
/// the same role.
pub open spec fn set_vote(a: ReleaseApproval, role: Role, kind: ApprovalKind) -> ReleaseApproval {
    match role {
        Role::Depositor => ReleaseApproval { depositor_vote: Some(kind), ..a },
        Role::Beneficiary => ReleaseApproval { beneficiary_vote: Some(kind), ..a },
        Role::Arbiter => ReleaseApproval { arbiter_vote: Some(kind), ..a },
    }
}

/// A vote touches only the voting role: it records that role's direction
/// and leaves every other role's vote as it was, so switching direction
/// discards only the switching role's earlier vote.
pub proof fn lemma_set_vote(a: ReleaseApproval, role: Role, kind: ApprovalKind)
    ensures
        vote_of(set_vote(a, role, kind), role) == Some(kind),
        forall|other: Role|
            other != role ==> #[trigger] vote_of(set_vote(a, role, kind), other) == vote_of(
                a,
                other,
            ),
{
}

/// How many distinct roles have voted for `kind`.
pub open spec fn vote_count(a: ReleaseApproval, kind: ApprovalKind) -> int {
    (if a.depositor_vote == Some(kind) { 1int } else { 0int })
        + (if a.beneficiary_vote == Some(kind) { 1int } else { 0int })
        + (if a.arbiter_vote == Some(kind) { 1int } else { 0int })
}

/// One vote is never enough: from an empty ballot, a single role's vote
/// brings the count for its direction to exactly one, and the same role
/// voting the same way again leaves it there. Only a second, distinct role
/// can reach the threshold of two.
pub proof fn lemma_single_role_not_enough(a: ReleaseApproval, role: Role, kind: ApprovalKind)
    requires
        no_votes(a),
    ensures
        vote_count(set_vote(a, role, kind), kind) == 1,
        vote_count(set_vote(set_vote(a, role, kind), role, kind), kind) == 1,
{
}

/// A security-deposit escrow.
#[derive(Debug)]
pub struct Escrow {
    pub id: [u8; 32],
    pub depositor: Address,
    pub beneficiary: Address,
    pub arbiter: Address,
    pub amount: i128,
    pub token: Address,
    pub status: EscrowStatus,
    pub created_at: u64,
    pub dispute_reason: Option<String>,
}

/// Well-formedness of an escrow: a positive amount, and three pairwise
/// distinct parties, so that no single identity can hold two of the three
/// roles of the release mechanism.
pub open spec fn escrow_wf(e: Escrow) -> bool {
    &&& e.amount > 0
    &&& e.depositor != e.beneficiary
    &&& e.depositor != e.arbiter
    &&& e.beneficiary != e.arbiter
}

/// The role `caller` holds in `e`, if any.
pub open spec fn role_of(e: Escrow, caller: Address) -> Option<Role> {
    if caller == e.depositor {
        Some(Role::Depositor)
    } else if caller == e.beneficiary {
        Some(Role::Beneficiary)
    } else if caller == e.arbiter {
        Some(Role::Arbiter)
    } else {
        None
    }
}

/// An instruction to move custodied funds out to a party. The core decides
/// payouts; the host's token collaborator executes them.
#[derive(Clone, Copy, Debug, PartialEq, Eq, Structural)]
pub struct Payout {
    pub to: Address,
    pub amount: i128,
    pub token: Address,
}

/// The arbiter's decision on a disputed escrow.
#[derive(Clone, Copy, Debug, PartialEq, Eq, Structural)]
pub enum ResolutionOutcome {
    /// Pay the full amount to the beneficiary.
    ReleaseToBeneficiary,
    /// Return the full amount to the depositor.
    RefundToDepositor,
    /// Pay the carried amount to the beneficiary and the rest back to the
    /// depositor.
    Split(i128),
}

} // verus!
