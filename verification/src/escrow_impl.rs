//! The escrow registry: creation, funding, and the 2-of-3 multi-signature
//! release/refund mechanism, with dispute escalation and arbitration
//! delegated to the dispute handler.
//!
//! The registry holds the persisted escrows and their ballots as in-memory
//! state. The host wraps each operation in one atomic transaction, verifies
//! the caller's authorization beforehand, and executes the token movements
//! (the deposit into custody, and the payout instructions handed back).

use vstd::prelude::*;
use crate::access::AccessControl;
use crate::dispute::DisputeHandler;
use crate::errors::EscrowError;
use crate::escrow_types::{
    empty_approval, escrow_step_allowed, escrow_wf, no_votes, role_of, set_vote, vote_count,
    ApprovalKind, Escrow, EscrowStatus, Payout, ReleaseApproval, ResolutionOutcome, Role,
};
use crate::types::Address;

verus! {

/// The ballot invariant held alongside each escrow: votes are only ever
/// recorded for a Funded escrow, and while the escrow is Funded neither
/// direction has reached the threshold of two — two concurring votes
/// execute immediately and clear the ballot.
pub open spec fn approval_ok(e: Escrow, a: ReleaseApproval) -> bool {
    &&& e.status != EscrowStatus::Funded ==> no_votes(a)
    &&& vote_count(a, ApprovalKind::Release) <= 1
    &&& vote_count(a, ApprovalKind::Refund) <= 1
}

/// How one approval call changes one escrow and its ballot, and what it
/// returns. A vote by a role overwrites that role's earlier vote; once two
/// distinct roles have voted the same direction, the payout executes, the
/// escrow reaches its terminal phase, and the ballot is cleared.
pub open spec fn approve_transition(
    pre_e: Escrow,
    pre_a: ReleaseApproval,
    caller: Address,
    kind: ApprovalKind,
    r: Result<Option<Payout>, EscrowError>,
    post_e: Escrow,
    post_a: ReleaseApproval,
) -> bool {
    match r {
        Ok(p) => match role_of(pre_e, caller) {
            None => false,
            Some(role) => {
                let voted = set_vote(pre_a, role, kind);
                &&& pre_e.status == EscrowStatus::Funded
                &&& if vote_count(voted, kind) >= 2 {
                    &&& p == Some(
                        Payout {
                            to: if kind == ApprovalKind::Release {
                                pre_e.beneficiary
                            } else {
                                pre_e.depositor
                            },
                            amount: pre_e.amount,
                            token: pre_e.token,
                        },
                    )
                    &&& post_e == (Escrow {
                        status: if kind == ApprovalKind::Release {
                            EscrowStatus::Released
                        } else {
                            EscrowStatus::Refunded
                        },
                        ..pre_e
                    })
                    &&& post_a == empty_approval()
                } else {
                    &&& p is None
                    &&& post_e == pre_e
                    &&& post_a == voted
                }
            },
        },
        Err(e) => {
            &&& post_e == pre_e
            &&& post_a == pre_a
            &&& ({
                ||| (e == EscrowError::InvalidSigner && role_of(pre_e, caller) is None)
                ||| (e == EscrowError::InvalidState && role_of(pre_e, caller) is Some
                    && pre_e.status != EscrowStatus::Funded)
            })
        },
    }
}

/// Every status change the approval transition makes is an allowed
/// lifecycle step: a reached threshold moves Funded to Released or
/// Refunded, and nothing else moves at all.
pub proof fn lemma_approve_step_allowed(
    pre_e: Escrow,
    pre_a: ReleaseApproval,
    caller: Address,
    kind: ApprovalKind,
    r: Result<Option<Payout>, EscrowError>,
    post_e: Escrow,
    post_a: ReleaseApproval,
)
    requires
        approve_transition(pre_e, pre_a, caller, kind, r, post_e, post_a),
        post_e.status != pre_e.status,
    ensures
        escrow_step_allowed(pre_e.status, post_e.status),
{
}

/// How many distinct roles the ballot records for `kind`, as executable
/// code.
fn count_votes(a: &ReleaseApproval, kind: ApprovalKind) -> (n: u32)
    ensures
        n == vote_count(*a, kind),
{
    let mut n: u32 = 0;
    match a.depositor_vote {
        Some(k) => if k == kind {
            n = n + 1;
        },
        None => {},
    }
    match a.beneficiary_vote {
        Some(k) => if k == kind {
            n = n + 1;
        },
        None => {},
    }
    match a.arbiter_vote {
        Some(k) => if k == kind {
            n = n + 1;
        },
        None => {},
    }
    n
}

/// One approval call against a single escrow and its ballot.
fn approve_escrow(
    e: &mut Escrow,
    a: &mut ReleaseApproval,
    caller: &Address,
    kind: ApprovalKind,
) -> (r: Result<Option<Payout>, EscrowError>)
    requires
        escrow_wf(*old(e)),
        approval_ok(*old(e), *old(a)),
    ensures
        escrow_wf(*final(e)),
        approval_ok(*final(e), *final(a)),
        approve_transition(*old(e), *old(a), *caller, kind, r, *final(e), *final(a)),
{
    match AccessControl::is_party(e, caller) {
        Err(err) => {
            return Err(err);
        },
        Ok(()) => {},
    }
    if !matches!(e.status, EscrowStatus::Funded) {
        return Err(EscrowError::InvalidState);
    }
    let role: Role = if e.depositor == *caller {
        Role::Depositor
    } else if e.beneficiary == *caller {
        Role::Beneficiary
    } else {
        Role::Arbiter
    };
    match role {
        Role::Depositor => {
            a.depositor_vote = Some(kind);
        },
        Role::Beneficiary => {
            a.beneficiary_vote = Some(kind);
        },
        Role::Arbiter => {
            a.arbiter_vote = Some(kind);
        },
    }
    let n = count_votes(a, kind);
    if n >= 2 {
        let to: Address = match kind {
            ApprovalKind::Release => e.beneficiary,
            ApprovalKind::Refund => e.depositor,
        };
        let p = Payout { to, amount: e.amount, token: e.token };
        e.status = match kind {
            ApprovalKind::Release => EscrowStatus::Released,
            ApprovalKind::Refund => EscrowStatus::Refunded,
        };
        *a = ReleaseApproval {
            depositor_vote: None,
            beneficiary_vote: None,
            arbiter_vote: None,
        };
        Ok(Some(p))
    } else {
        Ok(None)
    }
}

/// Whether two escrow identifiers hold the same bytes.
fn ids_equal(a: &[u8; 32], b: &[u8; 32]) -> (r: bool)
    ensures
        r == (a@ == b@),
{
    let mut i: usize = 0;
    while i < 32
        invariant
            i <= 32,
            forall|j: int| 0 <= j < i ==> a@[j] == b@[j],
        decreases 32 - i,
    {
        if a[i] != b[i] {
            return false;
        }
        i += 1;
    }
    proof {
        assert(a@ =~= b@);
    }
    true
}

/// Copies an escrow, field for field.
fn duplicate_escrow(e: &Escrow) -> (r: Escrow)
    ensures
        r == *e,
{
    Escrow {
        id: e.id,
        depositor: e.depositor,
        beneficiary: e.beneficiary,
        arbiter: e.arbiter,
        amount: e.amount,
        token: e.token,
        status: e.status,
        created_at: e.created_at,
        dispute_reason: match &e.dispute_reason {
            Some(s) => Some(s.clone()),
            None => None,
        },
    }
}

/// The escrow registry.
pub struct EscrowContract {
    escrows: Vec<Escrow>,
    approvals: Vec<ReleaseApproval>,
}

impl EscrowContract {
    /// The registered escrows, in creation order.
    pub closed spec fn escrows_seq(self) -> Seq<Escrow> {
        self.escrows@
    }

    /// The ballots, one alongside each escrow.
    pub closed spec fn approvals_seq(self) -> Seq<ReleaseApproval> {
        self.approvals@
    }

    /// Well-formedness: a ballot alongside each escrow, every escrow
    /// well-formed, identifiers distinct, and every ballot within the
    /// approval invariant.
    pub open spec fn wf(self) -> bool {
        &&& self.approvals_seq().len() == self.escrows_seq().len()
        &&& forall|i: int|
            0 <= i < self.escrows_seq().len() ==> escrow_wf(#[trigger] self.escrows_seq()[i])
        &&& forall|i: int, j: int|
            #![trigger self.escrows_seq()[i], self.escrows_seq()[j]]
            0 <= i < self.escrows_seq().len() && 0 <= j < self.escrows_seq().len() && i != j
                ==> self.escrows_seq()[i].id@ != self.escrows_seq()[j].id@
        &&& forall|i: int|
            0 <= i < self.escrows_seq().len() ==> approval_ok(
                self.escrows_seq()[i],
                #[trigger] self.approvals_seq()[i],
            )
    }

    /// Whether some registered escrow carries this identifier.
    pub open spec fn has_escrow_spec(self, id: Seq<u8>) -> bool {
        exists|i: int|
            0 <= i < self.escrows_seq().len() && (#[trigger] self.escrows_seq()[i]).id@ == id
    }

    /// The position the registry resolves this identifier to.
    pub open spec fn escrow_index(self, id: Seq<u8>) -> int {
        choose|i: int|
            0 <= i < self.escrows_seq().len() && (#[trigger] self.escrows_seq()[i]).id@ == id
    }

    /// The registered escrow carrying this identifier.
    pub open spec fn escrow_spec(self, id: Seq<u8>) -> Escrow {
        self.escrows_seq()[self.escrow_index(id)]
    }

    /// With distinct identifiers, any position holding `id` is the
    /// position the registry resolves `id` to.
    pub proof fn lemma_escrow_index(self, id: Seq<u8>, i: int)
        requires
            self.wf(),
            0 <= i < self.escrows_seq().len(),
            self.escrows_seq()[i].id@ == id,
        ensures
            self.has_escrow_spec(id),
            self.escrow_index(id) == i,
    {
        assert(self.has_escrow_spec(id));
        let j = self.escrow_index(id);
        if j != i {
            assert(self.escrows_seq()[j].id@ == id);
            assert(false);
        }
    }

    /// An empty registry.
    pub fn new() -> (r: EscrowContract)
        ensures
            r.wf(),
            r.escrows_seq().len() == 0,
    {
        EscrowContract { escrows: Vec::new(), approvals: Vec::new() }
    }

    /// Rebuilds a registry from persisted escrows and ballots, accepting
    /// exactly the states the registry itself produces: one ballot per
    /// escrow, well-formed escrows, distinct identifiers, and ballots
    /// within the approval invariant.
    pub fn from_parts(escrows: Vec<Escrow>, approvals: Vec<ReleaseApproval>) -> (r: Option<
        EscrowContract,
    >)
        ensures
            match r {
                Some(c) => c.wf() && c.escrows_seq() == escrows@ && c.approvals_seq()
                    == approvals@,
                None => {
                    ||| approvals@.len() != escrows@.len()
                    ||| exists|i: int|
                        0 <= i < escrows@.len() && !(escrow_wf(#[trigger] escrows@[i])
                            && approval_ok(escrows@[i], approvals@[i]))
                    ||| exists|i: int, j: int|
                        #![trigger escrows@[i], escrows@[j]]
                        0 <= i < j < escrows@.len() && escrows@[i].id@ == escrows@[j].id@
                },
            },
    {
        if approvals.len() != escrows.len() {
            return None;
        }
        let n = escrows.len();
        let mut i: usize = 0;
        while i < n
            invariant
                n == escrows@.len(),
                n == approvals@.len(),
                i <= n,
                forall|k: int|
                    0 <= k < i ==> escrow_wf(#[trigger] escrows@[k]) && approval_ok(
                        escrows@[k],
                        approvals@[k],
                    ),
                forall|k: int, l: int|
                    #![trigger escrows@[k], escrows@[l]]
                    0 <= k < l < i ==> escrows@[k].id@ != escrows@[l].id@,
            decreases n - i,
        {
            let e = &escrows[i];
            let a = &approvals[i];
            if e.amount <= 0 || e.depositor == e.beneficiary || e.depositor == e.arbiter
                || e.beneficiary == e.arbiter {
                return None;
            }
            let funded = matches!(e.status, EscrowStatus::Funded);
            let empty = matches!(a.depositor_vote, None) && matches!(a.beneficiary_vote, None)
                && matches!(a.arbiter_vote, None);
            if !funded && !empty {
                return None;
            }
            if count_votes(a, ApprovalKind::Release) > 1 || count_votes(a, ApprovalKind::Refund)
                > 1 {
                return None;
            }
            let mut j: usize = 0;
            while j < i
                invariant
                    j <= i,
                    i < n,
                    n == escrows@.len(),
                    forall|l: int|
                        0 <= l < j ==> (#[trigger] escrows@[l]).id@ != escrows@[i as int].id@,
                decreases i - j,
            {
                if ids_equal(&escrows[j].id, &escrows[i].id) {
                    return None;
                }
                j += 1;
            }
            i += 1;
        }
        Some(EscrowContract { escrows, approvals })
    }

    /// The registered escrows, for the host to persist.
    pub fn escrows(&self) -> (r: &Vec<Escrow>)
        ensures
            r@ == self.escrows_seq(),
    {
        &self.escrows
    }

    /// The ballots, one alongside each escrow, for the host to persist.
    pub fn approvals(&self) -> (r: &Vec<ReleaseApproval>)
        ensures
            r@ == self.approvals_seq(),
    {
        &self.approvals
    }

    /// The position of the escrow carrying `id`, if any.
    fn find_escrow(&self, id: &[u8; 32]) -> (r: Option<usize>)
        ensures
            match r {
                Some(i) => i < self.escrows_seq().len() && self.escrows_seq()[i as int].id@
                    == id@,
                None => !self.has_escrow_spec(id@),
            },
    {
        let n = self.escrows.len();
        let mut i: usize = 0;
        while i < n
            invariant
                n == self.escrows@.len(),
                i <= n,
                forall|j: int| 0 <= j < i ==> (#[trigger] self.escrows@[j]).id@ != id@,
            decreases n - i,
        {
            if ids_equal(&self.escrows[i].id, id) {
                return Some(i);
            }
            i += 1;
        }
        None
    }

    /// Creates a new escrow under a fresh identifier, in phase Pending
    /// until the depositor funds it. Rejects, in this order: an identifier
    /// already present, a non-positive amount, and parties that are not
    /// pairwise distinct — no single identity may hold two of the three
    /// roles of the release mechanism.
    pub fn create_escrow(
        &mut self,
        id: [u8; 32],
        depositor: Address,
        beneficiary: Address,
        arbiter: Address,
        amount: i128,
        token: Address,
        created_at: u64,
    ) -> (r: Result<(), EscrowError>)
        requires
            old(self).wf(),
        ensures
            final(self).wf(),
            match r {
                Ok(()) => {
                    &&& !old(self).has_escrow_spec(id@)
                    &&& amount > 0
                    &&& depositor != beneficiary && depositor != arbiter && beneficiary != arbiter
                    &&& final(self).escrows_seq() == old(self).escrows_seq().push(
                        (Escrow {
                            id,
                            depositor,
                            beneficiary,
                            arbiter,
                            amount,
                            token,
                            status: EscrowStatus::Pending,
                            created_at,
                            dispute_reason: None,
                        }),
                    )
                    &&& final(self).approvals_seq() == old(self).approvals_seq().push(
                        empty_approval(),
                    )
                },
                Err(e) => {
                    &&& final(self).escrows_seq() == old(self).escrows_seq()
                    &&& final(self).approvals_seq() == old(self).approvals_seq()
                    &&& ({
                        ||| (e == EscrowError::EscrowAlreadyExists && old(self).has_escrow_spec(
                            id@,
                        ))
                        ||| (e == EscrowError::InvalidAmount && !old(self).has_escrow_spec(id@)
                            && amount <= 0)
                        ||| (e == EscrowError::InvalidSigner && !old(self).has_escrow_spec(id@)
                            && amount > 0 && !(depositor != beneficiary && depositor != arbiter
                            && beneficiary != arbiter))
                    })
                },
            },
    {
        if self.find_escrow(&id).is_some() {
            return Err(EscrowError::EscrowAlreadyExists);
        }
        if amount <= 0 {
            return Err(EscrowError::InvalidAmount);
        }
        if depositor == beneficiary || depositor == arbiter || beneficiary == arbiter {
            return Err(EscrowError::InvalidSigner);
        }
        let e = Escrow {
            id,
            depositor,
            beneficiary,
            arbiter,
            amount,
            token,
            status: EscrowStatus::Pending,
            created_at,
            dispute_reason: None,
        };
        self.escrows.push(e);
        self.approvals.push(
            ReleaseApproval { depositor_vote: None, beneficiary_vote: None, arbiter_vote: None },
        );
        Ok(())
    }

    /// Funds a pending escrow: only the depositor may fund, and the escrow
    /// becomes Funded. The host transfers the amount into the contract's
    /// custody in the same transaction.
    pub fn deposit(&mut self, id: &[u8; 32], caller: &Address) -> (r: Result<(), EscrowError>)
        requires
            old(self).wf(),
        ensures
            final(self).wf(),
            match r {
                Ok(()) => {
                    let i = old(self).escrow_index(id@);
                    let e = old(self).escrows_seq()[i];
                    &&& old(self).has_escrow_spec(id@)
                    &&& *caller == e.depositor
                    &&& e.status == EscrowStatus::Pending
                    &&& escrow_step_allowed(e.status, EscrowStatus::Funded)
                    &&& final(self).escrows_seq() == old(self).escrows_seq().update(
                        i,
                        (Escrow { status: EscrowStatus::Funded, ..e }),
                    )
                    &&& final(self).approvals_seq() == old(self).approvals_seq()
                },
                Err(err) => {
                    let i = old(self).escrow_index(id@);
                    let e = old(self).escrows_seq()[i];
                    &&& final(self).escrows_seq() == old(self).escrows_seq()
                    &&& final(self).approvals_seq() == old(self).approvals_seq()
                    &&& ({
                        ||| (err == EscrowError::EscrowNotFound && !old(self).has_escrow_spec(
                            id@,
                        ))
                        ||| (err == EscrowError::NotAuthorized && old(self).has_escrow_spec(id@)
                            && *caller != e.depositor)
                        ||| (err == EscrowError::InvalidState && old(self).has_escrow_spec(id@)
                            && *caller == e.depositor && e.status != EscrowStatus::Pending)
                    })
                },
            },
    {
        let found = self.find_escrow(id);
        let i = match found {
            None => {
                return Err(EscrowError::EscrowNotFound);
            },
            Some(i) => i,
        };
        proof {
            self.lemma_escrow_index(id@, i as int);
        }
        match AccessControl::is_depositor(&self.escrows[i], caller) {
            Err(e) => {
                return Err(e);
            },
            Ok(()) => {},
        }
        if !matches!(self.escrows[i].status, EscrowStatus::Pending) {
            return Err(EscrowError::InvalidState);
        }
        let e = &mut self.escrows[i];
        e.status = EscrowStatus::Funded;
        Ok(())
    }

    /// How one approval call against the registry relates the old state,
    /// the new state, and the result: unknown identifiers are rejected,
    /// every other escrow and ballot is untouched, and the addressed pair
    /// steps by the approval transition.
    pub open spec fn approve_result(
        pre: EscrowContract,
        post: EscrowContract,
        id: Seq<u8>,
        caller: Address,
        kind: ApprovalKind,
        r: Result<Option<Payout>, EscrowError>,
    ) -> bool {
        if !pre.has_escrow_spec(id) {
            &&& r == Err::<Option<Payout>, EscrowError>(EscrowError::EscrowNotFound)
            &&& post.escrows_seq() == pre.escrows_seq()
            &&& post.approvals_seq() == pre.approvals_seq()
        } else {
            let i = pre.escrow_index(id);
            &&& post.escrows_seq().len() == pre.escrows_seq().len()
            &&& post.approvals_seq().len() == pre.approvals_seq().len()
            &&& forall|j: int|
                0 <= j < pre.escrows_seq().len() && j != i ==> (#[trigger] post.escrows_seq()[j])
                    == pre.escrows_seq()[j]
            &&& forall|j: int|
                0 <= j < pre.approvals_seq().len() && j != i ==> (
                #[trigger] post.approvals_seq()[j]) == pre.approvals_seq()[j]
            &&& approve_transition(
                pre.escrows_seq()[i],
                pre.approvals_seq()[i],
                caller,
                kind,
                r,
                post.escrows_seq()[i],
                post.approvals_seq()[i],
            )
        }
    }

    /// One approval call: looks the escrow up and applies the approval
    /// transition to it.
    fn approve(&mut self, id: &[u8; 32], caller: &Address, kind: ApprovalKind) -> (r: Result<
        Option<Payout>,
        EscrowError,
    >)
        requires
            old(self).wf(),
        ensures
            final(self).wf(),
            EscrowContract::approve_result(*old(self), *final(self), id@, *caller, kind, r),
    {
        let found = self.find_escrow(id);
        let i = match found {
            None => {
                return Err(EscrowError::EscrowNotFound);
            },
            Some(i) => i,
        };
        proof {
            self.lemma_escrow_index(id@, i as int);
        }
        let e = &mut self.escrows[i];
        let a = &mut self.approvals[i];
        let r = approve_escrow(e, a, caller, kind);
        r
    }

    /// Records the caller's approval to release the escrowed amount to the
    /// beneficiary; with two distinct roles concurring, the release
    /// executes and the returned payout instructs the host's token
    /// transfer.
    pub fn approve_release(&mut self, id: &[u8; 32], caller: &Address) -> (r: Result<
        Option<Payout>,
        EscrowError,
    >)
        requires
            old(self).wf(),
        ensures
            final(self).wf(),
            EscrowContract::approve_result(
                *old(self),
                *final(self),
                id@,
                *caller,
                ApprovalKind::Release,
                r,
            ),
    {
        self.approve(id, caller, ApprovalKind::Release)
    }

    /// Records the caller's approval to refund the escrowed amount to the
    /// depositor; with two distinct roles concurring, the refund executes
    /// and the returned payout instructs the host's token transfer.
    pub fn approve_refund(&mut self, id: &[u8; 32], caller: &Address) -> (r: Result<
        Option<Payout>,
        EscrowError,
    >)
        requires
            old(self).wf(),
        ensures
            final(self).wf(),
            EscrowContract::approve_result(
                *old(self),
                *final(self),
                id@,
                *caller,
                ApprovalKind::Refund,
                r,
            ),
    {
        self.approve(id, caller, ApprovalKind::Refund)
    }

    /// Escalates a funded escrow into Disputed on behalf of a primary
    /// party, discarding any pending votes.
    pub fn raise_dispute(&mut self, id: &[u8; 32], caller: &Address, reason: String) -> (r:
        Result<(), EscrowError>)
        requires
            old(self).wf(),
        ensures
            final(self).wf(),
            match r {
                Ok(()) => {
                    let i = old(self).escrow_index(id@);
                    let e = old(self).escrows_seq()[i];
                    &&& old(self).has_escrow_spec(id@)
                    &&& (*caller == e.depositor || *caller == e.beneficiary)
                    &&& e.status == EscrowStatus::Funded
                    &&& final(self).escrows_seq() == old(self).escrows_seq().update(
                        i,
                        (Escrow {
                            status: EscrowStatus::Disputed,
                            dispute_reason: Some(reason),
                            ..e
                        }),
                    )
                    &&& final(self).approvals_seq() == old(self).approvals_seq().update(
                        i,
                        empty_approval(),
                    )
                },
                Err(err) => {
                    let i = old(self).escrow_index(id@);
                    let e = old(self).escrows_seq()[i];
                    &&& final(self).escrows_seq() == old(self).escrows_seq()
                    &&& final(self).approvals_seq() == old(self).approvals_seq()
                    &&& ({
                        ||| (err == EscrowError::EscrowNotFound && !old(self).has_escrow_spec(
                            id@,
                        ))
                        ||| (err == EscrowError::NotAuthorized && old(self).has_escrow_spec(id@)
                            && !(*caller == e.depositor || *caller == e.beneficiary))
                        ||| (err == EscrowError::InvalidState && old(self).has_escrow_spec(id@)
                            && (*caller == e.depositor || *caller == e.beneficiary) && e.status
                            != EscrowStatus::Funded)
                    })
                },
            },
    {
        let found = self.find_escrow(id);
        let i = match found {
            None => {
                return Err(EscrowError::EscrowNotFound);
            },
            Some(i) => i,
        };
        proof {
            self.lemma_escrow_index(id@, i as int);
        }
        let e = &mut self.escrows[i];
        let a = &mut self.approvals[i];
        DisputeHandler::raise_dispute(e, a, caller, reason)
    }

    /// Resolves a disputed escrow by the arbiter's decision, returning the
    /// payout instructions for the host's token transfers.
    pub fn resolve(&mut self, id: &[u8; 32], caller: &Address, outcome: ResolutionOutcome) -> (r:
        Result<(Payout, Option<Payout>), EscrowError>)
        requires
            old(self).wf(),
        ensures
            final(self).wf(),
            match r {
                Ok(p) => {
                    let i = old(self).escrow_index(id@);
                    let e = old(self).escrows_seq()[i];
                    &&& old(self).has_escrow_spec(id@)
                    &&& *caller == e.arbiter
                    &&& e.status == EscrowStatus::Disputed
                    &&& final(self).approvals_seq() == old(self).approvals_seq()
                    &&& match outcome {
                        ResolutionOutcome::ReleaseToBeneficiary => {
                            &&& p.0 == (Payout {
                                to: e.beneficiary,
                                amount: e.amount,
                                token: e.token,
                            })
                            &&& p.1 is None
                            &&& final(self).escrows_seq() == old(self).escrows_seq().update(
                                i,
                                (Escrow { status: EscrowStatus::Released, ..e }),
                            )
                        },
                        ResolutionOutcome::RefundToDepositor => {
                            &&& p.0 == (Payout { to: e.depositor, amount: e.amount, token: e.token })
                            &&& p.1 is None
                            &&& final(self).escrows_seq() == old(self).escrows_seq().update(
                                i,
                                (Escrow { status: EscrowStatus::Refunded, ..e }),
                            )
                        },
                        ResolutionOutcome::Split(to_beneficiary) => {
                            &&& 0 <= to_beneficiary <= e.amount
                            &&& p.0 == (Payout {
                                to: e.beneficiary,
                                amount: to_beneficiary,
                                token: e.token,
                            })
                            &&& p.1 == Some(
                                Payout {
                                    to: e.depositor,
                                    amount: (e.amount - to_beneficiary) as i128,
                                    token: e.token,
                                },
                            )
                            &&& final(self).escrows_seq() == old(self).escrows_seq().update(
                                i,
                                (Escrow { status: EscrowStatus::Released, ..e }),
                            )
                        },
                    }
                },
                Err(err) => {
                    let i = old(self).escrow_index(id@);
                    let e = old(self).escrows_seq()[i];
                    &&& final(self).escrows_seq() == old(self).escrows_seq()
                    &&& final(self).approvals_seq() == old(self).approvals_seq()
                    &&& ({
                        ||| (err == EscrowError::EscrowNotFound && !old(self).has_escrow_spec(
                            id@,
                        ))
                        ||| (err == EscrowError::NotAuthorized && old(self).has_escrow_spec(id@)
                            && *caller != e.arbiter)
                        ||| (err == EscrowError::InvalidState && old(self).has_escrow_spec(id@)
                            && *caller == e.arbiter && e.status != EscrowStatus::Disputed)
                        ||| (err == EscrowError::InvalidAmount && old(self).has_escrow_spec(id@)
                            && *caller == e.arbiter && e.status == EscrowStatus::Disputed
                            && match outcome {
                            ResolutionOutcome::Split(b) => !(0 <= b <= e.amount),
                            _ => false,
                        })
                    })
                },
            },
    {
        let found = self.find_escrow(id);
        let i = match found {
            None => {
                return Err(EscrowError::EscrowNotFound);
            },
            Some(i) => i,
        };
        proof {
            self.lemma_escrow_index(id@, i as int);
        }
        let e = &mut self.escrows[i];
        DisputeHandler::resolve(e, caller, outcome)
    }

    /// The escrow registered under this identifier, copied out.
    pub fn get_escrow(&self, id: &[u8; 32]) -> (r: Option<Escrow>)
        requires
            self.wf(),
        ensures
            match r {
                Some(e) => self.has_escrow_spec(id@) && e == self.escrow_spec(id@),
                None => !self.has_escrow_spec(id@),
            },
    {
        match self.find_escrow(id) {
            None => None,
            Some(i) => {
                proof {
                    self.lemma_escrow_index(id@, i as int);
                }
                Some(duplicate_escrow(&self.escrows[i]))
            },
        }
    }
}

} // verus!
