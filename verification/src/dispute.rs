//! Dispute escalation and arbitration for a single escrow.
//!
//! A primary party escalates a funded escrow into Disputed, which freezes
//! the 2-of-3 release mechanism; the arbiter then resolves the dispute
//! unilaterally. This is the designed escape valve for when the two primary
//! parties cannot reach 2-of-3 consensus.

use vstd::prelude::*;
use crate::access::AccessControl;
use crate::errors::EscrowError;
use crate::escrow_types::{
    empty_approval, escrow_step_allowed, escrow_wf, Escrow, EscrowStatus, Payout,
    ReleaseApproval, ResolutionOutcome,
};
use crate::types::Address;

verus! {

/// Dispute handling for the escrow module.
pub struct DisputeHandler;

impl DisputeHandler {
    /// Escalates a funded escrow into Disputed: only a primary party (the
    /// depositor or the beneficiary, never the arbiter) may escalate, the
    /// reason is stored for audit, and any pending release/refund votes are
    /// discarded.
    pub fn raise_dispute(
        escrow: &mut Escrow,
        approval: &mut ReleaseApproval,
        caller: &Address,
        reason: String,
    ) -> (r: Result<(), EscrowError>)
        ensures
            match r {
                Ok(()) => {
                    &&& (*caller == old(escrow).depositor || *caller == old(escrow).beneficiary)
                    &&& old(escrow).status == EscrowStatus::Funded
                    &&& escrow_step_allowed(old(escrow).status, final(escrow).status)
                    &&& *final(escrow) == (Escrow {
                        status: EscrowStatus::Disputed,
                        dispute_reason: Some(reason),
                        ..*old(escrow)
                    })
                    &&& *final(approval) == empty_approval()
                },
                Err(e) => {
                    &&& *final(escrow) == *old(escrow)
                    &&& *final(approval) == *old(approval)
                    &&& ({
                        ||| (e == EscrowError::NotAuthorized && !(*caller == old(
                            escrow,
                        ).depositor || *caller == old(escrow).beneficiary))
                        ||| (e == EscrowError::InvalidState && (*caller == old(escrow).depositor
                            || *caller == old(escrow).beneficiary) && old(escrow).status
                            != EscrowStatus::Funded)
                    })
                },
            },
    {
        match AccessControl::is_primary_party(escrow, caller) {
            Err(e) => {
                return Err(e);
            },
            Ok(()) => {},
        }
        if !matches!(escrow.status, EscrowStatus::Funded) {
            return Err(EscrowError::InvalidState);
        }
        escrow.status = EscrowStatus::Disputed;
        escrow.dispute_reason = Some(reason);
        *approval = ReleaseApproval {
            depositor_vote: None,
            beneficiary_vote: None,
            arbiter_vote: None,
        };
        Ok(())
    }

    /// Resolves a disputed escrow by the arbiter's unilateral decision:
    /// release the full amount to the beneficiary, refund it to the
    /// depositor, or split it between the two. Returns the payout
    /// instructions; the dispute reason is retained for audit.
    pub fn resolve(escrow: &mut Escrow, caller: &Address, outcome: ResolutionOutcome) -> (r:
        Result<(Payout, Option<Payout>), EscrowError>)
        requires
            escrow_wf(*old(escrow)),
        ensures
            escrow_wf(*final(escrow)),
            match r {
                Ok(p) => {
                    &&& *caller == old(escrow).arbiter
                    &&& old(escrow).status == EscrowStatus::Disputed
                    &&& escrow_step_allowed(old(escrow).status, final(escrow).status)
                    &&& match outcome {
                        ResolutionOutcome::ReleaseToBeneficiary => {
                            &&& p.0 == (Payout {
                                to: old(escrow).beneficiary,
                                amount: old(escrow).amount,
                                token: old(escrow).token,
                            })
                            &&& p.1 is None
                            &&& *final(escrow) == (Escrow {
                                status: EscrowStatus::Released,
                                ..*old(escrow)
                            })
                        },
                        ResolutionOutcome::RefundToDepositor => {
                            &&& p.0 == (Payout {
                                to: old(escrow).depositor,
                                amount: old(escrow).amount,
                                token: old(escrow).token,
                            })
                            &&& p.1 is None
                            &&& *final(escrow) == (Escrow {
                                status: EscrowStatus::Refunded,
                                ..*old(escrow)
                            })
                        },
                        ResolutionOutcome::Split(to_beneficiary) => {
                            &&& 0 <= to_beneficiary <= old(escrow).amount
                            &&& p.0 == (Payout {
                                to: old(escrow).beneficiary,
                                amount: to_beneficiary,
                                token: old(escrow).token,
                            })
                            &&& p.1 == Some(
                                Payout {
                                    to: old(escrow).depositor,
                                    amount: (old(escrow).amount - to_beneficiary) as i128,
                                    token: old(escrow).token,
                                },
                            )
                            &&& *final(escrow) == (Escrow {
                                status: EscrowStatus::Released,
                                ..*old(escrow)
                            })
                        },
                    }
                },
                Err(e) => {
                    &&& *final(escrow) == *old(escrow)
                    &&& ({
                        ||| (e == EscrowError::NotAuthorized && *caller != old(escrow).arbiter)
                        ||| (e == EscrowError::InvalidState && *caller == old(escrow).arbiter
                            && old(escrow).status != EscrowStatus::Disputed)
                        ||| (e == EscrowError::InvalidAmount && *caller == old(escrow).arbiter
                            && old(escrow).status == EscrowStatus::Disputed && match outcome {
                            ResolutionOutcome::Split(b) => !(0 <= b <= old(escrow).amount),
                            _ => false,
                        })
                    })
                },
            },
    {
        match AccessControl::is_arbiter(escrow, caller) {
            Err(e) => {
                return Err(e);
            },
            Ok(()) => {},
        }
        if !matches!(escrow.status, EscrowStatus::Disputed) {
            return Err(EscrowError::InvalidState);
        }
        match outcome {
            ResolutionOutcome::ReleaseToBeneficiary => {
                let p = Payout {
                    to: escrow.beneficiary,
                    amount: escrow.amount,
                    token: escrow.token,
                };
                escrow.status = EscrowStatus::Released;
                Ok((p, None))
            },
            ResolutionOutcome::RefundToDepositor => {
                let p = Payout { to: escrow.depositor, amount: escrow.amount, token: escrow.token };
                escrow.status = EscrowStatus::Refunded;
                Ok((p, None))
            },
            ResolutionOutcome::Split(to_beneficiary) => {
                if to_beneficiary < 0 || to_beneficiary > escrow.amount {
                    return Err(EscrowError::InvalidAmount);
                }
                let first = Payout {
                    to: escrow.beneficiary,
                    amount: to_beneficiary,
                    token: escrow.token,
                };
                let second = Payout {
                    to: escrow.depositor,
                    amount: escrow.amount - to_beneficiary,
                    token: escrow.token,
                };
                escrow.status = EscrowStatus::Released;
                Ok((first, Some(second)))
            },
        }
    }
}

} // verus!
