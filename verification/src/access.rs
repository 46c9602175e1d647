//! Access control for the escrow module: capability checks that gate every
//! mutating entry point. Each check is an independent predicate over the
//! escrow's party fields and a caller identity, with its own failure kind.

use vstd::prelude::*;
use crate::errors::EscrowError;
use crate::escrow_types::Escrow;
use crate::types::Address;

verus! {

/// Access control validation functions.
pub struct AccessControl;

impl AccessControl {
    /// Verify the caller is the depositor.
    pub fn is_depositor(escrow: &Escrow, caller: &Address) -> (r: Result<(), EscrowError>)
        ensures
            r is Ok <==> *caller == escrow.depositor,
            r is Err ==> r == Err::<(), EscrowError>(EscrowError::NotAuthorized),
    {
        if escrow.depositor == *caller {
            Ok(())
        } else {
            Err(EscrowError::NotAuthorized)
        }
    }

    /// Verify the caller is the beneficiary.
    pub fn is_beneficiary(escrow: &Escrow, caller: &Address) -> (r: Result<(), EscrowError>)
        ensures
            r is Ok <==> *caller == escrow.beneficiary,
            r is Err ==> r == Err::<(), EscrowError>(EscrowError::NotAuthorized),
    {
        if escrow.beneficiary == *caller {
            Ok(())
        } else {
            Err(EscrowError::NotAuthorized)
        }
    }

    /// Verify the caller is the arbiter.
    pub fn is_arbiter(escrow: &Escrow, caller: &Address) -> (r: Result<(), EscrowError>)
        ensures
            r is Ok <==> *caller == escrow.arbiter,
            r is Err ==> r == Err::<(), EscrowError>(EscrowError::NotAuthorized),
    {
        if escrow.arbiter == *caller {
            Ok(())
        } else {
            Err(EscrowError::NotAuthorized)
        }
    }

    /// Verify the caller is any of the three parties. The failure kind is
    /// InvalidSigner, distinct from NotAuthorized: it signals that the caller
    /// has no relationship to this escrow at all.
    pub fn is_party(escrow: &Escrow, caller: &Address) -> (r: Result<(), EscrowError>)
        ensures
            r is Ok <==> (*caller == escrow.depositor || *caller == escrow.beneficiary
                || *caller == escrow.arbiter),
            r is Err ==> r == Err::<(), EscrowError>(EscrowError::InvalidSigner),
    {
        if escrow.depositor == *caller || escrow.beneficiary == *caller
            || escrow.arbiter == *caller {
            Ok(())
        } else {
            Err(EscrowError::InvalidSigner)
        }
    }

    /// Verify the caller is a primary party: the depositor or the
    /// beneficiary. The arbiter is deliberately excluded, so that the
    /// impartial third party can never start its own arbitration.
    pub fn is_primary_party(escrow: &Escrow, caller: &Address) -> (r: Result<(), EscrowError>)
        ensures
            r is Ok <==> (*caller == escrow.depositor || *caller == escrow.beneficiary),
            r is Err ==> r == Err::<(), EscrowError>(EscrowError::NotAuthorized),
    {
        if escrow.depositor == *caller || escrow.beneficiary == *caller {
            Ok(())
        } else {
            Err(EscrowError::NotAuthorized)
        }
    }
}

} // verus!
