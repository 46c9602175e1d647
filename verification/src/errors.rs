//! Error kinds of the three modules.
//!
//! Each module reports failures from its own small closed set of kinds, and
//! every fallible operation's contract states exactly which kind comes back
//! on which inputs.

use vstd::prelude::*;

verus! {

/// Failures of the rental-agreement registry.
#[derive(Clone, Copy, Debug, PartialEq, Eq, Structural)]
pub enum RentalError {
    /// An agreement with this identifier already exists.
    AgreementAlreadyExists,
    /// Invalid amount provided.
    InvalidAmount,
    /// Invalid date range.
    InvalidDate,
    /// Invalid agent commission rate.
    InvalidCommissionRate,
    /// The agreement is not active.
    AgreementNotActive,
    /// No agreement with this identifier exists.
    AgreementNotFound,
    /// The caller is not the agreement's tenant.
    NotTenant,
    /// The agreement is in the wrong lifecycle phase for this operation.
    InvalidState,
    /// The agreement's term has ended.
    Expired,
}

/// Failures of the payment processor.
#[derive(Clone, Copy, Debug, PartialEq, Eq, Structural)]
pub enum PaymentError {
    /// No payment record with this key exists.
    PaymentNotFound,
    /// The payment could not be applied (a counter or sum would overflow).
    PaymentFailed,
    /// No agreement with this identifier exists.
    AgreementNotFound,
    /// The caller is not the agreement's tenant.
    NotTenant,
    /// The agreement is not active.
    AgreementNotActive,
    /// The tendered amount does not match the rent due.
    InvalidPaymentAmount,
    /// The next billing date has not been reached yet.
    PaymentNotDue,
    /// Invalid amount provided.
    InvalidAmount,
}

/// Failures of the escrow module.
#[derive(Clone, Copy, Debug, PartialEq, Eq, Structural)]
pub enum EscrowError {
    /// An escrow with this identifier already exists.
    EscrowAlreadyExists,
    /// No escrow with this identifier exists.
    EscrowNotFound,
    /// The caller holds a role, but not the role this operation demands.
    NotAuthorized,
    /// The caller holds no role in this escrow at all.
    InvalidSigner,
    /// The escrow is in the wrong lifecycle phase for this operation.
    InvalidState,
    /// Invalid amount provided.
    InvalidAmount,
}

} // verus!
