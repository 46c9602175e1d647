//! A rental-transaction ledger core: a rental-agreement registry with
//! commission-splitting rent payments, and a security-deposit escrow with
//! 2-of-3 multi-signature release and arbitrated dispute resolution.
//!
//! The modules here hold the business state machines only. Host concerns of
//! the ledger environment (persistent storage, token transfers, caller
//! authorization, event emission) stay outside; callers hand in plain values
//! (identities, amounts, timestamps) and receive the resulting state and
//! payout instructions back.

pub mod access;
pub mod agreement;
pub mod dispute;
pub mod errors;
pub mod escrow_impl;
pub mod escrow_types;
pub mod payment;
pub mod types;
