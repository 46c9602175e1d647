//! Data structures of the agreement registry and the payment processor.

use vstd::prelude::*;
use core::cmp::Ordering;

verus! {

/// A party identity, as the host's authorization layer hands it to the core:
/// an opaque identifier compared only for equality.
#[derive(Clone, Copy, Debug, PartialEq, Eq, Structural, Hash)]
pub struct Address(pub u64);

/// Lifecycle phase of a rent agreement.
///
/// The lifecycle runs Draft, Pending, Active, Completed; an Active agreement
/// can instead branch to Cancelled, Terminated or Disputed. No phase is ever
/// revisited once left.
#[derive(Clone, Copy, Debug, PartialEq, Eq, Structural)]
pub enum AgreementStatus {
    Draft,
    Pending,
    Active,
    Completed,
    Cancelled,
    Terminated,
    Disputed,
}

/// Position of a phase in the declaration order; the comparison operators
/// on `AgreementStatus` go by this rank, so phases reached later in the
/// lifecycle compare greater.
pub open spec fn agreement_status_rank(s: AgreementStatus) -> int {
    match s {
        AgreementStatus::Draft => 0,
        AgreementStatus::Pending => 1,
        AgreementStatus::Active => 2,
        AgreementStatus::Completed => 3,
        AgreementStatus::Cancelled => 4,
        AgreementStatus::Terminated => 5,
        AgreementStatus::Disputed => 6,
    }
}

impl AgreementStatus {
    /// The rank of this phase, as executable code.
    pub fn rank(&self) -> (r: u8)
        ensures
            r == agreement_status_rank(*self),
    {
        match self {
            AgreementStatus::Draft => 0,
            AgreementStatus::Pending => 1,
            AgreementStatus::Active => 2,
            AgreementStatus::Completed => 3,
            AgreementStatus::Cancelled => 4,
            AgreementStatus::Terminated => 5,
            AgreementStatus::Disputed => 6,
        }
    }
}

impl PartialOrd for AgreementStatus {
    fn partial_cmp(&self, other: &Self) -> (r: Option<Ordering>) {
        let a = self.rank();
        let b = other.rank();
        if a < b {
            Some(Ordering::Less)
        } else if a == b {
            Some(Ordering::Equal)
        } else {
            Some(Ordering::Greater)
        }
    }
}

impl vstd::std_specs::cmp::PartialOrdSpecImpl for AgreementStatus {
    open spec fn obeys_partial_cmp_spec() -> bool {
        true
    }

    open spec fn partial_cmp_spec(&self, other: &Self) -> Option<Ordering> {
        if agreement_status_rank(*self) < agreement_status_rank(*other) {
            Some(Ordering::Less)
        } else if agreement_status_rank(*self) == agreement_status_rank(*other) {
            Some(Ordering::Equal)
        } else {
            Some(Ordering::Greater)
        }
    }
}

/// The two-way division of one rent payment, as stored in an agreement's
/// payment history.
#[derive(Clone, Copy, Debug, PartialEq, Eq, Structural)]
pub struct PaymentSplit {
    pub landlord_amount: i128,
    pub platform_amount: i128,
    pub token: Address,
    pub payment_date: u64,
}

/// One applied rent payment. Immutable once created; appended, never edited.
#[derive(Debug, PartialEq, Eq)]
pub struct PaymentRecord {
    pub agreement_id: String,
    pub payment_number: u32,
    pub amount: i128,
    pub landlord_amount: i128,
    pub agent_amount: i128,
    pub timestamp: u64,
    pub tenant: Address,
}

/// A rental agreement between a landlord and a tenant, optionally with an
/// agent who earns a commission on every rent payment.
///
/// The payment history maps payment numbers to splits: payment numbers are
/// 1-based and sequential, so payment number n sits at position n - 1.
#[derive(Debug)]
pub struct RentAgreement {
    pub agreement_id: String,
    pub landlord: Address,
    pub tenant: Address,
    pub agent: Option<Address>,
    pub monthly_rent: i128,
    pub security_deposit: i128,
    pub start_date: u64,
    pub end_date: u64,
    pub agent_commission_rate: u32,
    pub status: AgreementStatus,
    pub total_rent_paid: i128,
    pub payment_count: u32,
    pub signed_at: Option<u64>,
    pub payment_token: Address,
    pub next_payment_due: u64,
    pub payment_history: Vec<PaymentSplit>,
}

/// Well-formedness of a rent agreement: the terms the registry validates at
/// creation, and the bookkeeping it maintains afterwards.
pub open spec fn agreement_wf(a: RentAgreement) -> bool {
    &&& a.monthly_rent > 0
    &&& a.security_deposit >= 0
    &&& a.start_date < a.end_date
    &&& a.agent_commission_rate <= 10_000
    &&& a.total_rent_paid >= 0
    &&& a.payment_history@.len() == a.payment_count
}

/// Whether two agreements hold the same data, field for field (the payment
/// history compared by its contents).
pub open spec fn agreement_equal(a: RentAgreement, b: RentAgreement) -> bool {
    &&& a.agreement_id@ == b.agreement_id@
    &&& a.landlord == b.landlord
    &&& a.tenant == b.tenant
    &&& a.agent == b.agent
    &&& a.monthly_rent == b.monthly_rent
    &&& a.security_deposit == b.security_deposit
    &&& a.start_date == b.start_date
    &&& a.end_date == b.end_date
    &&& a.agent_commission_rate == b.agent_commission_rate
    &&& a.status == b.status
    &&& a.total_rent_paid == b.total_rent_paid
    &&& a.payment_count == b.payment_count
    &&& a.signed_at == b.signed_at
    &&& a.payment_token == b.payment_token
    &&& a.next_payment_due == b.next_payment_due
    &&& a.payment_history@ == b.payment_history@
}

} // verus!
