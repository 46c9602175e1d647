//! The rental-agreement registry: creation, signing, queries, the due-split
//! computation, and the application of rent payments.
//!
//! The registry holds the persisted agreements as in-memory state. The host
//! wraps each operation in one atomic transaction, verifies the caller's
//! authorization beforehand, and executes the token transfers a successful
//! payment calls for.

use vstd::prelude::*;
use vstd::string::StringExecFns;
use crate::errors::{PaymentError, RentalError};
use crate::payment::{agent_share, calculate_payment_split, BPS_DENOMINATOR};
use crate::types::{
    agreement_equal, agreement_wf, Address, AgreementStatus, PaymentRecord, PaymentSplit,
    RentAgreement,
};

verus! {

/// The billing period: a payment falls due every 30 days.
pub const SECONDS_PER_MONTH: u64 = 2_592_000;

/// The commission rate a payment is split at: the agreement's rate when an
/// agent is present, and zero otherwise, so that without an agent the
/// landlord receives the full amount.
pub open spec fn effective_rate(a: RentAgreement) -> int {
    if a.agent is Some {
        a.agent_commission_rate as int
    } else {
        0
    }
}

/// What a successful creation request persists: the given terms, status
/// Pending, empty bookkeeping, and the first payment due at the start date.
pub open spec fn is_new_agreement(
    a: RentAgreement,
    id: Seq<char>,
    landlord: Address,
    tenant: Address,
    agent: Option<Address>,
    monthly_rent: i128,
    security_deposit: i128,
    start_date: u64,
    end_date: u64,
    agent_commission_rate: u32,
    payment_token: Address,
) -> bool {
    &&& a.agreement_id@ == id
    &&& a.landlord == landlord
    &&& a.tenant == tenant
    &&& a.agent == agent
    &&& a.monthly_rent == monthly_rent
    &&& a.security_deposit == security_deposit
    &&& a.start_date == start_date
    &&& a.end_date == end_date
    &&& a.agent_commission_rate == agent_commission_rate
    &&& a.status == AgreementStatus::Pending
    &&& a.total_rent_paid == 0
    &&& a.payment_count == 0
    &&& a.signed_at is None
    &&& a.payment_token == payment_token
    &&& a.next_payment_due == start_date
    &&& a.payment_history@.len() == 0
}

/// How one applied payment changes an agreement: the record appended, the
/// counters advanced, the next due date pushed one billing period out, and
/// every term left as it was.
pub open spec fn paid_step(a: RentAgreement, b: RentAgreement, amount: i128, now: u64) -> bool {
    let agent_amt = agent_share(amount as int, effective_rate(a));
    &&& b.agreement_id@ == a.agreement_id@
    &&& b.landlord == a.landlord
    &&& b.tenant == a.tenant
    &&& b.agent == a.agent
    &&& b.monthly_rent == a.monthly_rent
    &&& b.security_deposit == a.security_deposit
    &&& b.start_date == a.start_date
    &&& b.end_date == a.end_date
    &&& b.agent_commission_rate == a.agent_commission_rate
    &&& b.status == a.status
    &&& b.signed_at == a.signed_at
    &&& b.payment_token == a.payment_token
    &&& b.total_rent_paid == a.total_rent_paid + amount
    &&& b.payment_count == a.payment_count + 1
    &&& b.next_payment_due == a.next_payment_due + SECONDS_PER_MONTH
    &&& b.payment_history@ == a.payment_history@.push(
        PaymentSplit {
            landlord_amount: (amount - agent_amt) as i128,
            platform_amount: agent_amt as i128,
            token: a.payment_token,
            payment_date: now,
        },
    )
}

/// Validates the terms of an agreement to be created: a positive rent, a
/// non-negative deposit, a start strictly before the end, and a commission
/// rate of at most 10_000 basis points. Reports the first violation, in
/// that order.
pub fn validate_agreement_params(
    monthly_rent: i128,
    security_deposit: i128,
    start_date: u64,
    end_date: u64,
    agent_commission_rate: u32,
) -> (r: Result<(), RentalError>)
    ensures
        match r {
            Ok(()) => {
                &&& monthly_rent > 0
                &&& security_deposit >= 0
                &&& start_date < end_date
                &&& agent_commission_rate <= BPS_DENOMINATOR
            },
            Err(e) => {
                ||| (e == RentalError::InvalidAmount && (monthly_rent <= 0 || security_deposit
                    < 0))
                ||| (e == RentalError::InvalidDate && monthly_rent > 0 && security_deposit >= 0
                    && start_date >= end_date)
                ||| (e == RentalError::InvalidCommissionRate && monthly_rent > 0
                    && security_deposit >= 0 && start_date < end_date && agent_commission_rate
                    > BPS_DENOMINATOR)
            },
        },
{
    if monthly_rent <= 0 || security_deposit < 0 {
        Err(RentalError::InvalidAmount)
    } else if start_date >= end_date {
        Err(RentalError::InvalidDate)
    } else if agent_commission_rate > BPS_DENOMINATOR {
        Err(RentalError::InvalidCommissionRate)
    } else {
        Ok(())
    }
}

/// Copies a payment history, element for element.
fn copy_history(h: &Vec<PaymentSplit>) -> (r: Vec<PaymentSplit>)
    ensures
        r@ == h@,
{
    let mut r: Vec<PaymentSplit> = Vec::new();
    let n = h.len();
    let mut i: usize = 0;
    while i < n
        invariant
            n == h@.len(),
            i <= n,
            r@ == h@.subrange(0, i as int),
        decreases n - i,
    {
        r.push(h[i]);
        proof {
            assert(r@ =~= h@.subrange(0, i + 1));
        }
        i += 1;
    }
    proof {
        assert(r@ =~= h@);
    }
    r
}

/// Copies an agreement, field for field.
fn duplicate_agreement(a: &RentAgreement) -> (r: RentAgreement)
    ensures
        agreement_equal(r, *a),
{
    RentAgreement {
        agreement_id: a.agreement_id.clone(),
        landlord: a.landlord,
        tenant: a.tenant,
        agent: a.agent,
        monthly_rent: a.monthly_rent,
        security_deposit: a.security_deposit,
        start_date: a.start_date,
        end_date: a.end_date,
        agent_commission_rate: a.agent_commission_rate,
        status: a.status,
        total_rent_paid: a.total_rent_paid,
        payment_count: a.payment_count,
        signed_at: a.signed_at,
        payment_token: a.payment_token,
        next_payment_due: a.next_payment_due,
        payment_history: copy_history(&a.payment_history),
    }
}

/// The rental-agreement registry.
pub struct Contract {
    agreements: Vec<RentAgreement>,
}

impl Contract {
    /// The registered agreements, in creation order.
    pub closed spec fn agreements_seq(self) -> Seq<RentAgreement> {
        self.agreements@
    }

    /// Well-formedness: every agreement's terms validated and its
    /// bookkeeping consistent, all identifiers distinct, and the number of
    /// agreements within range of the count query.
    pub open spec fn wf(self) -> bool {
        &&& self.agreements_seq().len() <= u32::MAX
        &&& forall|i: int|
            0 <= i < self.agreements_seq().len() ==> agreement_wf(
                #[trigger] self.agreements_seq()[i],
            )
        &&& forall|i: int, j: int|
            #![trigger self.agreements_seq()[i], self.agreements_seq()[j]]
            0 <= i < self.agreements_seq().len() && 0 <= j < self.agreements_seq().len() && i != j
                ==> self.agreements_seq()[i].agreement_id@
                != self.agreements_seq()[j].agreement_id@
    }

    /// Whether some registered agreement carries this identifier.
    pub open spec fn has_agreement_spec(self, id: Seq<char>) -> bool {
        exists|i: int|
            0 <= i < self.agreements_seq().len() && (#[trigger] self.agreements_seq()[i])
                .agreement_id@ == id
    }

    /// The position the registry resolves this identifier to.
    pub open spec fn agreement_index(self, id: Seq<char>) -> int {
        choose|i: int|
            0 <= i < self.agreements_seq().len() && (#[trigger] self.agreements_seq()[i])
                .agreement_id@ == id
    }

    /// The registered agreement carrying this identifier.
    pub open spec fn agreement_spec(self, id: Seq<char>) -> RentAgreement {
        self.agreements_seq()[self.agreement_index(id)]
    }

    /// With distinct identifiers, any position holding `id` is the position
    /// the registry resolves `id` to.
    pub proof fn lemma_agreement_index(self, id: Seq<char>, i: int)
        requires
            self.wf(),
            0 <= i < self.agreements_seq().len(),
            self.agreements_seq()[i].agreement_id@ == id,
        ensures
            self.has_agreement_spec(id),
            self.agreement_index(id) == i,
    {
        assert(self.has_agreement_spec(id));
        let j = self.agreement_index(id);
        if j != i {
            assert(self.agreements_seq()[j].agreement_id@ == id);
            assert(false);
        }
    }

    /// An empty registry.
    pub fn new() -> (r: Contract)
        ensures
            r.wf(),
            r.agreements_seq().len() == 0,
    {
        Contract { agreements: Vec::new() }
    }

    /// Rebuilds a registry from persisted agreements, accepting exactly
    /// the states the registry itself produces: validated terms,
    /// consistent bookkeeping, and distinct identifiers.
    pub fn from_agreements(agreements: Vec<RentAgreement>) -> (r: Option<Contract>)
        ensures
            match r {
                Some(c) => c.wf() && c.agreements_seq() == agreements@,
                None => {
                    ||| agreements@.len() > u32::MAX
                    ||| exists|i: int|
                        0 <= i < agreements@.len() && !agreement_wf(#[trigger] agreements@[i])
                    ||| exists|i: int, j: int|
                        #![trigger agreements@[i], agreements@[j]]
                        0 <= i < j < agreements@.len() && agreements@[i].agreement_id@
                            == agreements@[j].agreement_id@
                },
            },
    {
        if agreements.len() > u32::MAX as usize {
            return None;
        }
        let n = agreements.len();
        let mut i: usize = 0;
        while i < n
            invariant
                n == agreements@.len(),
                i <= n,
                forall|k: int| 0 <= k < i ==> agreement_wf(#[trigger] agreements@[k]),
                forall|k: int, l: int|
                    #![trigger agreements@[k], agreements@[l]]
                    0 <= k < l < i ==> agreements@[k].agreement_id@
                        != agreements@[l].agreement_id@,
            decreases n - i,
        {
            let a = &agreements[i];
            let consistent = a.monthly_rent > 0 && a.security_deposit >= 0 && a.start_date
                < a.end_date && a.agent_commission_rate <= BPS_DENOMINATOR && a.total_rent_paid
                >= 0 && a.payment_history.len() == a.payment_count as usize;
            if !consistent {
                return None;
            }
            let mut j: usize = 0;
            while j < i
                invariant
                    j <= i,
                    i < n,
                    n == agreements@.len(),
                    forall|l: int|
                        0 <= l < j ==> (#[trigger] agreements@[l]).agreement_id@
                            != agreements@[i as int].agreement_id@,
                decreases i - j,
            {
                if agreements[j].agreement_id == agreements[i].agreement_id {
                    return None;
                }
                j += 1;
            }
            i += 1;
        }
        Some(Contract { agreements })
    }

    /// The registered agreements, for the host to persist.
    pub fn agreements(&self) -> (r: &Vec<RentAgreement>)
        ensures
            r@ == self.agreements_seq(),
    {
        &self.agreements
    }

    /// The position of the agreement carrying `id`, if any.
    fn find_agreement(&self, id: &String) -> (r: Option<usize>)
        ensures
            match r {
                Some(i) => i < self.agreements_seq().len() && self.agreements_seq()[
                    i as int
                ].agreement_id@ == id@,
                None => !self.has_agreement_spec(id@),
            },
    {
        let n = self.agreements.len();
        let mut i: usize = 0;
        while i < n
            invariant
                n == self.agreements@.len(),
                i <= n,
                forall|j: int|
                    0 <= j < i ==> (#[trigger] self.agreements@[j]).agreement_id@ != id@,
            decreases n - i,
        {
            if self.agreements[i].agreement_id == *id {
                return Some(i);
            }
            i += 1;
        }
        None
    }

    /// A trivial liveness probe: greets the given name.
    pub fn hello(to: String) -> (r: Vec<String>)
        ensures
            r@.len() == 2,
            r@[0]@ == "Hello"@,
            r@[1] == to,
    {
        let mut v: Vec<String> = Vec::new();
        v.push(String::from_str("Hello"));
        v.push(to);
        v
    }

    /// Creates a new rent agreement under a fresh identifier. The host must
    /// have verified the tenant's authorization beforehand, so a landlord
    /// cannot fabricate the tenant's consent unilaterally.
    ///
    /// Rejects, in this order: an identifier already present, a
    /// non-positive rent or negative deposit, a start date not strictly
    /// before the end date, and a commission rate above 10_000 basis
    /// points.
    pub fn create_agreement(
        &mut self,
        agreement_id: String,
        landlord: Address,
        tenant: Address,
        agent: Option<Address>,
        monthly_rent: i128,
        security_deposit: i128,
        start_date: u64,
        end_date: u64,
        agent_commission_rate: u32,
        payment_token: Address,
    ) -> (r: Result<(), RentalError>)
        requires
            old(self).wf(),
            old(self).agreements_seq().len() < u32::MAX,
        ensures
            final(self).wf(),
            match r {
                Ok(()) => {
                    &&& !old(self).has_agreement_spec(agreement_id@)
                    &&& monthly_rent > 0
                    &&& security_deposit >= 0
                    &&& start_date < end_date
                    &&& agent_commission_rate <= BPS_DENOMINATOR
                    &&& final(self).agreements_seq().len() == old(self).agreements_seq().len() + 1
                    &&& final(self).agreements_seq().subrange(
                        0,
                        old(self).agreements_seq().len() as int,
                    ) == old(self).agreements_seq()
                    &&& is_new_agreement(
                        final(self).agreements_seq().last(),
                        agreement_id@,
                        landlord,
                        tenant,
                        agent,
                        monthly_rent,
                        security_deposit,
                        start_date,
                        end_date,
                        agent_commission_rate,
                        payment_token,
                    )
                },
                Err(e) => {
                    &&& final(self).agreements_seq() == old(self).agreements_seq()
                    &&& ({
                        ||| (e == RentalError::AgreementAlreadyExists && old(
                            self,
                        ).has_agreement_spec(agreement_id@))
                        ||| (e == RentalError::InvalidAmount && !old(self).has_agreement_spec(
                            agreement_id@,
                        ) && (monthly_rent <= 0 || security_deposit < 0))
                        ||| (e == RentalError::InvalidDate && !old(self).has_agreement_spec(
                            agreement_id@,
                        ) && monthly_rent > 0 && security_deposit >= 0 && start_date >= end_date)
                        ||| (e == RentalError::InvalidCommissionRate && !old(
                            self,
                        ).has_agreement_spec(agreement_id@) && monthly_rent > 0
                            && security_deposit >= 0 && start_date < end_date
                            && agent_commission_rate > BPS_DENOMINATOR)
                    })
                },
            },
    {
        if self.find_agreement(&agreement_id).is_some() {
            return Err(RentalError::AgreementAlreadyExists);
        }
        match validate_agreement_params(
            monthly_rent,
            security_deposit,
            start_date,
            end_date,
            agent_commission_rate,
        ) {
            Err(e) => {
                return Err(e);
            },
            Ok(()) => {},
        }
        let a = RentAgreement {
            agreement_id,
            landlord,
            tenant,
            agent,
            monthly_rent,
            security_deposit,
            start_date,
            end_date,
            agent_commission_rate,
            status: AgreementStatus::Pending,
            total_rent_paid: 0,
            payment_count: 0,
            signed_at: None,
            payment_token,
            next_payment_due: start_date,
            payment_history: Vec::new(),
        };
        self.agreements.push(a);
        proof {
            let old_seq = old(self).agreements_seq();
            assert(self.agreements_seq().subrange(0, old_seq.len() as int) =~= old_seq);
        }
        Ok(())
    }

    /// Signs a pending agreement: the tenant accepts, the agreement becomes
    /// Active, and the signing time is recorded. The host must have
    /// verified the tenant's authorization beforehand.
    pub fn sign_agreement(&mut self, tenant: Address, agreement_id: String, now: u64) -> (r:
        Result<(), RentalError>)
        requires
            old(self).wf(),
        ensures
            final(self).wf(),
            match r {
                Ok(()) => {
                    let i = old(self).agreement_index(agreement_id@);
                    let a = old(self).agreements_seq()[i];
                    &&& old(self).has_agreement_spec(agreement_id@)
                    &&& tenant == a.tenant
                    &&& a.status == AgreementStatus::Pending
                    &&& final(self).agreements_seq() == old(self).agreements_seq().update(
                        i,
                        (RentAgreement {
                            status: AgreementStatus::Active,
                            signed_at: Some(now),
                            ..a
                        }),
                    )
                },
                Err(e) => {
                    let i = old(self).agreement_index(agreement_id@);
                    let a = old(self).agreements_seq()[i];
                    &&& final(self).agreements_seq() == old(self).agreements_seq()
                    &&& ({
                        ||| (e == RentalError::AgreementNotFound && !old(self).has_agreement_spec(
                            agreement_id@,
                        ))
                        ||| (e == RentalError::NotTenant && old(self).has_agreement_spec(
                            agreement_id@,
                        ) && tenant != a.tenant)
                        ||| (e == RentalError::InvalidState && old(self).has_agreement_spec(
                            agreement_id@,
                        ) && tenant == a.tenant && a.status != AgreementStatus::Pending)
                    })
                },
            },
    {
        let found = self.find_agreement(&agreement_id);
        match found {
            None => Err(RentalError::AgreementNotFound),
            Some(i) => {
                proof {
                    self.lemma_agreement_index(agreement_id@, i as int);
                }
                if self.agreements[i].tenant != tenant {
                    return Err(RentalError::NotTenant);
                }
                if !matches!(self.agreements[i].status, AgreementStatus::Pending) {
                    return Err(RentalError::InvalidState);
                }
                let e = &mut self.agreements[i];
                e.status = AgreementStatus::Active;
                e.signed_at = Some(now);
                Ok(())
            },
        }
    }

    /// The agreement registered under this identifier, copied out.
    pub fn get_agreement(&self, agreement_id: String) -> (r: Option<RentAgreement>)
        requires
            self.wf(),
        ensures
            match r {
                Some(a) => self.has_agreement_spec(agreement_id@) && agreement_equal(
                    a,
                    self.agreement_spec(agreement_id@),
                ),
                None => !self.has_agreement_spec(agreement_id@),
            },
    {
        match self.find_agreement(&agreement_id) {
            None => None,
            Some(i) => {
                proof {
                    self.lemma_agreement_index(agreement_id@, i as int);
                }
                Some(duplicate_agreement(&self.agreements[i]))
            },
        }
    }

    /// Whether an agreement is registered under this identifier.
    pub fn has_agreement(&self, agreement_id: String) -> (r: bool)
        ensures
            r == self.has_agreement_spec(agreement_id@),
    {
        self.find_agreement(&agreement_id).is_some()
    }

    /// How many agreements have been created.
    pub fn get_agreement_count(&self) -> (r: u32)
        requires
            self.wf(),
        ensures
            r == self.agreements_seq().len(),
    {
        self.agreements.len() as u32
    }

    /// The split the rent payment for the given month falls into, for an
    /// active, unexpired agreement: the commission at the agreement's rate
    /// for the agent, the rest for the landlord, payable in the agreement's
    /// token, dated `month` billing periods after the start date.
    pub fn get_payment_split(&self, agreement_id: String, month: u32, now: u64) -> (r: Result<
        PaymentSplit,
        RentalError,
    >)
        requires
            self.wf(),
        ensures
            match r {
                Ok(ps) => {
                    let a = self.agreement_spec(agreement_id@);
                    &&& self.has_agreement_spec(agreement_id@)
                    &&& a.status == AgreementStatus::Active
                    &&& now <= a.end_date
                    &&& a.start_date + month * SECONDS_PER_MONTH <= u64::MAX
                    &&& ps.platform_amount == agent_share(
                        a.monthly_rent as int,
                        a.agent_commission_rate as int,
                    )
                    &&& ps.landlord_amount == a.monthly_rent - agent_share(
                        a.monthly_rent as int,
                        a.agent_commission_rate as int,
                    )
                    &&& ps.token == a.payment_token
                    &&& ps.payment_date == a.start_date + month * SECONDS_PER_MONTH
                },
                Err(e) => {
                    let a = self.agreement_spec(agreement_id@);
                    ||| (e == RentalError::AgreementNotFound && !self.has_agreement_spec(
                        agreement_id@,
                    ))
                    ||| (e == RentalError::AgreementNotActive && self.has_agreement_spec(
                        agreement_id@,
                    ) && a.status != AgreementStatus::Active)
                    ||| (e == RentalError::Expired && self.has_agreement_spec(agreement_id@)
                        && a.status == AgreementStatus::Active && now > a.end_date)
                    ||| (e == RentalError::InvalidDate && self.has_agreement_spec(agreement_id@)
                        && a.status == AgreementStatus::Active && now <= a.end_date
                        && a.start_date + month * SECONDS_PER_MONTH > u64::MAX)
                },
            },
    {
        let found = self.find_agreement(&agreement_id);
        match found {
            None => Err(RentalError::AgreementNotFound),
            Some(i) => {
                proof {
                    self.lemma_agreement_index(agreement_id@, i as int);
                }
                let a = &self.agreements[i];
                if !matches!(a.status, AgreementStatus::Active) {
                    return Err(RentalError::AgreementNotActive);
                }
                if now > a.end_date {
                    return Err(RentalError::Expired);
                }
                proof {
                    assert((month as int) * (SECONDS_PER_MONTH as int) <= 0xffff_ffffu64
                        * 2_592_000) by (nonlinear_arith)
                        requires
                            0 <= month <= 0xffff_ffffu64,
                    ;
                }
                let offset: u64 = (month as u64) * SECONDS_PER_MONTH;
                let payment_date: u64 = match a.start_date.checked_add(offset) {
                    Some(d) => d,
                    None => {
                        return Err(RentalError::InvalidDate);
                    },
                };
                let (landlord_amount, platform_amount) = calculate_payment_split(
                    &a.monthly_rent,
                    &a.agent_commission_rate,
                );
                Ok(PaymentSplit { landlord_amount, platform_amount, token: a.payment_token, payment_date })
            },
        }
    }

    /// Applies one rent payment by the tenant: validates the agreement is
    /// active, the amount tendered equals the rent, and the billing date
    /// has arrived; then splits the amount at the effective commission
    /// rate, appends the split to the history, advances the counters and
    /// the next due date, and returns the payment record. The host executes
    /// the outbound transfers the record calls for and must have verified
    /// the tenant's authorization beforehand.
    pub fn process_payment(
        &mut self,
        agreement_id: String,
        amount: i128,
        tenant: Address,
        now: u64,
    ) -> (r: Result<PaymentRecord, PaymentError>)
        requires
            old(self).wf(),
        ensures
            final(self).wf(),
            match r {
                Ok(rec) => {
                    let i = old(self).agreement_index(agreement_id@);
                    let a = old(self).agreements_seq()[i];
                    let agent_amt = agent_share(amount as int, effective_rate(a));
                    &&& old(self).has_agreement_spec(agreement_id@)
                    &&& tenant == a.tenant
                    &&& a.status == AgreementStatus::Active
                    &&& amount == a.monthly_rent
                    &&& now >= a.next_payment_due
                    &&& rec.agreement_id@ == agreement_id@
                    &&& rec.payment_number == a.payment_count + 1
                    &&& rec.amount == amount
                    &&& rec.agent_amount == agent_amt
                    &&& rec.landlord_amount == amount - agent_amt
                    &&& rec.timestamp == now
                    &&& rec.tenant == tenant
                    &&& final(self).agreements_seq().len() == old(self).agreements_seq().len()
                    &&& forall|j: int|
                        0 <= j < old(self).agreements_seq().len() && j != i
                            ==> final(self).agreements_seq()[j] == old(self).agreements_seq()[j]
                    &&& paid_step(a, final(self).agreements_seq()[i], amount, now)
                },
                Err(e) => {
                    let i = old(self).agreement_index(agreement_id@);
                    let a = old(self).agreements_seq()[i];
                    &&& final(self).agreements_seq() == old(self).agreements_seq()
                    &&& ({
                        ||| (e == PaymentError::AgreementNotFound && !old(
                            self,
                        ).has_agreement_spec(agreement_id@))
                        ||| (e == PaymentError::NotTenant && old(self).has_agreement_spec(
                            agreement_id@,
                        ) && tenant != a.tenant)
                        ||| (e == PaymentError::AgreementNotActive && old(
                            self,
                        ).has_agreement_spec(agreement_id@) && tenant == a.tenant && a.status
                            != AgreementStatus::Active)
                        ||| (e == PaymentError::InvalidPaymentAmount && old(
                            self,
                        ).has_agreement_spec(agreement_id@) && tenant == a.tenant && a.status
                            == AgreementStatus::Active && amount != a.monthly_rent)
                        ||| (e == PaymentError::PaymentNotDue && old(self).has_agreement_spec(
                            agreement_id@,
                        ) && tenant == a.tenant && a.status == AgreementStatus::Active && amount
                            == a.monthly_rent && now < a.next_payment_due)
                        ||| (e == PaymentError::PaymentFailed && old(self).has_agreement_spec(
                            agreement_id@,
                        ) && tenant == a.tenant && a.status == AgreementStatus::Active && amount
                            == a.monthly_rent && now >= a.next_payment_due && (a.payment_count
                            == u32::MAX || a.total_rent_paid + amount > i128::MAX
                            || a.next_payment_due + SECONDS_PER_MONTH > u64::MAX))
                    })
                },
            },
    {
        let found = self.find_agreement(&agreement_id);
        let i = match found {
            None => {
                return Err(PaymentError::AgreementNotFound);
            },
            Some(i) => i,
        };
        proof {
            self.lemma_agreement_index(agreement_id@, i as int);
        }
        if self.agreements[i].tenant != tenant {
            return Err(PaymentError::NotTenant);
        }
        if !matches!(self.agreements[i].status, AgreementStatus::Active) {
            return Err(PaymentError::AgreementNotActive);
        }
        if amount != self.agreements[i].monthly_rent {
            return Err(PaymentError::InvalidPaymentAmount);
        }
        if now < self.agreements[i].next_payment_due {
            return Err(PaymentError::PaymentNotDue);
        }
        if self.agreements[i].payment_count == u32::MAX {
            return Err(PaymentError::PaymentFailed);
        }
        if self.agreements[i].total_rent_paid > i128::MAX - amount {
            return Err(PaymentError::PaymentFailed);
        }
        if self.agreements[i].next_payment_due > u64::MAX - SECONDS_PER_MONTH {
            return Err(PaymentError::PaymentFailed);
        }
        let rate: u32 = if self.agreements[i].agent.is_some() {
            self.agreements[i].agent_commission_rate
        } else {
            0
        };
        let (landlord_amount, agent_amount) = calculate_payment_split(&amount, &rate);
        let payment_number: u32 = self.agreements[i].payment_count + 1;
        let rec = PaymentRecord {
            agreement_id: agreement_id.clone(),
            payment_number,
            amount,
            landlord_amount,
            agent_amount,
            timestamp: now,
            tenant,
        };
        let split = PaymentSplit {
            landlord_amount,
            platform_amount: agent_amount,
            token: self.agreements[i].payment_token,
            payment_date: now,
        };
        let e = &mut self.agreements[i];
        e.total_rent_paid = e.total_rent_paid + amount;
        e.payment_count = e.payment_count + 1;
        e.next_payment_due = e.next_payment_due + SECONDS_PER_MONTH;
        e.payment_history.push(split);
        Ok(rec)
    }
}

} // verus!
