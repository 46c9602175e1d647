//! The payment-split calculator: exact, sum-preserving division of a rent
//! payment between the landlord and the agent.

use vstd::prelude::*;
use vstd::arithmetic::div_mod::{
    lemma_div_by_multiple, lemma_div_is_ordered, lemma_div_pos_is_pos,
    lemma_fundamental_div_mod, lemma_hoist_over_denominator,
};
use crate::errors::PaymentError;
use crate::types::{Address, PaymentRecord};

verus! {

/// Denominator of a commission rate expressed in basis points:
/// 10_000 basis points is 100 percent.
pub const BPS_DENOMINATOR: u32 = 10_000;

/// The agent's share of `amount` at `rate` basis points: the product scaled
/// down by the basis-point denominator, rounded towards zero.
pub open spec fn agent_share(amount: int, rate: int) -> int {
    amount * rate / (BPS_DENOMINATOR as int)
}

/// Splits `amount` between the landlord and the agent at `commission_rate`
/// basis points. The agent receives the commission rounded down; the
/// landlord receives everything else, so the two shares always sum to the
/// amount exactly and the rounding remainder goes to the landlord.
pub fn calculate_payment_split(amount: &i128, commission_rate: &u32) -> (r: (i128, i128))
    requires
        *amount >= 0,
        *commission_rate <= BPS_DENOMINATOR,
    ensures
        r.0 + r.1 == *amount,
        r.1 == agent_share(*amount as int, *commission_rate as int),
        0 <= r.1 <= *amount,
        *commission_rate == 0 ==> r.1 == 0,
{
    let a: u128 = *amount as u128;
    let rate: u128 = *commission_rate as u128;
    let q: u128 = a / 10_000;
    let s: u128 = a % 10_000;
    proof {
        let ai = a as int;
        let ri = rate as int;
        let qi = q as int;
        let si = s as int;
        lemma_fundamental_div_mod(ai, 10_000);
        assert(ai == 10_000 * qi + si);
        assert(ai * ri == qi * ri * 10_000 + si * ri) by (nonlinear_arith)
            requires ai == 10_000 * qi + si;
        lemma_hoist_over_denominator(si * ri, qi * ri, 10_000nat);
        assert(qi * ri + si * ri / 10_000 == ai * ri / 10_000);
        assert(ai * ri <= ai * 10_000) by (nonlinear_arith)
            requires 0 <= ai, ri <= 10_000;
        lemma_div_is_ordered(ai * ri, ai * 10_000, 10_000);
        lemma_div_by_multiple(ai, 10_000);
        assert(ai * ri / 10_000 <= ai);
        lemma_div_pos_is_pos(si * ri, 10_000);
        assert(qi * ri >= 0) by (nonlinear_arith)
            requires qi >= 0, ri >= 0;
        assert(si * ri < 100_000_000) by (nonlinear_arith)
            requires 0 <= si < 10_000, 0 <= ri <= 10_000;
    }
    let agent: u128 = q * rate + (s * rate) / 10_000;
    let agent_amount: i128 = agent as i128;
    (*amount - agent_amount, agent_amount)
}

/// Builds the immutable record of one applied payment. Rejects a
/// non-positive amount, and a landlord/agent division that does not sum to
/// the amount exactly.
pub fn create_payment_record(
    agreement_id: &String,
    amount: i128,
    landlord_amount: i128,
    agent_amount: i128,
    tenant: &Address,
    payment_number: u32,
    timestamp: u64,
) -> (r: Result<PaymentRecord, PaymentError>)
    ensures
        match r {
            Ok(rec) => {
                &&& amount > 0
                &&& landlord_amount + agent_amount == amount
                &&& rec.agreement_id@ == agreement_id@
                &&& rec.payment_number == payment_number
                &&& rec.amount == amount
                &&& rec.landlord_amount == landlord_amount
                &&& rec.agent_amount == agent_amount
                &&& rec.timestamp == timestamp
                &&& rec.tenant == *tenant
            },
            Err(e) => {
                &&& e == PaymentError::InvalidAmount
                &&& (amount <= 0 || landlord_amount + agent_amount != amount)
            },
        },
{
    if amount <= 0 {
        return Err(PaymentError::InvalidAmount);
    }
    let sums_exactly = match landlord_amount.checked_add(agent_amount) {
        Some(total) => total == amount,
        None => false,
    };
    if !sums_exactly {
        return Err(PaymentError::InvalidAmount);
    }
    Ok(PaymentRecord {
        agreement_id: agreement_id.clone(),
        payment_number,
        amount,
        landlord_amount,
        agent_amount,
        timestamp,
        tenant: *tenant,
    })
}

} // verus!
