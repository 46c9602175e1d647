//! Tests for the rental-agreement registry: creation, signing, queries,
//! the due-split computation, and payment processing.

use chioma::agreement::{validate_agreement_params, Contract, SECONDS_PER_MONTH};
use chioma::errors::{PaymentError, RentalError};
use chioma::types::{Address, AgreementStatus, RentAgreement};

fn create_test_agreement(
    id: &str,
    tenant: &Address,
    landlord: &Address,
    agent: Option<Address>,
    monthly_rent: i128,
    commission_rate: u32,
    status: AgreementStatus,
    payment_token: Address,
) -> RentAgreement {
    RentAgreement {
        agreement_id: String::from(id),
        tenant: *tenant,
        landlord: *landlord,
        agent,
        monthly_rent,
        agent_commission_rate: commission_rate,
        status,
        total_rent_paid: 0,
        payment_count: 0,
        security_deposit: 0,
        start_date: 0,
        end_date: 0,
        signed_at: None,
        payment_token,
        next_payment_due: 0,
        payment_history: Vec::new(),
    }
}

/// A registry holding one active agreement with a 5% agent commission:
/// rent 1000, term from 1_000 to 100_000_000, signed at 2_000.
fn active_registry() -> (Contract, Address, Address, Address) {
    let mut c = Contract::new();
    let landlord = Address(1);
    let tenant = Address(2);
    let agent = Address(3);
    c.create_agreement(
        String::from("lease_1"),
        landlord,
        tenant,
        Some(agent),
        1000,
        0,
        1_000,
        100_000_000,
        500,
        Address(9),
    )
    .unwrap();
    c.sign_agreement(tenant, String::from("lease_1"), 2_000).unwrap();
    (c, landlord, tenant, agent)
}

#[test]
fn test_create_test_agreement() {
    let tenant = Address(5);
    let landlord = Address(6);
    let token = Address(42);

    let agreement = create_test_agreement(
        "agreement_1",
        &tenant,
        &landlord,
        None,
        1000,
        0,
        AgreementStatus::Active,
        token,
    );

    assert_eq!(agreement.monthly_rent, 1000);
    assert_eq!(agreement.status, AgreementStatus::Active);
    assert_eq!(agreement.tenant, tenant);
    assert_eq!(agreement.landlord, landlord);
}

#[test]
fn test_agreement_with_agent() {
    let tenant = Address(5);
    let landlord = Address(6);
    let agent = Address(7);
    let token = Address(42);

    let agreement = create_test_agreement(
        "agreement_2",
        &tenant,
        &landlord,
        Some(agent),
        1000,
        500, // 5% commission
        AgreementStatus::Active,
        token,
    );

    assert_eq!(agreement.agent, Some(agent));
    assert_eq!(agreement.agent_commission_rate, 500);
}

#[test]
fn test_agreement_status_ordering() {
    assert!(AgreementStatus::Draft < AgreementStatus::Pending);
    assert!(AgreementStatus::Pending < AgreementStatus::Active);
    assert!(AgreementStatus::Active < AgreementStatus::Completed);
}

#[test]
fn test_validate_agreement_params() {
    assert!(validate_agreement_params(1000, 0, 1, 2, 10_000).is_ok());
    assert_eq!(
        validate_agreement_params(0, 0, 1, 2, 0).unwrap_err(),
        RentalError::InvalidAmount
    );
    assert_eq!(
        validate_agreement_params(1000, -1, 1, 2, 0).unwrap_err(),
        RentalError::InvalidAmount
    );
    assert_eq!(
        validate_agreement_params(1000, 0, 2, 2, 0).unwrap_err(),
        RentalError::InvalidDate
    );
    assert_eq!(
        validate_agreement_params(1000, 0, 1, 2, 10_001).unwrap_err(),
        RentalError::InvalidCommissionRate
    );
}

#[test]
fn test_create_agreement_rejections() {
    let (mut c, landlord, tenant, _) = active_registry();
    // Duplicate identifier.
    assert_eq!(
        c.create_agreement(
            String::from("lease_1"),
            landlord,
            tenant,
            None,
            500,
            0,
            1,
            2,
            0,
            Address(9),
        ),
        Err(RentalError::AgreementAlreadyExists)
    );
    // Commission rate above 10_000 basis points.
    assert_eq!(
        c.create_agreement(
            String::from("lease_2"),
            landlord,
            tenant,
            None,
            500,
            0,
            1,
            2,
            10_001,
            Address(9),
        ),
        Err(RentalError::InvalidCommissionRate)
    );
    // Start date not strictly before end date.
    assert_eq!(
        c.create_agreement(
            String::from("lease_2"),
            landlord,
            tenant,
            None,
            500,
            0,
            2,
            2,
            0,
            Address(9),
        ),
        Err(RentalError::InvalidDate)
    );
    // Non-positive rent.
    assert_eq!(
        c.create_agreement(
            String::from("lease_2"),
            landlord,
            tenant,
            None,
            0,
            0,
            1,
            2,
            0,
            Address(9),
        ),
        Err(RentalError::InvalidAmount)
    );
    assert_eq!(c.get_agreement_count(), 1);
}

#[test]
fn test_sign_agreement_rejections() {
    let mut c = Contract::new();
    let landlord = Address(1);
    let tenant = Address(2);
    c.create_agreement(
        String::from("lease_1"),
        landlord,
        tenant,
        None,
        1000,
        0,
        1_000,
        100_000_000,
        0,
        Address(9),
    )
    .unwrap();
    assert_eq!(
        c.sign_agreement(tenant, String::from("missing"), 2_000),
        Err(RentalError::AgreementNotFound)
    );
    assert_eq!(
        c.sign_agreement(Address(77), String::from("lease_1"), 2_000),
        Err(RentalError::NotTenant)
    );
    c.sign_agreement(tenant, String::from("lease_1"), 2_000).unwrap();
    // Signing again finds the agreement already Active.
    assert_eq!(
        c.sign_agreement(tenant, String::from("lease_1"), 2_500),
        Err(RentalError::InvalidState)
    );
}

#[test]
fn test_queries() {
    let (c, _, tenant, _) = active_registry();
    assert!(c.has_agreement(String::from("lease_1")));
    assert!(!c.has_agreement(String::from("lease_2")));
    assert_eq!(c.get_agreement_count(), 1);
    assert!(c.get_agreement(String::from("lease_2")).is_none());
    let a = c.get_agreement(String::from("lease_1")).unwrap();
    assert_eq!(a.tenant, tenant);
    assert_eq!(a.status, AgreementStatus::Active);
    assert_eq!(a.signed_at, Some(2_000));
    assert_eq!(a.next_payment_due, 1_000);
}

#[test]
fn test_get_payment_split() {
    let (c, _, _, _) = active_registry();
    let split = c.get_payment_split(String::from("lease_1"), 2, 5_000).unwrap();
    assert_eq!(split.landlord_amount, 950);
    assert_eq!(split.platform_amount, 50);
    assert_eq!(split.token, Address(9));
    assert_eq!(split.payment_date, 1_000 + 2 * SECONDS_PER_MONTH);

    assert_eq!(
        c.get_payment_split(String::from("missing"), 0, 5_000),
        Err(RentalError::AgreementNotFound)
    );
    // Past the end of the term.
    assert_eq!(
        c.get_payment_split(String::from("lease_1"), 0, 100_000_001),
        Err(RentalError::Expired)
    );

    let mut c2 = Contract::new();
    c2.create_agreement(
        String::from("pending"),
        Address(1),
        Address(2),
        None,
        1000,
        0,
        1,
        2,
        0,
        Address(9),
    )
    .unwrap();
    assert_eq!(
        c2.get_payment_split(String::from("pending"), 0, 1),
        Err(RentalError::AgreementNotActive)
    );
}

#[test]
fn test_process_payment_end_to_end() {
    let (mut c, _, tenant, _) = active_registry();
    let rec = c
        .process_payment(String::from("lease_1"), 1000, tenant, 2_000)
        .unwrap();
    assert_eq!(rec.landlord_amount, 950);
    assert_eq!(rec.agent_amount, 50);
    assert_eq!(rec.amount, 1000);
    assert_eq!(rec.payment_number, 1);
    assert_eq!(rec.tenant, tenant);
    assert_eq!(rec.agreement_id, String::from("lease_1"));

    let a = c.get_agreement(String::from("lease_1")).unwrap();
    assert_eq!(a.total_rent_paid, 1000);
    assert_eq!(a.payment_count, 1);
    assert_eq!(a.next_payment_due, 1_000 + SECONDS_PER_MONTH);
    assert_eq!(a.payment_history.len(), 1);
    assert_eq!(a.payment_history[0].landlord_amount, 950);
    assert_eq!(a.payment_history[0].platform_amount, 50);
    assert_eq!(a.payment_history[0].payment_date, 2_000);
}

#[test]
fn test_process_payment_rejections() {
    let (mut c, _, tenant, _) = active_registry();
    assert_eq!(
        c.process_payment(String::from("missing"), 1000, tenant, 2_000),
        Err(PaymentError::AgreementNotFound)
    );
    assert_eq!(
        c.process_payment(String::from("lease_1"), 1000, Address(77), 2_000),
        Err(PaymentError::NotTenant)
    );
    assert_eq!(
        c.process_payment(String::from("lease_1"), 999, tenant, 2_000),
        Err(PaymentError::InvalidPaymentAmount)
    );
    // The first payment is due at the start date; nothing is due before.
    assert_eq!(
        c.process_payment(String::from("lease_1"), 1000, tenant, 999),
        Err(PaymentError::PaymentNotDue)
    );
    // A second payment becomes due only one billing period later.
    c.process_payment(String::from("lease_1"), 1000, tenant, 2_000).unwrap();
    assert_eq!(
        c.process_payment(String::from("lease_1"), 1000, tenant, 2_500),
        Err(PaymentError::PaymentNotDue)
    );
    c.process_payment(String::from("lease_1"), 1000, tenant, 1_000 + SECONDS_PER_MONTH)
        .unwrap();

    let mut c2 = Contract::new();
    c2.create_agreement(
        String::from("pending"),
        Address(1),
        Address(2),
        None,
        1000,
        0,
        1,
        2,
        0,
        Address(9),
    )
    .unwrap();
    assert_eq!(
        c2.process_payment(String::from("pending"), 1000, Address(2), 1),
        Err(PaymentError::AgreementNotActive)
    );
}

#[test]
fn test_process_payment_overflow_guard() {
    // A term so late that the next due date cannot advance by another
    // billing period: the payment fails rather than wrapping around.
    let mut c = Contract::new();
    let tenant = Address(2);
    c.create_agreement(
        String::from("late"),
        Address(1),
        tenant,
        None,
        1000,
        0,
        u64::MAX - 1,
        u64::MAX,
        0,
        Address(9),
    )
    .unwrap();
    c.sign_agreement(tenant, String::from("late"), u64::MAX - 1).unwrap();
    assert_eq!(
        c.process_payment(String::from("late"), 1000, tenant, u64::MAX - 1),
        Err(PaymentError::PaymentFailed)
    );
}

#[test]
fn test_payment_without_agent_pays_landlord_fully() {
    let mut c = Contract::new();
    let tenant = Address(2);
    // A commission rate is on file, but no agent: the landlord receives
    // the full rent.
    c.create_agreement(
        String::from("solo"),
        Address(1),
        tenant,
        None,
        1000,
        0,
        1_000,
        100_000_000,
        500,
        Address(9),
    )
    .unwrap();
    c.sign_agreement(tenant, String::from("solo"), 1_500).unwrap();
    let rec = c.process_payment(String::from("solo"), 1000, tenant, 2_000).unwrap();
    assert_eq!(rec.landlord_amount, 1000);
    assert_eq!(rec.agent_amount, 0);
}

#[test]
fn test_from_agreements_round_trip() {
    let (c, _, _, _) = active_registry();
    let copied = vec![c.get_agreement(String::from("lease_1")).unwrap()];
    let rebuilt = Contract::from_agreements(copied).unwrap();
    assert!(rebuilt.has_agreement(String::from("lease_1")));
    assert_eq!(rebuilt.get_agreement_count(), 1);
    assert_eq!(rebuilt.agreements().len(), 1);
}

#[test]
fn test_from_agreements_rejects_bad_state() {
    // The helper's term has start_date == end_date, which the registry
    // itself would never persist.
    let bad = create_test_agreement(
        "x",
        &Address(1),
        &Address(2),
        None,
        1000,
        0,
        AgreementStatus::Active,
        Address(9),
    );
    assert!(Contract::from_agreements(vec![bad]).is_none());

    // Two agreements under one identifier are rejected too.
    let (c, _, _, _) = active_registry();
    let a = c.get_agreement(String::from("lease_1")).unwrap();
    let b = c.get_agreement(String::from("lease_1")).unwrap();
    assert!(Contract::from_agreements(vec![a, b]).is_none());
}

#[test]
fn test_hello() {
    let greeting = Contract::hello(String::from("World"));
    assert_eq!(greeting, vec![String::from("Hello"), String::from("World")]);
}
