//! Tests for the payment-split calculator and the payment record
//! constructor.

use chioma::errors::PaymentError;
use chioma::payment::{calculate_payment_split, create_payment_record};
use chioma::types::Address;

#[test]
fn test_calculate_payment_split_no_commission() {
    let (landlord, agent) = calculate_payment_split(&1000, &0);
    assert_eq!(landlord, 1000);
    assert_eq!(agent, 0);
}

#[test]
fn test_calculate_payment_split_5_percent() {
    // Test with 5% commission (500 basis points)
    let (landlord, agent) = calculate_payment_split(&1000, &500);
    assert_eq!(landlord, 950);
    assert_eq!(agent, 50);
}

#[test]
fn test_calculate_payment_split_10_percent() {
    // Test with 10% commission (1000 basis points)
    let (landlord, agent) = calculate_payment_split(&2000, &1000);
    assert_eq!(landlord, 1800);
    assert_eq!(agent, 200);
}

#[test]
fn test_calculate_payment_split_2_5_percent() {
    // Test with 2.5% commission (250 basis points)
    let (landlord, agent) = calculate_payment_split(&10000, &250);
    assert_eq!(landlord, 9750);
    assert_eq!(agent, 250);
}

#[test]
fn test_calculate_payment_split_rounds_down() {
    // The remainder of the flooring goes to the landlord.
    let (landlord, agent) = calculate_payment_split(&999, &250);
    assert_eq!(agent, 24);
    assert_eq!(landlord, 975);
    assert_eq!(landlord + agent, 999);
}

#[test]
fn test_create_payment_record() {
    let tenant = Address(5);
    let agreement_id = String::from("AGR_001");

    let record = create_payment_record(&agreement_id, 1000, 950, 50, &tenant, 1, 12345).unwrap();

    assert_eq!(record.agreement_id, agreement_id);
    assert_eq!(record.amount, 1000);
    assert_eq!(record.landlord_amount, 950);
    assert_eq!(record.agent_amount, 50);
    assert_eq!(record.payment_number, 1);
    assert_eq!(record.timestamp, 12345);
    assert_eq!(record.tenant, tenant);
}

#[test]
fn test_create_payment_record_rejects_bad_amounts() {
    let tenant = Address(5);
    let agreement_id = String::from("AGR_001");
    assert_eq!(
        create_payment_record(&agreement_id, 0, 0, 0, &tenant, 1, 12345).unwrap_err(),
        PaymentError::InvalidAmount
    );
    assert_eq!(
        create_payment_record(&agreement_id, -5, -5, 0, &tenant, 1, 12345).unwrap_err(),
        PaymentError::InvalidAmount
    );
    // The division must sum to the amount exactly.
    assert_eq!(
        create_payment_record(&agreement_id, 1000, 950, 51, &tenant, 1, 12345).unwrap_err(),
        PaymentError::InvalidAmount
    );
}
