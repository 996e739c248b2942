use event_ticketing::booking::value_objects::BookingId;
use event_ticketing::refund::aggregate::Refund;
use event_ticketing::refund::value_objects::{RefundId, RefundStatus};
use event_ticketing::shared::errors::DomainError;
use event_ticketing::shared::value_objects::{Amount, Money, UserId};

fn make_refund() -> Refund {
    Refund::request(
        RefundId::new(),
        BookingId::new(),
        UserId::new(),
        Money::new(Amount::new(2000, 1), "IDR".to_string()).unwrap(),
        Some("Changed my mind".to_string()),
    )
}

#[test]
fn approve_fails_if_not_in_requested_status() {
    let mut refund = make_refund();
    refund.approve().unwrap();

    let result = refund.approve();
    assert!(matches!(result, Err(DomainError::RefundNotRequested)));
}

#[test]
fn reject_requires_non_empty_reason() {
    let mut refund = make_refund();

    let result = refund.reject("".to_string());
    assert!(matches!(result, Err(DomainError::RejectionReasonRequired)));

    let result = refund.reject("   ".to_string());
    assert!(matches!(result, Err(DomainError::RejectionReasonRequired)));
}

#[test]
fn mark_paid_out_fails_if_not_approved() {
    let mut refund = make_refund();

    let result = refund.mark_paid_out("REF-123".to_string());
    assert!(matches!(result, Err(DomainError::RefundNotApproved)));
}

#[test]
fn paid_out_refund_is_immutable() {
    let mut refund = make_refund();
    refund.approve().unwrap();
    refund.mark_paid_out("REF-123".to_string()).unwrap();

    assert_eq!(refund.status, RefundStatus::PaidOut);

    let result = refund.approve();
    assert!(matches!(result, Err(DomainError::RefundNotRequested)));

    let result = refund.reject("reason".to_string());
    assert!(matches!(result, Err(DomainError::RefundNotRequested)));

    let result = refund.mark_paid_out("REF-456".to_string());
    assert!(matches!(result, Err(DomainError::RefundNotApproved)));
}

#[test]
fn approve_and_payout_success() {
    let mut refund = make_refund();
    refund.approve().unwrap();
    assert_eq!(refund.status, RefundStatus::Approved);

    refund.mark_paid_out("BANK-REF-001".to_string()).unwrap();
    assert_eq!(refund.status, RefundStatus::PaidOut);
    assert_eq!(refund.payment_reference.as_deref(), Some("BANK-REF-001"));
}

#[test]
fn reject_success() {
    let mut refund = make_refund();
    refund.reject("Policy violation".to_string()).unwrap();

    assert_eq!(refund.status, RefundStatus::Rejected);
    assert_eq!(refund.rejection_reason.as_deref(), Some("Policy violation"));
    assert_eq!(refund.reason.as_deref(), Some("Changed my mind"));
}

#[test]
fn mark_paid_out_fails_with_empty_reference() {
    let mut refund = make_refund();
    refund.approve().unwrap();

    let result = refund.mark_paid_out("".to_string());
    assert!(matches!(result, Err(DomainError::BusinessRule(_))));
}

// ---------------------------------------------------------------------------

#[test]
fn blank_texts_include_unicode_white_space() {
    let mut refund = make_refund();
    let result = refund.reject("\t\n\u{3000}\u{a0}".to_string());
    assert!(matches!(result, Err(DomainError::RejectionReasonRequired)));
    refund.approve().unwrap();
    match refund.mark_paid_out(" \u{2003} ".to_string()) {
        Err(DomainError::BusinessRule(m)) => assert_eq!(m, "Payment reference is required for payout"),
        _ => panic!("expected a refused payout"),
    }
    assert_eq!(refund.status, RefundStatus::Approved);
    assert!(refund.payment_reference.is_none());
}

#[test]
fn rejected_refund_is_final() {
    let mut refund = make_refund();
    refund.reject(" x ".to_string()).unwrap();
    assert_eq!(refund.rejection_reason.as_deref(), Some(" x "));
    assert!(matches!(refund.approve(), Err(DomainError::RefundNotRequested)));
    assert!(matches!(refund.reject("again".to_string()), Err(DomainError::RefundNotRequested)));
    assert!(matches!(refund.mark_paid_out("REF".to_string()), Err(DomainError::RefundNotApproved)));
    assert_eq!(refund.take_events().len(), 2);
    assert_eq!(RefundStatus::Rejected.as_str(), "Rejected");
}
