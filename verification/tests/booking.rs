use event_ticketing::booking::aggregate::{Booking, PAYMENT_WINDOW};
use event_ticketing::booking::value_objects::{BookingId, BookingStatus};
use event_ticketing::event::value_objects::{CategoryId, EventId};
use event_ticketing::shared::domain_event::DomainEventRecord;
use event_ticketing::shared::errors::DomainError;
use event_ticketing::shared::value_objects::{Amount, Money, UserId};
use event_ticketing::ticket::value_objects::TicketStatus;

/// The current instant, in nanoseconds since the epoch.
fn now_nanos() -> i128 {
    let now = chrono::Utc::now();
    i128::from(now.timestamp()) * 1_000_000_000 + i128::from(now.timestamp_subsec_nanos())
}

const MINUTE: i128 = 60_000_000_000;

fn money(mantissa: i128, scale: u32, currency: &str) -> Money {
    Money::new(Amount::new(mantissa, scale), currency.to_string()).unwrap()
}

fn make_booking() -> Booking {
    Booking::new(
        BookingId::new(),
        UserId::new(),
        EventId::new(),
        CategoryId::new(),
        2,
        money(1000, 1, "IDR"),
    )
    .unwrap()
}

fn make_booking_with_deadline(deadline: i128) -> Booking {
    let mut booking = make_booking();
    booking.payment_deadline = deadline;
    booking
}

#[test]
fn create_booking_fails_with_zero_quantity() {
    let result = Booking::new(
        BookingId::new(),
        UserId::new(),
        EventId::new(),
        CategoryId::new(),
        0,
        money(1000, 1, "IDR"),
    );
    assert!(matches!(result, Err(DomainError::BusinessRule(_))));
}

#[test]
fn pay_booking_fails_after_deadline() {
    let past_deadline = now_nanos() - MINUTE;
    let mut booking = make_booking_with_deadline(past_deadline);
    let amount = money(2000, 1, "IDR");

    let result = booking.pay(&amount, now_nanos());
    assert!(matches!(result, Err(DomainError::PaymentDeadlinePassed)));
}

#[test]
fn pay_booking_fails_with_wrong_amount() {
    let mut booking = make_booking();
    let wrong_amount = money(9990, 1, "IDR");
    let now = now_nanos();

    let result = booking.pay(&wrong_amount, now);
    assert!(matches!(result, Err(DomainError::PaymentAmountMismatch)));
}

#[test]
fn paid_booking_cannot_expire() {
    let mut booking = make_booking();
    let amount = booking.total_amount.clone();
    let now = now_nanos();
    booking.pay(&amount, now).unwrap();

    let result = booking.expire();
    assert!(matches!(result, Err(DomainError::InvalidStatusTransition(_))));
}

#[test]
fn booking_creates_tickets_on_payment() {
    let mut booking = make_booking();
    let amount = booking.total_amount.clone();
    let now = now_nanos();
    assert!(booking.tickets.is_empty());

    booking.pay(&amount, now).unwrap();

    assert_eq!(booking.tickets.len(), 2);
    let codes: Vec<_> = booking.tickets.iter().map(|t| t.code.as_str().to_string()).collect();
    let unique_codes: std::collections::HashSet<_> = codes.iter().collect();
    assert_eq!(codes.len(), unique_codes.len());
}

#[test]
fn create_booking_success() {
    let booking = make_booking();
    assert_eq!(booking.status, BookingStatus::PendingPayment);
    assert_eq!(booking.quantity, 2);
    assert!(booking.tickets.is_empty());
    assert_eq!(booking.events.len(), 2);
}

#[test]
fn expire_booking_success() {
    let mut booking = make_booking();
    booking.expire().unwrap();

    assert_eq!(booking.status, BookingStatus::Expired);
}

#[test]
fn mark_refund_required_success() {
    let mut booking = make_booking();
    let amount = booking.total_amount.clone();
    booking.pay(&amount, now_nanos()).unwrap();

    booking.mark_refund_required().unwrap();
    assert_eq!(booking.status, BookingStatus::Refunded);
}

#[test]
fn mark_refund_required_fails_if_not_paid() {
    let mut booking = make_booking();
    let result = booking.mark_refund_required();
    assert!(matches!(result, Err(DomainError::InvalidStatusTransition(_))));
}

// ---------------------------------------------------------------------------

#[test]
fn total_is_unit_price_times_quantity_with_deadline() {
    let booking = Booking::new(BookingId::new(), UserId::new(), EventId::new(), CategoryId::new(), 3, money(2550, 2, "IDR")).unwrap();
    assert_eq!(booking.total_amount.amount(), Amount::new(7650, 2));
    assert_eq!(booking.total_amount.amount().mantissa(), 7650);
    assert_eq!(booking.total_amount.amount().scale(), 2);
    assert_eq!(booking.total_amount.currency(), "IDR");
    assert_eq!(booking.payment_deadline, booking.created_at + PAYMENT_WINDOW);
    assert_eq!(PAYMENT_WINDOW, 15 * MINUTE);
    match (&booking.events[0], &booking.events[1]) {
        (DomainEventRecord::BookingCreated(c), DomainEventRecord::TicketReserved(r)) => {
            assert_eq!(c.booking_id, booking.id);
            assert_eq!(r.quantity, 3);
        }
        _ => panic!("unexpected events"),
    }
}

#[test]
fn quantity_beyond_i32_is_priced_in_full() {
    let booking = Booking::new(BookingId::new(), UserId::new(), EventId::new(), CategoryId::new(), 0x8000_0000, money(15, 1, "IDR")).unwrap();
    assert_eq!(booking.total_amount.amount().mantissa(), 15 * 0x8000_0000);
    assert_eq!(booking.total_amount.amount().scale(), 1);
    assert_eq!(booking.quantity, 0x8000_0000);
}

#[test]
fn free_tickets_cost_zero_at_scale_zero() {
    let booking = Booking::new(BookingId::new(), UserId::new(), EventId::new(), CategoryId::new(), 4, money(0, 2, "IDR")).unwrap();
    assert_eq!(booking.total_amount.amount().mantissa(), 0);
    assert_eq!(booking.total_amount.amount().scale(), 0);
}

#[test]
fn payment_in_other_currency_or_twice_is_refused() {
    let mut booking = make_booking();
    let other = money(2000, 1, "USD");
    assert!(matches!(booking.pay(&other, now_nanos()), Err(DomainError::PaymentAmountMismatch)));
    let same_value_other_scale = money(200, 0, "IDR");
    booking.pay(&same_value_other_scale, booking.payment_deadline).unwrap();
    assert_eq!(booking.status, BookingStatus::Paid);
    for t in &booking.tickets {
        assert_eq!(t.status, TicketStatus::Active);
        assert_eq!(t.booking_id, booking.id);
        assert_eq!(t.event_id, booking.event_id);
        assert_eq!(t.code.as_str().len(), 36);
        assert_eq!(t.code.as_str(), t.code.as_str().to_uppercase());
    }
    match booking.pay(&same_value_other_scale, booking.payment_deadline) {
        Err(DomainError::InvalidStatusTransition(m)) => assert_eq!(m, "Can only pay for pending bookings"),
        _ => panic!("expected a refused transition"),
    }
    assert_eq!(booking.tickets.len(), 2);
}

#[test]
fn refused_transitions_name_the_status() {
    let mut booking = make_booking();
    booking.expire().unwrap();
    match booking.expire() {
        Err(DomainError::InvalidStatusTransition(m)) => {
            assert_eq!(m, "Can only expire pending bookings, current status: Expired")
        }
        _ => panic!("expected a refused transition"),
    }
    match booking.mark_refund_required() {
        Err(DomainError::InvalidStatusTransition(m)) => {
            assert_eq!(m, "Can only refund paid bookings, current status: Expired")
        }
        _ => panic!("expected a refused transition"),
    }
    let amount = booking.total_amount.clone();
    assert!(booking.pay(&amount, now_nanos()).is_err());
    assert_eq!(booking.take_events().len(), 3);
    assert!(booking.events.is_empty());
}

#[test]
fn payment_is_checked_before_it_is_taken() {
    let booking = make_booking();
    let amount = booking.total_amount.clone();
    assert!(booking.accepts_payment(&amount, now_nanos()));
    assert!(!booking.accepts_payment(&money(1, 0, "IDR"), now_nanos()));
    assert!(!booking.accepts_payment(&amount, booking.payment_deadline + 1));
}
