use event_ticketing::application::booking::{ensure_no_active_booking, expire_booking, reserve_booking, reserve_booking_checked};
use event_ticketing::application::dto::{booking_to_dto, event_to_dto, refund_to_dto, ticket_to_dto};
use event_ticketing::application::errors::{found_or, ApplicationError};
use event_ticketing::application::refund::{cancel_bookings_of_cancelled_event, ensure_no_refund, open_refund, reject_refund, settle_refunded_booking};
use event_ticketing::booking::value_objects::{BookingId, BookingStatus};
use event_ticketing::infrastructure::mappers::{booking_from_row, booking_to_row, ticket_from_row, ticket_to_row};
use event_ticketing::event::aggregate::Event;
use event_ticketing::event::value_objects::{CategoryId, EventId};
use event_ticketing::refund::value_objects::{RefundId, RefundStatus};
use event_ticketing::shared::errors::DomainError;
use event_ticketing::shared::value_objects::{Amount, Money, UserId};
use event_ticketing::ticket::value_objects::TicketStatus;

/// The current instant, in nanoseconds since the epoch.
fn now_nanos() -> i128 {
    let now = chrono::Utc::now();
    i128::from(now.timestamp()) * 1_000_000_000 + i128::from(now.timestamp_subsec_nanos())
}

const DAY: i128 = 86_400_000_000_000;

fn money(mantissa: i128, scale: u32) -> Money {
    Money::new(Amount::new(mantissa, scale), "IDR".to_string()).unwrap()
}

fn published_event(quota: u32) -> (Event, CategoryId) {
    let now = now_nanos();
    let mut event = Event::new(EventId::new(), UserId::new(), "Fest".into(), "".into(), "Jakarta".into(), now + 10 * DAY, now + 11 * DAY, 100).unwrap();
    let cat = CategoryId::new();
    event.add_ticket_category(cat, "Regular".into(), money(500, 1), quota, now - DAY, now + DAY).unwrap();
    event.publish().unwrap();
    (event, cat)
}

fn message(err: &ApplicationError) -> String {
    match err {
        ApplicationError::NotFound(m) => m.clone(),
        ApplicationError::Domain(DomainError::BusinessRule(m)) => m.clone(),
        other => format!("{:?}", other),
    }
}

#[test]
fn reserve_booking_takes_quota_and_prices_the_booking() {
    let (event, cat) = published_event(10);
    let user = UserId::new();
    let (event, booking) = reserve_booking(Some(event), BookingId::new(), user, cat, 4, now_nanos()).unwrap();
    assert_eq!(event.categories[0].remaining_quota, 6);
    assert_eq!(booking.status, BookingStatus::PendingPayment);
    assert_eq!(booking.user_id, user);
    assert_eq!(booking.total_amount.amount(), Amount::new(2000, 1));
}

#[test]
fn reserve_booking_refusals() {
    let now = now_nanos();
    let none = reserve_booking(None, BookingId::new(), UserId::new(), CategoryId::new(), 1, now);
    assert_eq!(message(&none.err().unwrap()), "Event not found");

    let (mut draft, cat) = published_event(10);
    draft.status = event_ticketing::event::value_objects::EventStatus::Draft;
    let r = reserve_booking(Some(draft), BookingId::new(), UserId::new(), cat, 1, now);
    assert_eq!(message(&r.err().unwrap()), "Event is not published");

    let (event, _) = published_event(10);
    let r = reserve_booking(Some(event), BookingId::new(), UserId::new(), CategoryId::new(), 1, now);
    assert_eq!(message(&r.err().unwrap()), "Category not found");

    let (event, cat) = published_event(10);
    let r = reserve_booking(Some(event), BookingId::new(), UserId::new(), cat, 1, now + 3 * DAY);
    assert_eq!(message(&r.err().unwrap()), "Category is not available for purchase");

    let (event, cat) = published_event(10);
    let r = reserve_booking(Some(event), BookingId::new(), UserId::new(), cat, 11, now);
    assert_eq!(message(&r.err().unwrap()), "Requested quantity 11 exceeds remaining quota 10");

    let (event, cat) = published_event(10);
    let r = reserve_booking(Some(event), BookingId::new(), UserId::new(), cat, 0, now);
    assert_eq!(message(&r.err().unwrap()), "Booking quantity must be greater than zero");
}

#[test]
fn one_active_booking_and_one_refund_per_booking() {
    assert!(ensure_no_active_booking(false).is_ok());
    assert_eq!(message(&ensure_no_active_booking(true).err().unwrap()), "Customer already has a booking for this event");
    assert!(ensure_no_refund(false).is_ok());
    assert_eq!(message(&ensure_no_refund(true).err().unwrap()), "Refund already requested for this booking");
    assert_eq!(found_or(Some(3), "X not found").unwrap(), 3);
    assert_eq!(message(&found_or::<u8>(None, "X not found").err().unwrap()), "X not found");
}

#[test]
fn expiring_a_reservation_gives_the_quota_back() {
    let (event, cat) = published_event(10);
    let (mut event, mut booking) = reserve_booking(Some(event), BookingId::new(), UserId::new(), cat, 4, now_nanos()).unwrap();
    expire_booking(&mut booking, &mut event).unwrap();
    assert_eq!(booking.status, BookingStatus::Expired);
    assert_eq!(event.categories[0].remaining_quota, 10);
    let again = expire_booking(&mut booking, &mut event);
    assert!(matches!(again, Err(ApplicationError::Domain(DomainError::InvalidStatusTransition(_)))));
    assert_eq!(event.categories[0].remaining_quota, 10);
}

#[test]
fn refund_lifecycle_through_the_application() {
    let (event, cat) = published_event(10);
    let (_, mut booking) = reserve_booking(Some(event), BookingId::new(), UserId::new(), cat, 2, now_nanos()).unwrap();
    let pending = open_refund(Some(clone_booking_shell(&booking)), RefundId::new(), booking.id, booking.user_id, None);
    assert_eq!(message(&pending.err().unwrap()), "Can only refund paid bookings");
    let none = open_refund(None, RefundId::new(), booking.id, booking.user_id, None);
    assert_eq!(message(&none.err().unwrap()), "Booking not found");

    let amount = booking.total_amount.clone();
    booking.pay(&amount, now_nanos()).unwrap();
    let refund = open_refund(Some(clone_booking_shell(&booking)), RefundId::new(), booking.id, booking.user_id, Some("sick".into())).unwrap();
    assert_eq!(refund.status, RefundStatus::Requested);
    assert_eq!(refund.amount, booking.total_amount);
    assert_eq!(refund.reason.as_deref(), Some("sick"));

    settle_refunded_booking(&mut booking).unwrap();
    assert_eq!(booking.status, BookingStatus::Refunded);
    assert!(booking.tickets.iter().all(|t| t.status == TicketStatus::Cancelled));
    assert!(settle_refunded_booking(&mut booking).is_err());
}

#[test]
fn refund_refused_after_check_in() {
    let (event, cat) = published_event(10);
    let (_, mut booking) = reserve_booking(Some(event), BookingId::new(), UserId::new(), cat, 2, now_nanos()).unwrap();
    let amount = booking.total_amount.clone();
    booking.pay(&amount, now_nanos()).unwrap();
    let event_id = booking.event_id;
    booking.tickets[1].check_in(event_id, now_nanos()).unwrap();
    let r = open_refund(Some(clone_booking_shell(&booking)), RefundId::new(), booking.id, booking.user_id, None);
    assert!(matches!(r, Err(ApplicationError::Domain(DomainError::CheckedInTicketRefundDenied))));
    let settled = settle_refunded_booking(&mut booking);
    assert!(matches!(settled, Err(ApplicationError::Domain(DomainError::CheckedInTicketRefundDenied))));
}

#[test]
fn reject_refund_needs_a_reason_first() {
    let mut refund = event_ticketing::refund::aggregate::Refund::request(RefundId::new(), BookingId::new(), UserId::new(), money(10, 0), None);
    refund.approve().unwrap();
    let blank = reject_refund(&mut refund, "  ".into());
    assert_eq!(message(&blank.err().unwrap()), "Rejection reason is required");
    let late = reject_refund(&mut refund, "late".into());
    assert!(matches!(late, Err(ApplicationError::Domain(DomainError::RefundNotRequested))));
    let mut fresh = event_ticketing::refund::aggregate::Refund::request(RefundId::new(), BookingId::new(), UserId::new(), money(10, 0), None);
    reject_refund(&mut fresh, "fraud".into()).unwrap();
    assert_eq!(fresh.status, RefundStatus::Rejected);
}

#[test]
fn dtos_describe_the_aggregates() {
    let (event, cat) = published_event(10);
    let dto = event_to_dto(&event);
    assert_eq!(dto.status, "Published");
    assert_eq!(dto.categories.len(), 1);
    assert_eq!(dto.categories[0].id, cat.into_inner());
    assert_eq!(dto.categories[0].price, Amount::new(50, 0));
    assert_eq!(dto.categories[0].currency, "IDR");
    let (_, mut booking) = reserve_booking(Some(event), BookingId::new(), UserId::new(), cat, 1, now_nanos()).unwrap();
    let bdto = booking_to_dto(&booking);
    assert_eq!(bdto.status, "PendingPayment");
    assert_eq!(bdto.quantity, 1);
    assert_eq!(bdto.id, booking.id.into_inner());
    let amount = booking.total_amount.clone();
    booking.pay(&amount, now_nanos()).unwrap();
    let tdto = ticket_to_dto(&booking.tickets[0]);
    assert_eq!(tdto.status, "Active");
    assert_eq!(tdto.code, booking.tickets[0].code.as_str());
    let refund = event_ticketing::refund::aggregate::Refund::request(RefundId::new(), booking.id, booking.user_id, amount, Some("r".into()));
    let rdto = refund_to_dto(&refund);
    assert_eq!(rdto.status, "Requested");
    assert_eq!(rdto.reason.as_deref(), Some("r"));
    assert_eq!(rdto.booking_id, booking.id.into_inner());
}

fn clone_booking_shell(b: &event_ticketing::booking::aggregate::Booking) -> event_ticketing::booking::aggregate::Booking {
    let tickets = b.tickets.iter().map(|t| ticket_from_row(ticket_to_row(t), t.category_id)).collect();
    booking_from_row(booking_to_row(b), tickets)
}

#[test]
fn event_cancellation_refunds_paid_bookings_and_cancels_their_tickets() {
    let (event, cat) = published_event(10);
    let (event, mut paid) = reserve_booking(Some(event), BookingId::new(), UserId::new(), cat, 2, now_nanos()).unwrap();
    let amount = paid.total_amount.clone();
    paid.pay(&amount, now_nanos()).unwrap();
    let event_id = paid.event_id;
    paid.tickets[0].check_in(event_id, now_nanos()).unwrap();
    let (_, pending) = reserve_booking(Some(event), BookingId::new(), UserId::new(), cat, 1, now_nanos()).unwrap();
    let mut bookings = vec![paid, pending];
    cancel_bookings_of_cancelled_event(&mut bookings);
    assert_eq!(bookings[0].status, BookingStatus::Refunded);
    assert_eq!(bookings[0].tickets[0].status, TicketStatus::CheckedIn);
    assert_eq!(bookings[0].tickets[1].status, TicketStatus::Cancelled);
    assert_eq!(bookings[1].status, BookingStatus::PendingPayment);
}

#[test]
fn reserving_at_a_price_that_overflows_is_reported() {
    let now = now_nanos();
    let mut event = Event::new(EventId::new(), UserId::new(), "Fest".into(), "".into(), "Jakarta".into(), now + 10 * DAY, now + 11 * DAY, 100).unwrap();
    let cat = CategoryId::new();
    let huge = Money::new(Amount::new(0xFFFF_FFFF_FFFF_FFFF_FFFF_FFFF, 0), "IDR".to_string()).unwrap();
    event.add_ticket_category(cat, "Gold".into(), huge, 10, now - DAY, now + DAY).unwrap();
    event.publish().unwrap();
    assert!(reserve_booking_checked(Some(event), BookingId::new(), UserId::new(), cat, 2, now).is_none());
    let (event, cat) = published_event(10);
    let r = reserve_booking_checked(Some(event), BookingId::new(), UserId::new(), cat, 2, now);
    assert!(matches!(r, Some(Ok(_))));
    assert!(matches!(reserve_booking_checked(None, BookingId::new(), UserId::new(), cat, 2, now), Some(Err(ApplicationError::NotFound(_)))));
}

#[test]
fn errors_carry_their_messages() {
    assert_eq!(DomainError::InvalidStatusTransition("late".into()).message(), "Invalid status transition: late");
    assert_eq!(DomainError::NegativeMoney.message(), "Money amount cannot be negative");
    assert_eq!(ApplicationError::NotFound("Event not found".into()).message(), "Not found: Event not found");
    assert_eq!(ApplicationError::Domain(DomainError::BusinessRule("x".into())).message(), "Domain error: x");
}

#[test]
fn payout_is_checked_before_the_money_leaves() {
    let mut refund = event_ticketing::refund::aggregate::Refund::request(RefundId::new(), BookingId::new(), UserId::new(), money(10, 0), None);
    assert!(!refund.can_pay_out());
    refund.approve().unwrap();
    assert!(refund.can_pay_out());
}
