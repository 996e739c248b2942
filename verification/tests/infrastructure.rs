use event_ticketing::booking::value_objects::{BookingId, BookingStatus};
use event_ticketing::event::aggregate::Event;
use event_ticketing::event::value_objects::{CategoryId, EventId, EventStatus};
use event_ticketing::infrastructure::mappers::{
    booking_from_row, booking_to_row, event_from_rows, event_to_row, refund_from_row, refund_to_row,
    ticket_category_from_row, ticket_category_to_row, ticket_from_row, ticket_from_row_with_category,
    ticket_to_row,
};
use event_ticketing::infrastructure::models::{
    BookingRow, BookingStatusDb, EventRow, EventStatusDb, RefundRow, RefundStatusDb, TicketCategoryRow,
    TicketRow, TicketStatusDb, TicketWithCategoryRow,
};
use event_ticketing::infrastructure::services::{BankRefundService, EmailNotificationService, StripePaymentGateway};
use event_ticketing::refund::value_objects::RefundStatus;
use event_ticketing::shared::value_objects::{Amount, UserId};
use event_ticketing::ticket::value_objects::TicketStatus;

/// The current instant, in nanoseconds since the epoch.
fn now_nanos() -> i128 {
    let now = chrono::Utc::now();
    i128::from(now.timestamp()) * 1_000_000_000 + i128::from(now.timestamp_subsec_nanos())
}

const DAY: i128 = 86_400_000_000_000;

fn category_row(id: u128, start: i128) -> TicketCategoryRow {
    TicketCategoryRow {
        id,
        event_id: 7,
        name: "VIP".into(),
        price_amount: Amount::new(12345, 2),
        price_currency: "IDR".into(),
        quota: 50,
        remaining_quota: 20,
        sales_start: start,
        sales_end: start + 3,
        is_active: true,
        created_at: 11,
    }
}

#[test]
fn event_rows_round_trip_at_day_resolution() {
    let row = EventRow {
        id: 7,
        organizer_id: 9,
        name: "Fest".into(),
        description: "d".into(),
        start_date: 20_000,
        end_date: 20_002,
        location: "Bali".into(),
        max_capacity: 300,
        status: EventStatusDb::Published,
        created_at: 5,
        updated_at: 6,
    };
    let event = event_from_rows(row, vec![category_row(1, 19_990), category_row(2, -3)]);
    assert_eq!(event.id, EventId::from(7));
    assert_eq!(event.organizer_id, UserId::from(9));
    assert_eq!(event.start_date, 20_000 * DAY);
    assert_eq!(event.status, EventStatus::Published);
    assert_eq!(event.categories.len(), 2);
    assert_eq!(event.categories[1].sales_start, -3 * DAY);
    assert_eq!(event.categories[0].price.amount(), Amount::new(12345, 2));
    assert!(event.events.is_empty());
    let back = event_to_row(&event);
    assert_eq!(back.start_date, 20_000);
    assert_eq!(back.end_date, 20_002);
    assert_eq!(back.max_capacity, 300);
    assert_eq!(back.status, EventStatusDb::Published);
    assert_eq!(back.name, "Fest");
    let cat_back = ticket_category_to_row(&event.categories[1]);
    assert_eq!(cat_back.sales_start, -3);
    assert_eq!(cat_back.remaining_quota, 20);
}

#[test]
fn instants_are_stored_as_their_utc_day() {
    let now = now_nanos();
    let event = Event::new(EventId::new(), UserId::new(), "E".into(), "".into(), "L".into(), 20_000 * DAY + 5, 20_000 * DAY - 1, 1);
    assert!(event.is_err());
    let event = Event::new(EventId::new(), UserId::new(), "E".into(), "".into(), "L".into(), -1, DAY - 1, 1).unwrap();
    let row = event_to_row(&event);
    assert_eq!(row.start_date, -1);
    assert_eq!(row.end_date, 0);
    assert!(row.created_at >= now);
}

#[test]
fn category_rows_round_trip() {
    let c = ticket_category_from_row(category_row(3, 100));
    assert_eq!(c.id, CategoryId::from(3));
    assert_eq!(c.quota, 50);
    assert_eq!(c.remaining_quota, 20);
    assert_eq!(c.sales_end, 103 * DAY);
    let row = ticket_category_to_row(&c);
    assert_eq!(row.sales_start, 100);
    assert_eq!(row.price_currency, "IDR");
    assert_eq!(row.price_amount, Amount::new(12345, 2));
}

#[test]
fn booking_and_ticket_rows_round_trip() {
    let row = BookingRow {
        id: 1,
        customer_id: 2,
        event_id: 3,
        category_id: 4,
        quantity: 2,
        total_amount: Amount::new(500, 1),
        total_currency: "IDR".into(),
        status: BookingStatusDb::Paid,
        payment_deadline: 99,
        created_at: 10,
        updated_at: 12,
    };
    let ticket_row = TicketRow {
        id: 8,
        booking_id: 1,
        event_id: 3,
        code: "CODE-1".into(),
        status: TicketStatusDb::CheckedIn,
        checked_in_at: Some(50),
        created_at: 20,
    };
    let ticket = ticket_from_row(ticket_row, CategoryId::from(4));
    assert_eq!(ticket.status, TicketStatus::CheckedIn);
    assert_eq!(ticket.code.as_str(), "CODE-1");
    let booking = booking_from_row(row, vec![ticket]);
    assert_eq!(booking.id, BookingId::from(1));
    assert_eq!(booking.status, BookingStatus::Paid);
    assert_eq!(booking.quantity, 2);
    let back = booking_to_row(&booking);
    assert_eq!(back.customer_id, 2);
    assert_eq!(back.status, BookingStatusDb::Paid);
    assert_eq!(back.total_currency, "IDR");
    assert_eq!(back.quantity, 2);
    let t_back = ticket_to_row(&booking.tickets[0]);
    assert_eq!(t_back.checked_in_at, Some(50));
    assert_eq!(t_back.status, TicketStatusDb::CheckedIn);

    let with_category = TicketWithCategoryRow {
        id: 8,
        booking_id: 1,
        event_id: 3,
        code: "C".into(),
        status: TicketStatusDb::Active,
        checked_in_at: None,
        created_at: 1,
        category_id: 42,
    };
    let t = ticket_from_row_with_category(with_category);
    assert_eq!(t.category_id, CategoryId::from(42));
    assert_eq!(t.status, TicketStatus::Active);
}

#[test]
fn refund_rows_round_trip_with_the_reason() {
    let row = RefundRow {
        id: 1,
        booking_id: 2,
        customer_id: 3,
        amount: Amount::new(75, 0),
        currency: "IDR".into(),
        status: RefundStatusDb::Rejected,
        reason: Some("ill".into()),
        rejection_reason: Some("no".into()),
        payment_reference: None,
        requested_at: 4,
        updated_at: 5,
    };
    let refund = refund_from_row(row);
    assert_eq!(refund.status, RefundStatus::Rejected);
    assert_eq!(refund.reason.as_deref(), Some("ill"));
    let back = refund_to_row(&refund);
    assert_eq!(back.reason.as_deref(), Some("ill"));
    assert_eq!(back.rejection_reason.as_deref(), Some("no"));
    assert_eq!(back.status, RefundStatusDb::Rejected);
    assert_eq!(back.amount, Amount::new(75, 0));
}

#[test]
fn status_conversions_are_inverse() {
    for s in [EventStatus::Draft, EventStatus::Published, EventStatus::Cancelled, EventStatus::Completed] {
        assert_eq!(EventStatus::from(EventStatusDb::from(s)), s);
    }
    for s in [BookingStatus::PendingPayment, BookingStatus::Paid, BookingStatus::Expired, BookingStatus::Refunded] {
        assert_eq!(BookingStatus::from(BookingStatusDb::from(s)), s);
    }
    for s in [TicketStatus::Active, TicketStatus::CheckedIn, TicketStatus::Cancelled] {
        assert_eq!(TicketStatus::from(TicketStatusDb::from(s)), s);
    }
    for s in [RefundStatus::Requested, RefundStatus::Approved, RefundStatus::Rejected, RefundStatus::PaidOut] {
        assert_eq!(RefundStatus::from(RefundStatusDb::from(s)), s);
    }
}

#[test]
fn services_are_configured() {
    let _ = EmailNotificationService::new();
    let _ = BankRefundService::new();
    let gateway = StripePaymentGateway::new();
    assert_eq!(gateway.key_prefix(), "sk_test_mo");
    assert_eq!(StripePaymentGateway::default().key_prefix(), "sk_test_mo");
}

#[test]
fn identifiers_render_as_hyphenated_uuids() {
    let id = UserId::from(0x0123_4567_89ab_cdef_0123_4567_89ab_cdefu128);
    assert_eq!(id.to_text(), "01234567-89ab-cdef-0123-456789abcdef");
    assert_eq!(id.into_inner(), 0x0123_4567_89ab_cdef_0123_4567_89ab_cdefu128);
    let fresh = BookingId::new().into_inner();
    assert_eq!((fresh >> 76) & 0xf, 4);
    assert_eq!((fresh >> 62) & 0x3, 2);
    assert_ne!(BookingId::new(), BookingId::new());
}
