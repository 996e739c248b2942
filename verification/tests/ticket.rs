use event_ticketing::booking::value_objects::BookingId;
use event_ticketing::event::value_objects::{CategoryId, EventId};
use event_ticketing::shared::errors::DomainError;
use event_ticketing::ticket::entity::Ticket;
use event_ticketing::ticket::value_objects::{TicketCode, TicketStatus};

/// The current instant, in nanoseconds since the epoch.
fn now_nanos() -> i128 {
    let now = chrono::Utc::now();
    i128::from(now.timestamp()) * 1_000_000_000 + i128::from(now.timestamp_subsec_nanos())
}

fn make_ticket() -> Ticket {
    Ticket::issue(BookingId::new(), EventId::new(), CategoryId::new())
}

#[test]
fn check_in_sets_status_to_checked_in() {
    let mut ticket = make_ticket();
    let event_id = ticket.event_id;
    let now = now_nanos();

    ticket.check_in(event_id, now).unwrap();

    assert_eq!(ticket.status, TicketStatus::CheckedIn);
    assert!(ticket.checked_in_at.is_some());
}

#[test]
fn check_in_fails_if_already_checked_in() {
    let mut ticket = make_ticket();
    let event_id = ticket.event_id;
    let now = now_nanos();

    ticket.check_in(event_id, now).unwrap();
    let result = ticket.check_in(event_id, now);

    assert!(matches!(result, Err(DomainError::AlreadyCheckedIn)));
}

#[test]
fn check_in_fails_if_event_id_does_not_match() {
    let mut ticket = make_ticket();
    let wrong_event_id = EventId::new();
    let now = now_nanos();

    let result = ticket.check_in(wrong_event_id, now);

    assert!(matches!(result, Err(DomainError::TicketEventMismatch)));
}

#[test]
fn cancel_sets_status_to_cancelled() {
    let mut ticket = make_ticket();
    ticket.cancel().unwrap();
    assert_eq!(ticket.status, TicketStatus::Cancelled);
}

#[test]
fn cancel_fails_if_already_checked_in() {
    let mut ticket = make_ticket();
    let event_id = ticket.event_id;
    ticket.check_in(event_id, now_nanos()).unwrap();

    let result = ticket.cancel();
    assert!(matches!(result, Err(DomainError::CheckedInTicketRefundDenied)));
}

// ---------------------------------------------------------------------------

#[test]
fn cancelled_ticket_cannot_be_checked_in_or_cancelled_again() {
    let mut ticket = make_ticket();
    ticket.cancel().unwrap();
    let event_id = ticket.event_id;
    match ticket.check_in(event_id, 5) {
        Err(DomainError::InvalidStatusTransition(m)) => assert_eq!(m, "Ticket is not active for check-in"),
        _ => panic!("expected a refused check-in"),
    }
    match ticket.cancel() {
        Err(DomainError::InvalidStatusTransition(m)) => assert_eq!(m, "Ticket is already cancelled"),
        _ => panic!("expected a refused cancellation"),
    }
    assert!(ticket.checked_in_at.is_none());
}

#[test]
fn check_in_records_the_instant_and_an_event() {
    let mut ticket = make_ticket();
    let event_id = ticket.event_id;
    ticket.check_in(event_id, 1234).unwrap();
    assert_eq!(ticket.checked_in_at, Some(1234));
    let events = ticket.take_events();
    assert_eq!(events.len(), 2);
    assert!(ticket.events.is_empty());
}

#[test]
fn issued_codes_are_upper_case_uuids() {
    let a = make_ticket();
    let b = make_ticket();
    assert_ne!(a.code, b.code);
    let code = a.code.as_str();
    assert_eq!(code.len(), 36);
    for (i, c) in code.chars().enumerate() {
        if i == 8 || i == 13 || i == 18 || i == 23 {
            assert_eq!(c, '-');
        } else {
            assert!(c.is_ascii_digit() || ('A'..='F').contains(&c));
        }
    }
    assert_eq!(&code[14..15], "4");
}

#[test]
fn ticket_codes_compare_by_text() {
    assert_eq!(TicketCode::new("ABC".to_string()), TicketCode::new("ABC".to_string()));
    assert_ne!(TicketCode::new("ABC".to_string()), TicketCode::new("abc".to_string()));
    assert_eq!(TicketCode::new("X-1".to_string()).as_str(), "X-1");
    assert_eq!(TicketStatus::CheckedIn.as_str(), "CheckedIn");
}
