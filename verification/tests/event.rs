use event_ticketing::event::aggregate::Event;
use event_ticketing::event::ticket_category::{CategoryDisplayStatus, TicketCategory};
use event_ticketing::event::value_objects::{CategoryId, EventId, EventStatus};
use event_ticketing::shared::domain_event::{DomainEvent, DomainEventRecord};
use event_ticketing::shared::errors::DomainError;
use event_ticketing::shared::value_objects::{Amount, Money, UserId};

/// The current instant, in nanoseconds since the epoch.
fn now_nanos() -> i128 {
    let now = chrono::Utc::now();
    i128::from(now.timestamp()) * 1_000_000_000 + i128::from(now.timestamp_subsec_nanos())
}

const DAY: i128 = 86_400_000_000_000;

fn make_organizer() -> UserId {
    UserId::new()
}

fn money(mantissa: i128, scale: u32, currency: &str) -> Money {
    Money::new(Amount::new(mantissa, scale), currency.to_string()).unwrap()
}

fn make_event() -> Event {
    let now = now_nanos();
    Event::new(
        EventId::new(),
        make_organizer(),
        "Tech Conf".to_string(),
        "A cool conf".to_string(),
        "Jakarta".to_string(),
        now + 10 * DAY,
        now + 12 * DAY,
        1000,
    )
    .unwrap()
}

fn add_category(event: &mut Event) -> CategoryId {
    let cat_id = CategoryId::new();
    let now = now_nanos();
    event
        .add_ticket_category(
            cat_id,
            "Regular".to_string(),
            money(500, 1, "IDR"),
            100,
            now,
            now + 5 * DAY,
        )
        .unwrap();
    cat_id
}

#[test]
fn create_event_fails_when_end_date_before_start_date() {
    let now = now_nanos();
    let result = Event::new(
        EventId::new(),
        make_organizer(),
        "Tech Conf".to_string(),
        "".to_string(),
        "Jakarta".to_string(),
        now + 12 * DAY,
        now + 10 * DAY,
        1000,
    );
    assert!(matches!(result, Err(DomainError::InvalidSchedule)));
}

#[test]
fn create_event_fails_when_capacity_is_zero() {
    let now = now_nanos();
    let result = Event::new(
        EventId::new(),
        make_organizer(),
        "Tech Conf".to_string(),
        "".to_string(),
        "Jakarta".to_string(),
        now + 10 * DAY,
        now + 12 * DAY,
        0,
    );
    assert!(matches!(result, Err(DomainError::InvalidCapacity)));
}

#[test]
fn publish_event_fails_without_active_category() {
    let mut event = make_event();
    let result = event.publish();
    assert!(matches!(result, Err(DomainError::BusinessRule(_))));
}

#[test]
fn publish_event_fails_when_quota_exceeds_capacity() {
    let now = now_nanos();
    let mut event = Event::new(
        EventId::new(),
        make_organizer(),
        "Small Event".to_string(),
        "".to_string(),
        "Jakarta".to_string(),
        now + 10 * DAY,
        now + 12 * DAY,
        50,
    )
    .unwrap();

    let result = event.add_ticket_category(
        CategoryId::new(),
        "VIP".to_string(),
        money(1000, 1, "IDR"),
        100,
        now,
        now + 5 * DAY,
    );
    assert!(matches!(result, Err(DomainError::QuotaExceedsCapacity)));
}

#[test]
fn cancel_event_fails_when_completed() {
    let mut event = make_event();
    add_category(&mut event);
    event.publish().unwrap();
    event.status = EventStatus::Completed;

    let result = event.cancel();
    assert!(matches!(result, Err(DomainError::InvalidStatusTransition(_))));
}

#[test]
fn cancelled_event_cannot_be_published() {
    let mut event = make_event();
    add_category(&mut event);
    event.publish().unwrap();
    event.cancel().unwrap();

    let result = event.publish();
    assert!(matches!(result, Err(DomainError::InvalidStatusTransition(_))));
}

#[test]
fn create_and_publish_event_success() {
    let mut event = make_event();
    assert_eq!(event.status, EventStatus::Draft);
    assert_eq!(event.events.len(), 1);

    add_category(&mut event);
    assert_eq!(event.categories.len(), 1);

    event.publish().unwrap();
    assert_eq!(event.status, EventStatus::Published);
}

#[test]
fn cancel_published_event_success() {
    let mut event = make_event();
    add_category(&mut event);
    event.publish().unwrap();
    event.cancel().unwrap();

    assert_eq!(event.status, EventStatus::Cancelled);
    assert!(event.categories.iter().all(|c| !c.is_active));
}

#[test]
fn disable_category_success() {
    let mut event = make_event();
    let cat_id = add_category(&mut event);
    assert!(event.categories[0].is_active);

    event.disable_category(&cat_id).unwrap();
    assert!(!event.categories[0].is_active);
}

#[test]
fn add_ticket_category_fails_exceeds_capacity() {
    let now = now_nanos();
    let mut event = Event::new(
        EventId::new(),
        make_organizer(),
        "Tech Conf".to_string(),
        "".to_string(),
        "Jakarta".to_string(),
        now + 10 * DAY,
        now + 12 * DAY,
        100,
    )
    .unwrap();

    let result = event.add_ticket_category(
        CategoryId::new(),
        "VIP".to_string(),
        money(500, 1, "IDR"),
        150,
        now,
        now + 5 * DAY,
    );

    assert!(matches!(result, Err(DomainError::QuotaExceedsCapacity)));
}

// ---------------------------------------------------------------------------

#[test]
fn new_event_records_its_creation() {
    let id = EventId::new();
    let event = Event::new(
        id,
        make_organizer(),
        "Gig".to_string(),
        "".to_string(),
        "Bandung".to_string(),
        0,
        DAY,
        10,
    )
    .unwrap();
    assert_eq!(event.created_at, event.updated_at);
    match &event.events[0] {
        DomainEventRecord::EventCreated(e) => {
            assert_eq!(e.event_id, id);
            assert_eq!(e.name, "Gig");
        }
        other => panic!("unexpected event {:?}", other),
    }
    assert_eq!(event.events[0].event_name(), "EventCreated");
}

#[test]
fn categories_refused_outside_draft_or_with_bad_terms() {
    let mut event = make_event();
    let start = event.start_date;
    let zero = event.add_ticket_category(CategoryId::new(), "A".into(), money(1, 0, "IDR"), 0, 0, start);
    assert!(matches!(zero, Err(DomainError::InvalidQuota)));
    let late = event.add_ticket_category(CategoryId::new(), "A".into(), money(1, 0, "IDR"), 5, 0, start + 1);
    assert!(matches!(late, Err(DomainError::InvalidSalesPeriod)));
    let on_time = event.add_ticket_category(CategoryId::new(), "A".into(), money(1, 0, "IDR"), 5, 0, start);
    assert!(on_time.is_ok());
    event.publish().unwrap();
    let published = event.add_ticket_category(CategoryId::new(), "B".into(), money(1, 0, "IDR"), 5, 0, start);
    match published {
        Err(DomainError::InvalidStatusTransition(m)) => {
            assert_eq!(m, "Can only add categories to draft events")
        }
        _ => panic!("expected a refused transition"),
    }
    assert_eq!(event.categories.len(), 1);
}

#[test]
fn quotas_add_up_to_the_capacity() {
    let now = now_nanos();
    let mut event = Event::new(EventId::new(), make_organizer(), "E".into(), "".into(), "L".into(), now + DAY, now + 2 * DAY, 100).unwrap();
    event.add_ticket_category(CategoryId::new(), "A".into(), money(1, 0, "IDR"), 60, now, now).unwrap();
    event.add_ticket_category(CategoryId::new(), "B".into(), money(1, 0, "IDR"), 40, now, now).unwrap();
    assert_eq!(event.total_quota(), 100);
    let over = event.add_ticket_category(CategoryId::new(), "C".into(), money(1, 0, "IDR"), 1, now, now);
    assert!(matches!(over, Err(DomainError::QuotaExceedsCapacity)));
    let cat = event.categories[1].id;
    event.disable_category(&cat).unwrap();
    assert_eq!(event.total_quota(), 100);
}

#[test]
fn publish_counts_disabled_categories_against_the_capacity() {
    let now = now_nanos();
    let mut event = Event::new(EventId::new(), make_organizer(), "E".into(), "".into(), "L".into(), now + DAY, now + 2 * DAY, 100).unwrap();
    event.add_ticket_category(CategoryId::new(), "A".into(), money(1, 0, "IDR"), 60, now, now).unwrap();
    event.add_ticket_category(CategoryId::new(), "B".into(), money(1, 0, "IDR"), 40, now, now).unwrap();
    let cat = event.categories[1].id;
    event.disable_category(&cat).unwrap();
    event.max_capacity = 80;
    assert!(matches!(event.publish(), Err(DomainError::QuotaExceedsCapacity)));
    assert_eq!(event.status, EventStatus::Draft);
    event.max_capacity = 100;
    assert!(event.publish().is_ok());
}

#[test]
fn publish_and_cancel_messages_name_the_status() {
    let mut event = make_event();
    add_category(&mut event);
    event.publish().unwrap();
    match event.publish() {
        Err(DomainError::InvalidStatusTransition(m)) => {
            assert_eq!(m, "Can only publish draft events, current status: Published")
        }
        _ => panic!("expected a refused transition"),
    }
    let mut draft = make_event();
    match draft.cancel() {
        Err(DomainError::InvalidStatusTransition(m)) => {
            assert_eq!(m, "Can only cancel published events, current status: Draft")
        }
        _ => panic!("expected a refused transition"),
    }
    event.status = EventStatus::Completed;
    match event.cancel() {
        Err(DomainError::InvalidStatusTransition(m)) => assert_eq!(m, "Cannot cancel a completed event"),
        _ => panic!("expected a refused transition"),
    }
}

#[test]
fn disabling_an_unknown_category_names_it() {
    let mut event = make_event();
    add_category(&mut event);
    let missing = CategoryId::from(0x0123_4567_89ab_cdef_0123_4567_89ab_cdefu128);
    match event.disable_category(&missing) {
        Err(DomainError::BusinessRule(m)) => {
            assert_eq!(m, "Category 01234567-89ab-cdef-0123-456789abcdef not found in event")
        }
        _ => panic!("expected a missing category"),
    }
    event.status = EventStatus::Completed;
    assert!(matches!(event.disable_category(&missing), Err(DomainError::InvalidStatusTransition(_))));
}

#[test]
fn take_events_empties_the_outbox() {
    let mut event = make_event();
    add_category(&mut event);
    event.publish().unwrap();
    let taken = event.take_events();
    assert_eq!(taken.len(), 3);
    assert_eq!(taken[2].event_name(), "EventPublished");
    assert!(event.events.is_empty());
}

#[test]
fn category_reserve_and_release() {
    let now = now_nanos();
    let mut c = TicketCategory::new(CategoryId::new(), EventId::new(), "R".into(), money(10, 0, "IDR"), 10, now - DAY, now + DAY);
    assert!(c.is_available_now(now));
    assert_eq!(c.display_status(now), CategoryDisplayStatus::Available);
    c.reserve(4).unwrap();
    assert_eq!(c.remaining_quota, 6);
    match c.reserve(7) {
        Err(DomainError::BusinessRule(m)) => assert_eq!(m, "Requested quantity 7 exceeds remaining quota 6"),
        _ => panic!("expected refusal"),
    }
    c.release(4);
    assert_eq!(c.remaining_quota, 10);
    c.release(5);
    assert_eq!(c.remaining_quota, 10);
    c.reserve(10).unwrap();
    assert_eq!(c.display_status(now), CategoryDisplayStatus::SoldOut);
    assert!(!c.is_available_now(now));
    assert_eq!(c.display_status(now - 2 * DAY), CategoryDisplayStatus::ComingSoon);
    assert_eq!(c.display_status(now + 2 * DAY), CategoryDisplayStatus::SalesClosed);
    c.is_active = false;
    assert_eq!(c.display_status(now), CategoryDisplayStatus::Inactive);
}

#[test]
fn status_names() {
    assert_eq!(EventStatus::Draft.as_str(), "Draft");
    assert_eq!(EventStatus::Published.as_str(), "Published");
    assert_eq!(EventStatus::Cancelled.as_str(), "Cancelled");
    assert_eq!(EventStatus::Completed.as_str(), "Completed");
}
