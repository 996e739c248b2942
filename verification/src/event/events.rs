//! Domain events raised by the event aggregate.

use vstd::prelude::*;

use crate::shared::domain_event::DomainEvent;

use super::value_objects::{CategoryId, EventId};

verus! {

/// An event was created in Draft status.
#[derive(Debug, Clone)]
pub struct EventCreated {
    pub event_id: EventId,
    pub name: String,
}

impl DomainEvent for EventCreated {
    fn event_name(&self) -> (r: &'static str)
        ensures
            r@ == "EventCreated"@,
    {
        "EventCreated"
    }
}

/// An event was published.
#[derive(Debug, Clone, Copy, PartialEq, Eq, Structural)]
pub struct EventPublished {
    pub event_id: EventId,
}

impl DomainEvent for EventPublished {
    fn event_name(&self) -> (r: &'static str)
        ensures
            r@ == "EventPublished"@,
    {
        "EventPublished"
    }
}

/// A published event was cancelled.
#[derive(Debug, Clone, Copy, PartialEq, Eq, Structural)]
pub struct EventCancelled {
    pub event_id: EventId,
}

impl DomainEvent for EventCancelled {
    fn event_name(&self) -> (r: &'static str)
        ensures
            r@ == "EventCancelled"@,
    {
        "EventCancelled"
    }
}

/// A ticket category was added to a draft event.
#[derive(Debug, Clone)]
pub struct TicketCategoryCreated {
    pub event_id: EventId,
    pub category_id: CategoryId,
    pub name: String,
}

impl DomainEvent for TicketCategoryCreated {
    fn event_name(&self) -> (r: &'static str)
        ensures
            r@ == "TicketCategoryCreated"@,
    {
        "TicketCategoryCreated"
    }
}

/// A ticket category was disabled.
#[derive(Debug, Clone, Copy, PartialEq, Eq, Structural)]
pub struct TicketCategoryDisabled {
    pub event_id: EventId,
    pub category_id: CategoryId,
}

impl DomainEvent for TicketCategoryDisabled {
    fn event_name(&self) -> (r: &'static str)
        ensures
            r@ == "TicketCategoryDisabled"@,
    {
        "TicketCategoryDisabled"
    }
}

} // verus!
