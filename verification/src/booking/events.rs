//! Domain events raised by the booking aggregate.

use vstd::prelude::*;

use crate::event::value_objects::{CategoryId, EventId};
use crate::shared::domain_event::DomainEvent;
use crate::shared::value_objects::UserId;

use super::value_objects::BookingId;

verus! {

/// A booking was created, awaiting payment.
#[derive(Debug, Clone, Copy, PartialEq, Eq, Structural)]
pub struct BookingCreated {
    pub booking_id: BookingId,
    pub user_id: UserId,
    pub event_id: EventId,
}

impl DomainEvent for BookingCreated {
    fn event_name(&self) -> (r: &'static str)
        ensures
            r@ == "BookingCreated"@,
    {
        "BookingCreated"
    }
}

/// Tickets were reserved for a new booking.
#[derive(Debug, Clone, Copy, PartialEq, Eq, Structural)]
pub struct TicketReserved {
    pub booking_id: BookingId,
    pub event_id: EventId,
    pub quantity: u32,
}

impl DomainEvent for TicketReserved {
    fn event_name(&self) -> (r: &'static str)
        ensures
            r@ == "TicketReserved"@,
    {
        "TicketReserved"
    }
}

/// A booking was paid and its tickets issued.
#[derive(Debug, Clone, Copy, PartialEq, Eq, Structural)]
pub struct BookingPaid {
    pub booking_id: BookingId,
}

impl DomainEvent for BookingPaid {
    fn event_name(&self) -> (r: &'static str)
        ensures
            r@ == "BookingPaid"@,
    {
        "BookingPaid"
    }
}

/// A booking passed its payment deadline unpaid.
#[derive(Debug, Clone, Copy, PartialEq, Eq, Structural)]
pub struct BookingExpired {
    pub booking_id: BookingId,
    pub category_id: CategoryId,
    pub quantity: u32,
}

impl DomainEvent for BookingExpired {
    fn event_name(&self) -> (r: &'static str)
        ensures
            r@ == "BookingExpired"@,
    {
        "BookingExpired"
    }
}

/// A booking was cancelled.
#[derive(Debug, Clone, Copy, PartialEq, Eq, Structural)]
pub struct BookingCancelled {
    pub booking_id: BookingId,
}

impl DomainEvent for BookingCancelled {
    fn event_name(&self) -> (r: &'static str)
        ensures
            r@ == "BookingCancelled"@,
    {
        "BookingCancelled"
    }
}

} // verus!
