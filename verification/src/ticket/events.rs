//! Domain events raised by tickets.

use vstd::prelude::*;

use crate::booking::value_objects::BookingId;
use crate::event::value_objects::EventId;
use crate::shared::domain_event::DomainEvent;

use super::value_objects::{TicketCode, TicketId};

verus! {

/// A ticket was issued for a paid booking.
#[derive(Debug, Clone)]
pub struct TicketIssued {
    pub ticket_id: TicketId,
    pub booking_id: BookingId,
    pub event_id: EventId,
    pub code: TicketCode,
}

impl DomainEvent for TicketIssued {
    fn event_name(&self) -> (r: &'static str)
        ensures
            r@ == "TicketIssued"@,
    {
        "TicketIssued"
    }
}

/// A ticket was checked in at the venue.
#[derive(Debug, Clone, Copy, PartialEq, Eq, Structural)]
pub struct TicketCheckedIn {
    pub ticket_id: TicketId,
    pub event_id: EventId,
}

impl DomainEvent for TicketCheckedIn {
    fn event_name(&self) -> (r: &'static str)
        ensures
            r@ == "TicketCheckedIn"@,
    {
        "TicketCheckedIn"
    }
}

} // verus!
