//! Domain events: records of something meaningful that happened in the
//! domain, raised by the aggregates and collected until they are taken.

use vstd::prelude::*;

use crate::event::events::{EventCreated, EventPublished, EventCancelled, TicketCategoryCreated, TicketCategoryDisabled};
use crate::booking::events::{BookingCreated, TicketReserved, BookingPaid, BookingExpired, BookingCancelled};
use crate::ticket::events::{TicketIssued, TicketCheckedIn};
use crate::refund::events::{RefundRequested, RefundApproved, RefundRejected, RefundPaidOut, RefundProcessed};

verus! {

/// Common interface of every domain event.
pub trait DomainEvent {
    fn event_name(&self) -> &'static str;
}

/// Any of the domain events, as an aggregate collects them.
#[derive(Debug, Clone)]
pub enum DomainEventRecord {
    EventCreated(EventCreated),
    EventPublished(EventPublished),
    EventCancelled(EventCancelled),
    TicketCategoryCreated(TicketCategoryCreated),
    TicketCategoryDisabled(TicketCategoryDisabled),
    BookingCreated(BookingCreated),
    TicketReserved(TicketReserved),
    BookingPaid(BookingPaid),
    BookingExpired(BookingExpired),
    BookingCancelled(BookingCancelled),
    TicketIssued(TicketIssued),
    TicketCheckedIn(TicketCheckedIn),
    RefundRequested(RefundRequested),
    RefundApproved(RefundApproved),
    RefundRejected(RefundRejected),
    RefundPaidOut(RefundPaidOut),
    RefundProcessed(RefundProcessed),
}

impl DomainEventRecord {
    pub open spec fn name(self) -> Seq<char> {
        match self {
            DomainEventRecord::EventCreated(_) => "EventCreated"@,
            DomainEventRecord::EventPublished(_) => "EventPublished"@,
            DomainEventRecord::EventCancelled(_) => "EventCancelled"@,
            DomainEventRecord::TicketCategoryCreated(_) => "TicketCategoryCreated"@,
            DomainEventRecord::TicketCategoryDisabled(_) => "TicketCategoryDisabled"@,
            DomainEventRecord::BookingCreated(_) => "BookingCreated"@,
            DomainEventRecord::TicketReserved(_) => "TicketReserved"@,
            DomainEventRecord::BookingPaid(_) => "BookingPaid"@,
            DomainEventRecord::BookingExpired(_) => "BookingExpired"@,
            DomainEventRecord::BookingCancelled(_) => "BookingCancelled"@,
            DomainEventRecord::TicketIssued(_) => "TicketIssued"@,
            DomainEventRecord::TicketCheckedIn(_) => "TicketCheckedIn"@,
            DomainEventRecord::RefundRequested(_) => "RefundRequested"@,
            DomainEventRecord::RefundApproved(_) => "RefundApproved"@,
            DomainEventRecord::RefundRejected(_) => "RefundRejected"@,
            DomainEventRecord::RefundPaidOut(_) => "RefundPaidOut"@,
            DomainEventRecord::RefundProcessed(_) => "RefundProcessed"@,
        }
    }
}

impl DomainEvent for DomainEventRecord {
    fn event_name(&self) -> (r: &'static str)
        ensures
            r@ == self.name(),
    {
        match self {
            DomainEventRecord::EventCreated(e) => e.event_name(),
            DomainEventRecord::EventPublished(e) => e.event_name(),
            DomainEventRecord::EventCancelled(e) => e.event_name(),
            DomainEventRecord::TicketCategoryCreated(e) => e.event_name(),
            DomainEventRecord::TicketCategoryDisabled(e) => e.event_name(),
            DomainEventRecord::BookingCreated(e) => e.event_name(),
            DomainEventRecord::TicketReserved(e) => e.event_name(),
            DomainEventRecord::BookingPaid(e) => e.event_name(),
            DomainEventRecord::BookingExpired(e) => e.event_name(),
            DomainEventRecord::BookingCancelled(e) => e.event_name(),
            DomainEventRecord::TicketIssued(e) => e.event_name(),
            DomainEventRecord::TicketCheckedIn(e) => e.event_name(),
            DomainEventRecord::RefundRequested(e) => e.event_name(),
            DomainEventRecord::RefundApproved(e) => e.event_name(),
            DomainEventRecord::RefundRejected(e) => e.event_name(),
            DomainEventRecord::RefundPaidOut(e) => e.event_name(),
            DomainEventRecord::RefundProcessed(e) => e.event_name(),
        }
    }
}

} // verus!
