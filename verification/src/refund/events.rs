//! Domain events raised by the refund aggregate.

use vstd::prelude::*;

use crate::booking::value_objects::BookingId;
use crate::shared::domain_event::DomainEvent;

use super::value_objects::RefundId;

verus! {

/// A refund was requested for a paid booking.
#[derive(Debug, Clone, Copy, PartialEq, Eq, Structural)]
pub struct RefundRequested {
    pub refund_id: RefundId,
    pub booking_id: BookingId,
}

impl DomainEvent for RefundRequested {
    fn event_name(&self) -> (r: &'static str)
        ensures
            r@ == "RefundRequested"@,
    {
        "RefundRequested"
    }
}

/// A requested refund was approved.
#[derive(Debug, Clone, Copy, PartialEq, Eq, Structural)]
pub struct RefundApproved {
    pub refund_id: RefundId,
}

impl DomainEvent for RefundApproved {
    fn event_name(&self) -> (r: &'static str)
        ensures
            r@ == "RefundApproved"@,
    {
        "RefundApproved"
    }
}

/// A requested refund was rejected, with its reason.
#[derive(Debug, Clone)]
pub struct RefundRejected {
    pub refund_id: RefundId,
    pub reason: String,
}

impl DomainEvent for RefundRejected {
    fn event_name(&self) -> (r: &'static str)
        ensures
            r@ == "RefundRejected"@,
    {
        "RefundRejected"
    }
}

/// An approved refund was paid out.
#[derive(Debug, Clone)]
pub struct RefundPaidOut {
    pub refund_id: RefundId,
    pub payment_reference: String,
}

impl DomainEvent for RefundPaidOut {
    fn event_name(&self) -> (r: &'static str)
        ensures
            r@ == "RefundPaidOut"@,
    {
        "RefundPaidOut"
    }
}

/// A refund was processed.
#[derive(Debug, Clone, Copy, PartialEq, Eq, Structural)]
pub struct RefundProcessed {
    pub refund_id: RefundId,
}

impl DomainEvent for RefundProcessed {
    fn event_name(&self) -> (r: &'static str)
        ensures
            r@ == "RefundProcessed"@,
    {
        "RefundProcessed"
    }
}

} // verus!
