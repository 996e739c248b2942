//! Queries: read-only requests for data.

use vstd::prelude::*;

verus! {

pub struct GetEventQuery {
    pub event_id: u128,
}

/// Published events, optionally on a day (days since the epoch) and at a
/// location.
pub struct GetPublishedEventsQuery {
    pub date: Option<i32>,
    pub location: Option<String>,
}

pub struct GetBookingQuery {
    pub booking_id: u128,
}

pub struct GetCustomerBookingsQuery {
    pub customer_id: u128,
    pub event_id: u128,
}

pub struct GetTicketQuery {
    pub ticket_id: u128,
}

pub struct GetTicketByCodeQuery {
    pub ticket_code: String,
}

pub struct GetCustomerTicketsQuery {
    pub customer_id: u128,
}

pub struct GetRefundQuery {
    pub refund_id: u128,
}

pub struct GetRefundByBookingQuery {
    pub booking_id: u128,
}

} // verus!
