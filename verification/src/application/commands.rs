//! Commands: intents to change state, as the application receives them.
//! Identifiers are UUID values, instants are nanoseconds since the epoch.

use vstd::prelude::*;

use crate::shared::value_objects::Amount;

verus! {

pub struct CreateEventCommand {
    pub organizer_id: u128,
    pub name: String,
    pub description: String,
    pub location: String,
    pub start_date: i128,
    pub end_date: i128,
    pub max_capacity: u32,
}

pub struct PublishEventCommand {
    pub event_id: u128,
}

pub struct CancelEventCommand {
    pub event_id: u128,
}

pub struct AddTicketCategoryCommand {
    pub event_id: u128,
    pub name: String,
    pub price: Amount,
    pub currency: String,
    pub quota: u32,
    pub sales_start: i128,
    pub sales_end: i128,
}

pub struct DisableTicketCategoryCommand {
    pub event_id: u128,
    pub category_id: u128,
}

pub struct CreateBookingCommand {
    pub user_id: u128,
    pub event_id: u128,
    pub category_id: u128,
    pub quantity: u32,
}

pub struct PayBookingCommand {
    pub booking_id: u128,
    pub amount: Amount,
    pub currency: String,
}

pub struct ExpireBookingCommand {
    pub booking_id: u128,
}

pub struct CheckInTicketCommand {
    pub ticket_code: String,
    pub event_id: u128,
}

pub struct RequestRefundCommand {
    pub booking_id: u128,
    pub user_id: u128,
    pub reason: Option<String>,
}

pub struct ApproveRefundCommand {
    pub refund_id: u128,
}

pub struct RejectRefundCommand {
    pub refund_id: u128,
    pub rejection_reason: String,
}

pub struct PayoutRefundCommand {
    pub refund_id: u128,
}

} // verus!
