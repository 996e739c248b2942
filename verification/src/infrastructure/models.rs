//! Persistence rows: the shape in which aggregates are stored. Identifiers
//! are UUID values, instants nanoseconds since the epoch, and calendar
//! dates days since 1970-01-01.

use vstd::prelude::*;

use crate::shared::value_objects::Amount;

verus! {

#[derive(Debug, Clone, Copy, PartialEq, Eq, Structural)]
pub enum EventStatusDb {
    Draft,
    Published,
    Cancelled,
    Completed,
}

#[derive(Debug, Clone, Copy, PartialEq, Eq, Structural)]
pub enum BookingStatusDb {
    PendingPayment,
    Paid,
    Expired,
    Refunded,
}

#[derive(Debug, Clone, Copy, PartialEq, Eq, Structural)]
pub enum TicketStatusDb {
    Active,
    CheckedIn,
    Cancelled,
}

#[derive(Debug, Clone, Copy, PartialEq, Eq, Structural)]
pub enum RefundStatusDb {
    Requested,
    Approved,
    Rejected,
    PaidOut,
}

pub struct EventRow {
    pub id: u128,
    pub organizer_id: u128,
    pub name: String,
    pub description: String,
    pub start_date: i128,
    pub end_date: i128,
    pub location: String,
    pub max_capacity: i32,
    pub status: EventStatusDb,
    pub created_at: i128,
    pub updated_at: i128,
}

pub struct TicketCategoryRow {
    pub id: u128,
    pub event_id: u128,
    pub name: String,
    pub price_amount: Amount,
    pub price_currency: String,
    pub quota: i32,
    pub remaining_quota: i32,
    pub sales_start: i128,
    pub sales_end: i128,
    pub is_active: bool,
    pub created_at: i128,
}

pub struct BookingRow {
    pub id: u128,
    pub customer_id: u128,
    pub event_id: u128,
    pub category_id: u128,
    pub quantity: i32,
    pub total_amount: Amount,
    pub total_currency: String,
    pub status: BookingStatusDb,
    pub payment_deadline: i128,
    pub created_at: i128,
    pub updated_at: i128,
}

pub struct TicketRow {
    pub id: u128,
    pub booking_id: u128,
    pub event_id: u128,
    pub code: String,
    pub status: TicketStatusDb,
    pub checked_in_at: Option<i128>,
    pub created_at: i128,
}

pub struct TicketWithCategoryRow {
    pub id: u128,
    pub booking_id: u128,
    pub event_id: u128,
    pub code: String,
    pub status: TicketStatusDb,
    pub checked_in_at: Option<i128>,
    pub created_at: i128,
    pub category_id: u128,
}

pub struct RefundRow {
    pub id: u128,
    pub booking_id: u128,
    pub customer_id: u128,
    pub amount: Amount,
    pub currency: String,
    pub status: RefundStatusDb,
    pub reason: Option<String>,
    pub rejection_reason: Option<String>,
    pub payment_reference: Option<String>,
    pub requested_at: i128,
    pub updated_at: i128,
}

} // verus!
