//! Ticketing domain for an event-management system: events with ticket
//! categories, bookings, tickets with check-in, and refunds, together with the
//! application-level decisions that sit between requests and persistence.

pub mod shared;
pub mod booking;
pub mod event;
pub mod refund;
pub mod ticket;
pub mod application;
pub mod infrastructure;
