//! Data transfer objects: the read models that the application hands out,
//! and their construction from the aggregates.

use vstd::prelude::*;

use crate::booking::aggregate::Booking;
use crate::event::aggregate::Event;
use crate::event::ticket_category::TicketCategory;
use crate::refund::aggregate::Refund;
use crate::shared::text::copy_optional_text;
use crate::shared::value_objects::Amount;
use crate::ticket::entity::Ticket;

verus! {

pub struct TicketCategoryDto {
    pub id: u128,
    pub event_id: u128,
    pub name: String,
    pub price: Amount,
    pub currency: String,
    pub quota: u32,
    pub remaining_quota: u32,
    pub sales_start: i128,
    pub sales_end: i128,
    pub is_active: bool,
}

pub struct EventDto {
    pub id: u128,
    pub organizer_id: u128,
    pub name: String,
    pub description: String,
    pub location: String,
    pub start_date: i128,
    pub end_date: i128,
    pub max_capacity: u32,
    pub status: String,
    pub categories: Vec<TicketCategoryDto>,
    pub created_at: i128,
    pub updated_at: i128,
}

pub struct BookingDto {
    pub id: u128,
    pub user_id: u128,
    pub event_id: u128,
    pub category_id: u128,
    pub quantity: u32,
    pub total_amount: Amount,
    pub currency: String,
    pub status: String,
    pub payment_deadline: i128,
    pub created_at: i128,
    pub updated_at: i128,
}

pub struct TicketDto {
    pub id: u128,
    pub booking_id: u128,
    pub event_id: u128,
    pub category_id: u128,
    pub code: String,
    pub status: String,
    pub checked_in_at: Option<i128>,
    pub created_at: i128,
}

pub struct RefundDto {
    pub id: u128,
    pub booking_id: u128,
    pub user_id: u128,
    pub amount: Amount,
    pub currency: String,
    pub status: String,
    pub reason: Option<String>,
    pub rejection_reason: Option<String>,
    pub payment_reference: Option<String>,
    pub requested_at: i128,
}

impl TicketCategoryDto {
    pub open spec fn describes(self, c: TicketCategory) -> bool {
        &&& self.id == c.id.0
        &&& self.event_id == c.event_id.0
        &&& self.name@ == c.name@
        &&& self.price == c.price.value()
        &&& self.currency@ == c.price.currency_text()
        &&& self.quota == c.quota
        &&& self.remaining_quota == c.remaining_quota
        &&& self.sales_start == c.sales_start
        &&& self.sales_end == c.sales_end
        &&& self.is_active == c.is_active
    }
}

impl EventDto {
    pub open spec fn describes(self, e: Event) -> bool {
        &&& self.id == e.id.0
        &&& self.organizer_id == e.organizer_id.0
        &&& self.name@ == e.name@
        &&& self.description@ == e.description@
        &&& self.location@ == e.location@
        &&& self.start_date == e.start_date
        &&& self.end_date == e.end_date
        &&& self.max_capacity == e.max_capacity
        &&& self.status@ == e.status.label()
        &&& self.categories@.len() == e.categories@.len()
        &&& forall|i: int|
            0 <= i < self.categories@.len() ==> (#[trigger] self.categories@[i]).describes(
                e.categories@[i],
            )
        &&& self.created_at == e.created_at
        &&& self.updated_at == e.updated_at
    }
}

impl BookingDto {
    pub open spec fn describes(self, b: Booking) -> bool {
        &&& self.id == b.id.0
        &&& self.user_id == b.user_id.0
        &&& self.event_id == b.event_id.0
        &&& self.category_id == b.category_id.0
        &&& self.quantity == b.quantity
        &&& self.total_amount == b.total_amount.value()
        &&& self.currency@ == b.total_amount.currency_text()
        &&& self.status@ == b.status.label()
        &&& self.payment_deadline == b.payment_deadline
        &&& self.created_at == b.created_at
        &&& self.updated_at == b.updated_at
    }
}

impl TicketDto {
    pub open spec fn describes(self, t: Ticket) -> bool {
        &&& self.id == t.id.0
        &&& self.booking_id == t.booking_id.0
        &&& self.event_id == t.event_id.0
        &&& self.category_id == t.category_id.0
        &&& self.code@ == t.code.text()
        &&& self.status@ == t.status.label()
        &&& self.checked_in_at == t.checked_in_at
        &&& self.created_at == t.created_at
    }
}

impl RefundDto {
    pub open spec fn describes(self, r: Refund) -> bool {
        &&& self.id == r.id.0
        &&& self.booking_id == r.booking_id.0
        &&& self.user_id == r.user_id.0
        &&& self.amount == r.amount.value()
        &&& self.currency@ == r.amount.currency_text()
        &&& self.status@ == r.status.label()
        &&& self.reason == r.reason
        &&& self.rejection_reason == r.rejection_reason
        &&& self.payment_reference == r.payment_reference
        &&& self.requested_at == r.requested_at
    }
}

pub fn ticket_category_to_dto(c: &TicketCategory) -> (r: TicketCategoryDto)
    ensures
        r.describes(*c),
{
    TicketCategoryDto {
        id: c.id.into_inner(),
        event_id: c.event_id.into_inner(),
        name: c.name.clone(),
        price: c.price.amount(),
        currency: String::from_str(c.price.currency()),
        quota: c.quota,
        remaining_quota: c.remaining_quota,
        sales_start: c.sales_start,
        sales_end: c.sales_end,
        is_active: c.is_active,
    }
}

pub fn event_to_dto(event: &Event) -> (r: EventDto)
    ensures
        r.describes(*event),
{
    let mut categories: Vec<TicketCategoryDto> = Vec::new();
    let n = event.categories.len();
    let mut i: usize = 0;
    while i < n
        invariant
            n == event.categories@.len(),
            i <= n,
            categories@.len() == i,
            forall|j: int|
                0 <= j < i ==> (#[trigger] categories@[j]).describes(event.categories@[j]),
        decreases n - i,
    {
        categories.push(ticket_category_to_dto(&event.categories[i]));
        i = i + 1;
    }
    EventDto {
        id: event.id.into_inner(),
        organizer_id: event.organizer_id.into_inner(),
        name: event.name.clone(),
        description: event.description.clone(),
        location: event.location.clone(),
        start_date: event.start_date,
        end_date: event.end_date,
        max_capacity: event.max_capacity,
        status: String::from_str(event.status.as_str()),
        categories,
        created_at: event.created_at,
        updated_at: event.updated_at,
    }
}

pub fn booking_to_dto(booking: &Booking) -> (r: BookingDto)
    ensures
        r.describes(*booking),
{
    BookingDto {
        id: booking.id.into_inner(),
        user_id: booking.user_id.into_inner(),
        event_id: booking.event_id.into_inner(),
        category_id: booking.category_id.into_inner(),
        quantity: booking.quantity,
        total_amount: booking.total_amount.amount(),
        currency: String::from_str(booking.total_amount.currency()),
        status: String::from_str(booking.status.as_str()),
        payment_deadline: booking.payment_deadline,
        created_at: booking.created_at,
        updated_at: booking.updated_at,
    }
}

pub fn ticket_to_dto(ticket: &Ticket) -> (r: TicketDto)
    ensures
        r.describes(*ticket),
{
    TicketDto {
        id: ticket.id.into_inner(),
        booking_id: ticket.booking_id.into_inner(),
        event_id: ticket.event_id.into_inner(),
        category_id: ticket.category_id.into_inner(),
        code: String::from_str(ticket.code.as_str()),
        status: String::from_str(ticket.status.as_str()),
        checked_in_at: ticket.checked_in_at,
        created_at: ticket.created_at,
    }
}

pub fn refund_to_dto(refund: &Refund) -> (r: RefundDto)
    ensures
        r.describes(*refund),
{
    RefundDto {
        id: refund.id.into_inner(),
        booking_id: refund.booking_id.into_inner(),
        user_id: refund.user_id.into_inner(),
        amount: refund.amount.amount(),
        currency: String::from_str(refund.amount.currency()),
        status: String::from_str(refund.status.as_str()),
        reason: copy_optional_text(&refund.reason),
        rejection_reason: copy_optional_text(&refund.rejection_reason),
        payment_reference: copy_optional_text(&refund.payment_reference),
        requested_at: refund.requested_at,
    }
}

} // verus!
