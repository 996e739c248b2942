//! Conversions between the aggregates and their persistence rows. Calendar
//! dates are stored at day resolution: an instant is stored as the UTC day
//! that contains it and read back as midnight UTC of that day.

use vstd::prelude::*;
use vstd::std_specs::convert::FromSpecImpl;

use crate::booking::aggregate::Booking;
use crate::booking::value_objects::{BookingId, BookingStatus};
use crate::event::aggregate::Event;
use crate::event::ticket_category::TicketCategory;
use crate::event::value_objects::{CategoryId, EventId, EventStatus};
use crate::refund::aggregate::Refund;
use crate::refund::value_objects::{RefundId, RefundStatus};
use crate::shared::text::copy_optional_text;
use crate::shared::time::{is_representable_instant, now_nanos, NANOS_PER_DAY};
use crate::shared::value_objects::{Money, UserId};
use crate::ticket::entity::Ticket;
use crate::ticket::value_objects::{TicketCode, TicketId, TicketStatus};

use super::models::{
    BookingRow, BookingStatusDb, EventRow, EventStatusDb, RefundRow, RefundStatusDb,
    TicketCategoryRow, TicketRow, TicketStatusDb, TicketWithCategoryRow,
};

verus! {

/// A bound on the magnitude of every calendar date that `chrono::NaiveDate`
/// can represent, in days since 1970-01-01.
pub const DATE_DAY_LIMIT: i128 = 100_000_000;

pub open spec fn is_representable_date(days: int) -> bool {
    -DATE_DAY_LIMIT <= days <= DATE_DAY_LIMIT
}

/// Midnight UTC of a calendar date.
fn naive_date_to_utc(days: i128) -> (r: i128)
    requires
        is_representable_date(days as int),
    ensures
        r == days * NANOS_PER_DAY,
{
    assert(-100_000_000 * 86_400_000_000 <= days * 86_400_000_000 <= 100_000_000 * 86_400_000_000)
        by (nonlinear_arith)
        requires
            -100_000_000 <= days <= 100_000_000,
    ;
    (days as i128) * NANOS_PER_DAY
}

/// The UTC calendar date that contains an instant.
fn utc_to_naive_date(instant: i128) -> (r: i128)
    ensures
        r == instant / NANOS_PER_DAY,
{
    if instant >= 0 {
        instant / NANOS_PER_DAY
    } else {
        let m: i128 = -(instant + 1);
        let q: i128 = m / NANOS_PER_DAY;
        proof {
            let d = NANOS_PER_DAY as int;
            vstd::arithmetic::div_mod::lemma_fundamental_div_mod(m as int, d);
            let rem = (m as int) % d;
            assert(0 <= rem < d);
            assert(instant as int == (-(q as int) - 1) * d + (d - rem - 1)) by (nonlinear_arith)
                requires
                    m as int == d * (q as int) + rem,
                    m as int == -(instant as int + 1),
            ;
            vstd::arithmetic::div_mod::lemma_fundamental_div_mod_converse(
                instant as int,
                d,
                -(q as int) - 1,
                d - rem - 1,
            );
        }
        -(q + 1)
    }
}

pub open spec fn event_status_to_db(status: EventStatus) -> EventStatusDb {
    match status {
        EventStatus::Draft => EventStatusDb::Draft,
        EventStatus::Published => EventStatusDb::Published,
        EventStatus::Cancelled => EventStatusDb::Cancelled,
        EventStatus::Completed => EventStatusDb::Completed,
    }
}

pub open spec fn event_status_from_db(status: EventStatusDb) -> EventStatus {
    match status {
        EventStatusDb::Draft => EventStatus::Draft,
        EventStatusDb::Published => EventStatus::Published,
        EventStatusDb::Cancelled => EventStatus::Cancelled,
        EventStatusDb::Completed => EventStatus::Completed,
    }
}

pub open spec fn booking_status_to_db(status: BookingStatus) -> BookingStatusDb {
    match status {
        BookingStatus::PendingPayment => BookingStatusDb::PendingPayment,
        BookingStatus::Paid => BookingStatusDb::Paid,
        BookingStatus::Expired => BookingStatusDb::Expired,
        BookingStatus::Refunded => BookingStatusDb::Refunded,
    }
}

pub open spec fn booking_status_from_db(status: BookingStatusDb) -> BookingStatus {
    match status {
        BookingStatusDb::PendingPayment => BookingStatus::PendingPayment,
        BookingStatusDb::Paid => BookingStatus::Paid,
        BookingStatusDb::Expired => BookingStatus::Expired,
        BookingStatusDb::Refunded => BookingStatus::Refunded,
    }
}

pub open spec fn ticket_status_to_db(status: TicketStatus) -> TicketStatusDb {
    match status {
        TicketStatus::Active => TicketStatusDb::Active,
        TicketStatus::CheckedIn => TicketStatusDb::CheckedIn,
        TicketStatus::Cancelled => TicketStatusDb::Cancelled,
    }
}

pub open spec fn ticket_status_from_db(status: TicketStatusDb) -> TicketStatus {
    match status {
        TicketStatusDb::Active => TicketStatus::Active,
        TicketStatusDb::CheckedIn => TicketStatus::CheckedIn,
        TicketStatusDb::Cancelled => TicketStatus::Cancelled,
    }
}

pub open spec fn refund_status_to_db(status: RefundStatus) -> RefundStatusDb {
    match status {
        RefundStatus::Requested => RefundStatusDb::Requested,
        RefundStatus::Approved => RefundStatusDb::Approved,
        RefundStatus::Rejected => RefundStatusDb::Rejected,
        RefundStatus::PaidOut => RefundStatusDb::PaidOut,
    }
}

pub open spec fn refund_status_from_db(status: RefundStatusDb) -> RefundStatus {
    match status {
        RefundStatusDb::Requested => RefundStatus::Requested,
        RefundStatusDb::Approved => RefundStatus::Approved,
        RefundStatusDb::Rejected => RefundStatus::Rejected,
        RefundStatusDb::PaidOut => RefundStatus::PaidOut,
    }
}

impl From<EventStatus> for EventStatusDb {
    fn from(status: EventStatus) -> (r: Self) {
        match status {
            EventStatus::Draft => EventStatusDb::Draft,
            EventStatus::Published => EventStatusDb::Published,
            EventStatus::Cancelled => EventStatusDb::Cancelled,
            EventStatus::Completed => EventStatusDb::Completed,
        }
    }
}

impl FromSpecImpl<EventStatus> for EventStatusDb {
    open spec fn obeys_from_spec() -> bool {
        true
    }

    open spec fn from_spec(status: EventStatus) -> EventStatusDb {
        event_status_to_db(status)
    }
}

impl From<EventStatusDb> for EventStatus {
    fn from(status: EventStatusDb) -> (r: Self) {
        match status {
            EventStatusDb::Draft => EventStatus::Draft,
            EventStatusDb::Published => EventStatus::Published,
            EventStatusDb::Cancelled => EventStatus::Cancelled,
            EventStatusDb::Completed => EventStatus::Completed,
        }
    }
}

impl FromSpecImpl<EventStatusDb> for EventStatus {
    open spec fn obeys_from_spec() -> bool {
        true
    }

    open spec fn from_spec(status: EventStatusDb) -> EventStatus {
        event_status_from_db(status)
    }
}

impl From<BookingStatus> for BookingStatusDb {
    fn from(status: BookingStatus) -> (r: Self) {
        match status {
            BookingStatus::PendingPayment => BookingStatusDb::PendingPayment,
            BookingStatus::Paid => BookingStatusDb::Paid,
            BookingStatus::Expired => BookingStatusDb::Expired,
            BookingStatus::Refunded => BookingStatusDb::Refunded,
        }
    }
}

impl FromSpecImpl<BookingStatus> for BookingStatusDb {
    open spec fn obeys_from_spec() -> bool {
        true
    }

    open spec fn from_spec(status: BookingStatus) -> BookingStatusDb {
        booking_status_to_db(status)
    }
}

impl From<BookingStatusDb> for BookingStatus {
    fn from(status: BookingStatusDb) -> (r: Self) {
        match status {
            BookingStatusDb::PendingPayment => BookingStatus::PendingPayment,
            BookingStatusDb::Paid => BookingStatus::Paid,
            BookingStatusDb::Expired => BookingStatus::Expired,
            BookingStatusDb::Refunded => BookingStatus::Refunded,
        }
    }
}

impl FromSpecImpl<BookingStatusDb> for BookingStatus {
    open spec fn obeys_from_spec() -> bool {
        true
    }

    open spec fn from_spec(status: BookingStatusDb) -> BookingStatus {
        booking_status_from_db(status)
    }
}

impl From<TicketStatus> for TicketStatusDb {
    fn from(status: TicketStatus) -> (r: Self) {
        match status {
            TicketStatus::Active => TicketStatusDb::Active,
            TicketStatus::CheckedIn => TicketStatusDb::CheckedIn,
            TicketStatus::Cancelled => TicketStatusDb::Cancelled,
        }
    }
}

impl FromSpecImpl<TicketStatus> for TicketStatusDb {
    open spec fn obeys_from_spec() -> bool {
        true
    }

    open spec fn from_spec(status: TicketStatus) -> TicketStatusDb {
        ticket_status_to_db(status)
    }
}

impl From<TicketStatusDb> for TicketStatus {
    fn from(status: TicketStatusDb) -> (r: Self) {
        match status {
            TicketStatusDb::Active => TicketStatus::Active,
            TicketStatusDb::CheckedIn => TicketStatus::CheckedIn,
            TicketStatusDb::Cancelled => TicketStatus::Cancelled,
        }
    }
}

impl FromSpecImpl<TicketStatusDb> for TicketStatus {
    open spec fn obeys_from_spec() -> bool {
        true
    }

    open spec fn from_spec(status: TicketStatusDb) -> TicketStatus {
        ticket_status_from_db(status)
    }
}

impl From<RefundStatus> for RefundStatusDb {
    fn from(status: RefundStatus) -> (r: Self) {
        match status {
            RefundStatus::Requested => RefundStatusDb::Requested,
            RefundStatus::Approved => RefundStatusDb::Approved,
            RefundStatus::Rejected => RefundStatusDb::Rejected,
            RefundStatus::PaidOut => RefundStatusDb::PaidOut,
        }
    }
}

impl FromSpecImpl<RefundStatus> for RefundStatusDb {
    open spec fn obeys_from_spec() -> bool {
        true
    }

    open spec fn from_spec(status: RefundStatus) -> RefundStatusDb {
        refund_status_to_db(status)
    }
}

impl From<RefundStatusDb> for RefundStatus {
    fn from(status: RefundStatusDb) -> (r: Self) {
        match status {
            RefundStatusDb::Requested => RefundStatus::Requested,
            RefundStatusDb::Approved => RefundStatus::Approved,
            RefundStatusDb::Rejected => RefundStatus::Rejected,
            RefundStatusDb::PaidOut => RefundStatus::PaidOut,
        }
    }
}

impl FromSpecImpl<RefundStatusDb> for RefundStatus {
    open spec fn obeys_from_spec() -> bool {
        true
    }

    open spec fn from_spec(status: RefundStatusDb) -> RefundStatus {
        refund_status_from_db(status)
    }
}

// ---------------------------------------------------------------------------
// What a mapping produces
// ---------------------------------------------------------------------------

/// `c` is the category read from `row`.
pub open spec fn category_read_from(c: TicketCategory, row: TicketCategoryRow) -> bool {
    &&& c.id == CategoryId(row.id)
    &&& c.event_id == EventId(row.event_id)
    &&& c.name@ == row.name@
    &&& c.price.value() == row.price_amount
    &&& c.price.currency_text() == row.price_currency@
    &&& c.quota == row.quota as u32
    &&& c.remaining_quota == row.remaining_quota as u32
    &&& c.sales_start == row.sales_start * NANOS_PER_DAY
    &&& c.sales_end == row.sales_end * NANOS_PER_DAY
    &&& c.is_active == row.is_active
}

/// `row` is the row written for the category `c`.
pub open spec fn category_written_to(row: TicketCategoryRow, c: TicketCategory) -> bool {
    &&& row.id == c.id.0
    &&& row.event_id == c.event_id.0
    &&& row.name@ == c.name@
    &&& row.price_amount == c.price.value()
    &&& row.price_currency@ == c.price.currency_text()
    &&& row.quota == c.quota as i32
    &&& row.remaining_quota == c.remaining_quota as i32
    &&& row.sales_start == c.sales_start / NANOS_PER_DAY
    &&& row.sales_end == c.sales_end / NANOS_PER_DAY
    &&& row.is_active == c.is_active
    &&& is_representable_instant(row.created_at as int)
}

/// A category row can be read: its dates are calendar dates and its price
/// is not negative.
pub open spec fn category_row_readable(row: TicketCategoryRow) -> bool {
    &&& is_representable_date(row.sales_start as int)
    &&& is_representable_date(row.sales_end as int)
    &&& row.price_amount.units() >= 0
}

/// `e` is the event read from `row` and its category rows.
pub open spec fn event_read_from(e: Event, row: EventRow, cats: Seq<TicketCategoryRow>) -> bool {
    &&& e.id == EventId(row.id)
    &&& e.organizer_id == UserId(row.organizer_id)
    &&& e.name@ == row.name@
    &&& e.description@ == row.description@
    &&& e.location@ == row.location@
    &&& e.start_date == row.start_date * NANOS_PER_DAY
    &&& e.end_date == row.end_date * NANOS_PER_DAY
    &&& e.max_capacity == row.max_capacity as u32
    &&& e.status == event_status_from_db(row.status)
    &&& e.categories@.len() == cats.len()
    &&& forall|i: int|
        0 <= i < cats.len() ==> category_read_from(#[trigger] e.categories@[i], cats[i])
    &&& e.created_at == row.created_at
    &&& e.updated_at == row.updated_at
    &&& e.events@.len() == 0
}

/// `row` is the row written for the event `e`.
pub open spec fn event_written_to(row: EventRow, e: Event) -> bool {
    &&& row.id == e.id.0
    &&& row.organizer_id == e.organizer_id.0
    &&& row.name@ == e.name@
    &&& row.description@ == e.description@
    &&& row.start_date == e.start_date / NANOS_PER_DAY
    &&& row.end_date == e.end_date / NANOS_PER_DAY
    &&& row.location@ == e.location@
    &&& row.max_capacity == e.max_capacity as i32
    &&& row.status == event_status_to_db(e.status)
    &&& row.created_at == e.created_at
    &&& row.updated_at == e.updated_at
}

/// `b` is the booking read from `row`, holding `tickets`.
pub open spec fn booking_read_from(b: Booking, row: BookingRow, tickets: Vec<Ticket>) -> bool {
    &&& b.id == BookingId(row.id)
    &&& b.user_id == UserId(row.customer_id)
    &&& b.event_id == EventId(row.event_id)
    &&& b.category_id == CategoryId(row.category_id)
    &&& b.quantity == row.quantity as u32
    &&& b.total_amount.value() == row.total_amount
    &&& b.total_amount.currency_text() == row.total_currency@
    &&& b.status == booking_status_from_db(row.status)
    &&& b.payment_deadline == row.payment_deadline
    &&& b.tickets == tickets
    &&& b.created_at == row.created_at
    &&& b.updated_at == row.updated_at
    &&& b.events@.len() == 0
}

/// `row` is the row written for the booking `b`.
pub open spec fn booking_written_to(row: BookingRow, b: Booking) -> bool {
    &&& row.id == b.id.0
    &&& row.customer_id == b.user_id.0
    &&& row.event_id == b.event_id.0
    &&& row.category_id == b.category_id.0
    &&& row.quantity == b.quantity as i32
    &&& row.total_amount == b.total_amount.value()
    &&& row.total_currency@ == b.total_amount.currency_text()
    &&& row.status == booking_status_to_db(b.status)
    &&& row.payment_deadline == b.payment_deadline
    &&& row.created_at == b.created_at
    &&& row.updated_at == b.updated_at
}

/// `t` is the ticket read from the stored ticket fields.
pub open spec fn ticket_read_from(
    t: Ticket,
    id: u128,
    booking_id: u128,
    event_id: u128,
    code: Seq<char>,
    status: TicketStatusDb,
    checked_in_at: Option<i128>,
    created_at: i128,
    category_id: CategoryId,
) -> bool {
    &&& t.id == TicketId(id)
    &&& t.booking_id == BookingId(booking_id)
    &&& t.event_id == EventId(event_id)
    &&& t.category_id == category_id
    &&& t.code.text() == code
    &&& t.status == ticket_status_from_db(status)
    &&& t.checked_in_at == checked_in_at
    &&& t.created_at == created_at
    &&& t.events@.len() == 0
}

/// `row` is the row written for the ticket `t`.
pub open spec fn ticket_written_to(row: TicketRow, t: Ticket) -> bool {
    &&& row.id == t.id.0
    &&& row.booking_id == t.booking_id.0
    &&& row.event_id == t.event_id.0
    &&& row.code@ == t.code.text()
    &&& row.status == ticket_status_to_db(t.status)
    &&& row.checked_in_at == t.checked_in_at
    &&& row.created_at == t.created_at
}

/// `r` is the refund read from `row`.
pub open spec fn refund_read_from(r: Refund, row: RefundRow) -> bool {
    &&& r.id == RefundId(row.id)
    &&& r.booking_id == BookingId(row.booking_id)
    &&& r.user_id == UserId(row.customer_id)
    &&& r.amount.value() == row.amount
    &&& r.amount.currency_text() == row.currency@
    &&& r.status == refund_status_from_db(row.status)
    &&& r.reason == row.reason
    &&& r.rejection_reason == row.rejection_reason
    &&& r.payment_reference == row.payment_reference
    &&& r.requested_at == row.requested_at
    &&& r.events@.len() == 0
}

/// `row` is the row written for the refund `r`.
pub open spec fn refund_written_to(row: RefundRow, r: Refund) -> bool {
    &&& row.id == r.id.0
    &&& row.booking_id == r.booking_id.0
    &&& row.customer_id == r.user_id.0
    &&& row.amount == r.amount.value()
    &&& row.currency@ == r.amount.currency_text()
    &&& row.status == refund_status_to_db(r.status)
    &&& row.reason == r.reason
    &&& row.rejection_reason == r.rejection_reason
    &&& row.payment_reference == r.payment_reference
    &&& row.requested_at == r.requested_at
    &&& is_representable_instant(row.updated_at as int)
}

// ---------------------------------------------------------------------------
// Mappings
// ---------------------------------------------------------------------------

pub fn ticket_category_from_row(row: TicketCategoryRow) -> (r: TicketCategory)
    requires
        category_row_readable(row),
    ensures
        category_read_from(r, row),
{
    let price = Money::new(row.price_amount, row.price_currency).unwrap();
    TicketCategory {
        id: CategoryId::from(row.id),
        event_id: EventId::from(row.event_id),
        name: row.name,
        price,
        quota: #[verifier::truncate] (row.quota as u32),
        remaining_quota: #[verifier::truncate] (row.remaining_quota as u32),
        sales_start: naive_date_to_utc(row.sales_start),
        sales_end: naive_date_to_utc(row.sales_end),
        is_active: row.is_active,
    }
}

pub fn ticket_category_to_row(cat: &TicketCategory) -> (r: TicketCategoryRow)
    ensures
        category_written_to(r, *cat),
{
    TicketCategoryRow {
        id: cat.id.into_inner(),
        event_id: cat.event_id.into_inner(),
        name: cat.name.clone(),
        price_amount: cat.price.amount(),
        price_currency: String::from_str(cat.price.currency()),
        quota: #[verifier::truncate] (cat.quota as i32),
        remaining_quota: #[verifier::truncate] (cat.remaining_quota as i32),
        sales_start: utc_to_naive_date(cat.sales_start),
        sales_end: utc_to_naive_date(cat.sales_end),
        is_active: cat.is_active,
        created_at: now_nanos(),
    }
}

fn copy_category_row(row: &TicketCategoryRow) -> (r: TicketCategoryRow)
    ensures
        r == *row,
{
    TicketCategoryRow {
        id: row.id,
        event_id: row.event_id,
        name: row.name.clone(),
        price_amount: row.price_amount,
        price_currency: row.price_currency.clone(),
        quota: row.quota,
        remaining_quota: row.remaining_quota,
        sales_start: row.sales_start,
        sales_end: row.sales_end,
        is_active: row.is_active,
        created_at: row.created_at,
    }
}

pub fn event_from_rows(row: EventRow, category_rows: Vec<TicketCategoryRow>) -> (r: Event)
    requires
        is_representable_date(row.start_date as int),
        is_representable_date(row.end_date as int),
        forall|i: int|
            0 <= i < category_rows@.len() ==> category_row_readable(#[trigger] category_rows@[i]),
    ensures
        event_read_from(r, row, category_rows@),
{
    let mut categories: Vec<TicketCategory> = Vec::new();
    let n = category_rows.len();
    let mut i: usize = 0;
    while i < n
        invariant
            n == category_rows@.len(),
            i <= n,
            categories@.len() == i,
            forall|j: int|
                0 <= j < category_rows@.len() ==> category_row_readable(
                    #[trigger] category_rows@[j],
                ),
            forall|j: int|
                0 <= j < i ==> category_read_from(#[trigger] categories@[j], category_rows@[j]),
        decreases n - i,
    {
        let c = ticket_category_from_row(copy_category_row(&category_rows[i]));
        categories.push(c);
        i = i + 1;
    }
    Event {
        id: EventId::from(row.id),
        organizer_id: UserId::from(row.organizer_id),
        name: row.name,
        description: row.description,
        location: row.location,
        start_date: naive_date_to_utc(row.start_date),
        end_date: naive_date_to_utc(row.end_date),
        max_capacity: #[verifier::truncate] (row.max_capacity as u32),
        status: EventStatus::from(row.status),
        categories,
        created_at: row.created_at,
        updated_at: row.updated_at,
        events: Vec::new(),
    }
}

pub fn event_to_row(event: &Event) -> (r: EventRow)
    ensures
        event_written_to(r, *event),
{
    EventRow {
        id: event.id.into_inner(),
        organizer_id: event.organizer_id.into_inner(),
        name: event.name.clone(),
        description: event.description.clone(),
        start_date: utc_to_naive_date(event.start_date),
        end_date: utc_to_naive_date(event.end_date),
        location: event.location.clone(),
        max_capacity: #[verifier::truncate] (event.max_capacity as i32),
        status: EventStatusDb::from(event.status),
        created_at: event.created_at,
        updated_at: event.updated_at,
    }
}

pub fn booking_from_row(row: BookingRow, tickets: Vec<Ticket>) -> (r: Booking)
    requires
        row.total_amount.units() >= 0,
    ensures
        booking_read_from(r, row, tickets),
{
    Booking {
        id: BookingId::from(row.id),
        user_id: UserId::from(row.customer_id),
        event_id: EventId::from(row.event_id),
        category_id: CategoryId::from(row.category_id),
        quantity: #[verifier::truncate] (row.quantity as u32),
        total_amount: Money::new(row.total_amount, row.total_currency).unwrap(),
        status: BookingStatus::from(row.status),
        payment_deadline: row.payment_deadline,
        tickets,
        created_at: row.created_at,
        updated_at: row.updated_at,
        events: Vec::new(),
    }
}

pub fn booking_to_row(booking: &Booking) -> (r: BookingRow)
    ensures
        booking_written_to(r, *booking),
{
    BookingRow {
        id: booking.id.into_inner(),
        customer_id: booking.user_id.into_inner(),
        event_id: booking.event_id.into_inner(),
        category_id: booking.category_id.into_inner(),
        quantity: #[verifier::truncate] (booking.quantity as i32),
        total_amount: booking.total_amount.amount(),
        total_currency: String::from_str(booking.total_amount.currency()),
        status: BookingStatusDb::from(booking.status),
        payment_deadline: booking.payment_deadline,
        created_at: booking.created_at,
        updated_at: booking.updated_at,
    }
}

pub fn ticket_from_row_with_category(row: TicketWithCategoryRow) -> (r: Ticket)
    ensures
        ticket_read_from(
            r,
            row.id,
            row.booking_id,
            row.event_id,
            row.code@,
            row.status,
            row.checked_in_at,
            row.created_at,
            CategoryId(row.category_id),
        ),
{
    Ticket {
        id: TicketId::from(row.id),
        booking_id: BookingId::from(row.booking_id),
        event_id: EventId::from(row.event_id),
        category_id: CategoryId::from(row.category_id),
        code: TicketCode::new(row.code),
        status: TicketStatus::from(row.status),
        checked_in_at: row.checked_in_at,
        created_at: row.created_at,
        events: Vec::new(),
    }
}

pub fn ticket_from_row(row: TicketRow, category_id: CategoryId) -> (r: Ticket)
    ensures
        ticket_read_from(
            r,
            row.id,
            row.booking_id,
            row.event_id,
            row.code@,
            row.status,
            row.checked_in_at,
            row.created_at,
            category_id,
        ),
{
    Ticket {
        id: TicketId::from(row.id),
        booking_id: BookingId::from(row.booking_id),
        event_id: EventId::from(row.event_id),
        category_id,
        code: TicketCode::new(row.code),
        status: TicketStatus::from(row.status),
        checked_in_at: row.checked_in_at,
        created_at: row.created_at,
        events: Vec::new(),
    }
}

pub fn ticket_to_row(ticket: &Ticket) -> (r: TicketRow)
    ensures
        ticket_written_to(r, *ticket),
{
    TicketRow {
        id: ticket.id.into_inner(),
        booking_id: ticket.booking_id.into_inner(),
        event_id: ticket.event_id.into_inner(),
        code: String::from_str(ticket.code.as_str()),
        status: TicketStatusDb::from(ticket.status),
        checked_in_at: ticket.checked_in_at,
        created_at: ticket.created_at,
    }
}

pub fn refund_from_row(row: RefundRow) -> (r: Refund)
    requires
        row.amount.units() >= 0,
    ensures
        refund_read_from(r, row),
{
    Refund {
        id: RefundId::from(row.id),
        booking_id: BookingId::from(row.booking_id),
        user_id: UserId::from(row.customer_id),
        amount: Money::new(row.amount, row.currency).unwrap(),
        status: RefundStatus::from(row.status),
        reason: row.reason,
        rejection_reason: row.rejection_reason,
        payment_reference: row.payment_reference,
        requested_at: row.requested_at,
        events: Vec::new(),
    }
}

pub fn refund_to_row(refund: &Refund) -> (r: RefundRow)
    ensures
        refund_written_to(r, *refund),
{
    RefundRow {
        id: refund.id.into_inner(),
        booking_id: refund.booking_id.into_inner(),
        customer_id: refund.user_id.into_inner(),
        amount: refund.amount.amount(),
        currency: String::from_str(refund.amount.currency()),
        status: RefundStatusDb::from(refund.status),
        reason: copy_optional_text(&refund.reason),
        rejection_reason: copy_optional_text(&refund.rejection_reason),
        payment_reference: copy_optional_text(&refund.payment_reference),
        requested_at: refund.requested_at,
        updated_at: now_nanos(),
    }
}

// ---------------------------------------------------------------------------
// Round trips: a stored row read and written back is the same row
// ---------------------------------------------------------------------------

proof fn lemma_i32_u32_round_trip(x: i32)
    ensures
        ((x as u32) as i32) == x,
{
    assert(((x as u32) as i32) == x) by (bit_vector);
}

proof fn lemma_day_round_trip(days: i128)
    ensures
        (days * NANOS_PER_DAY) / (NANOS_PER_DAY as int) == days,
{
    vstd::arithmetic::div_mod::lemma_fundamental_div_mod_converse(
        days * NANOS_PER_DAY,
        NANOS_PER_DAY as int,
        days as int,
        0,
    );
}

/// A status read from storage and written back is unchanged.
pub proof fn lemma_status_round_trips(
    e: EventStatusDb,
    b: BookingStatusDb,
    t: TicketStatusDb,
    r: RefundStatusDb,
)
    ensures
        event_status_to_db(event_status_from_db(e)) == e,
        booking_status_to_db(booking_status_from_db(b)) == b,
        ticket_status_to_db(ticket_status_from_db(t)) == t,
        refund_status_to_db(refund_status_from_db(r)) == r,
{
}

/// Reading an event row and writing the event back gives the same row.
pub proof fn lemma_event_row_round_trip(
    row: EventRow,
    cats: Seq<TicketCategoryRow>,
    e: Event,
    row2: EventRow,
)
    requires
        event_read_from(e, row, cats),
        event_written_to(row2, e),
    ensures
        row2.id == row.id,
        row2.organizer_id == row.organizer_id,
        row2.name@ == row.name@,
        row2.description@ == row.description@,
        row2.start_date == row.start_date,
        row2.end_date == row.end_date,
        row2.location@ == row.location@,
        row2.max_capacity == row.max_capacity,
        row2.status == row.status,
        row2.created_at == row.created_at,
        row2.updated_at == row.updated_at,
{
    lemma_day_round_trip(row.start_date);
    lemma_day_round_trip(row.end_date);
    lemma_i32_u32_round_trip(row.max_capacity);
    lemma_status_round_trips(row.status, BookingStatusDb::Paid, TicketStatusDb::Active, RefundStatusDb::Requested);
}

/// Reading a category row and writing the category back gives the same row,
/// but for the time at which it is written.
pub proof fn lemma_category_row_round_trip(
    row: TicketCategoryRow,
    c: TicketCategory,
    row2: TicketCategoryRow,
)
    requires
        category_read_from(c, row),
        category_written_to(row2, c),
    ensures
        row2.id == row.id,
        row2.event_id == row.event_id,
        row2.name@ == row.name@,
        row2.price_amount == row.price_amount,
        row2.price_currency@ == row.price_currency@,
        row2.quota == row.quota,
        row2.remaining_quota == row.remaining_quota,
        row2.sales_start == row.sales_start,
        row2.sales_end == row.sales_end,
        row2.is_active == row.is_active,
{
    lemma_day_round_trip(row.sales_start);
    lemma_day_round_trip(row.sales_end);
    lemma_i32_u32_round_trip(row.quota);
    lemma_i32_u32_round_trip(row.remaining_quota);
}

/// Reading a booking row and writing the booking back gives the same row.
pub proof fn lemma_booking_row_round_trip(
    row: BookingRow,
    tickets: Vec<Ticket>,
    b: Booking,
    row2: BookingRow,
)
    requires
        booking_read_from(b, row, tickets),
        booking_written_to(row2, b),
    ensures
        row2.id == row.id,
        row2.customer_id == row.customer_id,
        row2.event_id == row.event_id,
        row2.category_id == row.category_id,
        row2.quantity == row.quantity,
        row2.total_amount == row.total_amount,
        row2.total_currency@ == row.total_currency@,
        row2.status == row.status,
        row2.payment_deadline == row.payment_deadline,
        row2.created_at == row.created_at,
        row2.updated_at == row.updated_at,
{
    lemma_i32_u32_round_trip(row.quantity);
    lemma_status_round_trips(EventStatusDb::Draft, row.status, TicketStatusDb::Active, RefundStatusDb::Requested);
}

/// Reading a ticket row and writing the ticket back gives the same row.
pub proof fn lemma_ticket_row_round_trip(row: TicketRow, category_id: CategoryId, t: Ticket, row2: TicketRow)
    requires
        ticket_read_from(
            t,
            row.id,
            row.booking_id,
            row.event_id,
            row.code@,
            row.status,
            row.checked_in_at,
            row.created_at,
            category_id,
        ),
        ticket_written_to(row2, t),
    ensures
        row2.id == row.id,
        row2.booking_id == row.booking_id,
        row2.event_id == row.event_id,
        row2.code@ == row.code@,
        row2.status == row.status,
        row2.checked_in_at == row.checked_in_at,
        row2.created_at == row.created_at,
{
    lemma_status_round_trips(EventStatusDb::Draft, BookingStatusDb::Paid, row.status, RefundStatusDb::Requested);
}

/// Reading a refund row and writing the refund back gives the same row, but
/// for the time at which it is written.
pub proof fn lemma_refund_row_round_trip(row: RefundRow, r: Refund, row2: RefundRow)
    requires
        refund_read_from(r, row),
        refund_written_to(row2, r),
    ensures
        row2.id == row.id,
        row2.booking_id == row.booking_id,
        row2.customer_id == row.customer_id,
        row2.amount == row.amount,
        row2.currency@ == row.currency@,
        row2.status == row.status,
        row2.reason == row.reason,
        row2.rejection_reason == row.rejection_reason,
        row2.payment_reference == row.payment_reference,
        row2.requested_at == row.requested_at,
{
    lemma_status_round_trips(EventStatusDb::Draft, BookingStatusDb::Paid, TicketStatusDb::Active, row.status);
}

/// A refund written to storage and read back is the same refund, the
/// customer's reason included, with no pending domain events.
pub proof fn lemma_refund_round_trip(r: Refund, row: RefundRow, r2: Refund)
    requires
        refund_written_to(row, r),
        refund_read_from(r2, row),
    ensures
        r2.id == r.id,
        r2.booking_id == r.booking_id,
        r2.user_id == r.user_id,
        r2.amount.value() == r.amount.value(),
        r2.amount.currency_text() == r.amount.currency_text(),
        r2.status == r.status,
        r2.reason == r.reason,
        r2.rejection_reason == r.rejection_reason,
        r2.payment_reference == r.payment_reference,
        r2.requested_at == r.requested_at,
        r2.events@.len() == 0,
{
    assert(refund_status_from_db(refund_status_to_db(r.status)) == r.status);
}

/// A event status is stored as the stored status of the same name, and a
/// stored status is read back as the status of the same name.
pub proof fn lemma_event_status_stored_by_name(s: EventStatus, d: EventStatusDb)
    ensures
        event_status_to_db(s) == EventStatusDb::Draft <==> s == EventStatus::Draft,
        event_status_to_db(s) == EventStatusDb::Published <==> s == EventStatus::Published,
        event_status_to_db(s) == EventStatusDb::Cancelled <==> s == EventStatus::Cancelled,
        event_status_to_db(s) == EventStatusDb::Completed <==> s == EventStatus::Completed,
        event_status_from_db(d) == EventStatus::Draft <==> d == EventStatusDb::Draft,
        event_status_from_db(d) == EventStatus::Published <==> d == EventStatusDb::Published,
        event_status_from_db(d) == EventStatus::Cancelled <==> d == EventStatusDb::Cancelled,
        event_status_from_db(d) == EventStatus::Completed <==> d == EventStatusDb::Completed,
{
}

/// A booking status is stored as the stored status of the same name, and a
/// stored status is read back as the status of the same name.
pub proof fn lemma_booking_status_stored_by_name(s: BookingStatus, d: BookingStatusDb)
    ensures
        booking_status_to_db(s) == BookingStatusDb::PendingPayment <==> s == BookingStatus::PendingPayment,
        booking_status_to_db(s) == BookingStatusDb::Paid <==> s == BookingStatus::Paid,
        booking_status_to_db(s) == BookingStatusDb::Expired <==> s == BookingStatus::Expired,
        booking_status_to_db(s) == BookingStatusDb::Refunded <==> s == BookingStatus::Refunded,
        booking_status_from_db(d) == BookingStatus::PendingPayment <==> d == BookingStatusDb::PendingPayment,
        booking_status_from_db(d) == BookingStatus::Paid <==> d == BookingStatusDb::Paid,
        booking_status_from_db(d) == BookingStatus::Expired <==> d == BookingStatusDb::Expired,
        booking_status_from_db(d) == BookingStatus::Refunded <==> d == BookingStatusDb::Refunded,
{
}

/// A ticket status is stored as the stored status of the same name, and a
/// stored status is read back as the status of the same name.
pub proof fn lemma_ticket_status_stored_by_name(s: TicketStatus, d: TicketStatusDb)
    ensures
        ticket_status_to_db(s) == TicketStatusDb::Active <==> s == TicketStatus::Active,
        ticket_status_to_db(s) == TicketStatusDb::CheckedIn <==> s == TicketStatus::CheckedIn,
        ticket_status_to_db(s) == TicketStatusDb::Cancelled <==> s == TicketStatus::Cancelled,
        ticket_status_from_db(d) == TicketStatus::Active <==> d == TicketStatusDb::Active,
        ticket_status_from_db(d) == TicketStatus::CheckedIn <==> d == TicketStatusDb::CheckedIn,
        ticket_status_from_db(d) == TicketStatus::Cancelled <==> d == TicketStatusDb::Cancelled,
{
}

/// A refund status is stored as the stored status of the same name, and a
/// stored status is read back as the status of the same name.
pub proof fn lemma_refund_status_stored_by_name(s: RefundStatus, d: RefundStatusDb)
    ensures
        refund_status_to_db(s) == RefundStatusDb::Requested <==> s == RefundStatus::Requested,
        refund_status_to_db(s) == RefundStatusDb::Approved <==> s == RefundStatus::Approved,
        refund_status_to_db(s) == RefundStatusDb::Rejected <==> s == RefundStatus::Rejected,
        refund_status_to_db(s) == RefundStatusDb::PaidOut <==> s == RefundStatus::PaidOut,
        refund_status_from_db(d) == RefundStatus::Requested <==> d == RefundStatusDb::Requested,
        refund_status_from_db(d) == RefundStatus::Approved <==> d == RefundStatusDb::Approved,
        refund_status_from_db(d) == RefundStatus::Rejected <==> d == RefundStatusDb::Rejected,
        refund_status_from_db(d) == RefundStatus::PaidOut <==> d == RefundStatusDb::PaidOut,
{
}

} // verus!
