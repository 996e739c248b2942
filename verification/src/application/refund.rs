//! Decisions of the refund use cases: opening a refund for a paid booking,
//! settling the booking of an approved refund, and rejecting a refund.

use vstd::prelude::*;

use crate::booking::aggregate::Booking;
use crate::booking::value_objects::{BookingId, BookingStatus};
use crate::refund::aggregate::Refund;
use crate::refund::value_objects::RefundId;
use crate::shared::errors::DomainError;
use crate::shared::text::{is_blank, is_blank_text};
use crate::shared::time::is_representable_instant;
use crate::shared::value_objects::UserId;
use crate::ticket::entity::Ticket;
use crate::ticket::value_objects::TicketStatus;

use super::errors::{AppResult, ApplicationError};

verus! {

/// Whether some ticket has been checked in.
pub open spec fn has_checked_in_ticket(tickets: Seq<Ticket>) -> bool {
    exists|i: int| 0 <= i < tickets.len() && (#[trigger] tickets[i]).status == TicketStatus::CheckedIn
}

/// The same ticket, cancelled.
pub open spec fn cancelled(t: Ticket) -> Ticket {
    Ticket { status: TicketStatus::Cancelled, ..t }
}

/// A booking holds at most one refund: a new request is refused when one
/// exists.
pub fn ensure_no_refund(refund_exists: bool) -> (r: AppResult<()>)
    ensures
        r is Ok <==> !refund_exists,
        r matches Err(e) ==> (e matches ApplicationError::Domain(DomainError::BusinessRule(m))
            && m@ == "Refund already requested for this booking"@),
{
    if refund_exists {
        return Err(
            ApplicationError::Domain(
                DomainError::BusinessRule(
                    String::from_str("Refund already requested for this booking"),
                ),
            ),
        );
    }
    Ok(())
}

/// Opens a refund of the whole amount of a paid booking none of whose
/// tickets has been checked in.
pub fn open_refund(
    booking: Option<Booking>,
    refund_id: RefundId,
    booking_id: BookingId,
    user_id: UserId,
    reason: Option<String>,
) -> (r: AppResult<Refund>)
    ensures
        booking is None ==> (r matches Err(ApplicationError::NotFound(m)) && m@
            == "Booking not found"@),
        booking matches Some(b) ==> if b.status != BookingStatus::Paid {
            r matches Err(ApplicationError::Domain(DomainError::BusinessRule(m))) && m@
                == "Can only refund paid bookings"@
        } else if has_checked_in_ticket(b.tickets@) {
            r matches Err(ApplicationError::Domain(DomainError::CheckedInTicketRefundDenied))
        } else {
            r matches Ok(refund) && refund.requested_as(
                refund_id,
                booking_id,
                user_id,
                b.total_amount,
                reason,
            )
        },
{
    let found = match booking {
        Some(b) => b,
        None => {
            return Err(ApplicationError::NotFound(String::from_str("Booking not found")));
        },
    };
    if found.status != BookingStatus::Paid {
        return Err(
            ApplicationError::Domain(
                DomainError::BusinessRule(String::from_str("Can only refund paid bookings")),
            ),
        );
    }
    let n = found.tickets.len();
    let mut i: usize = 0;
    while i < n
        invariant
            booking == Some(found),
            found.status == BookingStatus::Paid,
            n == found.tickets@.len(),
            i <= n,
            forall|j: int|
                0 <= j < i ==> (#[trigger] found.tickets@[j]).status != TicketStatus::CheckedIn,
        decreases n - i,
    {
        if found.tickets[i].status == TicketStatus::CheckedIn {
            assert(found.tickets@[i as int].status == TicketStatus::CheckedIn);
            return Err(ApplicationError::Domain(DomainError::CheckedInTicketRefundDenied));
        }
        i = i + 1;
    }
    Ok(Refund::request(refund_id, booking_id, user_id, found.total_amount.clone(), reason))
}

/// Settles the booking of an approved refund: the booking becomes refunded
/// and every ticket is cancelled, stopping at the first refusal.
pub fn settle_refunded_booking(booking: &mut Booking) -> (r: AppResult<()>)
    ensures
        r is Ok <==> (old(booking).refund_allowed() && forall|i: int|
            0 <= i < old(booking).tickets@.len()
                ==> (#[trigger] old(booking).tickets@[i]).cancel_allowed()),
        r matches Err(e) ==> (e is Domain),
        r is Ok ==> {
            &&& final(booking).same_terms(*old(booking))
            &&& final(booking).status == BookingStatus::Refunded
            &&& final(booking).events == old(booking).events
            &&& final(booking).tickets@ == old(booking).tickets@.map_values(
                |t: Ticket| cancelled(t),
            )
        },
{
    match booking.mark_refund_required() {
        Ok(()) => {},
        Err(e) => {
            return Err(ApplicationError::Domain(e));
        },
    }
    let ghost refunded = *booking;
    let n = booking.tickets.len();
    let mut i: usize = 0;
    while i < n
        invariant
            n == refunded.tickets@.len(),
            refunded.tickets == old(booking).tickets,
            booking.tickets@.len() == n,
            i <= n,
            booking.same_terms(refunded),
            booking.status == BookingStatus::Refunded,
            booking.events == refunded.events,
            forall|j: int| 0 <= j < i ==> (#[trigger] refunded.tickets@[j]).cancel_allowed(),
            forall|j: int|
                0 <= j < i ==> #[trigger] booking.tickets@[j] == cancelled(refunded.tickets@[j]),
            forall|j: int| i <= j < n ==> #[trigger] booking.tickets@[j] == refunded.tickets@[j],
        decreases n - i,
    {
        match booking.tickets[i].cancel() {
            Ok(()) => {},
            Err(e) => {
                assert(!refunded.tickets@[i as int].cancel_allowed());
                return Err(ApplicationError::Domain(e));
            },
        }
        i = i + 1;
    }
    assert(booking.tickets@ =~= refunded.tickets@.map_values(|t: Ticket| cancelled(t)));
    Ok(())
}

/// Rejects a refund; a blank reason is refused before the refund's status is
/// looked at.
pub fn reject_refund(refund: &mut Refund, reason: String) -> (r: AppResult<()>)
    ensures
        r is Ok <==> old(refund).rejection_allowed(reason@),
        r is Err ==> *final(refund) == *old(refund),
        r matches Err(e) ==> if is_blank_text(reason@) {
            e matches ApplicationError::Domain(DomainError::BusinessRule(m)) && m@
                == "Rejection reason is required"@
        } else {
            e matches ApplicationError::Domain(DomainError::RefundNotRequested)
        },
        r is Ok ==> *final(refund) == (Refund {
            status: crate::refund::value_objects::RefundStatus::Rejected,
            rejection_reason: Some(reason),
            events: final(refund).events,
            ..*old(refund)
        }),
{
    if is_blank(reason.as_str()) {
        return Err(
            ApplicationError::Domain(
                DomainError::BusinessRule(String::from_str("Rejection reason is required")),
            ),
        );
    }
    match refund.reject(reason) {
        Ok(()) => Ok(()),
        Err(e) => Err(ApplicationError::Domain(e)),
    }
}

/// A ticket once its event is cancelled: an active ticket is cancelled, a
/// checked-in or cancelled one stays as it is.
pub open spec fn ticket_after_event_cancellation(t: Ticket) -> Ticket {
    if t.status == TicketStatus::Active {
        cancelled(t)
    } else {
        t
    }
}

/// `after` is `before` once its event is cancelled: a paid booking now needs
/// its money back (it is marked refunded) and its active tickets are
/// cancelled; a booking in any other status is untouched.
pub open spec fn booking_after_event_cancellation(before: Booking, after: Booking) -> bool {
    if before.status == BookingStatus::Paid {
        &&& after.same_terms(before)
        &&& after.status == BookingStatus::Refunded
        &&& is_representable_instant(after.updated_at as int)
        &&& after.events == before.events
        &&& after.tickets@ == before.tickets@.map_values(
            |t: Ticket| ticket_after_event_cancellation(t),
        )
    } else {
        after == before
    }
}

/// Applies the cancellation of an event to one of its bookings.
pub fn cancel_booking_of_cancelled_event(booking: &mut Booking)
    ensures
        booking_after_event_cancellation(*old(booking), *final(booking)),
{
    if booking.status != BookingStatus::Paid {
        return;
    }
    match booking.mark_refund_required() {
        Ok(()) => {},
        Err(_) => {
            return;
        },
    }
    let ghost marked = *booking;
    let n = booking.tickets.len();
    let mut i: usize = 0;
    while i < n
        invariant
            n == marked.tickets@.len(),
            marked.tickets == old(booking).tickets,
            marked.status == BookingStatus::Refunded,
            marked.same_terms(*old(booking)),
            marked.events == old(booking).events,
            is_representable_instant(marked.updated_at as int),
            booking.tickets@.len() == n,
            i <= n,
            booking.same_terms(marked),
            booking.status == marked.status,
            booking.updated_at == marked.updated_at,
            booking.events == marked.events,
            forall|j: int|
                0 <= j < i ==> #[trigger] booking.tickets@[j] == ticket_after_event_cancellation(
                    marked.tickets@[j],
                ),
            forall|j: int| i <= j < n ==> #[trigger] booking.tickets@[j] == marked.tickets@[j],
        decreases n - i,
    {
        if booking.tickets[i].status == TicketStatus::Active {
            match booking.tickets[i].cancel() {
                Ok(()) => {},
                Err(_) => {},
            }
        }
        i = i + 1;
    }
    assert(booking.tickets@ =~= marked.tickets@.map_values(
        |t: Ticket| ticket_after_event_cancellation(t),
    ));
}

/// Applies the cancellation of an event to all of its bookings: every paid
/// booking is marked refunded and its active tickets are cancelled; the other
/// bookings are left as they are.
pub fn cancel_bookings_of_cancelled_event(bookings: &mut Vec<Booking>)
    ensures
        final(bookings)@.len() == old(bookings)@.len(),
        forall|i: int|
            0 <= i < old(bookings)@.len() ==> booking_after_event_cancellation(
                #[trigger] old(bookings)@[i],
                final(bookings)@[i],
            ),
{
    let n = bookings.len();
    let mut i: usize = 0;
    while i < n
        invariant
            n == old(bookings)@.len(),
            bookings@.len() == n,
            i <= n,
            forall|j: int|
                0 <= j < i ==> booking_after_event_cancellation(
                    #[trigger] old(bookings)@[j],
                    bookings@[j],
                ),
            forall|j: int| i <= j < n ==> #[trigger] bookings@[j] == old(bookings)@[j],
        decreases n - i,
    {
        cancel_booking_of_cancelled_event(&mut bookings[i]);
        i = i + 1;
    }
}

} // verus!
