//! Tickets: proof of attendance issued for a paid booking, checked in once at
//! the venue.

use vstd::prelude::*;

use crate::booking::value_objects::BookingId;
use crate::event::value_objects::{CategoryId, EventId};
use crate::shared::domain_event::DomainEventRecord;
use crate::shared::errors::DomainError;
use crate::shared::identifier::is_v4_uuid;
use crate::shared::time::{is_representable_instant, now_nanos};

use super::events::{TicketCheckedIn, TicketIssued};
use super::value_objects::{generated_code_text, TicketCode, TicketId, TicketStatus};

verus! {

pub struct Ticket {
    pub id: TicketId,
    pub booking_id: BookingId,
    pub event_id: EventId,
    pub category_id: CategoryId,
    pub code: TicketCode,
    pub status: TicketStatus,
    pub checked_in_at: Option<i128>,
    pub created_at: i128,
    pub events: Vec<DomainEventRecord>,
}

impl Ticket {
    /// The fields fixed when the ticket is issued.
    pub open spec fn same_identity(self, other: Ticket) -> bool {
        &&& self.id == other.id
        &&& self.booking_id == other.booking_id
        &&& self.event_id == other.event_id
        &&& self.category_id == other.category_id
        &&& self.code == other.code
        &&& self.created_at == other.created_at
    }

    /// A ticket as `issue` hands it out for the given booking, event and
    /// category: active, not checked in, with a generated code.
    pub open spec fn freshly_issued(
        self,
        booking_id: BookingId,
        event_id: EventId,
        category_id: CategoryId,
    ) -> bool {
        &&& is_v4_uuid(self.id.0)
        &&& self.booking_id == booking_id
        &&& self.event_id == event_id
        &&& self.category_id == category_id
        &&& self.status == TicketStatus::Active
        &&& self.checked_in_at is None
        &&& is_representable_instant(self.created_at as int)
        &&& exists|v: u128| is_v4_uuid(v) && self.code.text() == generated_code_text(v)
        &&& self.events@ == seq![
            DomainEventRecord::TicketIssued(
                TicketIssued {
                    ticket_id: self.id,
                    booking_id: booking_id,
                    event_id: event_id,
                    code: self.code,
                },
            ),
        ]
    }

    /// Check-in is allowed for an active ticket of the given event.
    pub open spec fn check_in_allowed(self, event_id: EventId) -> bool {
        self.event_id == event_id && self.status == TicketStatus::Active
    }

    /// Cancellation is allowed for an active ticket.
    pub open spec fn cancel_allowed(self) -> bool {
        self.status == TicketStatus::Active
    }

    /// A new active ticket with a fresh identifier and a generated code.
    pub fn issue(booking_id: BookingId, event_id: EventId, category_id: CategoryId) -> (r: Self)
        ensures
            r.freshly_issued(booking_id, event_id, category_id),
    {
        Self::issue_as(TicketId::new(), booking_id, event_id, category_id)
    }

    /// A new active ticket with the given version-4 identifier and a
    /// generated code.
    pub fn issue_as(
        id: TicketId,
        booking_id: BookingId,
        event_id: EventId,
        category_id: CategoryId,
    ) -> (r: Self)
        requires
            is_v4_uuid(id.0),
        ensures
            r.id == id,
            r.freshly_issued(booking_id, event_id, category_id),
    {
        let code = TicketCode::generate();
        let mut ticket = Ticket {
            id,
            booking_id,
            event_id,
            category_id,
            code: code.clone(),
            status: TicketStatus::Active,
            checked_in_at: None,
            created_at: now_nanos(),
            events: Vec::new(),
        };
        ticket.events.push(
            DomainEventRecord::TicketIssued(TicketIssued { ticket_id: id, booking_id, event_id, code }),
        );
        ticket
    }

    /// Checks in an active ticket of the given event at `now`.
    pub fn check_in(&mut self, event_id: EventId, now: i128) -> (r: Result<(), DomainError>)
        ensures
            r is Ok <==> old(self).check_in_allowed(event_id),
            r is Err ==> *final(self) == *old(self),
            r matches Err(e) ==> if old(self).event_id != event_id {
                e is TicketEventMismatch
            } else if old(self).status == TicketStatus::CheckedIn {
                e is AlreadyCheckedIn
            } else {
                e matches DomainError::InvalidStatusTransition(m) && m@
                    == "Ticket is not active for check-in"@
            },
            r is Ok ==> {
                &&& final(self).same_identity(*old(self))
                &&& final(self).status == TicketStatus::CheckedIn
                &&& final(self).checked_in_at == Some(now)
                &&& final(self).events@ == old(self).events@.push(
                    DomainEventRecord::TicketCheckedIn(
                        TicketCheckedIn { ticket_id: old(self).id, event_id: old(self).event_id },
                    ),
                )
            },
    {
        if self.event_id != event_id {
            return Err(DomainError::TicketEventMismatch);
        }
        if self.status == TicketStatus::CheckedIn {
            return Err(DomainError::AlreadyCheckedIn);
        }
        if self.status != TicketStatus::Active {
            return Err(
                DomainError::InvalidStatusTransition(
                    String::from_str("Ticket is not active for check-in"),
                ),
            );
        }
        self.status = TicketStatus::CheckedIn;
        self.checked_in_at = Some(now);
        self.events.push(
            DomainEventRecord::TicketCheckedIn(
                TicketCheckedIn { ticket_id: self.id, event_id: self.event_id },
            ),
        );
        Ok(())
    }

    /// Cancels an active ticket; a checked-in ticket cannot be cancelled.
    pub fn cancel(&mut self) -> (r: Result<(), DomainError>)
        ensures
            r is Ok <==> old(self).cancel_allowed(),
            r is Err ==> *final(self) == *old(self),
            r matches Err(e) ==> if old(self).status == TicketStatus::CheckedIn {
                e is CheckedInTicketRefundDenied
            } else {
                e matches DomainError::InvalidStatusTransition(m) && m@
                    == "Ticket is already cancelled"@
            },
            r is Ok ==> *final(self) == (Ticket { status: TicketStatus::Cancelled, ..*old(self) }),
    {
        if self.status == TicketStatus::CheckedIn {
            return Err(DomainError::CheckedInTicketRefundDenied);
        }
        if self.status == TicketStatus::Cancelled {
            return Err(
                DomainError::InvalidStatusTransition(
                    String::from_str("Ticket is already cancelled"),
                ),
            );
        }
        self.status = TicketStatus::Cancelled;
        Ok(())
    }

    /// Hands out the domain events raised so far and forgets them.
    pub fn take_events(&mut self) -> (r: Vec<DomainEventRecord>)
        ensures
            r == old(self).events,
            final(self).events@.len() == 0,
            final(self).same_identity(*old(self)),
            final(self).status == old(self).status,
            final(self).checked_in_at == old(self).checked_in_at,
    {
        let mut taken = Vec::new();
        std::mem::swap(&mut taken, &mut self.events);
        taken
    }
}

/// Whether some ticket has the identifier `id`.
pub open spec fn holds_ticket_id(tickets: Seq<Ticket>, id: u128) -> bool {
    exists|i: int| 0 <= i < tickets.len() && (#[trigger] tickets[i]).id.0 == id
}

/// The version-4 identifier `v` with the number `k` written into its free
/// bits (bits 0 to 61 and 64 to 75); version and variant bits stay.
pub open spec fn ticket_id_slot(v: u128, k: u128) -> u128 {
    (v & 0xffff_ffff_ffff_f000_c000_0000_0000_0000u128) | (k & 0x3fff_ffff_ffff_ffffu128) | ((k
        >> 62u128) << 64u128)
}

proof fn lemma_ticket_id_slot(v: u128, k1: u128, k2: u128)
    by (bit_vector)
    requires
        v & 0xF000_C000_0000_0000_0000u128 == 0x4000_8000_0000_0000_0000u128,
        k1 < 0x400_0000_0000_0000_0000u128,
        k2 < 0x400_0000_0000_0000_0000u128,
    ensures
        ticket_id_slot(v, k1) & 0xF000_C000_0000_0000_0000u128 == 0x4000_8000_0000_0000_0000u128,
        ticket_id_slot(v, k1) == ticket_id_slot(v, k2) ==> k1 == k2,
{
}

fn holds_ticket_id_exec(tickets: &Vec<Ticket>, id: u128) -> (r: bool)
    ensures
        r == holds_ticket_id(tickets@, id),
{
    let n = tickets.len();
    let mut i: usize = 0;
    while i < n
        invariant
            n == tickets@.len(),
            i <= n,
            forall|j: int| 0 <= j < i ==> (#[trigger] tickets@[j]).id.0 != id,
        decreases n - i,
    {
        if tickets[i].id.0 == id {
            return true;
        }
        i = i + 1;
    }
    false
}

/// A fresh version-4 ticket identifier that none of `taken` carries. It is
/// a random UUID; should that collide with a taken identifier, the first of
/// its variants with a number in the free bits that is not taken is used,
/// and one always exists since there are more variants than tickets.
pub fn fresh_ticket_id(taken: &Vec<Ticket>) -> (r: TicketId)
    ensures
        is_v4_uuid(r.0),
        !holds_ticket_id(taken@, r.0),
{
    let drawn = TicketId::new();
    if !holds_ticket_id_exec(taken, drawn.0) {
        return drawn;
    }
    let n = taken.len() as u128;
    let mut k: u128 = 0;
    while k <= n
        invariant
            n == taken@.len(),
            n < 0x1_0000_0000_0000_0000u128,
            is_v4_uuid(drawn.0),
            k <= n + 1,
            forall|j: u128| j < k ==> holds_ticket_id(taken@, #[trigger] ticket_id_slot(drawn.0, j)),
        decreases n + 1 - k,
    {
        let candidate = (drawn.0 & 0xffff_ffff_ffff_f000_c000_0000_0000_0000u128) | (k
            & 0x3fff_ffff_ffff_ffffu128) | ((k >> 62u128) << 64u128);
        assert(candidate == ticket_id_slot(drawn.0, k));
        proof {
            lemma_ticket_id_slot(drawn.0, k, k);
        }
        if !holds_ticket_id_exec(taken, candidate) {
            return TicketId(candidate);
        }
        k = k + 1;
    }
    proof {
        lemma_some_slot_is_free(taken@, drawn.0);
    }
    drawn
}

/// Among `taken.len() + 1` numbered variants of a version-4 identifier, one
/// is not taken.
proof fn lemma_some_slot_is_free(taken: Seq<Ticket>, v: u128)
    requires
        is_v4_uuid(v),
        taken.len() < 0x1_0000_0000_0000_0000u128,
    ensures
        exists|j: u128| j <= taken.len() && !holds_ticket_id(taken, #[trigger] ticket_id_slot(v, j)),
{
    if forall|j: u128| j <= taken.len() ==> holds_ticket_id(taken, #[trigger] ticket_id_slot(v, j)) {
        let n = taken.len();
        let ids = taken.map_values(|t: Ticket| t.id.0);
        let slots = Seq::new(n + 1, |j: int| ticket_id_slot(v, j as u128));
        assert forall|a: int, b: int|
            0 <= a < slots.len() && 0 <= b < slots.len() && a != b implies slots[a] != slots[b] by {
            lemma_ticket_id_slot(v, a as u128, b as u128);
        }
        assert(slots.no_duplicates());
        slots.unique_seq_to_set();
        ids.lemma_cardinality_of_set();
        assert forall|x: u128| slots.to_set().contains(x) implies ids.to_set().contains(x) by {
            let j = choose|j: int| 0 <= j < slots.len() && slots[j] == x;
            assert(holds_ticket_id(taken, ticket_id_slot(v, j as u128)));
            let i = choose|i: int|
                0 <= i < taken.len() && (#[trigger] taken[i]).id.0 == ticket_id_slot(v, j as u128);
            assert(ids[i] == x);
        }
        vstd::seq_lib::seq_to_set_is_finite(ids);
        vstd::set_lib::lemma_len_subset(slots.to_set(), ids.to_set());
        assert(false);
    }
}

/// A checked-in ticket is final: it can neither be checked in again nor be
/// cancelled; a cancelled ticket cannot be checked in.
pub proof fn lemma_checked_in_ticket_is_final(t: Ticket, event_id: EventId)
    ensures
        t.status == TicketStatus::CheckedIn ==> !t.check_in_allowed(event_id) && !t.cancel_allowed(),
        t.status == TicketStatus::Cancelled ==> !t.check_in_allowed(event_id) && !t.cancel_allowed(),
{
}

} // verus!
