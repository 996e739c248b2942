//! The booking aggregate: a customer's reservation of tickets in one category,
//! paid before its deadline (tickets are then issued) or expired.

use vstd::prelude::*;

use crate::event::value_objects::{CategoryId, EventId};
use crate::shared::domain_event::DomainEventRecord;
use crate::shared::errors::DomainError;
use crate::shared::time::{is_representable_instant, now_nanos};
use crate::shared::value_objects::{decimal_product, Money, UserId};
use crate::ticket::entity::{fresh_ticket_id, holds_ticket_id, Ticket};

use super::events::{BookingCreated, BookingExpired, BookingPaid, TicketReserved};
use super::value_objects::{BookingId, BookingStatus};

verus! {

/// Time allowed to pay a new booking: 15 minutes, in nanoseconds.
pub const PAYMENT_WINDOW: i128 = 900_000_000_000;

pub struct Booking {
    pub id: BookingId,
    pub user_id: UserId,
    pub event_id: EventId,
    pub category_id: CategoryId,
    pub quantity: u32,
    pub total_amount: Money,
    pub status: BookingStatus,
    pub payment_deadline: i128,
    pub tickets: Vec<Ticket>,
    pub created_at: i128,
    pub updated_at: i128,
    pub events: Vec<DomainEventRecord>,
}

/// The message of a booking that cannot expire from its status.
pub open spec fn expire_refused_message(status: BookingStatus) -> Seq<char> {
    "Can only expire pending bookings, current status: "@ + status.label()
}

/// The message of a booking that cannot be refunded from its status.
pub open spec fn refund_refused_message(status: BookingStatus) -> Seq<char> {
    "Can only refund paid bookings, current status: "@ + status.label()
}

impl Booking {
    /// The fields fixed when the booking is created.
    pub open spec fn same_terms(self, other: Booking) -> bool {
        &&& self.id == other.id
        &&& self.user_id == other.user_id
        &&& self.event_id == other.event_id
        &&& self.category_id == other.category_id
        &&& self.quantity == other.quantity
        &&& self.total_amount == other.total_amount
        &&& self.payment_deadline == other.payment_deadline
        &&& self.created_at == other.created_at
    }

    /// The booking as `new` creates it: pending payment for `quantity`
    /// tickets at `price_per_ticket`, payable within the payment window.
    pub open spec fn created_as(
        self,
        id: BookingId,
        user_id: UserId,
        event_id: EventId,
        category_id: CategoryId,
        quantity: u32,
        price_per_ticket: Money,
    ) -> bool {
        &&& self.id == id
        &&& self.user_id == user_id
        &&& self.event_id == event_id
        &&& self.category_id == category_id
        &&& self.quantity == quantity
        &&& price_per_ticket.is_product(quantity as int, self.total_amount)
        &&& self.status == BookingStatus::PendingPayment
        &&& self.tickets@.len() == 0
        &&& self.created_at == self.updated_at
        &&& is_representable_instant(self.created_at as int)
        &&& self.payment_deadline == self.created_at + PAYMENT_WINDOW
        &&& self.events@ == seq![
            DomainEventRecord::BookingCreated(
                BookingCreated { booking_id: id, user_id: user_id, event_id: event_id },
            ),
            DomainEventRecord::TicketReserved(
                TicketReserved { booking_id: id, event_id: event_id, quantity: quantity },
            ),
        ]
    }

    /// Payment is accepted while pending, not after the deadline, and for
    /// exactly the total amount in the booking's currency.
    pub open spec fn payment_accepted(self, amount: Money, now: i128) -> bool {
        &&& self.status == BookingStatus::PendingPayment
        &&& now <= self.payment_deadline
        &&& amount.currency_text() == self.total_amount.currency_text()
        &&& amount.value().units() == self.total_amount.value().units()
    }

    /// Only a pending booking can expire.
    pub open spec fn expiry_allowed(self) -> bool {
        self.status == BookingStatus::PendingPayment
    }

    /// Only a paid booking can be refunded.
    pub open spec fn refund_allowed(self) -> bool {
        self.status == BookingStatus::Paid
    }

    /// A booking awaiting payment for `quantity` tickets at `price_per_ticket`,
    /// payable within the payment window.
    pub fn new(
        id: BookingId,
        user_id: UserId,
        event_id: EventId,
        category_id: CategoryId,
        quantity: u32,
        price_per_ticket: Money,
    ) -> (r: Result<Self, DomainError>)
        requires
            quantity > 0 ==> decimal_product(price_per_ticket.value(), quantity as int) is Some,
        ensures
            r is Ok <==> quantity > 0,
            r matches Err(e) ==> (e matches DomainError::BusinessRule(m) && m@
                == "Booking quantity must be greater than zero"@),
            r matches Ok(b) ==> b.created_as(
                id,
                user_id,
                event_id,
                category_id,
                quantity,
                price_per_ticket,
            ),
    {
        if quantity == 0 {
            return Err(
                DomainError::BusinessRule(
                    String::from_str("Booking quantity must be greater than zero"),
                ),
            );
        }
        let total_amount = price_per_ticket.times(quantity);
        let now = now_nanos();
        let payment_deadline = now + PAYMENT_WINDOW;
        let mut booking = Booking {
            id,
            user_id,
            event_id,
            category_id,
            quantity,
            total_amount,
            status: BookingStatus::PendingPayment,
            payment_deadline,
            tickets: Vec::new(),
            created_at: now,
            updated_at: now,
            events: Vec::new(),
        };
        booking.events.push(
            DomainEventRecord::BookingCreated(BookingCreated { booking_id: id, user_id, event_id }),
        );
        booking.events.push(
            DomainEventRecord::TicketReserved(TicketReserved { booking_id: id, event_id, quantity }),
        );
        assert(booking.events@ =~= seq![
            DomainEventRecord::BookingCreated(BookingCreated { booking_id: id, user_id, event_id }),
            DomainEventRecord::TicketReserved(TicketReserved { booking_id: id, event_id, quantity }),
        ]);
        Ok(booking)
    }

    /// Whether `pay` would accept `amount` at `now`, so that a payment can be
    /// checked before money is taken.
    pub fn accepts_payment(&self, amount: &Money, now: i128) -> (r: bool)
        ensures
            r == self.payment_accepted(*amount, now),
    {
        self.status == BookingStatus::PendingPayment && now <= self.payment_deadline
            && self.total_amount.same_currency(amount) && self.total_amount.amount()
            == amount.amount()
    }

    /// Pays a pending booking at `now` with exactly its total amount and
    /// issues one ticket per booked seat.
    pub fn pay(&mut self, amount: &Money, now: i128) -> (r: Result<(), DomainError>)
        ensures
            r is Ok <==> old(self).payment_accepted(*amount, now),
            r is Err ==> *final(self) == *old(self),
            r matches Err(e) ==> if old(self).status != BookingStatus::PendingPayment {
                e matches DomainError::InvalidStatusTransition(m) && m@
                    == "Can only pay for pending bookings"@
            } else if now > old(self).payment_deadline {
                e is PaymentDeadlinePassed
            } else {
                e is PaymentAmountMismatch
            },
            r is Ok ==> {
                &&& final(self).same_terms(*old(self))
                &&& final(self).status == BookingStatus::Paid
                &&& final(self).updated_at == now
                &&& final(self).tickets@.len() == old(self).tickets@.len() + old(self).quantity
                &&& final(self).tickets@.subrange(0, old(self).tickets@.len() as int)
                    == old(self).tickets@
                &&& forall|i: int|
                    old(self).tickets@.len() <= i < final(self).tickets@.len()
                        ==> (#[trigger] final(self).tickets@[i]).freshly_issued(
                        old(self).id,
                        old(self).event_id,
                        old(self).category_id,
                    )
                &&& forall|i: int, j: int|
                    0 <= i < j < final(self).tickets@.len() && old(self).tickets@.len() <= j
                        ==> #[trigger] final(self).tickets@[i].id
                        != #[trigger] final(self).tickets@[j].id
                &&& final(self).events@ == old(self).events@.push(
                    DomainEventRecord::BookingPaid(BookingPaid { booking_id: old(self).id }),
                )
            },
    {
        if self.status != BookingStatus::PendingPayment {
            return Err(
                DomainError::InvalidStatusTransition(
                    String::from_str("Can only pay for pending bookings"),
                ),
            );
        }
        if now > self.payment_deadline {
            return Err(DomainError::PaymentDeadlinePassed);
        }
        let expected = self.total_amount.amount();
        let offered = amount.amount();
        let same_amount = expected == offered;
        if !self.total_amount.same_currency(amount) || !same_amount {
            return Err(DomainError::PaymentAmountMismatch);
        }
        let ghost old_self = *self;
        self.status = BookingStatus::Paid;
        self.updated_at = now;
        let n = self.quantity;
        let mut i: u32 = 0;
        while i < n
            invariant
                n == old_self.quantity,
                i <= n,
                self.same_terms(old_self),
                self.status == BookingStatus::Paid,
                self.updated_at == now,
                self.events == old_self.events,
                self.tickets@.len() == old_self.tickets@.len() + i,
                self.tickets@.subrange(0, old_self.tickets@.len() as int) == old_self.tickets@,
                forall|j: int|
                    old_self.tickets@.len() <= j < self.tickets@.len() ==> (#[trigger] self.tickets@[j]).freshly_issued(
                        old_self.id,
                        old_self.event_id,
                        old_self.category_id,
                    ),
                forall|a: int, b: int|
                    0 <= a < b < self.tickets@.len() && old_self.tickets@.len() <= b
                        ==> #[trigger] self.tickets@[a].id != #[trigger] self.tickets@[b].id,
            decreases n - i,
        {
            let id = fresh_ticket_id(&self.tickets);
            let ticket = Ticket::issue_as(id, self.id, self.event_id, self.category_id);
            let ghost before = self.tickets@;
            self.tickets.push(ticket);
            assert(self.tickets@.subrange(0, old_self.tickets@.len() as int) =~= before.subrange(
                0,
                old_self.tickets@.len() as int,
            ));
            assert forall|a: int| 0 <= a < before.len() implies before[a].id != id by {
                if before[a].id == id {
                    assert(holds_ticket_id(before, id.0));
                }
            }
            i = i + 1;
        }
        self.events.push(DomainEventRecord::BookingPaid(BookingPaid { booking_id: self.id }));
        Ok(())
    }

    /// Expires a pending booking; its reserved quota is then to be released.
    pub fn expire(&mut self) -> (r: Result<(), DomainError>)
        ensures
            r is Ok <==> old(self).expiry_allowed(),
            r is Err ==> *final(self) == *old(self),
            r matches Err(e) ==> (e matches DomainError::InvalidStatusTransition(m) && m@
                == expire_refused_message(old(self).status)),
            r is Ok ==> {
                &&& final(self).same_terms(*old(self))
                &&& final(self).status == BookingStatus::Expired
                &&& is_representable_instant(final(self).updated_at as int)
                &&& final(self).tickets == old(self).tickets
                &&& final(self).events@ == old(self).events@.push(
                    DomainEventRecord::BookingExpired(
                        BookingExpired {
                            booking_id: old(self).id,
                            category_id: old(self).category_id,
                            quantity: old(self).quantity,
                        },
                    ),
                )
            },
    {
        if self.status != BookingStatus::PendingPayment {
            let mut msg = String::from_str("Can only expire pending bookings, current status: ");
            msg.append(self.status.as_str());
            return Err(DomainError::InvalidStatusTransition(msg));
        }
        self.status = BookingStatus::Expired;
        self.updated_at = now_nanos();
        self.events.push(
            DomainEventRecord::BookingExpired(
                BookingExpired {
                    booking_id: self.id,
                    category_id: self.category_id,
                    quantity: self.quantity,
                },
            ),
        );
        Ok(())
    }

    /// Marks a paid booking as refunded.
    pub fn mark_refund_required(&mut self) -> (r: Result<(), DomainError>)
        ensures
            r is Ok <==> old(self).refund_allowed(),
            r is Err ==> *final(self) == *old(self),
            r matches Err(e) ==> (e matches DomainError::InvalidStatusTransition(m) && m@
                == refund_refused_message(old(self).status)),
            r is Ok ==> {
                &&& final(self).same_terms(*old(self))
                &&& final(self).status == BookingStatus::Refunded
                &&& is_representable_instant(final(self).updated_at as int)
                &&& final(self).tickets == old(self).tickets
                &&& final(self).events == old(self).events
            },
    {
        if self.status != BookingStatus::Paid {
            let mut msg = String::from_str("Can only refund paid bookings, current status: ");
            msg.append(self.status.as_str());
            return Err(DomainError::InvalidStatusTransition(msg));
        }
        self.status = BookingStatus::Refunded;
        self.updated_at = now_nanos();
        Ok(())
    }

    /// Hands out the domain events raised so far and forgets them.
    pub fn take_events(&mut self) -> (r: Vec<DomainEventRecord>)
        ensures
            r == old(self).events,
            final(self).events@.len() == 0,
            final(self).same_terms(*old(self)),
            final(self).status == old(self).status,
            final(self).updated_at == old(self).updated_at,
            final(self).tickets == old(self).tickets,
    {
        let mut taken = Vec::new();
        std::mem::swap(&mut taken, &mut self.events);
        taken
    }
}

/// The booking lifecycle: payment, expiry and refund each start from one
/// status only, so a paid booking cannot expire, an expired or refunded
/// booking cannot be paid, and only a paid booking is refunded.
pub proof fn lemma_booking_transitions(b: Booking, amount: Money, now: i128)
    ensures
        b.payment_accepted(amount, now) ==> b.status == BookingStatus::PendingPayment,
        b.expiry_allowed() ==> b.status == BookingStatus::PendingPayment,
        b.refund_allowed() ==> b.status == BookingStatus::Paid,
        b.status == BookingStatus::Paid ==> !b.expiry_allowed() && !b.payment_accepted(amount, now),
        b.status == BookingStatus::Expired ==> !b.payment_accepted(amount, now) && !b.refund_allowed(),
        b.status == BookingStatus::Refunded ==> !b.payment_accepted(amount, now) && !b.expiry_allowed() && !b.refund_allowed(),
{
}

/// A payment after the deadline, or of any amount other than the total, is
/// refused whatever the booking's status.
pub proof fn lemma_payment_needs_exact_amount_in_time(b: Booking, amount: Money, now: i128)
    ensures
        now > b.payment_deadline ==> !b.payment_accepted(amount, now),
        amount.value().units() != b.total_amount.value().units() ==> !b.payment_accepted(amount, now),
        amount.currency_text() != b.total_amount.currency_text() ==> !b.payment_accepted(amount, now),
{
}

} // verus!
