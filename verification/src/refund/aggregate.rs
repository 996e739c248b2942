//! The refund aggregate: a customer's request to return the money of a paid
//! booking, approved and paid out, or rejected with a reason.

use vstd::prelude::*;

use crate::booking::value_objects::BookingId;
use crate::shared::domain_event::DomainEventRecord;
use crate::shared::errors::DomainError;
use crate::shared::text::{is_blank, is_blank_text};
use crate::shared::time::{is_representable_instant, now_nanos};
use crate::shared::value_objects::{Money, UserId};

use super::events::{RefundApproved, RefundPaidOut, RefundRejected, RefundRequested};
use super::value_objects::{RefundId, RefundStatus};

verus! {

pub struct Refund {
    pub id: RefundId,
    pub booking_id: BookingId,
    pub user_id: UserId,
    pub amount: Money,
    pub status: RefundStatus,
    pub reason: Option<String>,
    pub rejection_reason: Option<String>,
    pub payment_reference: Option<String>,
    pub requested_at: i128,
    pub events: Vec<DomainEventRecord>,
}

impl Refund {
    /// Only a requested refund can be approved.
    pub open spec fn approval_allowed(self) -> bool {
        self.status == RefundStatus::Requested
    }

    /// Only a requested refund can be rejected, and only with a reason.
    pub open spec fn rejection_allowed(self, reason: Seq<char>) -> bool {
        self.status == RefundStatus::Requested && !is_blank_text(reason)
    }

    /// Only an approved refund can be paid out, and only with a reference.
    pub open spec fn payout_allowed(self, payment_reference: Seq<char>) -> bool {
        self.status == RefundStatus::Approved && !is_blank_text(payment_reference)
    }

    /// The refund as `request` creates it.
    pub open spec fn requested_as(
        self,
        id: RefundId,
        booking_id: BookingId,
        user_id: UserId,
        amount: Money,
        reason: Option<String>,
    ) -> bool {
        &&& self.id == id
        &&& self.booking_id == booking_id
        &&& self.user_id == user_id
        &&& self.amount == amount
        &&& self.status == RefundStatus::Requested
        &&& self.reason == reason
        &&& self.rejection_reason is None
        &&& self.payment_reference is None
        &&& is_representable_instant(self.requested_at as int)
        &&& self.events@ == seq![
            DomainEventRecord::RefundRequested(
                RefundRequested { refund_id: id, booking_id: booking_id },
            ),
        ]
    }

    /// A new refund request for the given booking and amount.
    pub fn request(
        id: RefundId,
        booking_id: BookingId,
        user_id: UserId,
        amount: Money,
        reason: Option<String>,
    ) -> (r: Self)
        ensures
            r.requested_as(id, booking_id, user_id, amount, reason),
    {
        let mut refund = Refund {
            id,
            booking_id,
            user_id,
            amount,
            status: RefundStatus::Requested,
            reason,
            rejection_reason: None,
            payment_reference: None,
            requested_at: now_nanos(),
            events: Vec::new(),
        };
        refund.events.push(
            DomainEventRecord::RefundRequested(RefundRequested { refund_id: id, booking_id }),
        );
        assert(refund.events@ =~= seq![
            DomainEventRecord::RefundRequested(RefundRequested { refund_id: id, booking_id }),
        ]);
        refund
    }

    /// Approves a requested refund.
    pub fn approve(&mut self) -> (r: Result<(), DomainError>)
        ensures
            r is Ok <==> old(self).approval_allowed(),
            r is Err ==> *final(self) == *old(self),
            r matches Err(e) ==> e is RefundNotRequested,
            r is Ok ==> *final(self) == (Refund {
                status: RefundStatus::Approved,
                events: final(self).events,
                ..*old(self)
            }),
            r is Ok ==> final(self).events@ == old(self).events@.push(
                DomainEventRecord::RefundApproved(RefundApproved { refund_id: old(self).id }),
            ),
    {
        if self.status != RefundStatus::Requested {
            return Err(DomainError::RefundNotRequested);
        }
        self.status = RefundStatus::Approved;
        self.events.push(DomainEventRecord::RefundApproved(RefundApproved { refund_id: self.id }));
        Ok(())
    }

    /// Rejects a requested refund, recording the (non-blank) reason.
    pub fn reject(&mut self, reason: String) -> (r: Result<(), DomainError>)
        ensures
            r is Ok <==> old(self).rejection_allowed(reason@),
            r is Err ==> *final(self) == *old(self),
            r matches Err(e) ==> if old(self).status != RefundStatus::Requested {
                e is RefundNotRequested
            } else {
                e is RejectionReasonRequired
            },
            r is Ok ==> *final(self) == (Refund {
                status: RefundStatus::Rejected,
                rejection_reason: Some(reason),
                events: final(self).events,
                ..*old(self)
            }),
            r is Ok ==> final(self).events@ == old(self).events@.push(
                DomainEventRecord::RefundRejected(
                    RefundRejected { refund_id: old(self).id, reason: reason },
                ),
            ),
    {
        if self.status != RefundStatus::Requested {
            return Err(DomainError::RefundNotRequested);
        }
        if is_blank(reason.as_str()) {
            return Err(DomainError::RejectionReasonRequired);
        }
        self.status = RefundStatus::Rejected;
        self.rejection_reason = Some(reason.clone());
        self.events.push(
            DomainEventRecord::RefundRejected(RefundRejected { refund_id: self.id, reason }),
        );
        Ok(())
    }

    /// Whether the refund can be paid out (it is approved), so that the
    /// payout can be checked before the money leaves.
    pub fn can_pay_out(&self) -> (r: bool)
        ensures
            r == (self.status == RefundStatus::Approved),
    {
        self.status == RefundStatus::Approved
    }

    /// Records the payout of an approved refund under its (non-blank)
    /// payment reference.
    pub fn mark_paid_out(&mut self, payment_reference: String) -> (r: Result<(), DomainError>)
        ensures
            r is Ok <==> old(self).payout_allowed(payment_reference@),
            r is Err ==> *final(self) == *old(self),
            r matches Err(e) ==> if old(self).status != RefundStatus::Approved {
                e is RefundNotApproved
            } else {
                e matches DomainError::BusinessRule(m) && m@
                    == "Payment reference is required for payout"@
            },
            r is Ok ==> *final(self) == (Refund {
                status: RefundStatus::PaidOut,
                payment_reference: Some(payment_reference),
                events: final(self).events,
                ..*old(self)
            }),
            r is Ok ==> final(self).events@ == old(self).events@.push(
                DomainEventRecord::RefundPaidOut(
                    RefundPaidOut {
                        refund_id: old(self).id,
                        payment_reference: payment_reference,
                    },
                ),
            ),
    {
        if self.status != RefundStatus::Approved {
            return Err(DomainError::RefundNotApproved);
        }
        if is_blank(payment_reference.as_str()) {
            return Err(
                DomainError::BusinessRule(
                    String::from_str("Payment reference is required for payout"),
                ),
            );
        }
        self.status = RefundStatus::PaidOut;
        self.payment_reference = Some(payment_reference.clone());
        self.events.push(
            DomainEventRecord::RefundPaidOut(
                RefundPaidOut { refund_id: self.id, payment_reference },
            ),
        );
        Ok(())
    }

    /// Hands out the domain events raised so far and forgets them.
    pub fn take_events(&mut self) -> (r: Vec<DomainEventRecord>)
        ensures
            r == old(self).events,
            *final(self) == (Refund { events: final(self).events, ..*old(self) }),
            final(self).events@.len() == 0,
    {
        let mut taken = Vec::new();
        std::mem::swap(&mut taken, &mut self.events);
        taken
    }
}

/// The refund lifecycle: a paid-out refund and a rejected refund are final
/// (no approval, rejection or payout applies to them), and approval and
/// rejection apply to a requested refund only.
pub proof fn lemma_refund_final_states(r: Refund, reason: Seq<char>, reference: Seq<char>)
    ensures
        r.status == RefundStatus::PaidOut ==> !r.approval_allowed() && !r.rejection_allowed(reason)
            && !r.payout_allowed(reference),
        r.status == RefundStatus::Rejected ==> !r.approval_allowed() && !r.rejection_allowed(reason)
            && !r.payout_allowed(reference),
        r.approval_allowed() || r.rejection_allowed(reason) ==> r.status == RefundStatus::Requested,
        r.payout_allowed(reference) ==> r.status == RefundStatus::Approved,
{
}

} // verus!
