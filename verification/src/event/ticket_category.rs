//! Ticket categories: named tiers of tickets of an event, each with its own
//! price, quota and sales period.

use vstd::prelude::*;

use crate::shared::errors::DomainError;
use crate::shared::text::{decimal_text, u32_to_text};
use crate::shared::value_objects::Money;

use super::value_objects::{CategoryId, EventId};

verus! {

/// How a category is presented to customers at a given instant.
#[derive(Debug, Clone, Copy, PartialEq, Eq, Structural)]
pub enum CategoryDisplayStatus {
    Available,
    ComingSoon,
    SalesClosed,
    SoldOut,
    Inactive,
}

#[derive(Debug, Clone)]
pub struct TicketCategory {
    pub id: CategoryId,
    pub event_id: EventId,
    pub name: String,
    pub price: Money,
    pub quota: u32,
    pub remaining_quota: u32,
    pub sales_start: i128,
    pub sales_end: i128,
    pub is_active: bool,
}

/// The message of a refused reservation.
pub open spec fn quota_exceeded_message(qty: u32, remaining: u32) -> Seq<char> {
    "Requested quantity "@ + decimal_text(qty as nat) + " exceeds remaining quota "@
        + decimal_text(remaining as nat)
}

/// Remaining quota after releasing `qty` tickets: never above the quota.
pub open spec fn released_remaining(remaining: u32, quota: u32, qty: u32) -> u32 {
    if remaining + qty <= quota {
        (remaining + qty) as u32
    } else {
        quota
    }
}

impl TicketCategory {
    /// Purchasable at `now`: active, within its sales period, quota left.
    pub open spec fn available_at(self, now: i128) -> bool {
        &&& self.is_active
        &&& self.sales_start <= now
        &&& now <= self.sales_end
        &&& self.remaining_quota > 0
    }

    pub open spec fn display_status_at(self, now: i128) -> CategoryDisplayStatus {
        if !self.is_active {
            CategoryDisplayStatus::Inactive
        } else if now < self.sales_start {
            CategoryDisplayStatus::ComingSoon
        } else if now > self.sales_end {
            CategoryDisplayStatus::SalesClosed
        } else if self.remaining_quota == 0 {
            CategoryDisplayStatus::SoldOut
        } else {
            CategoryDisplayStatus::Available
        }
    }

    /// A new active category whose whole quota remains.
    pub fn new(
        id: CategoryId,
        event_id: EventId,
        name: String,
        price: Money,
        quota: u32,
        sales_start: i128,
        sales_end: i128,
    ) -> (r: Self)
        ensures
            r.id == id,
            r.event_id == event_id,
            r.name == name,
            r.price == price,
            r.quota == quota,
            r.remaining_quota == quota,
            r.sales_start == sales_start,
            r.sales_end == sales_end,
            r.is_active,
    {
        TicketCategory {
            id,
            event_id,
            name,
            price,
            quota,
            remaining_quota: quota,
            sales_start,
            sales_end,
            is_active: true,
        }
    }

    pub fn is_available_now(&self, now: i128) -> (r: bool)
        ensures
            r == self.available_at(now),
    {
        self.is_active && now >= self.sales_start && now <= self.sales_end && self.remaining_quota
            > 0
    }

    /// Takes `qty` tickets from the remaining quota, or refuses when fewer remain.
    pub fn reserve(&mut self, qty: u32) -> (r: Result<(), DomainError>)
        ensures
            r is Ok <==> qty <= old(self).remaining_quota,
            r is Ok ==> *final(self) == (TicketCategory {
                remaining_quota: (old(self).remaining_quota - qty) as u32,
                ..*old(self)
            }),
            r is Err ==> *final(self) == *old(self),
            r matches Err(e) ==> (e matches DomainError::BusinessRule(msg) && msg@
                == quota_exceeded_message(qty, old(self).remaining_quota)),
    {
        if qty > self.remaining_quota {
            let mut msg = String::from_str("Requested quantity ");
            msg.append(u32_to_text(qty).as_str());
            msg.append(" exceeds remaining quota ");
            msg.append(u32_to_text(self.remaining_quota).as_str());
            return Err(DomainError::BusinessRule(msg));
        }
        self.remaining_quota = self.remaining_quota - qty;
        Ok(())
    }

    /// Returns `qty` tickets to the remaining quota, never above the quota.
    pub fn release(&mut self, qty: u32)
        requires
            old(self).remaining_quota + qty <= u32::MAX,
        ensures
            *final(self) == (TicketCategory {
                remaining_quota: released_remaining(old(self).remaining_quota, old(self).quota, qty),
                ..*old(self)
            }),
    {
        let sum = self.remaining_quota + qty;
        self.remaining_quota = if sum <= self.quota { sum } else { self.quota };
    }

    pub fn display_status(&self, now: i128) -> (r: CategoryDisplayStatus)
        ensures
            r == self.display_status_at(now),
    {
        if !self.is_active {
            return CategoryDisplayStatus::Inactive;
        }
        if now < self.sales_start {
            return CategoryDisplayStatus::ComingSoon;
        }
        if now > self.sales_end {
            return CategoryDisplayStatus::SalesClosed;
        }
        if self.remaining_quota == 0 {
            return CategoryDisplayStatus::SoldOut;
        }
        CategoryDisplayStatus::Available
    }
}

/// Releasing what was just reserved restores the remaining quota.
pub proof fn lemma_release_undoes_reserve(remaining: u32, quota: u32, qty: u32)
    requires
        remaining <= quota,
        qty <= remaining,
    ensures
        released_remaining((remaining - qty) as u32, quota, qty) == remaining,
{
}

/// A category is on sale exactly when its display status is `Available`.
pub proof fn lemma_available_iff_displayed_available(c: TicketCategory, now: i128)
    ensures
        c.available_at(now) <==> c.display_status_at(now) == CategoryDisplayStatus::Available,
{
}

/// A category that is not active is shown as inactive at every instant,
/// whatever its dates and quota; an active one is shown as coming soon only
/// before its sales start, as closed only after they end, and as sold out
/// only with no quota left.
pub proof fn lemma_category_display_status(c: TicketCategory, now: i128)
    ensures
        !c.is_active ==> c.display_status_at(now) == CategoryDisplayStatus::Inactive,
        c.display_status_at(now) == CategoryDisplayStatus::Inactive ==> !c.is_active,
        c.display_status_at(now) == CategoryDisplayStatus::ComingSoon ==> c.is_active && now
            < c.sales_start,
        c.display_status_at(now) == CategoryDisplayStatus::SalesClosed ==> c.is_active && now
            > c.sales_end,
        c.display_status_at(now) == CategoryDisplayStatus::SoldOut ==> c.is_active
            && c.remaining_quota == 0 && c.sales_start <= now <= c.sales_end,
{
}

} // verus!
