//! Decisions of the booking use cases: creating a booking for a published
//! event, and expiring an unpaid booking with the release of its quota.

use vstd::prelude::*;

use crate::booking::aggregate::Booking;
use crate::booking::value_objects::BookingId;
use crate::event::aggregate::{holds_category, is_first_category_index, Event};
use crate::event::ticket_category::{quota_exceeded_message, released_remaining, TicketCategory};
use crate::event::value_objects::{CategoryId, EventStatus};
use crate::shared::errors::DomainError;
use crate::shared::value_objects::{decimal_product, UserId};

use super::errors::{AppResult, ApplicationError};

verus! {

/// A customer holds at most one active booking per event: a new booking is
/// refused when an active one exists.
pub fn ensure_no_active_booking(active_booking_exists: bool) -> (r: AppResult<()>)
    ensures
        r is Ok <==> !active_booking_exists,
        r matches Err(e) ==> (e matches ApplicationError::Domain(DomainError::BusinessRule(m))
            && m@ == "Customer already has a booking for this event"@),
{
    if active_booking_exists {
        return Err(
            ApplicationError::Domain(
                DomainError::BusinessRule(
                    String::from_str("Customer already has a booking for this event"),
                ),
            ),
        );
    }
    Ok(())
}

/// The total of the booking can be computed: when the reservation reaches
/// the pricing (a published event, the first category with identifier
/// `category_id` on sale at `now` with enough remaining quota, and a positive
/// quantity), the category's price times the quantity does not overflow
/// rust_decimal.
pub open spec fn booking_price_fits(
    event: Event,
    category_id: CategoryId,
    quantity: u32,
    now: i128,
) -> bool {
    event.status == EventStatus::Published ==> forall|k: int|
        #![trigger is_first_category_index(event.categories@, category_id, k)]
        is_first_category_index(event.categories@, category_id, k) && event.categories@[k].available_at(now)
            && quantity <= event.categories@[k].remaining_quota && 0 < quantity
            ==> decimal_product(event.categories@[k].price.value(), quantity as int) is Some
}

/// Releasing `quantity` into the first category with identifier
/// `category_id` stays within a `u32`.
pub open spec fn release_fits(event: Event, category_id: CategoryId, quantity: u32) -> bool {
    forall|k: int|
        #![trigger is_first_category_index(event.categories@, category_id, k)]
        is_first_category_index(event.categories@, category_id, k)
            ==> event.categories@[k].remaining_quota + quantity <= u32::MAX
}

/// The category at `k` with `quantity` tickets taken from its remaining quota.
pub open spec fn reserved_category(c: TicketCategory, quantity: u32) -> TicketCategory {
    TicketCategory { remaining_quota: (c.remaining_quota - quantity) as u32, ..c }
}

/// What reserving gives: the first refusal that applies, or the event with
/// the reservation applied and the new pending booking.
pub open spec fn reservation_outcome(
    event: Option<Event>,
    booking_id: BookingId,
    user_id: UserId,
    category_id: CategoryId,
    quantity: u32,
    now: i128,
    r: AppResult<(Event, Booking)>,
) -> bool {
    &&& event is None ==> (r matches Err(ApplicationError::NotFound(m)) && m@
        == "Event not found"@)
    &&& event matches Some(ev) ==> {
        let cats = ev.categories@;
        if ev.status != EventStatus::Published {
            r matches Err(ApplicationError::Domain(DomainError::BusinessRule(m))) && m@
                == "Event is not published"@
        } else if !holds_category(cats, category_id) {
            r matches Err(ApplicationError::NotFound(m)) && m@ == "Category not found"@
        } else {
            exists|k: int|
                #![trigger is_first_category_index(cats, category_id, k)]
                {
                    &&& is_first_category_index(cats, category_id, k)
                    &&& if !cats[k].available_at(now) {
                        r matches Err(ApplicationError::Domain(DomainError::BusinessRule(m)))
                            && m@ == "Category is not available for purchase"@
                    } else if quantity > cats[k].remaining_quota {
                        r matches Err(ApplicationError::Domain(DomainError::BusinessRule(m)))
                            && m@ == quota_exceeded_message(quantity, cats[k].remaining_quota)
                    } else if quantity == 0 {
                        r matches Err(ApplicationError::Domain(DomainError::BusinessRule(m)))
                            && m@ == "Booking quantity must be greater than zero"@
                    } else {
                        r matches Ok((ev2, b)) && {
                            &&& ev2.same_details(ev)
                            &&& ev2.status == ev.status
                            &&& ev2.updated_at == ev.updated_at
                            &&& ev2.events == ev.events
                            &&& ev2.categories@ == cats.update(
                                k,
                                reserved_category(cats[k], quantity),
                            )
                            &&& b.created_as(
                                booking_id,
                                user_id,
                                ev.id,
                                category_id,
                                quantity,
                                cats[k].price,
                            )
                        }
                    }
                }
        }
    }
}

/// Reserves `quantity` tickets of a category of a published event at `now`
/// and creates the pending booking for them. On success the event is handed
/// back with the reservation applied, to be saved with the booking.
pub fn reserve_booking(
    event: Option<Event>,
    booking_id: BookingId,
    user_id: UserId,
    category_id: CategoryId,
    quantity: u32,
    now: i128,
) -> (r: AppResult<(Event, Booking)>)
    requires
        event matches Some(ev) ==> booking_price_fits(ev, category_id, quantity, now),
    ensures
        reservation_outcome(event, booking_id, user_id, category_id, quantity, now, r),
{
    let mut event = match event {
        Some(ev) => ev,
        None => {
            return Err(ApplicationError::NotFound(String::from_str("Event not found")));
        },
    };
    if event.status != EventStatus::Published {
        return Err(
            ApplicationError::Domain(
                DomainError::BusinessRule(String::from_str("Event is not published")),
            ),
        );
    }
    let k = match event.find_category(&category_id) {
        Some(k) => k,
        None => {
            return Err(ApplicationError::NotFound(String::from_str("Category not found")));
        },
    };
    let ghost old_event = event;
    assert(is_first_category_index(old_event.categories@, category_id, k as int));
    if !event.categories[k].is_available_now(now) {
        return Err(
            ApplicationError::Domain(
                DomainError::BusinessRule(String::from_str("Category is not available for purchase")),
            ),
        );
    }
    match event.categories[k].reserve(quantity) {
        Ok(()) => {},
        Err(e) => {
            return Err(ApplicationError::Domain(e));
        },
    }
    assert(event.categories@ =~= old_event.categories@.update(
        k as int,
        reserved_category(old_event.categories@[k as int], quantity),
    ));
    let price = event.categories[k].price.clone();
    let booking = match Booking::new(booking_id, user_id, event.id, category_id, quantity, price) {
        Ok(b) => b,
        Err(e) => {
            return Err(ApplicationError::Domain(e));
        },
    };
    Ok((event, booking))
}

/// Whether the booking's total can be computed, as `booking_price_fits`
/// states it.
pub fn booking_price_computable(
    event: &Event,
    category_id: CategoryId,
    quantity: u32,
    now: i128,
) -> (r: bool)
    ensures
        r == booking_price_fits(*event, category_id, quantity, now),
{
    if event.status != EventStatus::Published {
        return true;
    }
    match event.find_category(&category_id) {
        None => true,
        Some(k) => {
            let cats = Ghost(event.categories@);
            proof {
                assert forall|j: int| is_first_category_index(cats@, category_id, j) implies j
                    == k by {
                    if j < k {
                        assert(cats@[j].id != category_id);
                    } else if j > k {
                        assert(cats@[k as int].id != category_id);
                    }
                }
            }
            let c = &event.categories[k];
            if c.is_available_now(now) && quantity > 0 && quantity <= c.remaining_quota {
                c.price.can_multiply(quantity as i64)
            } else {
                true
            }
        },
    }
}

/// Reserves as `reserve_booking` does, or gives `None` where pricing the
/// booking would overflow rust_decimal (where `reserve_booking` would panic).
pub fn reserve_booking_checked(
    event: Option<Event>,
    booking_id: BookingId,
    user_id: UserId,
    category_id: CategoryId,
    quantity: u32,
    now: i128,
) -> (r: Option<AppResult<(Event, Booking)>>)
    ensures
        r is None <==> (event matches Some(ev) && !booking_price_fits(
            ev,
            category_id,
            quantity,
            now,
        )),
        r matches Some(res) ==> reservation_outcome(
            event,
            booking_id,
            user_id,
            category_id,
            quantity,
            now,
            res,
        ),
{
    match &event {
        Some(ev) => {
            if !booking_price_computable(ev, category_id, quantity, now) {
                return None;
            }
        },
        None => {},
    }
    Some(reserve_booking(event, booking_id, user_id, category_id, quantity, now))
}

/// Expires an unpaid booking: the reserved quota goes back to the first
/// category of the event with the booking's category, then the booking
/// expires. An error leaves the booking unchanged.
pub fn expire_booking(booking: &mut Booking, event: &mut Event) -> (r: AppResult<()>)
    requires
        release_fits(*old(event), old(booking).category_id, old(booking).quantity),
    ensures
        final(event).same_details(*old(event)),
        final(event).status == old(event).status,
        final(event).updated_at == old(event).updated_at,
        final(event).events == old(event).events,
        !holds_category(old(event).categories@, old(booking).category_id)
            ==> final(event).categories == old(event).categories,
        forall|k: int|
            is_first_category_index(old(event).categories@, old(booking).category_id, k)
                ==> #[trigger] final(event).categories@ == old(event).categories@.update(
                k,
                TicketCategory {
                    remaining_quota: released_remaining(
                        old(event).categories@[k].remaining_quota,
                        old(event).categories@[k].quota,
                        old(booking).quantity,
                    ),
                    ..old(event).categories@[k]
                },
            ),
        r is Ok <==> old(booking).expiry_allowed(),
        r is Err ==> *final(booking) == *old(booking),
        r matches Err(e) ==> (e matches ApplicationError::Domain(
            DomainError::InvalidStatusTransition(_),
        )),
        r is Ok ==> final(booking).status == crate::booking::value_objects::BookingStatus::Expired
            && final(booking).same_terms(*old(booking)),
{
    let ghost old_event = *event;
    match event.find_category(&booking.category_id) {
        Some(k) => {
            event.categories[k].release(booking.quantity);
            assert(forall|j: int|
                is_first_category_index(old_event.categories@, booking.category_id, j) ==> j
                    == k);
            assert(event.categories@ =~= old_event.categories@.update(
                k as int,
                TicketCategory {
                    remaining_quota: released_remaining(
                        old_event.categories@[k as int].remaining_quota,
                        old_event.categories@[k as int].quota,
                        booking.quantity,
                    ),
                    ..old_event.categories@[k as int]
                },
            ));
        },
        None => {},
    }
    match booking.expire() {
        Ok(()) => Ok(()),
        Err(e) => Err(ApplicationError::Domain(e)),
    }
}

/// Expiring a booking gives its category back the quota that reserving it
/// took: the remaining quota returns to what it was before the reservation.
pub proof fn lemma_expiry_restores_reserved_quota(c: TicketCategory, quantity: u32)
    requires
        c.remaining_quota <= c.quota,
        quantity <= c.remaining_quota,
    ensures
        released_remaining(reserved_category(c, quantity).remaining_quota, c.quota, quantity)
            == c.remaining_quota,
{
}

} // verus!
