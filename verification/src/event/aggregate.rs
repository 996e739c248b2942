//! The event aggregate: an activity with a schedule, a capacity and ticket
//! categories, moving through Draft -> Published -> Cancelled.

use vstd::prelude::*;

use crate::shared::domain_event::DomainEventRecord;
use crate::shared::errors::DomainError;
use crate::shared::identifier::{uuid_text, uuid_to_text};
use crate::shared::time::{is_representable_instant, now_nanos};
use crate::shared::value_objects::{Money, UserId};

use super::events::{
    EventCancelled, EventCreated, EventPublished, TicketCategoryCreated, TicketCategoryDisabled,
};
use super::ticket_category::TicketCategory;
use super::value_objects::{CategoryId, EventId, EventStatus};

verus! {

pub struct Event {
    pub id: EventId,
    pub organizer_id: UserId,
    pub name: String,
    pub description: String,
    pub location: String,
    pub start_date: i128,
    pub end_date: i128,
    pub max_capacity: u32,
    pub status: EventStatus,
    pub categories: Vec<TicketCategory>,
    pub created_at: i128,
    pub updated_at: i128,
    pub events: Vec<DomainEventRecord>,
}

/// Sum of the quotas of all categories.
pub open spec fn total_quota(cats: Seq<TicketCategory>) -> int
    decreases cats.len(),
{
    if cats.len() == 0 {
        0
    } else {
        total_quota(cats.drop_last()) + cats.last().quota
    }
}

/// Whether at least one category is active.
pub open spec fn has_active_category(cats: Seq<TicketCategory>) -> bool {
    exists|i: int| 0 <= i < cats.len() && (#[trigger] cats[i]).is_active
}

/// The same category, no longer on sale.
pub open spec fn deactivated(c: TicketCategory) -> TicketCategory {
    TicketCategory { is_active: false, ..c }
}

pub proof fn lemma_total_quota_bounds(cats: Seq<TicketCategory>)
    ensures
        0 <= total_quota(cats) <= cats.len() * 0xFFFF_FFFF,
    decreases cats.len(),
{
    if cats.len() > 0 {
        lemma_total_quota_bounds(cats.drop_last());
    }
}

/// The total quota depends on the quotas alone.
pub proof fn lemma_total_quota_same_quotas(a: Seq<TicketCategory>, b: Seq<TicketCategory>)
    requires
        a.len() == b.len(),
        forall|i: int| 0 <= i < a.len() ==> (#[trigger] a[i]).quota == b[i].quota,
    ensures
        total_quota(a) == total_quota(b),
    decreases a.len(),
{
    if a.len() > 0 {
        let a2 = a.drop_last();
        let b2 = b.drop_last();
        assert forall|i: int| 0 <= i < a2.len() implies (#[trigger] a2[i]).quota == b2[i].quota by {
            assert(a2[i] == a[i]);
            assert(b2[i] == b[i]);
        }
        lemma_total_quota_same_quotas(a2, b2);
    }
}

/// `k` is the position of the first category with identifier `id`.
pub open spec fn is_first_category_index(cats: Seq<TicketCategory>, id: CategoryId, k: int) -> bool {
    &&& 0 <= k < cats.len()
    &&& cats[k].id == id
    &&& forall|j: int| 0 <= j < k ==> (#[trigger] cats[j]).id != id
}

/// Whether some category has identifier `id`.
pub open spec fn holds_category(cats: Seq<TicketCategory>, id: CategoryId) -> bool {
    exists|k: int| 0 <= k < cats.len() && (#[trigger] cats[k]).id == id
}

/// The message of an event not in Draft that is asked to publish.
pub open spec fn publish_refused_message(status: EventStatus) -> Seq<char> {
    "Can only publish draft events, current status: "@ + status.label()
}

/// The message of an event that cannot be cancelled from its status.
pub open spec fn cancel_refused_message(status: EventStatus) -> Seq<char> {
    if status == EventStatus::Completed {
        "Cannot cancel a completed event"@
    } else {
        "Can only cancel published events, current status: "@ + status.label()
    }
}

/// The message of a category that the event does not hold.
pub open spec fn category_missing_message(category_id: CategoryId) -> Seq<char> {
    "Category "@ + uuid_text(category_id.0) + " not found in event"@
}

impl Event {
    /// A category conforms to the event rules: it belongs to this event, has a
    /// positive quota, never more remaining than its quota, and its sales end
    /// on or before the event starts.
    pub open spec fn category_conforms(self, c: TicketCategory) -> bool {
        &&& c.event_id == self.id
        &&& c.quota > 0
        &&& c.remaining_quota <= c.quota
        &&& c.sales_end <= self.start_date
    }

    /// The invariant kept by every operation of the aggregate: a proper
    /// schedule, a positive capacity, conforming categories whose quotas
    /// together do not exceed the capacity.
    pub open spec fn well_formed(self) -> bool {
        &&& self.start_date < self.end_date
        &&& self.max_capacity > 0
        &&& total_quota(self.categories@) <= self.max_capacity
        &&& forall|i: int|
            0 <= i < self.categories@.len() ==> self.category_conforms(
                #[trigger] self.categories@[i],
            )
    }

    /// Publishing is allowed for a draft event with an active category whose
    /// category quotas, all of them together, fit its capacity.
    pub open spec fn publish_allowed(self) -> bool {
        &&& self.status == EventStatus::Draft
        &&& has_active_category(self.categories@)
        &&& total_quota(self.categories@) <= self.max_capacity
    }

    /// Cancellation is allowed for a published event only.
    pub open spec fn cancel_allowed(self) -> bool {
        self.status == EventStatus::Published
    }

    /// The descriptive fields, which no operation changes.
    pub open spec fn same_details(self, other: Event) -> bool {
        &&& self.id == other.id
        &&& self.organizer_id == other.organizer_id
        &&& self.name == other.name
        &&& self.description == other.description
        &&& self.location == other.location
        &&& self.start_date == other.start_date
        &&& self.end_date == other.end_date
        &&& self.max_capacity == other.max_capacity
        &&& self.created_at == other.created_at
    }

    /// A new event in Draft status, refused when the end is not after the
    /// start or the capacity is zero.
    pub fn new(
        id: EventId,
        organizer_id: UserId,
        name: String,
        description: String,
        location: String,
        start_date: i128,
        end_date: i128,
        max_capacity: u32,
    ) -> (r: Result<Self, DomainError>)
        ensures
            r is Ok <==> (start_date < end_date && max_capacity > 0),
            r matches Err(e) ==> if end_date <= start_date {
                e is InvalidSchedule
            } else {
                e is InvalidCapacity
            },
            r matches Ok(ev) ==> {
                &&& ev.id == id
                &&& ev.organizer_id == organizer_id
                &&& ev.name == name
                &&& ev.description == description
                &&& ev.location == location
                &&& ev.start_date == start_date
                &&& ev.end_date == end_date
                &&& ev.max_capacity == max_capacity
                &&& ev.status == EventStatus::Draft
                &&& ev.categories@.len() == 0
                &&& ev.created_at == ev.updated_at
                &&& is_representable_instant(ev.created_at as int)
                &&& ev.events@ == seq![
                    DomainEventRecord::EventCreated(EventCreated { event_id: id, name: name }),
                ]
                &&& ev.well_formed()
            },
    {
        if end_date <= start_date {
            return Err(DomainError::InvalidSchedule);
        }
        if max_capacity == 0 {
            return Err(DomainError::InvalidCapacity);
        }
        let now = now_nanos();
        let mut event = Event {
            id,
            organizer_id,
            name: name.clone(),
            description,
            location,
            start_date,
            end_date,
            max_capacity,
            status: EventStatus::Draft,
            categories: Vec::new(),
            created_at: now,
            updated_at: now,
            events: Vec::new(),
        };
        event.events.push(DomainEventRecord::EventCreated(EventCreated { event_id: id, name }));
        assert(total_quota(event.categories@) == 0);
        Ok(event)
    }

    /// Sum of the quotas of all categories.
    pub fn total_quota(&self) -> (r: u128)
        ensures
            r == total_quota(self.categories@),
    {
        let n = self.categories.len();
        let mut sum: u128 = 0;
        let mut i: usize = 0;
        while i < n
            invariant
                n == self.categories@.len(),
                i <= n,
                sum == total_quota(self.categories@.take(i as int)),
                sum <= i * 0xFFFF_FFFF,
            decreases n - i,
        {
            assert(self.categories@.take(i + 1).drop_last() =~= self.categories@.take(i as int));
            sum = sum + self.categories[i].quota as u128;
            i = i + 1;
        }
        assert(self.categories@.take(n as int) =~= self.categories@);
        sum
    }

    /// Position of the first category with the given identifier.
    pub fn find_category(&self, category_id: &CategoryId) -> (r: Option<usize>)
        ensures
            r matches Some(k) ==> is_first_category_index(self.categories@, *category_id, k as int),
            r is None <==> !holds_category(self.categories@, *category_id),
    {
        let n = self.categories.len();
        let mut i: usize = 0;
        while i < n
            invariant
                n == self.categories@.len(),
                i <= n,
                forall|j: int| 0 <= j < i ==> (#[trigger] self.categories@[j]).id != *category_id,
            decreases n - i,
        {
            if self.categories[i].id == *category_id {
                return Some(i);
            }
            i = i + 1;
        }
        None
    }

    fn has_active_category(&self) -> (r: bool)
        ensures
            r == has_active_category(self.categories@),
    {
        let n = self.categories.len();
        let mut i: usize = 0;
        while i < n
            invariant
                n == self.categories@.len(),
                i <= n,
                forall|j: int| 0 <= j < i ==> !(#[trigger] self.categories@[j]).is_active,
            decreases n - i,
        {
            if self.categories[i].is_active {
                return true;
            }
            i = i + 1;
        }
        false
    }

    /// Adds a ticket category to a draft event, refusing a zero quota, sales
    /// that end after the event starts, and quotas beyond the capacity.
    pub fn add_ticket_category(
        &mut self,
        category_id: CategoryId,
        name: String,
        price: Money,
        quota: u32,
        sales_start: i128,
        sales_end: i128,
    ) -> (r: Result<(), DomainError>)
        ensures
            r is Ok <==> {
                &&& old(self).status == EventStatus::Draft
                &&& quota > 0
                &&& sales_end <= old(self).start_date
                &&& total_quota(old(self).categories@) + quota <= old(self).max_capacity
            },
            r is Err ==> *final(self) == *old(self),
            r matches Err(e) ==> if old(self).status != EventStatus::Draft {
                e matches DomainError::InvalidStatusTransition(m) && m@
                    == "Can only add categories to draft events"@
            } else if quota == 0 {
                e is InvalidQuota
            } else if sales_end > old(self).start_date {
                e is InvalidSalesPeriod
            } else {
                e is QuotaExceedsCapacity
            },
            r is Ok ==> {
                &&& final(self).same_details(*old(self))
                &&& final(self).status == old(self).status
                &&& final(self).updated_at == old(self).updated_at
                &&& final(self).categories@ == old(self).categories@.push(
                    TicketCategory {
                        id: category_id,
                        event_id: old(self).id,
                        name: name,
                        price: price,
                        quota: quota,
                        remaining_quota: quota,
                        sales_start: sales_start,
                        sales_end: sales_end,
                        is_active: true,
                    },
                )
                &&& final(self).events@ == old(self).events@.push(
                    DomainEventRecord::TicketCategoryCreated(
                        TicketCategoryCreated {
                            event_id: old(self).id,
                            category_id: category_id,
                            name: name,
                        },
                    ),
                )
            },
            old(self).well_formed() ==> final(self).well_formed(),
    {
        if self.status != EventStatus::Draft {
            return Err(
                DomainError::InvalidStatusTransition(
                    String::from_str("Can only add categories to draft events"),
                ),
            );
        }
        if quota == 0 {
            return Err(DomainError::InvalidQuota);
        }
        if sales_end > self.start_date {
            return Err(DomainError::InvalidSalesPeriod);
        }
        let total = self.total_quota();
        let count = self.categories.len();
        proof {
            lemma_total_quota_bounds(self.categories@);
            assert(count * 0xFFFF_FFFF <= 0xFFFF_FFFF_FFFF_FFFF * 0xFFFF_FFFF) by (nonlinear_arith)
                requires
                    count <= 0xFFFF_FFFF_FFFF_FFFF,
            ;
        }
        if total + quota as u128 > self.max_capacity as u128 {
            return Err(DomainError::QuotaExceedsCapacity);
        }
        let ghost old_self = *self;
        let category = TicketCategory::new(
            category_id,
            self.id,
            name.clone(),
            price,
            quota,
            sales_start,
            sales_end,
        );
        self.categories.push(category);
        self.events.push(
            DomainEventRecord::TicketCategoryCreated(
                TicketCategoryCreated { event_id: self.id, category_id, name },
            ),
        );
        proof {
            assert(self.categories@.drop_last() =~= old_self.categories@);
            if old_self.well_formed() {
                assert forall|i: int| 0 <= i < self.categories@.len() implies self.category_conforms(
                    #[trigger] self.categories@[i],
                ) by {
                    if i < old_self.categories@.len() {
                        assert(self.categories@[i] == old_self.categories@[i]);
                        assert(old_self.category_conforms(old_self.categories@[i]));
                    }
                }
            }
        }
        Ok(())
    }

    /// Publishes a draft event that has an active category and whose category
    /// quotas together fit its capacity.
    pub fn publish(&mut self) -> (r: Result<(), DomainError>)
        ensures
            r is Ok <==> old(self).publish_allowed(),
            r is Err ==> *final(self) == *old(self),
            r matches Err(e) ==> if old(self).status != EventStatus::Draft {
                e matches DomainError::InvalidStatusTransition(m) && m@ == publish_refused_message(
                    old(self).status,
                )
            } else if !has_active_category(old(self).categories@) {
                e matches DomainError::BusinessRule(m) && m@
                    == "Cannot publish event without at least one active ticket category"@
            } else {
                e is QuotaExceedsCapacity
            },
            r is Ok ==> {
                &&& final(self).same_details(*old(self))
                &&& final(self).status == EventStatus::Published
                &&& is_representable_instant(final(self).updated_at as int)
                &&& final(self).categories == old(self).categories
                &&& final(self).events@ == old(self).events@.push(
                    DomainEventRecord::EventPublished(EventPublished { event_id: old(self).id }),
                )
            },
            old(self).well_formed() ==> final(self).well_formed(),
    {
        if self.status != EventStatus::Draft {
            let mut msg = String::from_str("Can only publish draft events, current status: ");
            msg.append(self.status.as_str());
            return Err(DomainError::InvalidStatusTransition(msg));
        }
        if !self.has_active_category() {
            return Err(
                DomainError::BusinessRule(
                    String::from_str(
                        "Cannot publish event without at least one active ticket category",
                    ),
                ),
            );
        }
        let total = self.total_quota();
        if total > self.max_capacity as u128 {
            return Err(DomainError::QuotaExceedsCapacity);
        }
        self.status = EventStatus::Published;
        self.updated_at = now_nanos();
        self.events.push(DomainEventRecord::EventPublished(EventPublished { event_id: self.id }));
        Ok(())
    }

    /// Cancels a published event; every category stops selling.
    pub fn cancel(&mut self) -> (r: Result<(), DomainError>)
        ensures
            r is Ok <==> old(self).cancel_allowed(),
            r is Err ==> *final(self) == *old(self),
            r matches Err(e) ==> (e matches DomainError::InvalidStatusTransition(m) && m@
                == cancel_refused_message(old(self).status)),
            r is Ok ==> {
                &&& final(self).same_details(*old(self))
                &&& final(self).status == EventStatus::Cancelled
                &&& is_representable_instant(final(self).updated_at as int)
                &&& final(self).categories@ == old(self).categories@.map_values(
                    |c: TicketCategory| deactivated(c),
                )
                &&& final(self).events@ == old(self).events@.push(
                    DomainEventRecord::EventCancelled(EventCancelled { event_id: old(self).id }),
                )
            },
            old(self).well_formed() ==> final(self).well_formed(),
    {
        match self.status {
            EventStatus::Published => {},
            EventStatus::Completed => {
                return Err(
                    DomainError::InvalidStatusTransition(
                        String::from_str("Cannot cancel a completed event"),
                    ),
                );
            },
            _ => {
                let mut msg = String::from_str("Can only cancel published events, current status: ");
                msg.append(self.status.as_str());
                return Err(DomainError::InvalidStatusTransition(msg));
            },
        }
        let ghost old_self = *self;
        self.status = EventStatus::Cancelled;
        self.updated_at = now_nanos();
        let n = self.categories.len();
        let mut i: usize = 0;
        while i < n
            invariant
                n == old_self.categories@.len(),
                self.categories@.len() == n,
                self.same_details(old_self),
                self.events == old_self.events,
                self.status == EventStatus::Cancelled,
                is_representable_instant(self.updated_at as int),
                i <= n,
                forall|j: int| 0 <= j < i ==> #[trigger] self.categories@[j] == deactivated(old_self.categories@[j]),
                forall|j: int| i <= j < n ==> #[trigger] self.categories@[j] == old_self.categories@[j],
            decreases n - i,
        {
            self.categories[i].is_active = false;
            i = i + 1;
        }
        assert(self.categories@ =~= old_self.categories@.map_values(|c: TicketCategory| deactivated(c)));
        self.events.push(DomainEventRecord::EventCancelled(EventCancelled { event_id: self.id }));
        proof {
            lemma_total_quota_same_quotas(self.categories@, old_self.categories@);
            if old_self.well_formed() {
                assert forall|j: int| 0 <= j < self.categories@.len() implies self.category_conforms(
                    #[trigger] self.categories@[j],
                ) by {
                    assert(old_self.category_conforms(old_self.categories@[j]));
                }
            }
        }
        Ok(())
    }

    /// Stops selling one category of an event that is not completed.
    pub fn disable_category(&mut self, category_id: &CategoryId) -> (r: Result<(), DomainError>)
        ensures
            r is Ok <==> (old(self).status != EventStatus::Completed && holds_category(
                old(self).categories@,
                *category_id,
            )),
            r is Err ==> *final(self) == *old(self),
            r matches Err(e) ==> if old(self).status == EventStatus::Completed {
                e matches DomainError::InvalidStatusTransition(m) && m@
                    == "Cannot modify categories of a completed event"@
            } else {
                e matches DomainError::BusinessRule(m) && m@ == category_missing_message(
                    *category_id,
                )
            },
            r is Ok ==> exists|k: int|
                #![trigger is_first_category_index(old(self).categories@, *category_id, k)]
                {
                    &&& is_first_category_index(old(self).categories@, *category_id, k)
                    &&& final(self).categories@ == old(self).categories@.update(
                        k,
                        deactivated(old(self).categories@[k]),
                    )
                },
            r is Ok ==> {
                &&& final(self).same_details(*old(self))
                &&& final(self).status == old(self).status
                &&& is_representable_instant(final(self).updated_at as int)
                &&& final(self).events@ == old(self).events@.push(
                    DomainEventRecord::TicketCategoryDisabled(
                        TicketCategoryDisabled {
                            event_id: old(self).id,
                            category_id: *category_id,
                        },
                    ),
                )
            },
            old(self).well_formed() ==> final(self).well_formed(),
    {
        if self.status == EventStatus::Completed {
            return Err(
                DomainError::InvalidStatusTransition(
                    String::from_str("Cannot modify categories of a completed event"),
                ),
            );
        }
        let i = match self.find_category(category_id) {
            Some(k) => k,
            None => {
                let mut msg = String::from_str("Category ");
                msg.append(uuid_to_text(category_id.0).as_str());
                msg.append(" not found in event");
                return Err(DomainError::BusinessRule(msg));
            },
        };
        let ghost old_self = *self;
        self.categories[i].is_active = false;
        assert(self.categories@ =~= old_self.categories@.update(
            i as int,
            deactivated(old_self.categories@[i as int]),
        ));
        assert(is_first_category_index(old_self.categories@, *category_id, i as int));
        self.updated_at = now_nanos();
        self.events.push(
            DomainEventRecord::TicketCategoryDisabled(
                TicketCategoryDisabled { event_id: self.id, category_id: *category_id },
            ),
        );
        proof {
            lemma_total_quota_same_quotas(self.categories@, old_self.categories@);
            if old_self.well_formed() {
                assert forall|j: int| 0 <= j < self.categories@.len() implies self.category_conforms(
                    #[trigger] self.categories@[j],
                ) by {
                    assert(old_self.category_conforms(old_self.categories@[j]));
                }
            }
        }
        Ok(())
    }

    /// Hands out the domain events raised so far and forgets them.
    pub fn take_events(&mut self) -> (r: Vec<DomainEventRecord>)
        ensures
            r == old(self).events,
            final(self).events@.len() == 0,
            final(self).same_details(*old(self)),
            final(self).status == old(self).status,
            final(self).updated_at == old(self).updated_at,
            final(self).categories == old(self).categories,
    {
        let mut taken = Vec::new();
        std::mem::swap(&mut taken, &mut self.events);
        taken
    }
}

/// The event lifecycle: publishing starts from Draft and cancelling from
/// Published, so a cancelled event cannot be published again and a completed
/// event can neither be published nor cancelled.
pub proof fn lemma_event_lifecycle(e: Event)
    ensures
        e.publish_allowed() ==> e.status == EventStatus::Draft,
        e.cancel_allowed() ==> e.status == EventStatus::Published,
        e.status == EventStatus::Cancelled ==> !e.publish_allowed() && !e.cancel_allowed(),
        e.status == EventStatus::Completed ==> !e.publish_allowed() && !e.cancel_allowed(),
        e.status == EventStatus::Draft && !has_active_category(e.categories@)
            ==> !e.publish_allowed(),
{
}

/// Categories never take more than the capacity: in a well-formed event all
/// quotas together fit the capacity, so publishing a well-formed draft event
/// with an active category is never refused for capacity.
pub proof fn lemma_well_formed_quotas_fit(e: Event)
    requires
        e.well_formed(),
    ensures
        total_quota(e.categories@) <= e.max_capacity,
        e.status == EventStatus::Draft && has_active_category(e.categories@) ==> e.publish_allowed(),
{
}

} // verus!
