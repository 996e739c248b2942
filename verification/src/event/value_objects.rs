//! Identifiers and status of events and their ticket categories.

use vstd::prelude::*;
use vstd::std_specs::convert::FromSpecImpl;

use crate::shared::identifier::{is_v4_uuid, random_uuid, uuid_text, uuid_to_text};

verus! {

/// Identifier of an event: the 128-bit value of a UUID.
#[derive(Debug, Clone, Copy, PartialEq, Eq, Hash, Structural)]
pub struct EventId(pub u128);

impl EventId {
    /// A fresh random identifier: a version-4 UUID.
    pub fn new() -> (r: Self)
        ensures
            is_v4_uuid(r.0),
    {
        EventId(random_uuid())
    }

    pub fn into_inner(self) -> (r: u128)
        ensures
            r == self.0,
    {
        self.0
    }

    /// The hyphenated lower-case text of the identifier.
    pub fn to_text(&self) -> (r: String)
        ensures
            r@ == uuid_text(self.0),
    {
        uuid_to_text(self.0)
    }
}

impl From<u128> for EventId {
    fn from(value: u128) -> (r: Self) {
        EventId(value)
    }
}

impl FromSpecImpl<u128> for EventId {
    open spec fn obeys_from_spec() -> bool {
        true
    }

    open spec fn from_spec(v: u128) -> EventId {
        EventId(v)
    }
}

/// Identifier of a ticket category: the 128-bit value of a UUID.
#[derive(Debug, Clone, Copy, PartialEq, Eq, Hash, Structural)]
pub struct CategoryId(pub u128);

impl CategoryId {
    /// A fresh random identifier: a version-4 UUID.
    pub fn new() -> (r: Self)
        ensures
            is_v4_uuid(r.0),
    {
        CategoryId(random_uuid())
    }

    pub fn into_inner(self) -> (r: u128)
        ensures
            r == self.0,
    {
        self.0
    }

    /// The hyphenated lower-case text of the identifier.
    pub fn to_text(&self) -> (r: String)
        ensures
            r@ == uuid_text(self.0),
    {
        uuid_to_text(self.0)
    }
}

impl From<u128> for CategoryId {
    fn from(value: u128) -> (r: Self) {
        CategoryId(value)
    }
}

impl FromSpecImpl<u128> for CategoryId {
    open spec fn obeys_from_spec() -> bool {
        true
    }

    open spec fn from_spec(v: u128) -> CategoryId {
        CategoryId(v)
    }
}

/// Lifecycle of an event: Draft -> Published -> Cancelled, Published -> Completed.
#[derive(Debug, Clone, Copy, PartialEq, Eq, Structural)]
pub enum EventStatus {
    Draft,
    Published,
    Cancelled,
    Completed,
}

impl EventStatus {
    /// The name of the status.
    pub open spec fn label(self) -> Seq<char> {
        match self {
            EventStatus::Draft => "Draft"@,
            EventStatus::Published => "Published"@,
            EventStatus::Cancelled => "Cancelled"@,
            EventStatus::Completed => "Completed"@,
        }
    }

    /// The name under which the status is shown.
    pub fn as_str(&self) -> (r: &'static str)
        ensures
            r@ == self.label(),
    {
        match self {
            EventStatus::Draft => "Draft",
            EventStatus::Published => "Published",
            EventStatus::Cancelled => "Cancelled",
            EventStatus::Completed => "Completed",
        }
    }
}

/// Each status is shown under its own name, and distinct statuses are shown
/// differently.
pub proof fn lemma_event_status_names(s: EventStatus, t: EventStatus)
    ensures
        s.label() == "Draft"@ <==> s == EventStatus::Draft,
        s.label() == "Published"@ <==> s == EventStatus::Published,
        s.label() == "Cancelled"@ <==> s == EventStatus::Cancelled,
        s.label() == "Completed"@ <==> s == EventStatus::Completed,
        s.label() == t.label() ==> s == t,
{
    reveal_strlit("Draft");
    reveal_strlit("Published");
    reveal_strlit("Cancelled");
    reveal_strlit("Completed");
    assert("Draft"@.len() != "Published"@.len());
    assert("Draft"@.len() != "Cancelled"@.len());
    assert("Draft"@.len() != "Completed"@.len());
    assert("Published"@[0] != "Cancelled"@[0]);
    assert("Published"@[0] != "Completed"@[0]);
    assert("Cancelled"@[1] != "Completed"@[1]);
}

} // verus!
