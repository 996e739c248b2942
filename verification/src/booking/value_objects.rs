//! Identifier and status of bookings.

use vstd::prelude::*;
use vstd::std_specs::convert::FromSpecImpl;

use crate::shared::identifier::{is_v4_uuid, random_uuid, uuid_text, uuid_to_text};

verus! {

/// Identifier of a booking: the 128-bit value of a UUID.
#[derive(Debug, Clone, Copy, PartialEq, Eq, Hash, Structural)]
pub struct BookingId(pub u128);

impl BookingId {
    /// A fresh random identifier: a version-4 UUID.
    pub fn new() -> (r: Self)
        ensures
            is_v4_uuid(r.0),
    {
        BookingId(random_uuid())
    }

    pub fn into_inner(self) -> (r: u128)
        ensures
            r == self.0,
    {
        self.0
    }

    /// The hyphenated lower-case text of the identifier.
    pub fn to_text(&self) -> (r: String)
        ensures
            r@ == uuid_text(self.0),
    {
        uuid_to_text(self.0)
    }
}

impl From<u128> for BookingId {
    fn from(value: u128) -> (r: Self) {
        BookingId(value)
    }
}

impl FromSpecImpl<u128> for BookingId {
    open spec fn obeys_from_spec() -> bool {
        true
    }

    open spec fn from_spec(v: u128) -> BookingId {
        BookingId(v)
    }
}

/// Lifecycle of a booking: PendingPayment -> Paid -> Refunded, PendingPayment -> Expired.
#[derive(Debug, Clone, Copy, PartialEq, Eq, Structural)]
pub enum BookingStatus {
    PendingPayment,
    Paid,
    Expired,
    Refunded,
}

impl BookingStatus {
    /// The name of the status.
    pub open spec fn label(self) -> Seq<char> {
        match self {
            BookingStatus::PendingPayment => "PendingPayment"@,
            BookingStatus::Paid => "Paid"@,
            BookingStatus::Expired => "Expired"@,
            BookingStatus::Refunded => "Refunded"@,
        }
    }

    /// The name under which the status is shown.
    pub fn as_str(&self) -> (r: &'static str)
        ensures
            r@ == self.label(),
    {
        match self {
            BookingStatus::PendingPayment => "PendingPayment",
            BookingStatus::Paid => "Paid",
            BookingStatus::Expired => "Expired",
            BookingStatus::Refunded => "Refunded",
        }
    }
}

/// Each status is shown under its own name, and distinct statuses are shown
/// differently.
pub proof fn lemma_booking_status_names(s: BookingStatus, t: BookingStatus)
    ensures
        s.label() == "PendingPayment"@ <==> s == BookingStatus::PendingPayment,
        s.label() == "Paid"@ <==> s == BookingStatus::Paid,
        s.label() == "Expired"@ <==> s == BookingStatus::Expired,
        s.label() == "Refunded"@ <==> s == BookingStatus::Refunded,
        s.label() == t.label() ==> s == t,
{
    reveal_strlit("PendingPayment");
    reveal_strlit("Paid");
    reveal_strlit("Expired");
    reveal_strlit("Refunded");
    assert("PendingPayment"@.len() != "Paid"@.len());
    assert("PendingPayment"@.len() != "Expired"@.len());
    assert("PendingPayment"@.len() != "Refunded"@.len());
    assert("Paid"@.len() != "Expired"@.len());
    assert("Paid"@.len() != "Refunded"@.len());
    assert("Expired"@.len() != "Refunded"@.len());
}

} // verus!
