//! Identifier and status of refunds.

use vstd::prelude::*;
use vstd::std_specs::convert::FromSpecImpl;

use crate::shared::identifier::{is_v4_uuid, random_uuid, uuid_text, uuid_to_text};

verus! {

/// Identifier of a refund: the 128-bit value of a UUID.
#[derive(Debug, Clone, Copy, PartialEq, Eq, Hash, Structural)]
pub struct RefundId(pub u128);

impl RefundId {
    /// A fresh random identifier: a version-4 UUID.
    pub fn new() -> (r: Self)
        ensures
            is_v4_uuid(r.0),
    {
        RefundId(random_uuid())
    }

    pub fn into_inner(self) -> (r: u128)
        ensures
            r == self.0,
    {
        self.0
    }

    /// The hyphenated lower-case text of the identifier.
    pub fn to_text(&self) -> (r: String)
        ensures
            r@ == uuid_text(self.0),
    {
        uuid_to_text(self.0)
    }
}

impl From<u128> for RefundId {
    fn from(value: u128) -> (r: Self) {
        RefundId(value)
    }
}

impl FromSpecImpl<u128> for RefundId {
    open spec fn obeys_from_spec() -> bool {
        true
    }

    open spec fn from_spec(v: u128) -> RefundId {
        RefundId(v)
    }
}

/// Lifecycle of a refund: Requested -> Approved -> PaidOut, Requested -> Rejected.
#[derive(Debug, Clone, Copy, PartialEq, Eq, Structural)]
pub enum RefundStatus {
    Requested,
    Approved,
    Rejected,
    PaidOut,
}

impl RefundStatus {
    /// The name of the status.
    pub open spec fn label(self) -> Seq<char> {
        match self {
            RefundStatus::Requested => "Requested"@,
            RefundStatus::Approved => "Approved"@,
            RefundStatus::Rejected => "Rejected"@,
            RefundStatus::PaidOut => "PaidOut"@,
        }
    }

    /// The name under which the status is shown.
    pub fn as_str(&self) -> (r: &'static str)
        ensures
            r@ == self.label(),
    {
        match self {
            RefundStatus::Requested => "Requested",
            RefundStatus::Approved => "Approved",
            RefundStatus::Rejected => "Rejected",
            RefundStatus::PaidOut => "PaidOut",
        }
    }
}

/// Each status is shown under its own name, and distinct statuses are shown
/// differently.
pub proof fn lemma_refund_status_names(s: RefundStatus, t: RefundStatus)
    ensures
        s.label() == "Requested"@ <==> s == RefundStatus::Requested,
        s.label() == "Approved"@ <==> s == RefundStatus::Approved,
        s.label() == "Rejected"@ <==> s == RefundStatus::Rejected,
        s.label() == "PaidOut"@ <==> s == RefundStatus::PaidOut,
        s.label() == t.label() ==> s == t,
{
    reveal_strlit("Requested");
    reveal_strlit("Approved");
    reveal_strlit("Rejected");
    reveal_strlit("PaidOut");
    assert("Requested"@.len() != "Approved"@.len());
    assert("Requested"@.len() != "Rejected"@.len());
    assert("Requested"@.len() != "PaidOut"@.len());
    assert("Approved"@[0] != "Rejected"@[0]);
    assert("Approved"@.len() != "PaidOut"@.len());
    assert("Rejected"@.len() != "PaidOut"@.len());
}

} // verus!
