//! Identifier, code and status of tickets.

use vstd::prelude::*;
use vstd::std_specs::cmp::PartialEqSpecImpl;
use vstd::std_specs::convert::FromSpecImpl;

use crate::shared::identifier::{
    all_ascii, ascii_upper, ascii_upper_char, hex_digit_lower, is_v4_uuid,
    lemma_uuid_nibble_range, lemma_uuid_text_ascii, random_uuid, text_to_uppercase,
    uuid_digit_index, uuid_hyphen_at, uuid_nibble, uuid_text, uuid_to_text,
};

verus! {

/// Identifier of a ticket: the 128-bit value of a UUID.
#[derive(Debug, Clone, Copy, PartialEq, Eq, Hash, Structural)]
pub struct TicketId(pub u128);

impl TicketId {
    /// A fresh random identifier: a version-4 UUID.
    pub fn new() -> (r: Self)
        ensures
            is_v4_uuid(r.0),
    {
        TicketId(random_uuid())
    }

    pub fn into_inner(self) -> (r: u128)
        ensures
            r == self.0,
    {
        self.0
    }

    /// The hyphenated lower-case text of the identifier.
    pub fn to_text(&self) -> (r: String)
        ensures
            r@ == uuid_text(self.0),
    {
        uuid_to_text(self.0)
    }
}

impl From<u128> for TicketId {
    fn from(value: u128) -> (r: Self) {
        TicketId(value)
    }
}

impl FromSpecImpl<u128> for TicketId {
    open spec fn obeys_from_spec() -> bool {
        true
    }

    open spec fn from_spec(v: u128) -> TicketId {
        TicketId(v)
    }
}

/// The code printed on a ticket and presented at check-in.
#[derive(Debug, Eq, Hash)]
pub struct TicketCode(String);

/// The text of a generated code: the upper-case hyphenated text of a UUID.
pub open spec fn generated_code_text(v: u128) -> Seq<char> {
    ascii_upper(uuid_text(v))
}

impl TicketCode {
    pub closed spec fn text(self) -> Seq<char> {
        self.0@
    }

    pub fn new(code: String) -> (r: Self)
        ensures
            r.text() == code@,
    {
        TicketCode(code)
    }

    /// A fresh code: the upper-case text of a random version-4 UUID.
    pub fn generate() -> (r: Self)
        ensures
            exists|v: u128| is_v4_uuid(v) && r.text() == generated_code_text(v),
    {
        let v = random_uuid();
        let lower = uuid_to_text(v);
        proof {
            lemma_uuid_text_ascii(v);
        }
        let upper = text_to_uppercase(lower.as_str());
        let code = TicketCode(upper);
        assert(code.text() == generated_code_text(v));
        code
    }

    pub fn as_str(&self) -> (r: &str)
        ensures
            r@ == self.text(),
    {
        self.0.as_str()
    }
}

impl Clone for TicketCode {
    fn clone(&self) -> (r: Self)
        ensures
            r == *self,
    {
        TicketCode(self.0.clone())
    }
}

impl PartialEq for TicketCode {
    fn eq(&self, other: &Self) -> (r: bool) {
        self.0 == other.0
    }
}

impl PartialEqSpecImpl for TicketCode {
    open spec fn obeys_eq_spec() -> bool {
        true
    }

    open spec fn eq_spec(&self, other: &TicketCode) -> bool {
        self.text() == other.text()
    }
}

/// Lifecycle of a ticket: Active -> CheckedIn, Active -> Cancelled.
#[derive(Debug, Clone, Copy, PartialEq, Eq, Structural)]
pub enum TicketStatus {
    Active,
    CheckedIn,
    Cancelled,
}

impl TicketStatus {
    /// The name of the status.
    pub open spec fn label(self) -> Seq<char> {
        match self {
            TicketStatus::Active => "Active"@,
            TicketStatus::CheckedIn => "CheckedIn"@,
            TicketStatus::Cancelled => "Cancelled"@,
        }
    }

    /// The name under which the status is shown.
    pub fn as_str(&self) -> (r: &'static str)
        ensures
            r@ == self.label(),
    {
        match self {
            TicketStatus::Active => "Active",
            TicketStatus::CheckedIn => "CheckedIn",
            TicketStatus::Cancelled => "Cancelled",
        }
    }
}

/// Position in the hyphenated text of the `k`-th hexadecimal digit.
spec fn uuid_digit_position(k: int) -> int {
    if k < 8 {
        k
    } else if k < 12 {
        k + 1
    } else if k < 16 {
        k + 2
    } else if k < 20 {
        k + 3
    } else {
        k + 4
    }
}

proof fn lemma_upper_hex_digit_injective(a: int, b: int)
    requires
        0 <= a < 16,
        0 <= b < 16,
        ascii_upper_char(hex_digit_lower(a)) == ascii_upper_char(hex_digit_lower(b)),
    ensures
        a == b,
{
}

/// Generated codes are as distinct as the UUIDs they come from: two codes
/// are equal only when they were generated from the same UUID value.
pub proof fn lemma_generated_code_injective(v1: u128, v2: u128)
    requires
        generated_code_text(v1) == generated_code_text(v2),
    ensures
        v1 == v2,
{
    lemma_uuid_text_ascii(v1);
    lemma_uuid_text_ascii(v2);
    assert forall|k: int| 0 <= k < 32 implies uuid_nibble(v1, k) == uuid_nibble(v2, k) by {
        let i = uuid_digit_position(k);
        assert(uuid_digit_index(i) == k);
        assert(!uuid_hyphen_at(i));
        assert(0 <= i < 36);
        assert(uuid_text(v1)[i] == hex_digit_lower(uuid_nibble(v1, k)));
        assert(uuid_text(v2)[i] == hex_digit_lower(uuid_nibble(v2, k)));
        assert(generated_code_text(v1)[i] == ascii_upper_char(uuid_text(v1)[i]));
        assert(generated_code_text(v2)[i] == ascii_upper_char(uuid_text(v2)[i]));
        lemma_uuid_nibble_range(v1, k);
        lemma_uuid_nibble_range(v2, k);
        lemma_upper_hex_digit_injective(uuid_nibble(v1, k), uuid_nibble(v2, k));
    }
    lemma_high_digits_equal(v1, v2, 31);
    assert(v1 == v2) by (bit_vector)
        requires
            v1 >> 0u128 == v2 >> 0u128,
    ;
}

/// Two values whose top hexadecimal digit agrees agree once shifted down to
/// that digit.
proof fn lemma_top_digit_equal(v1: u128, v2: u128)
    by (bit_vector)
    requires
        (v1 >> 124u128) & 15u128 == (v2 >> 124u128) & 15u128,
    ensures
        v1 >> 124u128 == v2 >> 124u128,
{
}

/// Agreeing above a digit and on the digit itself extends the agreement one
/// digit down.
proof fn lemma_one_more_digit_equal(v1: u128, v2: u128, t: u128, s: u128)
    by (bit_vector)
    requires
        t <= 120,
        s == t + 4,
        (v1 >> t) & 15u128 == (v2 >> t) & 15u128,
        v1 >> s == v2 >> s,
    ensures
        v1 >> t == v2 >> t,
{
}

/// Values whose first `j + 1` hexadecimal digits agree are equal once shifted
/// down to digit `j`.
proof fn lemma_high_digits_equal(v1: u128, v2: u128, j: int)
    requires
        0 <= j < 32,
        forall|k: int| 0 <= k <= j ==> #[trigger] uuid_nibble(v1, k) == uuid_nibble(v2, k),
    ensures
        v1 >> ((124 - 4 * j) as u128) == v2 >> ((124 - 4 * j) as u128),
    decreases j,
{
    if j == 0 {
        assert(uuid_nibble(v1, 0) == uuid_nibble(v2, 0));
        lemma_top_digit_equal(v1, v2);
    } else {
        lemma_high_digits_equal(v1, v2, j - 1);
        assert(uuid_nibble(v1, j) == uuid_nibble(v2, j));
        let s = (124 - 4 * (j - 1)) as u128;
        let t = (124 - 4 * j) as u128;
        lemma_one_more_digit_equal(v1, v2, t, s);
    }
}

/// Each status is shown under its own name, and distinct statuses are shown
/// differently.
pub proof fn lemma_ticket_status_names(s: TicketStatus, t: TicketStatus)
    ensures
        s.label() == "Active"@ <==> s == TicketStatus::Active,
        s.label() == "CheckedIn"@ <==> s == TicketStatus::CheckedIn,
        s.label() == "Cancelled"@ <==> s == TicketStatus::Cancelled,
        s.label() == t.label() ==> s == t,
{
    reveal_strlit("Active");
    reveal_strlit("CheckedIn");
    reveal_strlit("Cancelled");
    assert("Active"@.len() != "CheckedIn"@.len());
    assert("Active"@.len() != "Cancelled"@.len());
    assert("CheckedIn"@[1] != "Cancelled"@[1]);
}

} // verus!
