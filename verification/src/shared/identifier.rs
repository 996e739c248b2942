//! Identifiers: random version-4 UUIDs held as their 128-bit value, and their
//! canonical hyphenated text.

use vstd::prelude::*;

verus! {

/// Lower-case hexadecimal digit of a value in `0..16`.
pub open spec fn hex_digit_lower(n: int) -> char {
    if n < 10 {
        ((48 + n) as u32) as char
    } else {
        ((87 + n) as u32) as char
    }
}

/// The `k`-th hexadecimal digit of `v`, counted from the most significant one.
pub open spec fn uuid_nibble(v: u128, k: int) -> int {
    ((v >> ((124 - 4 * k) as u128)) & 15u128) as int
}

/// Index of the hexadecimal digit shown at position `i` of the hyphenated form.
pub open spec fn uuid_digit_index(i: int) -> int {
    if i > 23 {
        i - 4
    } else if i > 18 {
        i - 3
    } else if i > 13 {
        i - 2
    } else if i > 8 {
        i - 1
    } else {
        i
    }
}

/// Whether position `i` of the hyphenated form holds a hyphen.
pub open spec fn uuid_hyphen_at(i: int) -> bool {
    i == 8 || i == 13 || i == 18 || i == 23
}

/// The hyphenated lower-case text of a UUID, `xxxxxxxx-xxxx-xxxx-xxxx-xxxxxxxxxxxx`.
pub open spec fn uuid_text(v: u128) -> Seq<char> {
    Seq::new(
        36,
        |i: int|
            if uuid_hyphen_at(i) {
                '-'
            } else {
                hex_digit_lower(uuid_nibble(v, uuid_digit_index(i)))
            },
    )
}

/// Upper-case form of an ASCII character; other characters are kept.
pub open spec fn ascii_upper_char(c: char) -> char {
    if 'a' <= c && c <= 'z' {
        ((c as u32) - 32) as char
    } else {
        c
    }
}

/// Upper-case form of an ASCII text.
pub open spec fn ascii_upper(s: Seq<char>) -> Seq<char> {
    s.map_values(|c: char| ascii_upper_char(c))
}

/// Whether every character is ASCII.
pub open spec fn all_ascii(s: Seq<char>) -> bool {
    forall|i: int| 0 <= i < s.len() ==> (#[trigger] s[i]) < '\u{80}'
}

/// Whether a 128-bit value is a version-4 UUID of the RFC 4122 variant: its
/// version nibble is 4 and its variant bits are `10`.
pub open spec fn is_v4_uuid(v: u128) -> bool {
    v & 0xF000_C000_0000_0000_0000u128 == 0x4000_8000_0000_0000_0000u128
}

/// `Uuid::new_v4`, read back with `Uuid::as_u128`. The value is random; the
/// uuid crate sets the version nibble to 4 and the variant bits to `10`
/// (it masks a random `u128` with `0xFFFFFFFFFFFF4FFFBFFFFFFFFFFFFFFF` and
/// sets `0x40008000000000000000`). Nothing else is claimed of the value.
#[verifier::external_body]
pub(crate) fn random_uuid() -> (r: u128)
    ensures
        is_v4_uuid(r),
{
    uuid::Uuid::new_v4().as_u128()
}

/// `Uuid::from_u128(v).to_string()`: the uuid crate's `Display` writes the
/// hyphenated lower-case hexadecimal form of the 128-bit value, most
/// significant digit first.
#[verifier::external_body]
pub(crate) fn uuid_to_text(v: u128) -> (r: String)
    ensures
        r@ == uuid_text(v),
{
    uuid::Uuid::from_u128(v).to_string()
}

/// `str::to_uppercase`. For an ASCII text, std maps `a..=z` to `A..=Z` and
/// keeps every other character; nothing is claimed for other texts.
#[verifier::external_body]
pub(crate) fn text_to_uppercase(s: &str) -> (r: String)
    ensures
        all_ascii(s@) ==> r@ == ascii_upper(s@),
{
    s.to_uppercase()
}

pub proof fn lemma_uuid_nibble_range(v: u128, k: int)
    ensures
        0 <= uuid_nibble(v, k) < 16,
{
    let s = (124 - 4 * k) as u128;
    assert((v >> s) & 15u128 <= 15u128) by (bit_vector);
}

/// Every character of the hyphenated text is an ASCII hyphen or a lower-case
/// hexadecimal digit.
pub proof fn lemma_uuid_text_ascii(v: u128)
    ensures
        all_ascii(uuid_text(v)),
        uuid_text(v).len() == 36,
{
    assert forall|i: int| 0 <= i < uuid_text(v).len() implies (#[trigger] uuid_text(v)[i])
        < '\u{80}' by {
        lemma_uuid_nibble_range(v, uuid_digit_index(i));
    }
}

} // verus!
