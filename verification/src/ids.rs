//! Entity identifiers: 128-bit UUID values, their textual form, and the
//! generation of fresh random ones.

use vstd::prelude::*;
use vstd::arithmetic::power::pow;

verus! {

/// The lowercase hexadecimal digit for a value in `0..16`.
pub open spec fn hex_digit(n: int) -> char {
    if n < 10 {
        (48 + n) as char
    } else {
        (97 + n - 10) as char
    }
}

/// The `i`-th hexadecimal digit of `v`, counting from the most significant one.
pub open spec fn nibble(v: u128, i: int) -> int {
    (v as int / pow(16, (31 - i) as nat)) % 16
}

/// The 32 lowercase hexadecimal digits of `v`, most significant first.
pub open spec fn hex32(v: u128) -> Seq<char> {
    Seq::new(32, |i: int| hex_digit(nibble(v, i)))
}

/// The hyphenated text of a UUID: its 32 hex digits in groups of
/// 8, 4, 4, 4 and 12, separated by `-`.
pub open spec fn uuid_text(v: u128) -> Seq<char> {
    let h = hex32(v);
    h.subrange(0, 8) + seq!['-'] + h.subrange(8, 12) + seq!['-'] + h.subrange(12, 16)
        + seq!['-'] + h.subrange(16, 20) + seq!['-'] + h.subrange(20, 32)
}

/// A fresh random identifier, from `uuid::Uuid::new_v4` read as a `u128`
/// (`Uuid::as_u128`). The value is random: the contract states only that
/// its version nibble is 4, as `new_v4` sets it.
#[verifier::external_body]
pub(crate) fn new_id() -> (id: u128)
    ensures
        (id >> 76u128) & 0xfu128 == 4,
{
    uuid::Uuid::new_v4().as_u128()
}

/// The text of an identifier, from `uuid::Uuid::from_u128(id).to_string()`.
/// The crate's `Display` for `Uuid` writes the hyphenated lowercase form,
/// which the contract states as `uuid_text`.
#[verifier::external_body]
pub(crate) fn id_to_string(id: u128) -> (s: String)
    ensures
        s@ == uuid_text(id),
{
    uuid::Uuid::from_u128(id).to_string()
}

/// `prefix`, the text of `id`, then `suffix`.
pub fn id_message(prefix: &str, id: u128, suffix: &str) -> (s: String)
    ensures
        s@ == prefix@ + uuid_text(id) + suffix@,
{
    let mut s = String::from_str(prefix);
    let t = id_to_string(id);
    s.append(t.as_str());
    s.append(suffix);
    s
}

} // verus!
