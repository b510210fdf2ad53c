//! Identifiers and timestamps shared by every model.
//!
//! A UUID is held as its 128-bit integer (the value that
//! `uuid::Uuid::as_u128` returns); a UTC instant as seconds since the
//! Unix epoch plus the nanoseconds past that second.

use vstd::prelude::*;
use vstd::arithmetic::power::pow;

verus! {

/// A UTC instant: seconds since the Unix epoch and the nanoseconds past
/// that second (at or above one billion only inside a leap second).
#[derive(Clone, Copy, Debug, PartialEq, Eq, Structural)]
pub struct Timestamp {
    pub secs: i64,
    pub nanos: u32,
}

/// The current UTC time, read from `chrono::Utc::now`.
/// Nothing is claimed of the value but the range of its nanoseconds:
/// below two billion (a billion or more only inside a leap second).
#[verifier::external_body]
pub(crate) fn utc_now() -> (t: Timestamp)
    ensures
        t.nanos < 2_000_000_000,
{
    let now = chrono::Utc::now();
    Timestamp { secs: now.timestamp(), nanos: now.timestamp_subsec_nanos() }
}

/// The version and variant bits of a random (version 4, RFC 4122) UUID.
pub open spec fn is_v4_uuid(id: u128) -> bool {
    id & 0xF000_C000_0000_0000_0000u128 == 0x4000_8000_0000_0000_0000u128
}

/// A fresh random UUID from `uuid::Uuid::new_v4`, which sets the version
/// nibble to 4 and the variant bits to `10` over 122 random bits: the
/// contract states those bits and leaves the random ones free.
#[verifier::external_body]
pub(crate) fn new_v4_uuid() -> (id: u128)
    ensures
        is_v4_uuid(id),
{
    uuid::Uuid::new_v4().as_u128()
}

/// The lowercase hexadecimal digit of a value below 16.
pub open spec fn hex_char(d: int) -> char {
    if d < 10 {
        (d + 48) as char
    } else {
        (d + 87) as char
    }
}

/// The `k`-th hexadecimal digit of `id`, counted from the most significant.
pub open spec fn hex_digit_of(id: u128, k: int) -> int {
    (id as int / pow(16, (31 - k) as nat)) % 16
}

/// The number of hyphens before position `i` of a hyphenated UUID.
pub open spec fn hyphens_before(i: int) -> int {
    if i < 9 {
        0
    } else if i < 14 {
        1
    } else if i < 19 {
        2
    } else if i < 24 {
        3
    } else {
        4
    }
}

/// The hyphenated lowercase text of a UUID, `xxxxxxxx-xxxx-xxxx-xxxx-xxxxxxxxxxxx`.
pub open spec fn uuid_text(id: u128) -> Seq<char> {
    Seq::new(
        36,
        |i: int|
            if i == 8 || i == 13 || i == 18 || i == 23 {
                '-'
            } else {
                hex_char(hex_digit_of(id, i - hyphens_before(i)))
            },
    )
}

/// What `uuid::Uuid::parse_str` makes of a text: the UUID, or `None` where
/// it reports an error.
pub uninterp spec fn parsed_uuid(text: Seq<char>) -> Option<u128>;

/// Parses a UUID with `uuid::Uuid::parse_str`. The accepted grammar
/// (simple, hyphenated, braced and URN forms, either case) is left to the
/// name `parsed_uuid`; the one fact stated is that the hyphenated text
/// that the crate itself prints parses back to the same UUID.
#[verifier::external_body]
pub(crate) fn parse_uuid(text: &str) -> (r: Option<u128>)
    ensures
        r == parsed_uuid(text@),
        forall|id: u128| text@ == uuid_text(id) ==> r == Some(id),
{
    uuid::Uuid::parse_str(text).ok().map(|u| u.as_u128())
}

/// The hyphenated lowercase text that `uuid::Uuid`'s `Display` prints.
#[verifier::external_body]
pub(crate) fn uuid_to_string(id: u128) -> (s: String)
    ensures
        s@ == uuid_text(id),
{
    uuid::Uuid::from_u128(id).to_string()
}

/// Parses a UUID, giving the nil UUID where the text is not one
/// (as `Uuid::parse_str(..).unwrap_or_default()` does).
pub fn parse_uuid_or_nil(text: &str) -> (id: u128)
    ensures
        id == (match parsed_uuid(text@) {
            Some(u) => u,
            None => 0,
        }),
        forall|u: u128| text@ == uuid_text(u) ==> id == u,
{
    match parse_uuid(text) {
        Some(u) => u,
        None => 0,
    }
}

} // verus!
