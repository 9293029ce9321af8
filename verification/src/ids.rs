//! Identifiers and clock readings of the database lessons, held as plain
//! values: a UUID as the `u128` of its sixteen bytes read big-endian, a
//! moment as whole seconds since the Unix epoch.
use vstd::prelude::*;

verus! {

/// The lowercase hexadecimal digit of value `v` (below sixteen).
pub open spec fn hex_digit(v: nat) -> char {
    seq!['0', '1', '2', '3', '4', '5', '6', '7', '8', '9', 'a', 'b', 'c', 'd', 'e', 'f'][v as int]
}

/// The `k`-th hexadecimal digit of `id`, counted from the most significant one.
pub open spec fn nibble(id: u128, k: int) -> nat {
    ((id >> ((124 - 4 * k) as u128)) & 0xf) as nat
}

/// The number of hyphens that come before position `i` of a hyphenated UUID.
pub open spec fn hyphens_before(i: int) -> int {
    if i < 8 {
        0
    } else if i < 13 {
        1
    } else if i < 18 {
        2
    } else if i < 23 {
        3
    } else {
        4
    }
}

/// The hyphenated lowercase text of a UUID, as `Uuid`'s `Display` writes it:
/// 32 hexadecimal digits in groups of 8, 4, 4, 4 and 12.
pub open spec fn uuid_text(id: u128) -> Seq<char> {
    Seq::new(
        36,
        |i: int|
            if i == 8 || i == 13 || i == 18 || i == 23 {
                '-'
            } else {
                hex_digit(nibble(id, i - hyphens_before(i)))
            },
    )
}

/// What `Uuid::parse_str` makes of a text, when it accepts it.
pub uninterp spec fn parsed_uuid(text: Seq<char>) -> Option<u128>;

/// Writes a UUID with `uuid::Uuid`'s `Display` (`Uuid::from_u128(id).to_string()`).
/// Claimed: the text is the hyphenated lowercase form `uuid_text(id)`, which is
/// what `Display` forwards to (`LowerHex` of the hyphenated form).
#[verifier::external_body]
pub(crate) fn uuid_to_text(id: u128) -> (r: String)
    ensures
        r@ == uuid_text(id),
{
    uuid::Uuid::from_u128(id).to_string()
}

/// Parses a UUID with `uuid::Uuid::parse_str`, and reads it back as `u128`
/// (`Uuid::as_u128`). Claimed: the result is `parsed_uuid` of the text; the
/// hyphenated text of a UUID parses back to that UUID; a text whose byte length
/// is none of 32, 36, 38 and 45 is refused. Which other texts are accepted
/// (simple, braced, URN and upper-case forms) is left to the name.
#[verifier::external_body]
pub(crate) fn parse_uuid(text: &str) -> (r: Option<u128>)
    ensures
        r == parsed_uuid(text@),
        forall|v: u128| #[trigger] uuid_text(v) == text@ ==> r == Some(v),
        text.len() != 32 && text.len() != 36 && text.len() != 38 && text.len() != 45 ==> r is None,
{
    match uuid::Uuid::parse_str(text) {
        Ok(u) => Some(u.as_u128()),
        Err(_) => None,
    }
}

/// A new random UUID from `uuid::Uuid::new_v4`, as `u128`. Claimed only what
/// holds of every outcome: the version field is 4 and the variant bits are
/// `10` (RFC 4122). The other 122 bits are random and nothing is said of them.
#[verifier::external_body]
pub(crate) fn fresh_uuid() -> (r: u128)
    ensures
        (r >> 76u128) & 0xf == 4,
        (r >> 62u128) & 0x3 == 2,
{
    uuid::Uuid::new_v4().as_u128()
}

/// The largest distance from the epoch, in seconds, at which chrono's
/// `DateTime<Utc>` is promised here to exist one hour later too (chrono's
/// range runs to the years 262142 CE and 262144 BCE).
pub open spec fn clock_span() -> int {
    8_000_000_000_000
}

/// The moment one hour after `secs`, through chrono:
/// `DateTime::from_timestamp(secs, 0)` then `checked_add_signed(Duration::hours(1))`,
/// read back with `timestamp()`. Claimed: a result is `secs + 3600`; within
/// `clock_span` of the epoch there is a result. Outside that span the source
/// gives `None` only near the ends of chrono's range, which is not stated.
#[verifier::external_body]
pub(crate) fn one_hour_after(secs: i64) -> (r: Option<i64>)
    ensures
        r matches Some(t) ==> t == secs + 3600,
        -clock_span() <= secs <= clock_span() ==> r is Some,
{
    match chrono::DateTime::from_timestamp(secs, 0) {
        Some(t) => match t.checked_add_signed(chrono::Duration::hours(1)) {
            Some(later) => Some(later.timestamp()),
            None => None,
        },
        None => None,
    }
}

/// The current time from `chrono::Utc::now().timestamp()`. It depends on the
/// clock, so nothing is claimed of it.
#[verifier::external_body]
pub(crate) fn unix_now() -> (r: i64) {
    chrono::Utc::now().timestamp()
}

} // verus!
