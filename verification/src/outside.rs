use vstd::prelude::*;

use core::time::Duration;
use std::time::Instant;

verus! {

#[verifier::external_type_specification]
#[verifier::external_body]
pub struct ExInstant(Instant);

/// A lower-case hexadecimal digit.
pub open spec fn is_lower_hex(c: char) -> bool {
    ('0' <= c && c <= '9') || ('a' <= c && c <= 'f')
}

/// The hyphenated lower-case text of a version 4 (random) UUID, such as
/// `67e55044-10b1-426f-9247-bb680e5fe0c8`: 36 characters, hyphens at 8, 13,
/// 18 and 23, hexadecimal digits elsewhere, the version digit `4` at 14 and a
/// variant digit `8`, `9`, `a` or `b` at 19.
pub open spec fn is_uuid_v4_text(s: Seq<char>) -> bool {
    &&& s.len() == 36
    &&& forall|i: int|
        0 <= i < 36 ==> if i == 8 || i == 13 || i == 18 || i == 23 {
            #[trigger] s[i] == '-'
        } else {
            is_lower_hex(s[i])
        }
    &&& s[14] == '4'
    &&& (s[19] == '8' || s[19] == '9' || s[19] == 'a' || s[19] == 'b')
}

/// Calls `uuid::Uuid::new_v4` and renders it with `to_string`. The crate
/// draws 128 random bits, forces the version nibble to 4 and the variant bits
/// to `10`, and `Display` writes the hyphenated lower-case form. Which UUID
/// comes back is left open: only its shape is stated.
#[verifier::external_body]
pub(crate) fn fresh_request_id() -> (id: String)
    ensures
        is_uuid_v4_text(id@),
{
    uuid::Uuid::new_v4().to_string()
}

/// What holds of every RFC 3339 text of a UTC instant that `to_rfc3339`
/// writes: at least `YYYY-MM-DDTHH:MM:SS` and the offset `+00:00` at its end.
pub open spec fn is_utc_stamp(t: Seq<char>) -> bool {
    &&& "+00:00"@.is_suffix_of(t)
    &&& t.len() >= 25
}

/// Calls `chrono::Utc::now` and renders the instant with `to_rfc3339`. The
/// text depends on the clock; what holds of every outcome is that the date
/// and time take at least 19 characters (a year of four digits or more) and
/// that a UTC instant is written with the offset `+00:00` at its end (the
/// crate writes the offset with minute precision and colons, and no `Z`).
/// Which instant comes back is left open. `Utc::now` panics where the system
/// clock reads a time before 1970, a state of the machine that no argument
/// rules out.
#[verifier::external_body]
pub(crate) fn utc_timestamp() -> (t: String)
    ensures
        is_utc_stamp(t@),
{
    chrono::Utc::now().to_rfc3339()
}

/// Calls `std::time::Instant::now`. Nothing is stated of the instant.
#[verifier::external_body]
pub(crate) fn start_timer() -> Instant {
    Instant::now()
}

/// Calls `std::time::Instant::elapsed`. Nothing is stated of the duration: it
/// depends on the clock.
#[verifier::external_body]
pub(crate) fn elapsed_since(start: &Instant) -> Duration {
    start.elapsed()
}

/// Calls `std::time::Duration::as_millis`. The duration is opaque here, so
/// nothing is stated of the count.
#[verifier::external_body]
pub(crate) fn whole_millis(d: &Duration) -> u128 {
    d.as_millis()
}

} // verus!
