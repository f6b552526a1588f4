//! Identifiers and times, which come from outside the library.

use vstd::prelude::*;

verus! {

/// Whether `c` is a hexadecimal digit in lower case.
pub open spec fn lower_hex(c: char) -> bool {
    ('0' <= c <= '9') || ('a' <= c <= 'f')
}

/// The shape of a random identifier: 36 characters, hyphens after the 8th,
/// 12th, 16th and 20th hexadecimal digit, lower-case digits elsewhere, with
/// the version digit `4` and a variant digit of `8`, `9`, `a` or `b`.
pub open spec fn is_identifier(s: Seq<char>) -> bool {
    &&& s.len() == 36
    &&& forall|i: int|
        0 <= i < 36 ==> if i == 8 || i == 13 || i == 18 || i == 23 {
            #[trigger] s[i] == '-'
        } else {
            lower_hex(#[trigger] s[i])
        }
    &&& s[14] == '4'
    &&& (s[19] == '8' || s[19] == '9' || s[19] == 'a' || s[19] == 'b')
}

/// Calls `uuid::Uuid::new_v4` and writes the result out as the crate's
/// `Display` does: hyphenated, in lower case. Which identifier comes back is
/// random; the contract claims only its shape, which `new_v4` fixes by setting
/// the version and variant bits and `Display` by its hyphenated layout.
#[verifier::external_body]
pub(crate) fn new_identifier() -> (id: String)
    ensures
        is_identifier(id@),
{
    uuid::Uuid::new_v4().to_string()
}

/// Calls `chrono::Utc::now` and writes the time out with
/// `DateTime::to_rfc3339`. Nothing is claimed of the result.
#[verifier::external_body]
pub(crate) fn now_timestamp() -> (now: String) {
    chrono::Utc::now().to_rfc3339()
}

/// Calls `std::time::SystemTime::now` and gives the whole seconds since the
/// Unix epoch, or nothing when the clock stands before the epoch. Nothing is
/// claimed of the result.
#[verifier::external_body]
fn seconds_since_epoch() -> (seconds: Option<u64>) {
    std::time::SystemTime::now().duration_since(std::time::UNIX_EPOCH).ok().map(|d| d.as_secs())
}

/// The current time in whole seconds since the Unix epoch; zero when the
/// clock stands before the epoch.
pub fn unix_now() -> (seconds: u64) {
    seconds_or_zero(seconds_since_epoch())
}

/// The seconds that a reading of the clock counts as: a reading before the
/// epoch, which gives nothing, counts as zero.
pub open spec fn counted_seconds(reading: Option<u64>) -> u64 {
    match reading {
        Some(seconds) => seconds,
        None => 0,
    }
}

/// The time that names are made from, given what the clock gave.
pub fn seconds_or_zero(reading: Option<u64>) -> (seconds: u64)
    ensures
        seconds == counted_seconds(reading),
{
    match reading {
        Some(seconds) => seconds,
        None => 0,
    }
}

} // verus!
