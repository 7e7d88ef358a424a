use rand::Rng;
use vstd::prelude::*;

verus! {

/// Bound on any Unix timestamp of a date that the `time` crate represents: its
/// years stay within a million years of the epoch.
pub const TIMESTAMP_BOUND: i64 = 40_000_000_000_000;

/// Earliest timestamp that `time` turns into a date in every configuration
/// (the first second of the year -9999).
pub const MIN_DATE_TIMESTAMP: i64 = -377_705_116_800;

/// Latest timestamp that `time` turns into a date in every configuration
/// (the last second of the year 9999).
pub const MAX_DATE_TIMESTAMP: i64 = 253_402_300_799;

pub open spec fn is_ascii_alphanumeric(c: char) -> bool {
    ('a' <= c && c <= 'z') || ('A' <= c && c <= 'Z') || ('0' <= c && c <= '9')
}

/// The text that `time` displays for the UTC date of a timestamp.
pub uninterp spec fn timestamp_text(ts: i64) -> Seq<char>;

/// Relies on time::OffsetDateTime::now_utc and OffsetDateTime::unix_timestamp:
/// the current time in whole seconds since the epoch, which, being the
/// timestamp of a representable date, lies within `TIMESTAMP_BOUND`.
#[verifier::external_body]
pub(crate) fn now_unix() -> (r: i64)
    ensures
        -TIMESTAMP_BOUND <= r <= TIMESTAMP_BOUND,
{
    time::OffsetDateTime::now_utc().unix_timestamp()
}

/// Relies on time::OffsetDateTime::from_unix_timestamp and its Display impl:
/// a timestamp within the years -9999 to 9999 always converts; the text
/// depends on the timestamp alone.
#[verifier::external_body]
pub(crate) fn date_text(ts: i64) -> (r: Option<String>)
    ensures
        MIN_DATE_TIMESTAMP <= ts <= MAX_DATE_TIMESTAMP ==> r is Some,
        r is Some ==> r->0@ == timestamp_text(ts),
{
    time::OffsetDateTime::from_unix_timestamp(ts).ok().map(|d| d.to_string())
}

/// Relies on rand::thread_rng sampling rand::distributions::Alphanumeric:
/// `len` characters, each an ASCII letter or digit.
#[verifier::external_body]
pub(crate) fn random_alphanumeric(len: usize) -> (r: String)
    ensures
        r@.len() == len,
        forall|i: int| 0 <= i < r@.len() ==> is_ascii_alphanumeric(#[trigger] r@[i]),
{
    rand::thread_rng().sample_iter(&rand::distributions::Alphanumeric).take(len).map(
        char::from,
    ).collect()
}

} // verus!
