//! The clock and the source of fresh identifiers.

use vstd::prelude::*;

verus! {

/// `chrono::Utc::now().timestamp_millis()`: the time of the call, in
/// milliseconds since the epoch. Nothing is claimed of the value. The
/// call needs a system clock that stands at or after the epoch.
#[verifier::external_body]
pub(crate) fn utc_now_millis() -> (r: i64)
{
    chrono::Utc::now().timestamp_millis()
}

/// `uuid::Uuid::new_v4()` in its hyphenated spelling: a random
/// identifier. Nothing is claimed of the value.
#[verifier::external_body]
pub(crate) fn new_uuid_v4() -> (r: String)
{
    uuid::Uuid::new_v4().to_string()
}

#[verifier::external_type_specification]
#[verifier::external_body]
pub struct ExSystemTime(std::time::SystemTime);

/// `std::time::SystemTime::now()`: the time of the call. Nothing is
/// claimed of the value.
#[verifier::external_body]
fn system_now() -> (r: std::time::SystemTime)
{
    std::time::SystemTime::now()
}

/// `SystemTime::duration_since` the Unix epoch: the time gone since the
/// epoch; `None` for a time before it. Nothing is claimed of the value.
#[verifier::external_body]
fn since_epoch(time: &std::time::SystemTime) -> (r: Option<std::time::Duration>)
{
    match time.duration_since(std::time::UNIX_EPOCH) {
        Ok(gone) => Some(gone),
        Err(_) => None,
    }
}

/// `Duration::as_secs`: the whole seconds of a span of time. Nothing is
/// claimed of the value.
#[verifier::external_body]
fn whole_seconds(span: &std::time::Duration) -> (r: u64)
{
    span.as_secs()
}

/// The whole seconds gone since the Unix epoch by the system's clock;
/// zero for a clock set before it.
pub(crate) fn unix_seconds() -> (r: u64)
{
    let now = system_now();
    match since_epoch(&now) {
        Some(gone) => whole_seconds(&gone),
        None => 0,
    }
}

/// `fastrand::usize(..n)`: a random number below `n`. The call panics on
/// an empty range, so `n` must not be zero.
#[verifier::external_body]
pub(crate) fn random_below(n: usize) -> (r: usize)
    requires
        n > 0,
    ensures
        r < n,
{
    fastrand::usize(..n)
}

/// What hashing a text writes into a hasher: the byte strings handed
/// to it by `<str as Hash>::hash`, in order.
pub uninterp spec fn str_writes(text: Seq<char>) -> Seq<Seq<u8>>;

/// `<str as std::hash::Hash>::hash` into a `DefaultHasher`: the hasher
/// has been written what `str_writes` names, after what it held.
#[verifier::external_body]
pub(crate) fn hash_str(text: &str, hasher: &mut std::collections::hash_map::DefaultHasher)
    ensures
        final(hasher)@ == old(hasher)@ + str_writes(text@),
{
    std::hash::Hash::hash(text, hasher)
}

} // verus!
