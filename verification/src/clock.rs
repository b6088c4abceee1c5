use vstd::prelude::*;

verus! {

/// Calls `uuid::Uuid::new_v4` and returns the UUID as a 128-bit integer.
/// The value is random; the crate's source sets the version nibble to 4 and
/// the RFC 4122 variant bits to `10`, which is all that is claimed of it.
#[verifier::external_body]
fn random_uuid() -> (r: u128)
    ensures
        (r >> 76u128) & 0xfu128 == 4u128,
        (r >> 62u128) & 0x3u128 == 2u128,
{
    uuid::Uuid::new_v4().as_u128()
}

/// Reads the system clock with `std::time::SystemTime::now`, converts it by
/// `chrono::DateTime::<Utc>::from` (which, unlike `Utc::now`, also accepts a
/// clock set before the Unix epoch) and returns its `timestamp` (whole
/// seconds since the epoch, negative before it) and `timestamp_subsec_nanos`.
/// The clock is read, so nothing ties the value to the arguments; chrono's
/// times keep their nanosecond part below two billion (a leap second reaches
/// past one billion), which is all that is claimed. The conversion fails
/// (and panics) only for a clock more than about 262,000 years away from the
/// epoch, outside chrono's calendar.
#[verifier::external_body]
fn utc_now_parts() -> (r: (i64, u32))
    ensures
        r.1 < 2_000_000_000,
{
    let t = chrono::DateTime::<chrono::Utc>::from(std::time::SystemTime::now());
    (t.timestamp(), t.timestamp_subsec_nanos())
}

/// A fresh random identifier (a version 4 UUID as an integer).
pub fn fresh_id() -> (r: u128)
    ensures
        (r >> 76u128) & 0xfu128 == 4u128,
        (r >> 62u128) & 0x3u128 == 2u128,
{
    random_uuid()
}

/// Nanoseconds since the Unix epoch, read from the system clock (negative
/// for a clock set before the epoch).
pub fn now_nanos() -> (r: i128)
    ensures
        i64::MIN as int * 1_000_000_000 <= r < (i64::MAX as int + 1) * 1_000_000_000 + 1_000_000_000,
{
    let (secs, nanos) = utc_now_parts();
    let s: i128 = secs as i128;
    assert(i64::MIN as int * 1_000_000_000 <= s * 1_000_000_000 <= i64::MAX as int * 1_000_000_000) by (nonlinear_arith)
        requires
            i64::MIN <= s <= i64::MAX,
    ;
    s * 1_000_000_000 + nanos as i128
}

} // verus!
