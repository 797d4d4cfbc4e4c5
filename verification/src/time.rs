//! Instants and spans of wall-clock time.
//!
//! An instant is a number of nanoseconds relative to the Unix epoch (negative
//! before it) and a span is a non-negative number of nanoseconds. The bounds
//! below are those of a platform `SystemTime` (whole seconds in an `i64`) and
//! of a `Duration` (whole seconds in a `u64`); the arithmetic here answers as
//! the checked operations on those types do.
use vstd::prelude::*;

verus! {

/// Nanoseconds in one second.
pub const NANOS_PER_SEC: u128 = 1_000_000_000;

/// The earliest representable instant.
pub open spec fn min_time() -> int {
    -9_223_372_036_854_775_808_000_000_000
}

/// The latest representable instant.
pub open spec fn max_time() -> int {
    9_223_372_036_854_775_807_999_999_999
}

/// The largest representable span.
pub open spec fn max_duration() -> int {
    18_446_744_073_709_551_615_999_999_999
}

/// Whether an integer is a representable instant.
pub open spec fn time_in_range(t: int) -> bool {
    min_time() <= t <= max_time()
}

/// The answer of a checked operation whose exact result is `t`.
pub open spec fn checked_time(t: int) -> Option<i128> {
    if time_in_range(t) {
        Some(t as i128)
    } else {
        None
    }
}

/// The instant `whole_secs` seconds after the epoch.
pub fn time_from_secs(whole_secs: i64) -> (t: i128)
    ensures
        t == whole_secs * 1_000_000_000,
        time_in_range(t as int),
{
    whole_secs as i128 * 1_000_000_000i128
}

/// A span of `whole_secs` seconds.
pub fn duration_from_secs(whole_secs: u64) -> (d: u128)
    ensures
        d == whole_secs * 1_000_000_000,
        d <= max_duration(),
{
    whole_secs as u128 * NANOS_PER_SEC
}

/// `t + d`, or `None` where the sum is no representable instant
/// (`SystemTime::checked_add`).
pub fn checked_add_time(t: i128, d: u128) -> (r: Option<i128>)
    ensures
        r == checked_time(t + d),
{
    if t > 9_223_372_036_854_775_807_999_999_999i128 {
        return None;
    }
    if t >= 0 {
        if d > 9_223_372_036_854_775_807_999_999_999u128 {
            return None;
        }
        let sum = t + d as i128;
        if sum <= 9_223_372_036_854_775_807_999_999_999i128 {
            Some(sum)
        } else {
            None
        }
    } else {
        // t < 0, so -t is at most 2^127 and fits in a u128.
        let neg: u128 = (-(t + 1)) as u128 + 1;
        if d >= neg {
            let sum: u128 = d - neg;
            if sum <= 9_223_372_036_854_775_807_999_999_999u128 {
                Some(sum as i128)
            } else {
                None
            }
        } else {
            let below: u128 = neg - d;
            if below <= 9_223_372_036_854_775_808_000_000_000u128 {
                Some(-(below as i128))
            } else {
                None
            }
        }
    }
}

/// `t - d`, or `None` where the difference is no representable instant
/// (`SystemTime::checked_sub`).
pub fn checked_sub_time(t: i128, d: u128) -> (r: Option<i128>)
    ensures
        r == checked_time(t - d),
{
    if t < -9_223_372_036_854_775_808_000_000_000i128 {
        return None;
    }
    if t <= 0 {
        if d > 9_223_372_036_854_775_808_000_000_000u128 {
            return None;
        }
        let diff = t - d as i128;
        if diff >= -9_223_372_036_854_775_808_000_000_000i128 {
            Some(diff)
        } else {
            None
        }
    } else {
        let pos: u128 = t as u128;
        if d <= pos {
            let diff: u128 = pos - d;
            if diff <= 9_223_372_036_854_775_807_999_999_999u128 {
                Some(diff as i128)
            } else {
                None
            }
        } else {
            let below: u128 = d - pos;
            if below <= 9_223_372_036_854_775_808_000_000_000u128 {
                Some(-(below as i128))
            } else {
                None
            }
        }
    }
}

/// `t - d`, or the epoch where that is no representable instant.
pub fn saturating_sub_system_time(t: i128, d: u128) -> (r: i128)
    ensures
        r == (if time_in_range(t - d) { t - d } else { 0 }),
{
    match checked_sub_time(t, d) {
        Some(v) => v,
        None => 0,
    }
}

/// `later - earlier` when `later` is not before `earlier`
/// (`SystemTime::duration_since`), else `None`.
pub fn duration_since(later: i128, earlier: i128) -> (r: Option<u128>)
    ensures
        r == (if later >= earlier { Some((later - earlier) as u128) } else { None::<u128> }),
{
    if later < earlier {
        return None;
    }
    if earlier >= 0 || later < 0 {
        Some((later - earlier) as u128)
    } else {
        let neg: u128 = (-(earlier + 1)) as u128 + 1;
        Some(later as u128 + neg)
    }
}

/// `later - earlier`, or zero where `later` is before `earlier`.
pub fn duration_since_or_zero(later: i128, earlier: i128) -> (r: u128)
    ensures
        r == (if later >= earlier { later - earlier } else { 0 }),
{
    match duration_since(later, earlier) {
        Some(d) => d,
        None => 0,
    }
}

/// The earlier of two optional instants; an absent side gives way to the other.
pub open spec fn spec_earliest(lhs: Option<i128>, rhs: Option<i128>) -> Option<i128> {
    match (lhs, rhs) {
        (Some(l), Some(r)) => Some(if l <= r { l } else { r }),
        (Some(l), None) => Some(l),
        (None, Some(r)) => Some(r),
        (None, None) => None,
    }
}

/// The earlier of two optional instants.
pub fn earliest_system_time(lhs: Option<i128>, rhs: Option<i128>) -> (r: Option<i128>)
    ensures
        r == spec_earliest(lhs, rhs),
{
    match (lhs, rhs) {
        (Some(l), Some(r)) => Some(if l <= r { l } else { r }),
        (Some(l), None) => Some(l),
        (None, Some(r)) => Some(r),
        (None, None) => None,
    }
}

/// The later of two instants; ties give the left one.
pub fn latest_received_at(left: i128, right: i128) -> (r: i128)
    ensures
        r == (if left >= right { left } else { right }),
{
    if left >= right { left } else { right }
}

} // verus!
