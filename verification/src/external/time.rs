//! Spans of time, from `std::time`.

use std::time::Duration;
use vstd::prelude::*;

verus! {

/// The whole seconds of a span, as `Duration::as_secs` gives them.
pub uninterp spec fn duration_secs(d: Duration) -> nat;

/// The nanoseconds of a span beyond its whole seconds, as
/// `Duration::subsec_nanos` gives them.
pub uninterp spec fn duration_subsec_nanos(d: Duration) -> nat;

/// `Duration::as_secs`: the whole seconds.
pub assume_specification[ std::time::Duration::as_secs ](d: &Duration) -> (secs: u64)
    ensures
        secs == duration_secs(*d),
;

/// `Duration::subsec_nanos`: the fraction of a second, less than one billion
/// nanoseconds.
pub assume_specification[ std::time::Duration::subsec_nanos ](d: &Duration) -> (fraction: u32)
    ensures
        fraction == duration_subsec_nanos(*d),
        fraction < 1_000_000_000,
;

/// `Duration::new`: the span of so many seconds and nanoseconds. A billion
/// nanoseconds or more would carry over into the seconds.
pub assume_specification[ std::time::Duration::new ](secs: u64, fraction: u32) -> (d: Duration)
    requires
        fraction < 1_000_000_000,
    ensures
        duration_secs(d) == secs,
        duration_subsec_nanos(d) == fraction,
;

/// The length of a span in nanoseconds.
pub open spec fn nanos(d: Duration) -> nat {
    duration_secs(d) * 1_000_000_000 + duration_subsec_nanos(d)
}

/// The length of a span in nanoseconds.
pub fn total_nanos(d: Duration) -> (n: u128)
    ensures
        n == nanos(d),
        n < 18446744073709551616 * 1_000_000_000,
{
    let secs: u64 = d.as_secs();
    let rest: u32 = d.subsec_nanos();
    secs as u128 * 1_000_000_000 + rest as u128
}

/// The span of so many nanoseconds.
pub fn from_nanos(n: u128) -> (d: Duration)
    requires
        n < 18446744073709551616 * 1_000_000_000,
    ensures
        nanos(d) == n,
{
    Duration::new((n / 1_000_000_000) as u64, (n % 1_000_000_000) as u32)
}

} // verus!
