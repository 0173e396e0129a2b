//! Instants and rates.
//!
//! An instant is a reading, in microseconds, of a clock that never runs
//! backwards. The library never reads the clock itself.

use vstd::prelude::*;

verus! {

/// Time elapsed from `earlier` to `later`; zero if `later` is not later.
pub open spec fn elapsed_between(earlier: u64, later: u64) -> nat {
    if later >= earlier {
        (later - earlier) as nat
    } else {
        0
    }
}

/// `count` events over `elapsed_us` microseconds as a rate in hundredths of
/// an event per second, rounded down; zero when no time has elapsed.
pub open spec fn rate_per_second_x100(count: nat, elapsed_us: nat) -> nat {
    if elapsed_us == 0 {
        0
    } else {
        count * 100_000_000 / elapsed_us
    }
}

/// Time elapsed from `earlier` to `later`; zero if `later` is not later.
pub fn elapsed(earlier: u64, later: u64) -> (d: u64)
    ensures
        d == elapsed_between(earlier, later),
{
    if later >= earlier {
        later - earlier
    } else {
        0
    }
}

/// `count` events over `elapsed_us` microseconds as a rate in hundredths of
/// an event per second, rounded down; zero when no time has elapsed.
pub fn rate_x100(count: u64, elapsed_us: u64) -> (rate: u128)
    ensures
        rate == rate_per_second_x100(count as nat, elapsed_us as nat),
{
    if elapsed_us == 0 {
        0
    } else {
        count as u128 * 100_000_000 / (elapsed_us as u128)
    }
}

} // verus!
