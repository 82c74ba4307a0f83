//! Arithmetic on job progress: the completed share and the estimate of remaining time.
//!
//! All times are whole nanoseconds.

use vstd::prelude::*;

verus! {

/// Nanoseconds in one second.
pub const NANOS_PER_SEC: u64 = 1_000_000_000;

/// The longest estimate that is still shown: one hour, in nanoseconds.
pub const ETA_LIMIT_NANOS: u64 = 3_600_000_000_000;

/// The share `current / total` in tenths of a percent, rounded to the nearest tenth
/// (halves upwards) and capped at 1000. A `total` of zero counts as one nanosecond.
pub open spec fn percent_tenths_of(current: nat, total: nat) -> nat {
    let whole: nat = if total == 0 { 1 } else { total };
    let rounded = (2000 * current + whole) / (2 * whole);
    if rounded > 1000 { 1000 } else { rounded as nat }
}

/// Whether enough of the job is done for an estimate: at least one percent of `total`.
pub open spec fn estimate_ready(current: nat, total: nat) -> bool {
    100 * current >= total
}

/// Whether the extrapolated remaining time `elapsed * (total / current - 1)` is more
/// than the limit. Stated without division: both sides are multiplied by `current`.
/// With nothing left to do (`current >= total`) the remaining time is zero.
pub open spec fn estimate_too_long(elapsed: nat, current: nat, total: nat) -> bool {
    current < total && elapsed * (total - current) > ETA_LIMIT_NANOS as nat * current
}

/// The remaining time in nanoseconds, rounded down; zero when nothing is left to do.
pub open spec fn remaining_nanos_of(elapsed: nat, current: nat, total: nat) -> nat {
    if current == 0 || current >= total {
        0
    } else {
        (elapsed * (total - current) / current as int) as nat
    }
}

/// The estimate that is shown, in whole seconds, or `None` where none is shown.
pub open spec fn eta_secs_of(elapsed: nat, current: nat, total: nat) -> Option<nat> {
    if !estimate_ready(current, total) || estimate_too_long(elapsed, current, total) {
        None
    } else {
        Some(remaining_nanos_of(elapsed, current, total) / NANOS_PER_SEC as nat)
    }
}

/// Computes the completed share in tenths of a percent.
pub fn percent_tenths(current: u64, total: u64) -> (tenths: u64)
    ensures
        tenths == percent_tenths_of(current as nat, total as nat),
        tenths <= 1000,
{
    let whole: u128 = if total == 0 { 1 } else { total as u128 };
    let rounded: u128 = (2000 * (current as u128) + whole) / (2 * whole);
    if rounded > 1000 {
        1000
    } else {
        rounded as u64
    }
}

/// Computes the estimate of remaining time in whole seconds, if one is to be shown.
pub fn eta_secs(elapsed: u64, current: u64, total: u64) -> (eta: Option<u64>)
    ensures
        eta.is_some() == eta_secs_of(elapsed as nat, current as nat, total as nat).is_some(),
        eta matches Some(secs) ==> Some(secs as nat) == eta_secs_of(
            elapsed as nat,
            current as nat,
            total as nat,
        ),
{
    if 100 * (current as u128) < total as u128 {
        return None;
    }
    if current == 0 || current >= total {
        return Some(0);
    }
    let left: u128 = (total - current) as u128;
    assert(elapsed as u128 * left <= u64::MAX as u128 * u64::MAX as u128) by (nonlinear_arith)
        requires
            elapsed as u128 <= u64::MAX as u128,
            left <= u64::MAX as u128,
    ;
    let scaled: u128 = elapsed as u128 * left;
    let bound: u128 = ETA_LIMIT_NANOS as u128 * (current as u128);
    if scaled > bound {
        return None;
    }
    let remaining: u128 = scaled / (current as u128);
    assert(remaining <= ETA_LIMIT_NANOS as u128) by (nonlinear_arith)
        requires
            scaled <= ETA_LIMIT_NANOS as u128 * (current as u128),
            remaining == scaled / (current as u128),
            current > 0,
    ;
    Some((remaining / (NANOS_PER_SEC as u128)) as u64)
}

/// The share shown is never above one hundred percent, whatever `current` and `total`
/// are, `current > total` and `total == 0` included.
pub proof fn lemma_percent_in_range(current: nat, total: nat)
    ensures
        0 <= percent_tenths_of(current, total) <= 1000,
{
}

/// A job that is done, or whose expected length is zero, shows one hundred percent as
/// soon as any progress is seen; a job without progress shows zero.
pub proof fn lemma_percent_endpoints(current: nat, total: nat)
    ensures
        current == 0 ==> percent_tenths_of(current, total) == 0,
        current > 0 && current >= total ==> percent_tenths_of(current, total) == 1000,
{
    let whole: nat = if total == 0 { 1 } else { total };
    if current == 0 {
        assert((2000 * current + whole) / (2 * whole) == 0) by (nonlinear_arith)
            requires
                current == 0,
                whole > 0,
        ;
    }
    if current > 0 && current >= total {
        assert((2000 * current + whole) / (2 * whole) >= 1000) by (nonlinear_arith)
            requires
                current >= whole,
                whole > 0,
        ;
    }
}

/// More progress never shows a smaller share of the same total.
pub proof fn lemma_percent_monotonic(earlier: nat, later: nat, total: nat)
    requires
        earlier <= later,
    ensures
        percent_tenths_of(earlier, total) <= percent_tenths_of(later, total),
{
    let whole: nat = if total == 0 { 1 } else { total };
    assert((2000 * earlier + whole) / (2 * whole) <= (2000 * later + whole) / (2 * whole))
        by (nonlinear_arith)
        requires
            earlier <= later,
            whole > 0,
    ;
}

/// An estimate is shown only once at least one percent of the total is done, and only
/// while the extrapolated remaining time is at most one hour; what is shown is then
/// that remaining time in whole seconds.
pub proof fn lemma_eta_only_when_reliable(elapsed: nat, current: nat, total: nat)
    ensures
        100 * current < total ==> eta_secs_of(elapsed, current, total).is_none(),
        current < total && elapsed * (total - current) > ETA_LIMIT_NANOS as nat * current
            ==> eta_secs_of(elapsed, current, total).is_none(),
        eta_secs_of(elapsed, current, total) matches Some(secs) ==> {
            &&& 100 * current >= total
            &&& remaining_nanos_of(elapsed, current, total) <= ETA_LIMIT_NANOS
            &&& secs <= 3600
            &&& secs == remaining_nanos_of(elapsed, current, total) / NANOS_PER_SEC as nat
        },
{
    if eta_secs_of(elapsed, current, total).is_some() {
        let remaining = remaining_nanos_of(elapsed, current, total);
        if current > 0 && current < total {
            let scaled = elapsed * (total - current);
            assert(scaled / current as int <= ETA_LIMIT_NANOS as int) by (nonlinear_arith)
                requires
                    scaled <= ETA_LIMIT_NANOS as nat * current,
                    current > 0,
            ;
        }
        assert(remaining <= ETA_LIMIT_NANOS);
    }
}

} // verus!
