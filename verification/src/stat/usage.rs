//! The CPU usage estimate: what two counter snapshots say about the time between them.

use crate::stat::CpuUsageInfo;
use vstd::prelude::*;

verus! {

/// Ticks of every kind that passed between `prev` and `current`.
pub open spec fn total_delta(current: CpuUsageInfo, prev: CpuUsageInfo) -> int {
    current.total() - prev.total()
}

/// Idle ticks that passed between `prev` and `current`.
pub open spec fn idle_delta(current: CpuUsageInfo, prev: CpuUsageInfo) -> int {
    current.idle - prev.idle
}

/// Ticks that passed between `prev` and `current` and were not idle.
pub open spec fn used_delta(current: CpuUsageInfo, prev: CpuUsageInfo) -> int {
    total_delta(current, prev) - idle_delta(current, prev)
}

/// The integer nearest to `num / den`, a tie going away from zero.
pub open spec fn round_half_away(num: int, den: int) -> int
    recommends
        num >= 0,
        den > 0,
{
    (2 * num + den) / (2 * den)
}

/// The share of the elapsed ticks that was not idle, in hundredths of a percent,
/// rounded once. Zero unless both the elapsed and the used ticks are positive.
pub open spec fn usage_hundredths(current: CpuUsageInfo, prev: CpuUsageInfo) -> int {
    let used = used_delta(current, prev);
    let total = total_delta(current, prev);
    if used > 0 && total > 0 {
        round_half_away(used * 10000, total)
    } else {
        0
    }
}

/// Two identical snapshots give a usage of zero.
pub proof fn lemma_identical_snapshots(x: CpuUsageInfo)
    ensures
        usage_hundredths(x, x) == 0,
{
}

/// Where no tick passed, or none was used, or a counter went back so that either
/// difference is not positive, the usage is exactly zero.
pub proof fn lemma_degenerate_pair(current: CpuUsageInfo, prev: CpuUsageInfo)
    requires
        total_delta(current, prev) <= 0 || used_delta(current, prev) <= 0,
    ensures
        usage_hundredths(current, prev) == 0,
{
}

/// For a pair with elapsed and used ticks the usage is the exact percentage rounded to
/// the nearest hundredth: it is off by at most half a hundredth, and a value exactly
/// between two hundredths goes to the upper one.
pub proof fn lemma_rounded_to_hundredths(current: CpuUsageInfo, prev: CpuUsageInfo)
    requires
        total_delta(current, prev) > 0,
        used_delta(current, prev) > 0,
    ensures
        usage_hundredths(current, prev) >= 0,
        2 * (usage_hundredths(current, prev) * total_delta(current, prev)) <= 2 * (10000
            * used_delta(current, prev)) + total_delta(current, prev),
        2 * (10000 * used_delta(current, prev)) - total_delta(current, prev) < 2 * (
        usage_hundredths(current, prev) * total_delta(current, prev)),
{
    let used = used_delta(current, prev);
    let total = total_delta(current, prev);
    let h = usage_hundredths(current, prev);
    let num = 2 * (used * 10000) + total;
    let den = 2 * total;
    assert(h == num / den);
    vstd::arithmetic::div_mod::lemma_fundamental_div_mod(num, den);
    vstd::arithmetic::div_mod::lemma_mod_bound(num, den);
    assert(num == den * h + num % den);
    assert(den * h == 2 * (h * total)) by (nonlinear_arith)
        requires
            den == 2 * total,
    ;
    assert(h >= 0) by (nonlinear_arith)
        requires
            num >= 0,
            den > 0,
            h == num / den,
    ;
}

/// For a pair with elapsed and used ticks whose idle counter did not go back, the
/// usage lies between 0 and 100 percent.
pub proof fn lemma_within_hundred_percent(current: CpuUsageInfo, prev: CpuUsageInfo)
    requires
        total_delta(current, prev) > 0,
        used_delta(current, prev) > 0,
        idle_delta(current, prev) >= 0,
    ensures
        0 <= usage_hundredths(current, prev) <= 10000,
{
    let used = used_delta(current, prev);
    let total = total_delta(current, prev);
    let h = usage_hundredths(current, prev);
    lemma_rounded_to_hundredths(current, prev);
    assert(h <= 10000) by (nonlinear_arith)
        requires
            0 < used <= total,
            2 * (h * total) <= 2 * (10000 * used) + total,
    ;
}

/// The estimate takes `current` minus `prev`: for a pair with elapsed ticks, the
/// same pair in the other order gives zero, which differs from every positive usage.
pub proof fn lemma_swapped_pair(current: CpuUsageInfo, prev: CpuUsageInfo)
    requires
        total_delta(current, prev) > 0,
    ensures
        usage_hundredths(prev, current) == 0,
        usage_hundredths(current, prev) > 0 ==> usage_hundredths(prev, current)
            != usage_hundredths(current, prev),
{
}

} // verus!
