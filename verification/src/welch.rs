//! Welch averaging plan: consecutive per-segment spectra are grouped `k` at a
//! time and each group is averaged elementwise, trading time resolution for
//! variance. Averaging is active only when `1 < k <= numSegments`; otherwise
//! the spectra pass through one group each.

use vstd::prelude::*;

verus! {

/// Whether a grouping factor takes effect over `ns` segments.
pub open spec fn welch_active(factor: Option<usize>, ns: int) -> bool {
    match factor {
        Some(k) => 1 < k <= ns,
        None => false,
    }
}

/// The number of output groups: the ceiling of `ns / k` when averaging is
/// active, else one group per segment.
pub open spec fn spec_group_count(factor: Option<usize>, ns: int) -> int {
    if welch_active(factor, ns) {
        (ns - 1) / (factor->Some_0 as int) + 1
    } else {
        ns
    }
}

/// How many original segments' worth of time one output row spans: `k` when
/// averaging is active, else 1.
pub open spec fn spec_time_multiplier(factor: Option<usize>, ns: int) -> int {
    if welch_active(factor, ns) {
        factor->Some_0 as int
    } else {
        1
    }
}

/// Decides whether the configured grouping factor takes effect.
pub fn is_welch_active(factor: Option<usize>, ns: usize) -> (r: bool)
    ensures
        r == welch_active(factor, ns as int),
{
    match factor {
        Some(k) => 1 < k && k <= ns,
        None => false,
    }
}

/// Counts the output groups.
pub fn group_count(factor: Option<usize>, ns: usize) -> (r: usize)
    ensures
        r == spec_group_count(factor, ns as int),
        r <= ns,
        ns >= 1 ==> r >= 1,
{
    match factor {
        Some(k) => {
            if 1 < k && k <= ns {
                proof {
                    assert((ns - 1) / (k as int) <= ns - 1) by (nonlinear_arith)
                        requires
                            k >= 1,
                            ns >= 1,
                    ;
                }
                (ns - 1) / k + 1
            } else {
                ns
            }
        },
        None => ns,
    }
}

/// The grouping is the ceiling partition: all groups but possibly the last
/// are full, the last is never empty, and the groups cover the segments
/// exactly once in order.
pub proof fn lemma_welch_partition(k: int, ns: int)
    by (nonlinear_arith)
    requires
        1 < k <= ns,
    ensures
        ((ns - 1) / k + 1 - 1) * k < ns <= ((ns - 1) / k + 1) * k,
        forall|i: int|
            0 <= i < (ns - 1) / k ==> #[trigger] (i * k) + k <= ns,
{
}

/// The half-open range of original segment indices one output group covers:
/// group `i` holds segments `[i * k, min(i * k + k, ns))`, never empty,
/// short only in the final group.
pub fn group_bounds(k: usize, ns: usize, i: usize) -> (r: (usize, usize))
    requires
        1 < k <= ns,
        i < spec_group_count(Some(k), ns as int),
    ensures
        r.0 == i * k,
        r.1 == if i * k + k <= ns {
            i * k + k
        } else {
            ns as int
        },
        r.0 < r.1 <= ns,
        r.1 - r.0 <= k,
        i < spec_group_count(Some(k), ns as int) - 1 ==> r.1 == i * k + k,
        i == spec_group_count(Some(k), ns as int) - 1 ==> r.1 == ns,
{
    proof {
        let g = spec_group_count(Some(k), ns as int);
        assert(g == (ns - 1) / (k as int) + 1);
        assert((i as int) * (k as int) <= ns - 1 && ((g - 1) * (k as int) < ns) && (i < g - 1
            ==> (i as int) * (k as int) + k <= ns - 1) && (i == g - 1 ==> ns <= (i as int) * (
        k as int) + k)) by (nonlinear_arith)
            requires
                1 < k <= ns,
                0 <= i < g,
                g == (ns - 1) / (k as int) + 1,
        ;
    }
    let start = i * k;
    let end = if ns - start > k {
        start + k
    } else {
        ns
    };
    (start, end)
}

} // verus!
