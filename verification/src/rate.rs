//! The halve-or-reset rule for the blink half-period.

use vstd::prelude::*;

verus! {

/// Half-period stored at startup and restored by a reset, in milliseconds.
pub const DEFAULT_PERIOD_MS: u32 = 2000;

/// Halving never produces a period below this floor, in milliseconds.
pub const PERIOD_FLOOR_MS: u32 = 50;

/// Fixed delay that absorbs mechanical contact bounce, in milliseconds.
pub const DEBOUNCE_MS: u32 = 200;

/// The rule applied on every registered press: halve the period (integer
/// division), and reset to the default once the half would fall below the
/// floor.
pub open spec fn spec_next_period(v: u32) -> u32 {
    if v / 2 < PERIOD_FLOOR_MS {
        DEFAULT_PERIOD_MS
    } else {
        v / 2
    }
}

/// The period reached from `v` after `n` registered presses.
pub open spec fn spec_period_after(v: u32, n: nat) -> u32
    decreases n,
{
    if n == 0 {
        v
    } else {
        spec_next_period(spec_period_after(v, (n - 1) as nat))
    }
}

/// Halve the period, resetting to the default when the result would drop
/// below the floor.
pub fn next_period(v: u32) -> (r: u32)
    ensures
        r == spec_next_period(v),
        v / 2 < PERIOD_FLOOR_MS ==> r == DEFAULT_PERIOD_MS,
        v / 2 >= PERIOD_FLOOR_MS ==> r == v / 2,
        r >= PERIOD_FLOOR_MS,
{
    let half: u32 = v / 2;
    if half < PERIOD_FLOOR_MS {
        DEFAULT_PERIOD_MS
    } else {
        half
    }
}

/// Floor law: whenever halving would fall below the floor the next period is
/// exactly the default — never a value between zero and the floor.
pub proof fn lemma_period_floor(v: u32)
    ensures
        v / 2 < PERIOD_FLOOR_MS ==> spec_next_period(v) == DEFAULT_PERIOD_MS,
        spec_next_period(v) >= PERIOD_FLOOR_MS,
{
}

/// Halving-cycle law: starting from the default, repeated presses visit
/// 2000, 1000, 500, 250, 125, 62 and then repeat, cyclic with period six.
pub proof fn lemma_halving_cycle(n: nat)
    ensures
        spec_period_after(DEFAULT_PERIOD_MS, 0) == 2000,
        spec_period_after(DEFAULT_PERIOD_MS, 1) == 1000,
        spec_period_after(DEFAULT_PERIOD_MS, 2) == 500,
        spec_period_after(DEFAULT_PERIOD_MS, 3) == 250,
        spec_period_after(DEFAULT_PERIOD_MS, 4) == 125,
        spec_period_after(DEFAULT_PERIOD_MS, 5) == 62,
        spec_period_after(DEFAULT_PERIOD_MS, n + 6) == spec_period_after(DEFAULT_PERIOD_MS, n),
    decreases n,
{
    assert(spec_period_after(DEFAULT_PERIOD_MS, 6) == 2000) by {
        reveal_with_fuel(spec_period_after, 7);
    }
    if n > 0 {
        lemma_halving_cycle((n - 1) as nat);
        assert(spec_period_after(DEFAULT_PERIOD_MS, n + 6)
            == spec_next_period(spec_period_after(DEFAULT_PERIOD_MS, (n - 1) as nat + 6)));
    }
}

} // verus!
