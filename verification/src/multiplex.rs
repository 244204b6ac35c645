//! Multiplexing a four-digit display: cells that show the same pattern are lit together,
//! and when several patterns are shown they take turns.

use vstd::prelude::*;

verus! {

/// How the groups of cells are shown.
#[derive(Clone, Copy, Debug, PartialEq, Eq, Structural)]
pub enum MultiplexPlan {
    /// Nothing to light: wait with the display dark.
    Dark,
    /// One pattern: light its cells once and keep them lit.
    Steady,
    /// Several patterns: light each group in turn for the multiplex interval.
    Cycle,
}

/// The plan for `group_count` groups.
pub fn multiplex_plan(group_count: usize) -> (plan: MultiplexPlan)
    ensures
        plan == if group_count == 0 {
            MultiplexPlan::Dark
        } else if group_count == 1 {
            MultiplexPlan::Steady
        } else {
            MultiplexPlan::Cycle
        },
{
    if group_count == 0 {
        MultiplexPlan::Dark
    } else if group_count == 1 {
        MultiplexPlan::Steady
    } else {
        MultiplexPlan::Cycle
    }
}

/// The group lit after group `k` when cycling through `group_count` groups.
pub fn next_group(k: usize, group_count: usize) -> (next: usize)
    requires
        k < group_count,
    ensures
        next == if k + 1 == group_count { 0 } else { k + 1 },
        next < group_count,
{
    if k + 1 == group_count {
        0
    } else {
        k + 1
    }
}

/// A blink half started at `start_ticks` is over at `now_ticks` after `timeout` ticks.
pub fn timeout_passed(start_ticks: u64, now_ticks: u64, timeout: u64) -> (passed: bool)
    requires
        start_ticks <= now_ticks,
    ensures
        passed == (now_ticks - start_ticks >= timeout),
{
    now_ticks - start_ticks >= timeout
}

/// Cycling visits every group: starting anywhere, `group_count` steps come back.
pub proof fn cycle_visits_all(k: int, group_count: int)
    requires
        0 <= k < group_count,
    ensures
        (if k + 1 == group_count { 0 } else { k + 1 }) == (k + 1) % group_count,
{
    if k + 1 == group_count {
        vstd::arithmetic::div_mod::lemma_mod_self_0(group_count);
    } else {
        vstd::arithmetic::div_mod::lemma_small_mod((k + 1) as nat, group_count as nat);
    }
}

} // verus!
