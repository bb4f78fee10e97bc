//! Deadline arithmetic: day counts turned into block heights.

use vstd::prelude::*;

verus! {

/// Seconds in a calendar day.
pub const SECONDS_PER_DAY: u64 = 86400;

/// Block time of the host ledger that the defaults are made for.
pub const SECONDS_PER_BLOCK: u64 = 6;

/// Blocks produced per day at six-second blocks.
pub const DEFAULT_BLOCKS_PER_DAY: u64 = SECONDS_PER_DAY / SECONDS_PER_BLOCK;

/// The largest block height: where a deadline would go past it, it stops there.
pub open spec fn saturate(x: int) -> int {
    if x > u64::MAX as int {
        u64::MAX as int
    } else {
        x
    }
}

/// The height at which a waiting period of `days` days, started at `start`, ends.
pub open spec fn spec_days_after(start: int, days: int, blocks_per_day: int) -> int {
    saturate(start + days * blocks_per_day)
}

/// `start + days * blocks_per_day`, saturated at the largest height.
pub fn days_after(start: u64, days: u64, blocks_per_day: u64) -> (r: u64)
    ensures
        r == spec_days_after(start as int, days as int, blocks_per_day as int),
{
    match days.checked_mul(blocks_per_day) {
        Some(span) => start.saturating_add(span),
        None => {
            assert(start + days * blocks_per_day > u64::MAX) by (nonlinear_arith)
                requires
                    days * blocks_per_day > u64::MAX,
                    start >= 0,
            ;
            u64::MAX
        },
    }
}

/// The two deadlines of a contract created at `created_at`: the end of the
/// work period, then the end of the take-action window that follows it.
pub fn deadlines(created_at: u64, work_days: u64, take_action_days: u64, blocks_per_day: u64) -> (r:
    (u64, u64))
    ensures
        r.0 == spec_days_after(created_at as int, work_days as int, blocks_per_day as int),
        r.1 == spec_days_after(r.0 as int, take_action_days as int, blocks_per_day as int),
{
    let work_deadline = days_after(created_at, work_days, blocks_per_day);
    let action_deadline = days_after(work_deadline, take_action_days, blocks_per_day);
    (work_deadline, action_deadline)
}

/// A waiting period never ends before it starts.
pub proof fn lemma_days_after_not_before(start: int, days: int, blocks_per_day: int)
    requires
        0 <= start <= u64::MAX,
        0 <= days,
        0 <= blocks_per_day,
    ensures
        start <= spec_days_after(start, days, blocks_per_day) <= u64::MAX,
{
    assert(days * blocks_per_day >= 0) by (nonlinear_arith)
        requires
            0 <= days,
            0 <= blocks_per_day,
    ;
}

/// For every creation height and every pair of day counts, the deadlines are
/// ordered: `created_at <= work_deadline <= action_deadline`.
pub proof fn lemma_deadlines_ordered(
    created_at: u64,
    work_days: u64,
    take_action_days: u64,
    blocks_per_day: u64,
)
    ensures
        ({
            let work = spec_days_after(created_at as int, work_days as int, blocks_per_day as int);
            let action = spec_days_after(work, take_action_days as int, blocks_per_day as int);
            created_at <= work <= action <= u64::MAX
        }),
{
    let work = spec_days_after(created_at as int, work_days as int, blocks_per_day as int);
    lemma_days_after_not_before(created_at as int, work_days as int, blocks_per_day as int);
    lemma_days_after_not_before(work, take_action_days as int, blocks_per_day as int);
}

} // verus!
