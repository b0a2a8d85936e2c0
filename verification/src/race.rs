//! The race as a whole: the per-attempt schedules for one race, and the
//! aggregation of all attempt outcomes into one result.

use crate::attempt::AttemptOutcome;
use crate::timing::{attempt_schedule, flush_at_spec, prestage_at_spec, AttemptSchedule};
use vstd::prelude::*;

verus! {

/// Attempts per ordinary race.
pub const REGULAR_SNIPE_REQS: u8 = 2;

/// Attempts per bulk ("general catalog") race, the contested variant.
pub const GC_SNIPE_REQS: u8 = 6;

/// Computes the schedule of every attempt of one race: attempt `i` flushes
/// at the corrected release instant staggered by `i` spreads, and
/// pre-stages the fixed lead earlier.
pub fn build_plan(release_ms: i64, offset_ms: i64, count: u32, spread_ms: i64) -> (plan: Vec<
    AttemptSchedule,
>)
    requires
        count >= 1,
        spread_ms >= 0,
        flush_at_spec(release_ms as int, offset_ms as int, count - 1, spread_ms as int)
            <= i64::MAX,
        prestage_at_spec(release_ms as int, offset_ms as int, 0, spread_ms as int) >= i64::MIN,
    ensures
        plan@.len() == count,
        forall|i: int|
            0 <= i < count ==> #[trigger] plan@[i].flush_at_ms == flush_at_spec(
                release_ms as int,
                offset_ms as int,
                i,
                spread_ms as int,
            ) && plan@[i].prestage_at_ms == prestage_at_spec(
                release_ms as int,
                offset_ms as int,
                i,
                spread_ms as int,
            ),
{
    let mut plan: Vec<AttemptSchedule> = Vec::new();
    let mut idx: u32 = 0;
    while idx < count
        invariant
            idx <= count,
            count >= 1,
            spread_ms >= 0,
            flush_at_spec(release_ms as int, offset_ms as int, count - 1, spread_ms as int)
                <= i64::MAX,
            prestage_at_spec(release_ms as int, offset_ms as int, 0, spread_ms as int)
                >= i64::MIN,
            plan@.len() == idx,
            forall|i: int|
                0 <= i < idx ==> #[trigger] plan@[i].flush_at_ms == flush_at_spec(
                    release_ms as int,
                    offset_ms as int,
                    i,
                    spread_ms as int,
                ) && plan@[i].prestage_at_ms == prestage_at_spec(
                    release_ms as int,
                    offset_ms as int,
                    i,
                    spread_ms as int,
                ),
        decreases count - idx,
    {
        proof {
            assert((idx as int) * (spread_ms as int) <= (count - 1) * (spread_ms as int))
                by (nonlinear_arith)
                requires
                    0 <= idx as int <= count - 1,
                    spread_ms >= 0,
            ;
            assert((idx as int) * (spread_ms as int) >= 0) by (nonlinear_arith)
                requires
                    idx as int >= 0,
                    spread_ms >= 0,
            ;
        }
        let s = attempt_schedule(release_ms, offset_ms, idx, spread_ms);
        plan.push(s);
        idx = idx + 1;
    }
    plan
}

/// A race succeeds exactly when some attempt succeeded.
pub open spec fn race_success_spec(outcomes: Seq<AttemptOutcome>) -> bool {
    exists|i: int| 0 <= i < outcomes.len() && outcomes[i].success
}

/// Aggregates all attempt outcomes of one race: true exactly when at least
/// one attempt succeeded, false when every attempt failed, was abandoned,
/// or saw a status other than the accepted one.
pub fn race_result(outcomes: &Vec<AttemptOutcome>) -> (r: bool)
    ensures
        r == race_success_spec(outcomes@),
{
    let mut i: usize = 0;
    let mut found = false;
    while i < outcomes.len()
        invariant
            i <= outcomes.len(),
            found == race_success_spec(outcomes@.take(i as int)),
        decreases outcomes.len() - i,
    {
        let ghost prefix = outcomes@.take(i as int);
        if outcomes[i].success {
            found = true;
        }
        proof {
            assert(outcomes@.take(i + 1).drop_last() =~= prefix);
            assert(outcomes@.take(i + 1).last() == outcomes@[i as int]);
            if found {
                if outcomes@[i as int].success {
                    assert(outcomes@.take(i + 1)[i as int].success);
                } else {
                    let j = choose|j: int| 0 <= j < prefix.len() && prefix[j].success;
                    assert(outcomes@.take(i + 1)[j].success);
                }
            } else {
                assert(forall|j: int|
                    0 <= j < i + 1 ==> outcomes@.take(i + 1)[j] == #[trigger] outcomes@[j]);
            }
        }
        i = i + 1;
    }
    proof {
        assert(outcomes@.take(outcomes@.len() as int) =~= outcomes@);
    }
    found
}

/// The race result is a pure, order-independent disjunction: two outcome
/// sequences holding the same outcomes, in whatever order, aggregate to the
/// same result.
pub proof fn lemma_race_result_order_independent(a: Seq<AttemptOutcome>, b: Seq<AttemptOutcome>)
    requires
        a.to_multiset() == b.to_multiset(),
    ensures
        race_success_spec(a) == race_success_spec(b),
{
    a.to_multiset_ensures();
    b.to_multiset_ensures();
    if race_success_spec(a) {
        let i = choose|i: int| 0 <= i < a.len() && a[i].success;
        assert(a.contains(a[i]));
        assert(b.to_multiset().count(a[i]) > 0);
        assert(b.contains(a[i]));
        let j = choose|j: int| 0 <= j < b.len() && b[j] == a[i];
        assert(b[j].success);
    }
    if race_success_spec(b) {
        let i = choose|i: int| 0 <= i < b.len() && b[i].success;
        assert(b.contains(b[i]));
        assert(a.to_multiset().count(b[i]) > 0);
        assert(a.contains(b[i]));
        let j = choose|j: int| 0 <= j < a.len() && a[j] == b[i];
        assert(a[j].success);
    }
}

} // verus!
