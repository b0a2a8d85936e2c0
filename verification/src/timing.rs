//! Timing arithmetic for the race: clock-offset calibration and per-attempt
//! schedules. All instants are UTC epoch milliseconds held in `i64`.

use vstd::prelude::*;

verus! {

/// How long before its flush instant an attempt begins pre-staging its
/// connection (milliseconds).
pub const PRESTAGE_LEAD_MS: i64 = 5000;

/// The instant at which attempt `index` flushes its request terminator:
/// the release instant, corrected by the calibrated clock offset, staggered
/// by `index` spreads.
pub open spec fn flush_at_spec(release_ms: int, offset_ms: int, index: int, spread_ms: int) -> int {
    release_ms + offset_ms + index * spread_ms
}

/// The instant at which attempt `index` begins pre-staging: a fixed lead
/// before its flush instant.
pub open spec fn prestage_at_spec(
    release_ms: int,
    offset_ms: int,
    index: int,
    spread_ms: int,
) -> int {
    flush_at_spec(release_ms, offset_ms, index, spread_ms) - PRESTAGE_LEAD_MS
}

/// The absolute instants governing one attempt: when to pre-stage the
/// connection and when to flush the withheld terminator.
#[derive(Clone, Copy, PartialEq, Eq, Structural, Debug)]
pub struct AttemptSchedule {
    pub prestage_at_ms: i64,
    pub flush_at_ms: i64,
}

impl AttemptSchedule {
    /// Every schedule pre-stages exactly the fixed lead before it flushes.
    pub open spec fn wf(self) -> bool {
        self.prestage_at_ms == self.flush_at_ms - PRESTAGE_LEAD_MS
    }
}

/// Computes attempt `index`'s schedule from the release instant, the
/// calibrated offset correction, and the configured spread.
pub fn attempt_schedule(release_ms: i64, offset_ms: i64, index: u32, spread_ms: i64) -> (s:
    AttemptSchedule)
    requires
        spread_ms >= 0,
        flush_at_spec(release_ms as int, offset_ms as int, index as int, spread_ms as int)
            <= i64::MAX,
        prestage_at_spec(release_ms as int, offset_ms as int, index as int, spread_ms as int)
            >= i64::MIN,
    ensures
        s.flush_at_ms == flush_at_spec(
            release_ms as int,
            offset_ms as int,
            index as int,
            spread_ms as int,
        ),
        s.prestage_at_ms == prestage_at_spec(
            release_ms as int,
            offset_ms as int,
            index as int,
            spread_ms as int,
        ),
        s.wf(),
{
    proof {
        assert((index as int) * (spread_ms as int) <= 0x1_0000_0000int * 0x8000_0000_0000_0000int)
            by (nonlinear_arith)
            requires
                0 <= index as int <= u32::MAX as int,
                0 <= spread_ms as int <= i64::MAX as int,
        ;
        assert((index as int) * (spread_ms as int) >= 0) by (nonlinear_arith)
            requires
                index as int >= 0,
                spread_ms as int >= 0,
        ;
    }
    let stagger: i128 = (index as i128) * (spread_ms as i128);
    let flush: i128 = release_ms as i128 + offset_ms as i128 + stagger;
    let flush_at_ms: i64 = flush as i64;
    let prestage_at_ms: i64 = (flush - PRESTAGE_LEAD_MS as i128) as i64;
    AttemptSchedule { prestage_at_ms, flush_at_ms }
}

/// With a positive spread, later attempts flush strictly later: for `i < j`,
/// attempt `i`'s flush instant lies strictly before attempt `j`'s.
pub proof fn lemma_flush_strictly_increasing(
    release_ms: int,
    offset_ms: int,
    i: int,
    j: int,
    spread_ms: int,
)
    requires
        spread_ms > 0,
        0 <= i < j,
    ensures
        flush_at_spec(release_ms, offset_ms, i, spread_ms) < flush_at_spec(
            release_ms,
            offset_ms,
            j,
            spread_ms,
        ),
{
    assert(i * spread_ms < j * spread_ms) by (nonlinear_arith)
        requires
            spread_ms > 0,
            i < j,
    ;
}

/// Every attempt pre-stages exactly the fixed lead before its flush instant.
pub proof fn lemma_prestage_leads_flush(release_ms: int, offset_ms: int, index: int, spread_ms: int)
    ensures
        prestage_at_spec(release_ms, offset_ms, index, spread_ms) == flush_at_spec(
            release_ms,
            offset_ms,
            index,
            spread_ms,
        ) - PRESTAGE_LEAD_MS,
{
}

/// Half of `d`, rounded toward zero. The calibration adjustment uses this so
/// that a round trip shorter than the assumed processing time yields the
/// mirror image of the positive case.
pub open spec fn half_toward_zero(d: int) -> int {
    if d >= 0 {
        d / 2
    } else {
        -((-d) / 2)
    }
}

/// Calibration: estimated one-way latency, half the gap between the observed
/// round trip and the server's assumed processing time. When the round trip
/// is shorter than the processing estimate the adjustment is negative, with
/// the same magnitude as the mirrored positive case.
pub fn calibration_adjustment(rtt_ms: i64, processing_ms: i64) -> (adj: i64)
    ensures
        adj == half_toward_zero(rtt_ms - processing_ms),
        rtt_ms >= processing_ms ==> adj == (rtt_ms - processing_ms) / 2,
        rtt_ms < processing_ms ==> adj == -((processing_ms - rtt_ms) / 2),
{
    if rtt_ms >= processing_ms {
        let d: i128 = rtt_ms as i128 - processing_ms as i128;
        let h: i128 = d / 2;
        h as i64
    } else {
        let d: i128 = processing_ms as i128 - rtt_ms as i128;
        let h: i128 = d / 2;
        (-h) as i64
    }
}

} // verus!
