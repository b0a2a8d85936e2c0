use buckshot::attempt::{
    abandoned_outcome, step, AttemptAction, AttemptEvent, AttemptOutcome, AttemptPhase,
};
use buckshot::race::{build_plan, race_result, GC_SNIPE_REQS, REGULAR_SNIPE_REQS};
use buckshot::timing::{attempt_schedule, calibration_adjustment, AttemptSchedule};

#[test]
fn calibration_is_half_the_gap() {
    assert_eq!(calibration_adjustment(100, 40), 30);
    assert_eq!(calibration_adjustment(40, 40), 0);
    assert_eq!(calibration_adjustment(41, 40), 0);
    assert_eq!(calibration_adjustment(43, 40), 1);
}

#[test]
fn calibration_negative_gap_mirrors_positive() {
    assert_eq!(calibration_adjustment(40, 100), -30);
    assert_eq!(calibration_adjustment(40, 43), -1);
    assert_eq!(calibration_adjustment(40, 41), 0);
}

#[test]
fn schedule_staggers_attempts() {
    // Release T, correction -50 ms, two attempts spread 100 ms apart:
    // attempt 0 flushes at T-50, attempt 1 at T+50, each pre-staging 5 s
    // before its own flush.
    let t: i64 = 1_000_000;
    let s0 = attempt_schedule(t, -50, 0, 100);
    let s1 = attempt_schedule(t, -50, 1, 100);
    assert_eq!(s0.flush_at_ms, t - 50);
    assert_eq!(s1.flush_at_ms, t + 50);
    assert_eq!(s0.prestage_at_ms, s0.flush_at_ms - 5000);
    assert_eq!(s1.prestage_at_ms, s1.flush_at_ms - 5000);
}

#[test]
fn plan_matches_per_attempt_schedules() {
    let plan = build_plan(1_000_000, -50, 2, 100);
    assert_eq!(plan.len(), 2);
    assert_eq!(
        plan[0],
        AttemptSchedule { prestage_at_ms: 994_950, flush_at_ms: 999_950 }
    );
    assert_eq!(
        plan[1],
        AttemptSchedule { prestage_at_ms: 995_050, flush_at_ms: 1_000_050 }
    );
}

#[test]
fn plan_flush_instants_strictly_increase() {
    let plan = build_plan(5_000_000, 20, u32::from(GC_SNIPE_REQS), 3);
    assert_eq!(plan.len(), 6);
    for w in plan.windows(2) {
        assert!(w[0].flush_at_ms < w[1].flush_at_ms);
    }
}

#[test]
fn zero_spread_keeps_attempts_together() {
    let plan = build_plan(5_000_000, 0, 3, 0);
    assert!(plan.iter().all(|s| s.flush_at_ms == 5_000_000));
}

fn outcome(success: bool, status: u16, at: i64) -> AttemptOutcome {
    AttemptOutcome { success, observed_status: status, completed_at_ms: at }
}

#[test]
fn race_succeeds_iff_any_attempt_did() {
    assert!(race_result(&vec![
        outcome(false, 429, 1),
        outcome(true, 200, 2)
    ]));
    assert!(!race_result(&vec![
        outcome(false, 429, 1),
        outcome(false, 0, 2)
    ]));
    assert!(!race_result(&vec![]));
}

#[test]
fn race_result_ignores_order() {
    let a = vec![outcome(true, 200, 1), outcome(false, 429, 2)];
    let b = vec![outcome(false, 429, 2), outcome(true, 200, 1)];
    assert_eq!(race_result(&a), race_result(&b));
    assert!(race_result(&a));
}

#[test]
fn happy_path_walks_all_phases() {
    let sched = AttemptSchedule { prestage_at_ms: 5000, flush_at_ms: 10_000 };
    let (p, a) = step(AttemptPhase::Scheduled, AttemptEvent::Clock { now_ms: 1000 }, &sched);
    assert_eq!(p, AttemptPhase::Connecting);
    assert_eq!(a, AttemptAction::SleepUntilPrestage);
    let (p, a) = step(p, AttemptEvent::Primed { ok: true, now_ms: 5001 }, &sched);
    assert_eq!(p, AttemptPhase::Staged);
    assert_eq!(a, AttemptAction::Ignore);
    let (p, a) = step(p, AttemptEvent::Clock { now_ms: 5002 }, &sched);
    assert_eq!(p, AttemptPhase::Transmitted);
    assert_eq!(a, AttemptAction::SleepUntilFlush);
    let (p, a) = step(p, AttemptEvent::Flushed { ok: true, now_ms: 10_000 }, &sched);
    assert_eq!(p, AttemptPhase::AwaitingResponse);
    assert_eq!(a, AttemptAction::ReadResponse);
    let (p, a) = step(
        p,
        AttemptEvent::Response { buf: Some(b"HTTP/1.1 200".to_vec()), now_ms: 10_040 },
        &sched,
    );
    assert_eq!(
        p,
        AttemptPhase::Completed { outcome: outcome(true, 200, 10_040) }
    );
    assert_eq!(a, AttemptAction::Finish);
}

#[test]
fn past_prestage_abandons_without_connecting() {
    let sched = AttemptSchedule { prestage_at_ms: 5000, flush_at_ms: 10_000 };
    let (p, a) = step(AttemptPhase::Scheduled, AttemptEvent::Clock { now_ms: 5001 }, &sched);
    assert_eq!(p, AttemptPhase::Abandoned);
    assert_eq!(a, AttemptAction::Finish);
    assert_ne!(a, AttemptAction::SleepUntilPrestage);
}

#[test]
fn prestage_instant_itself_still_races() {
    let sched = AttemptSchedule { prestage_at_ms: 5000, flush_at_ms: 10_000 };
    let (p, _) = step(AttemptPhase::Scheduled, AttemptEvent::Clock { now_ms: 5000 }, &sched);
    assert_eq!(p, AttemptPhase::Connecting);
}

#[test]
fn past_flush_abandons_from_staged() {
    let sched = AttemptSchedule { prestage_at_ms: 5000, flush_at_ms: 10_000 };
    let (p, a) = step(AttemptPhase::Staged, AttemptEvent::Clock { now_ms: 10_001 }, &sched);
    assert_eq!(p, AttemptPhase::Abandoned);
    assert_eq!(a, AttemptAction::Finish);
}

#[test]
fn transport_failures_complete_the_attempt() {
    let sched = AttemptSchedule { prestage_at_ms: 5000, flush_at_ms: 10_000 };
    let (p, a) = step(
        AttemptPhase::Connecting,
        AttemptEvent::Primed { ok: false, now_ms: 5100 },
        &sched,
    );
    assert_eq!(p, AttemptPhase::Completed { outcome: outcome(false, 0, 5100) });
    assert_eq!(a, AttemptAction::Finish);
    let (p, _) = step(
        AttemptPhase::Transmitted,
        AttemptEvent::Flushed { ok: false, now_ms: 10_000 },
        &sched,
    );
    assert_eq!(p, AttemptPhase::Completed { outcome: outcome(false, 0, 10_000) });
    let (p, _) = step(
        AttemptPhase::AwaitingResponse,
        AttemptEvent::Response { buf: None, now_ms: 10_050 },
        &sched,
    );
    assert_eq!(p, AttemptPhase::Completed { outcome: outcome(false, 0, 10_050) });
}

#[test]
fn malformed_response_fails_the_attempt() {
    let sched = AttemptSchedule { prestage_at_ms: 5000, flush_at_ms: 10_000 };
    let (p, _) = step(
        AttemptPhase::AwaitingResponse,
        AttemptEvent::Response { buf: Some(b"HTTP/1.1 2X0".to_vec()), now_ms: 10_050 },
        &sched,
    );
    assert_eq!(p, AttemptPhase::Completed { outcome: outcome(false, 0, 10_050) });
}

#[test]
fn race_long_past_release_abandons_every_attempt() {
    // The release instant lies two hours in the past: every attempt is
    // abandoned at its first clock observation, no connection is opened,
    // and the race is lost.
    let now_ms: i64 = 1_700_000_000_000;
    let release_ms = now_ms - 2 * 3600 * 1000;
    let plan = build_plan(release_ms, 0, u32::from(REGULAR_SNIPE_REQS), 0);
    let mut outcomes = Vec::new();
    for sched in &plan {
        let (p, a) = step(AttemptPhase::Scheduled, AttemptEvent::Clock { now_ms }, sched);
        assert_eq!(p, AttemptPhase::Abandoned);
        assert_eq!(a, AttemptAction::Finish);
        assert_ne!(a, AttemptAction::SleepUntilPrestage);
        outcomes.push(abandoned_outcome(now_ms));
    }
    assert_eq!(outcomes.len(), usize::from(REGULAR_SNIPE_REQS));
    assert!(!race_result(&outcomes));
}
