//! One attempt of the race, as a state machine: the caller performs the
//! sleeps and the network I/O, reports each result as an event, and this
//! module decides the next phase and the next action. Every attempt is
//! single-shot: no transition retries.

use crate::protocol::{status_of_spec, parse_status_prefix, ACCEPTED_STATUS};
use crate::timing::AttemptSchedule;
use vstd::prelude::*;

verus! {

/// What one finished attempt observed. Never mutated after creation.
#[derive(Clone, Copy, PartialEq, Eq, Structural, Debug)]
pub struct AttemptOutcome {
    pub success: bool,
    pub observed_status: u16,
    pub completed_at_ms: i64,
}

/// The outcome recorded for a response prefix read at `now_ms`: success
/// exactly when the parsed status is the accepted code; a malformed prefix
/// records status 0 and failure.
pub open spec fn response_outcome_spec(buf: Seq<u8>, now_ms: i64) -> AttemptOutcome {
    match status_of_spec(buf) {
        Some(status) => AttemptOutcome {
            success: status == ACCEPTED_STATUS,
            observed_status: status,
            completed_at_ms: now_ms,
        },
        None => AttemptOutcome { success: false, observed_status: 0, completed_at_ms: now_ms },
    }
}

/// The outcome recorded when the transport failed at `now_ms`: no status
/// was observed, the attempt failed.
pub open spec fn transport_failure_outcome_spec(now_ms: i64) -> AttemptOutcome {
    AttemptOutcome { success: false, observed_status: 0, completed_at_ms: now_ms }
}

/// Records the outcome of a response prefix read at `now_ms`.
pub fn outcome_from_response(buf: &[u8], now_ms: i64) -> (r: AttemptOutcome)
    ensures
        r == response_outcome_spec(buf@, now_ms),
        r.success <==> status_of_spec(buf@) == Some(ACCEPTED_STATUS),
{
    match parse_status_prefix(buf) {
        Some(status) => AttemptOutcome {
            success: status == ACCEPTED_STATUS,
            observed_status: status,
            completed_at_ms: now_ms,
        },
        None => AttemptOutcome { success: false, observed_status: 0, completed_at_ms: now_ms },
    }
}

/// Where an attempt stands. `Completed` and `Abandoned` are terminal;
/// `Abandoned` is reachable only from `Scheduled` and `Staged`, before and
/// after priming, when the schedule has already passed.
#[derive(Clone, Copy, PartialEq, Eq, Structural, Debug)]
pub enum AttemptPhase {
    /// Nothing has happened yet.
    Scheduled,
    /// Waiting for the pre-stage instant, then opening and priming the
    /// connection.
    Connecting,
    /// Connection primed; waiting for the flush instant.
    Staged,
    /// Committed to flush: sleeping out the last stretch, then sending the
    /// terminator.
    Transmitted,
    /// Terminator sent; reading the response prefix.
    AwaitingResponse,
    /// Terminal: the attempt ran to the end and recorded what it saw.
    Completed { outcome: AttemptOutcome },
    /// Terminal: the schedule had already passed, so the attempt never
    /// raced. The resource appears already released.
    Abandoned,
}

/// What the attempt observed since the last step.
pub enum AttemptEvent {
    /// The current wall clock, read before committing to a sleep.
    Clock { now_ms: i64 },
    /// The connection was opened and the staged text written — or not.
    Primed { ok: bool, now_ms: i64 },
    /// The terminator was flushed — or the write failed.
    Flushed { ok: bool, now_ms: i64 },
    /// The response prefix, or `None` when the read failed.
    Response { buf: Option<Vec<u8>>, now_ms: i64 },
}

/// What the caller is to do next.
#[derive(Clone, Copy, PartialEq, Eq, Structural, Debug)]
pub enum AttemptAction {
    /// Sleep until the pre-stage instant, then connect, handshake, and
    /// write the staged request text; report `Primed`.
    SleepUntilPrestage,
    /// Sleep until the flush instant, then send the terminator; report
    /// `Flushed`.
    SleepUntilFlush,
    /// Read the fixed-size response prefix; report `Response`.
    ReadResponse,
    /// Terminal: record the attempt's end.
    Finish,
    /// The event did not belong to this phase; nothing to do.
    Ignore,
}

/// The transition relation of one attempt. Clock observations decide, in
/// `Scheduled` and `Staged`, between abandoning (the instant is strictly
/// past) and committing to the next sleep; I/O results either advance the
/// attempt or complete it as a transport failure. An event that does not
/// belong to the current phase changes nothing.
pub open spec fn step_spec(phase: AttemptPhase, event: AttemptEvent, sched: AttemptSchedule) -> (
    AttemptPhase,
    AttemptAction,
) {
    match (phase, event) {
        (AttemptPhase::Scheduled, AttemptEvent::Clock { now_ms }) => {
            if now_ms > sched.prestage_at_ms {
                (AttemptPhase::Abandoned, AttemptAction::Finish)
            } else {
                (AttemptPhase::Connecting, AttemptAction::SleepUntilPrestage)
            }
        },
        (AttemptPhase::Connecting, AttemptEvent::Primed { ok, now_ms }) => {
            if ok {
                (AttemptPhase::Staged, AttemptAction::Ignore)
            } else {
                (
                    AttemptPhase::Completed { outcome: transport_failure_outcome_spec(now_ms) },
                    AttemptAction::Finish,
                )
            }
        },
        (AttemptPhase::Staged, AttemptEvent::Clock { now_ms }) => {
            if now_ms > sched.flush_at_ms {
                (AttemptPhase::Abandoned, AttemptAction::Finish)
            } else {
                (AttemptPhase::Transmitted, AttemptAction::SleepUntilFlush)
            }
        },
        (AttemptPhase::Transmitted, AttemptEvent::Flushed { ok, now_ms }) => {
            if ok {
                (AttemptPhase::AwaitingResponse, AttemptAction::ReadResponse)
            } else {
                (
                    AttemptPhase::Completed { outcome: transport_failure_outcome_spec(now_ms) },
                    AttemptAction::Finish,
                )
            }
        },
        (AttemptPhase::AwaitingResponse, AttemptEvent::Response { buf, now_ms }) => {
            match buf {
                Some(b) => (
                    AttemptPhase::Completed { outcome: response_outcome_spec(b@, now_ms) },
                    AttemptAction::Finish,
                ),
                None => (
                    AttemptPhase::Completed { outcome: transport_failure_outcome_spec(now_ms) },
                    AttemptAction::Finish,
                ),
            }
        },
        _ => (phase, AttemptAction::Ignore),
    }
}

/// After a clock observation in `Staged`, the attempt either abandons or
/// waits; in `Connecting`, after a successful priming, it waits for the
/// next clock observation. This spells out which actions each phase can
/// demand.
pub open spec fn action_fits_phase(phase: AttemptPhase, action: AttemptAction) -> bool {
    match action {
        AttemptAction::SleepUntilPrestage => phase is Connecting,
        AttemptAction::SleepUntilFlush => phase is Transmitted,
        AttemptAction::ReadResponse => phase is AwaitingResponse,
        AttemptAction::Finish => phase is Completed || phase is Abandoned,
        AttemptAction::Ignore => true,
    }
}

/// Advances one attempt by one observed event.
pub fn step(phase: AttemptPhase, event: AttemptEvent, sched: &AttemptSchedule) -> (r: (
    AttemptPhase,
    AttemptAction,
))
    ensures
        r == step_spec(phase, event, *sched),
        action_fits_phase(r.0, r.1),
{
    match (phase, event) {
        (AttemptPhase::Scheduled, AttemptEvent::Clock { now_ms }) => {
            if now_ms > sched.prestage_at_ms {
                (AttemptPhase::Abandoned, AttemptAction::Finish)
            } else {
                (AttemptPhase::Connecting, AttemptAction::SleepUntilPrestage)
            }
        },
        (AttemptPhase::Connecting, AttemptEvent::Primed { ok, now_ms }) => {
            if ok {
                (AttemptPhase::Staged, AttemptAction::Ignore)
            } else {
                let outcome = AttemptOutcome {
                    success: false,
                    observed_status: 0,
                    completed_at_ms: now_ms,
                };
                (AttemptPhase::Completed { outcome }, AttemptAction::Finish)
            }
        },
        (AttemptPhase::Staged, AttemptEvent::Clock { now_ms }) => {
            if now_ms > sched.flush_at_ms {
                (AttemptPhase::Abandoned, AttemptAction::Finish)
            } else {
                (AttemptPhase::Transmitted, AttemptAction::SleepUntilFlush)
            }
        },
        (AttemptPhase::Transmitted, AttemptEvent::Flushed { ok, now_ms }) => {
            if ok {
                (AttemptPhase::AwaitingResponse, AttemptAction::ReadResponse)
            } else {
                let outcome = AttemptOutcome {
                    success: false,
                    observed_status: 0,
                    completed_at_ms: now_ms,
                };
                (AttemptPhase::Completed { outcome }, AttemptAction::Finish)
            }
        },
        (AttemptPhase::AwaitingResponse, AttemptEvent::Response { buf, now_ms }) => {
            match buf {
                Some(b) => {
                    let outcome = outcome_from_response(b.as_slice(), now_ms);
                    (AttemptPhase::Completed { outcome }, AttemptAction::Finish)
                },
                None => {
                    let outcome = AttemptOutcome {
                        success: false,
                        observed_status: 0,
                        completed_at_ms: now_ms,
                    };
                    (AttemptPhase::Completed { outcome }, AttemptAction::Finish)
                },
            }
        },
        (p, _) => (p, AttemptAction::Ignore),
    }
}

/// A pre-stage instant strictly in the past abandons the attempt at once:
/// from `Scheduled`, the clock observation leads straight to `Abandoned`,
/// and the one action that opens a connection, `SleepUntilPrestage`, is
/// never demanded.
pub proof fn lemma_past_prestage_abandons(sched: AttemptSchedule, now_ms: i64)
    requires
        now_ms > sched.prestage_at_ms,
    ensures
        step_spec(AttemptPhase::Scheduled, AttemptEvent::Clock { now_ms }, sched) == (
            AttemptPhase::Abandoned,
            AttemptAction::Finish,
        ),
{
}

/// The outcome an abandoned attempt contributes to the race: it never
/// succeeded and observed no status.
pub fn abandoned_outcome(now_ms: i64) -> (r: AttemptOutcome)
    ensures
        r == transport_failure_outcome_spec(now_ms),
        !r.success,
{
    AttemptOutcome { success: false, observed_status: 0, completed_at_ms: now_ms }
}

} // verus!
