//! The health monitor's state machine. The monitor runs two phases: a
//! startup phase that probes until the child is ready or a deadline passes,
//! and a steady-state phase that probes periodically and escalates after
//! sustained failure. The caller (a timer loop) performs the probes, sleeps,
//! and reads its clock; each tick's collapsed outcome and observed seconds
//! are fed in here, and the machine answers with the next state and the
//! notifications to emit, payloads included.

use vstd::prelude::*;
use crate::status::{
    status_for_error,
    status_matches_error,
    BackendStatus,
    HealthCheckError,
    HealthResponse,
};

verus! {

/// Consecutive steady-state failures at which the monitor hands off to
/// recovery: the status becomes `RestartRequired`.
pub const FAILURE_THRESHOLD: u32 = 5;

/// The collapsed outcome of one tick's probe (with its local retries).
#[derive(Debug)]
pub enum ProbeOutcome {
    Up(HealthResponse),
    Down(HealthCheckError),
}

/// What the timer loop observed: a steady-state tick's outcome together
/// with the child's uptime in seconds, a startup-phase tick's outcome
/// together with the seconds since monitoring began, or the startup
/// deadline passing with the child still not ready.
#[derive(Debug)]
pub enum MonitorEvent {
    SteadyTick { outcome: ProbeOutcome, uptime: u64 },
    StartupTick { outcome: ProbeOutcome, elapsed: u64 },
    StartupDeadline { elapsed: u64 },
}

/// An outbound event for the notification channel, with its payload.
#[derive(Debug)]
pub enum Notification {
    /// First successful probe: the child is ready; carries how long the
    /// startup took and the probe's payload.
    BackendReady { startup_time: u64, response: HealthResponse },
    /// Still waiting during the startup phase; carries the seconds spent.
    StartupProgress { elapsed: u64 },
    /// The startup deadline passed with no successful probe; carries the
    /// seconds spent.
    StartupTimeout { elapsed: u64 },
    /// The status changed; carries the status the tick mapped to, the
    /// failure behind it if there was one, and the failure counter.
    StatusChanged { status: BackendStatus, error: Option<HealthCheckError>, consecutive_failures: u32 },
    /// A steady-state probe succeeded; carries the probe's payload, the
    /// failure counter (zero) and the child's uptime.
    HealthUpdate { response: HealthResponse, consecutive_failures: u32, uptime: u64 },
    /// The failure counter reached the threshold; carries it and the last
    /// failure.
    RestartRequired { consecutive_failures: u32, last_error: HealthCheckError },
}

/// The monitor's state between ticks.
#[derive(Debug)]
pub struct MonitorState {
    /// Whether the child has been ready at least once (steady-state phase).
    pub ready: bool,
    /// Whether the monitor has terminated (startup deadline passed).
    pub terminated: bool,
    /// Consecutive failed steady-state ticks since the last success.
    pub consecutive_failures: u32,
    pub status: BackendStatus,
}

impl Clone for MonitorState {
    fn clone(&self) -> (r: Self)
        ensures
            r == *self,
    {
        MonitorState {
            ready: self.ready,
            terminated: self.terminated,
            consecutive_failures: self.consecutive_failures,
            status: self.status.clone(),
        }
    }
}

impl MonitorState {
    /// The state when monitoring begins: startup phase, nothing failed yet.
    pub fn new() -> (s: MonitorState)
        ensures
            s == (MonitorState {
                ready: false,
                terminated: false,
                consecutive_failures: 0u32,
                status: BackendStatus::Starting,
            }),
    {
        MonitorState {
            ready: false,
            terminated: false,
            consecutive_failures: 0,
            status: BackendStatus::Starting,
        }
    }
}

/// The failure counter after one more failure, saturating at its type's
/// limit rather than wrapping.
pub open spec fn bump(c: u32) -> u32 {
    if c < u32::MAX {
        (c + 1) as u32
    } else {
        c
    }
}

/// How one event takes the monitor from `s` to `s2`, emitting `notes`.
///
/// Steady-state ticks count only once the child is ready: a success clears
/// the failure counter, restores `Healthy` (announcing the change if the
/// status was anything else) and reports a health update carrying the
/// probe's payload; a failure bumps the counter, moves the status to the
/// failure's mapping and announces it with the failure and the counter, and
/// at `FAILURE_THRESHOLD` consecutive failures escalates to
/// `RestartRequired`. Startup ticks count only before readiness: the first
/// success enters the steady-state phase; a failure only reports progress.
/// The deadline, reached before readiness, terminates the monitor with an
/// `Unhealthy` startup-timeout status.
pub open spec fn spec_step(
    s: MonitorState,
    e: MonitorEvent,
    s2: MonitorState,
    notes: Seq<Notification>,
) -> bool {
    match e {
        MonitorEvent::SteadyTick { outcome, uptime } => if s.ready && !s.terminated {
            match outcome {
                ProbeOutcome::Up(h) => {
                    &&& s2 == (MonitorState {
                        ready: true,
                        terminated: false,
                        consecutive_failures: 0u32,
                        status: BackendStatus::Healthy,
                    })
                    &&& if s.status is Healthy {
                        notes == seq![
                            Notification::HealthUpdate {
                                response: h,
                                consecutive_failures: 0u32,
                                uptime,
                            },
                        ]
                    } else {
                        notes == seq![
                            Notification::StatusChanged {
                                status: BackendStatus::Healthy,
                                error: None,
                                consecutive_failures: 0u32,
                            },
                            Notification::HealthUpdate {
                                response: h,
                                consecutive_failures: 0u32,
                                uptime,
                            },
                        ]
                    }
                },
                ProbeOutcome::Down(err) => {
                    let f = bump(s.consecutive_failures);
                    if f >= FAILURE_THRESHOLD {
                        &&& s2 == (MonitorState {
                            ready: true,
                            terminated: false,
                            consecutive_failures: f,
                            status: BackendStatus::RestartRequired,
                        })
                        &&& notes.len() == 2
                        &&& notes[0] matches Notification::StatusChanged {
                            status: d,
                            error: e2,
                            consecutive_failures: f2,
                        } && status_matches_error(err, d) && e2 == Some(err) && f2 == f
                        &&& notes[1] == (Notification::RestartRequired {
                            consecutive_failures: f,
                            last_error: err,
                        })
                    } else {
                        &&& s2.ready
                        &&& !s2.terminated
                        &&& s2.consecutive_failures == f
                        &&& status_matches_error(err, s2.status)
                        &&& notes.len() == 1
                        &&& notes[0] matches Notification::StatusChanged {
                            status: d,
                            error: e2,
                            consecutive_failures: f2,
                        } && d == s2.status && e2 == Some(err) && f2 == f
                    }
                },
            }
        } else {
            s2 == s && notes.len() == 0
        },
        MonitorEvent::StartupTick { outcome, elapsed } => if !s.ready && !s.terminated {
            match outcome {
                ProbeOutcome::Up(h) => {
                    &&& s2 == (MonitorState {
                        ready: true,
                        terminated: false,
                        consecutive_failures: 0u32,
                        status: BackendStatus::Healthy,
                    })
                    &&& notes == seq![
                        Notification::BackendReady { startup_time: elapsed, response: h },
                    ]
                },
                ProbeOutcome::Down(_) => {
                    &&& s2 == s
                    &&& notes == seq![Notification::StartupProgress { elapsed }]
                },
            }
        } else {
            s2 == s && notes.len() == 0
        },
        MonitorEvent::StartupDeadline { elapsed } => if !s.ready && !s.terminated {
            &&& !s2.ready
            &&& s2.terminated
            &&& s2.consecutive_failures == s.consecutive_failures
            &&& s2.status matches BackendStatus::Unhealthy(m)
                && m@ == "Backend failed to start within timeout"@
            &&& notes == seq![Notification::StartupTimeout { elapsed }]
        } else {
            s2 == s && notes.len() == 0
        },
    }
}

/// Advances the monitor by one observed event; returns the next state and
/// the notifications to emit, exactly as [`spec_step`] lays down.
pub fn monitor_step(s: &MonitorState, e: MonitorEvent) -> (r: (MonitorState, Vec<Notification>))
    ensures
        spec_step(*s, e, r.0, r.1@),
{
    let mut notes: Vec<Notification> = Vec::new();
    match e {
        MonitorEvent::SteadyTick { outcome, uptime } => {
            if s.ready && !s.terminated {
                match outcome {
                    ProbeOutcome::Up(h) => {
                        let was_healthy = match &s.status {
                            BackendStatus::Healthy => true,
                            _ => false,
                        };
                        if !was_healthy {
                            notes.push(
                                Notification::StatusChanged {
                                    status: BackendStatus::Healthy,
                                    error: None,
                                    consecutive_failures: 0,
                                },
                            );
                        }
                        let ghost h_snapshot = h;
                        notes.push(
                            Notification::HealthUpdate {
                                response: h,
                                consecutive_failures: 0,
                                uptime,
                            },
                        );
                        let s2 = MonitorState {
                            ready: true,
                            terminated: false,
                            consecutive_failures: 0,
                            status: BackendStatus::Healthy,
                        };
                        proof {
                            if was_healthy {
                                assert(notes@ =~= seq![
                                    Notification::HealthUpdate {
                                        response: h_snapshot,
                                        consecutive_failures: 0u32,
                                        uptime,
                                    },
                                ]);
                            } else {
                                assert(notes@ =~= seq![
                                    Notification::StatusChanged {
                                        status: BackendStatus::Healthy,
                                        error: None,
                                        consecutive_failures: 0u32,
                                    },
                                    Notification::HealthUpdate {
                                        response: h_snapshot,
                                        consecutive_failures: 0u32,
                                        uptime,
                                    },
                                ]);
                            }
                        }
                        (s2, notes)
                    },
                    ProbeOutcome::Down(err) => {
                        let f = if s.consecutive_failures < u32::MAX {
                            s.consecutive_failures + 1
                        } else {
                            s.consecutive_failures
                        };
                        let degraded = status_for_error(&err);
                        if f >= FAILURE_THRESHOLD {
                            notes.push(
                                Notification::StatusChanged {
                                    status: degraded,
                                    error: Some(err.clone()),
                                    consecutive_failures: f,
                                },
                            );
                            notes.push(
                                Notification::RestartRequired {
                                    consecutive_failures: f,
                                    last_error: err,
                                },
                            );
                            let s2 = MonitorState {
                                ready: true,
                                terminated: false,
                                consecutive_failures: f,
                                status: BackendStatus::RestartRequired,
                            };
                            (s2, notes)
                        } else {
                            notes.push(
                                Notification::StatusChanged {
                                    status: degraded.clone(),
                                    error: Some(err),
                                    consecutive_failures: f,
                                },
                            );
                            let s2 = MonitorState {
                                ready: true,
                                terminated: false,
                                consecutive_failures: f,
                                status: degraded,
                            };
                            (s2, notes)
                        }
                    },
                }
            } else {
                (s.clone(), notes)
            }
        },
        MonitorEvent::StartupTick { outcome, elapsed } => {
            if !s.ready && !s.terminated {
                match outcome {
                    ProbeOutcome::Up(h) => {
                        let ghost h_snapshot = h;
                        notes.push(
                            Notification::BackendReady { startup_time: elapsed, response: h },
                        );
                        let s2 = MonitorState {
                            ready: true,
                            terminated: false,
                            consecutive_failures: 0,
                            status: BackendStatus::Healthy,
                        };
                        proof {
                            assert(notes@ =~= seq![
                                Notification::BackendReady {
                                    startup_time: elapsed,
                                    response: h_snapshot,
                                },
                            ]);
                        }
                        (s2, notes)
                    },
                    ProbeOutcome::Down(_) => {
                        notes.push(Notification::StartupProgress { elapsed });
                        proof {
                            assert(notes@ =~= seq![Notification::StartupProgress { elapsed }]);
                        }
                        (s.clone(), notes)
                    },
                }
            } else {
                (s.clone(), notes)
            }
        },
        MonitorEvent::StartupDeadline { elapsed } => {
            if !s.ready && !s.terminated {
                notes.push(Notification::StartupTimeout { elapsed });
                let s2 = MonitorState {
                    ready: false,
                    terminated: true,
                    consecutive_failures: s.consecutive_failures,
                    status: BackendStatus::Unhealthy(
                        String::from_str("Backend failed to start within timeout"),
                    ),
                };
                proof {
                    assert(notes@ =~= seq![Notification::StartupTimeout { elapsed }]);
                }
                (s2, notes)
            } else {
                (s.clone(), notes)
            }
        },
    }
}

/// How many probe attempts one steady-state tick spends: after a run of
/// failures the tick probes once, otherwise up to three times with backoff.
pub fn retry_budget(consecutive_failures: u32) -> (r: u32)
    ensures
        r == (if consecutive_failures > 3 {
            1u32
        } else {
            3u32
        }),
{
    if consecutive_failures > 3 {
        1
    } else {
        3
    }
}

/// Whether a ready-wait attempt is one that reports progress: while waiting
/// for first readiness, every fifth attempt announces that the child is
/// still starting.
pub fn startup_progress_due(attempt: u32) -> (r: bool)
    ensures
        r == (attempt % 5 == 0),
{
    attempt % 5 == 0
}

/// Sustained steady-state failure escalates, and does not escalate early.
/// Starting from a ready monitor with a clean failure counter, after a run
/// of consecutive failed ticks the counter equals the run's length; once the
/// run reaches `FAILURE_THRESHOLD` the status is `RestartRequired`, and
/// before that it is the last failure's own degraded status, never
/// `RestartRequired`.
pub proof fn lemma_failure_escalation(
    states: Seq<MonitorState>,
    errs: Seq<HealthCheckError>,
    uptimes: Seq<u64>,
    notes: Seq<Seq<Notification>>,
)
    requires
        errs.len() <= u32::MAX,
        states.len() == errs.len() + 1,
        uptimes.len() == errs.len(),
        notes.len() == errs.len(),
        states[0].ready,
        !states[0].terminated,
        states[0].consecutive_failures == 0,
        forall|i: int|
            0 <= i < errs.len() ==> spec_step(
                states[i],
                MonitorEvent::SteadyTick {
                    outcome: ProbeOutcome::Down(errs[i]),
                    uptime: uptimes[i],
                },
                states[i + 1],
                notes[i],
            ),
    ensures
        states[errs.len() as int].ready,
        !states[errs.len() as int].terminated,
        states[errs.len() as int].consecutive_failures == errs.len(),
        0 < errs.len() < FAILURE_THRESHOLD ==> !(states[errs.len() as int].status
            is RestartRequired) && status_matches_error(
            errs[errs.len() - 1],
            states[errs.len() as int].status,
        ),
        errs.len() >= FAILURE_THRESHOLD ==> states[errs.len() as int].status is RestartRequired,
    decreases errs.len(),
{
    if errs.len() > 0 {
        let n = errs.len() as int;
        lemma_failure_escalation(
            states.drop_last(),
            errs.drop_last(),
            uptimes.drop_last(),
            notes.drop_last(),
        );
        assert(states.drop_last()[n - 1] == states[n - 1]);
        assert(states[n - 1].consecutive_failures == n - 1);
        assert(spec_step(
            states[n - 1],
            MonitorEvent::SteadyTick {
                outcome: ProbeOutcome::Down(errs[n - 1]),
                uptime: uptimes[n - 1],
            },
            states[n],
            notes[n - 1],
        ));
        if n < FAILURE_THRESHOLD {
            assert(!(states[n].status is RestartRequired)) by {
                assert(status_matches_error(errs[n - 1], states[n].status));
            }
        }
    }
}

} // verus!
