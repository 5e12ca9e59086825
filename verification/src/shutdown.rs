//! The shutdown coordinator: when the accept loop stops, and how long the
//! drain that follows may take.
//!
//! Time is a count of units since a start that the caller chooses. The
//! coordinator never reads a clock: every event comes with the time at which
//! it happened.

use vstd::prelude::*;
use vstd::string::StringExecFns;
use crate::decimal::{decimal_digits, push_decimal};

verus! {

/// The grace period of a drain, in seconds.
pub const GRACEFUL_SHUTDOWN_TIMEOUT_SEC: u8 = 30;

/// What set a shutdown off.
#[derive(Clone, Copy, Debug, PartialEq, Eq, Structural)]
pub enum ShutdownCause {
    /// A request to the shutdown endpoint.
    Requested,
    /// An interrupt signal to the process.
    Interrupted,
    /// No connection was accepted within the idle timeout.
    Idle,
}

/// Where the coordinator stands.
#[derive(Clone, Copy, Debug, PartialEq, Eq, Structural)]
pub enum Phase {
    /// Connections are accepted. With an idle timeout, `idle_deadline` is the
    /// time at which the loop stops unless a connection comes first.
    Running { idle_deadline: Option<u64> },
    /// No connection is accepted any more; those open may finish until
    /// `drain_deadline`.
    Draining { cause: ShutdownCause, drain_deadline: u64 },
    /// The end. `graceful` says whether every connection finished in time.
    Stopped { graceful: bool },
}

/// What happened, as the accept loop reports it.
#[derive(Clone, Copy, Debug, PartialEq, Eq, Structural)]
pub enum ShutdownEvent {
    /// A connection was accepted.
    Connection,
    /// The shutdown endpoint was called.
    Request,
    /// The process was interrupted.
    Interrupt,
    /// Time has passed.
    Tick,
    /// Every open connection has finished.
    Drained,
}

/// The coordinator: its settings and its phase.
#[derive(Clone, Copy, Debug, PartialEq, Eq, Structural)]
pub struct ShutdownCoordinator {
    /// The idle timeout, if idle shutdown is enabled.
    pub idle_timeout: Option<u64>,
    /// How long a drain may take.
    pub grace: u64,
    pub phase: Phase,
}

/// `now + span`, or the greatest time where that is out of range.
pub open spec fn later(now: u64, span: u64) -> u64 {
    if now + span > u64::MAX {
        u64::MAX
    } else {
        (now + span) as u64
    }
}

/// The idle deadline that holds from `now` on.
pub open spec fn idle_deadline_from(idle_timeout: Option<u64>, now: u64) -> Option<u64> {
    match idle_timeout {
        Some(span) => Some(later(now, span)),
        None => None,
    }
}

/// The drain that starts at `now` for `cause`.
pub open spec fn draining(c: ShutdownCoordinator, cause: ShutdownCause, now: u64) -> Phase {
    Phase::Draining { cause, drain_deadline: later(now, c.grace) }
}

/// The phase after `event` happened at `now`.
///
/// While running, a connection sets the idle deadline anew, a request or an
/// interrupt starts the drain, and a tick starts it once the idle deadline
/// is reached. While draining, the end of the open connections stops the
/// coordinator gracefully and a tick at or after the drain deadline stops it
/// ungracefully. Nothing leads back.
pub open spec fn phase_after(c: ShutdownCoordinator, event: ShutdownEvent, now: u64) -> Phase {
    match c.phase {
        Phase::Running { idle_deadline } => match event {
            ShutdownEvent::Connection => Phase::Running {
                idle_deadline: idle_deadline_from(c.idle_timeout, now),
            },
            ShutdownEvent::Request => draining(c, ShutdownCause::Requested, now),
            ShutdownEvent::Interrupt => draining(c, ShutdownCause::Interrupted, now),
            ShutdownEvent::Tick => if idle_deadline is Some && now >= idle_deadline->0 {
                draining(c, ShutdownCause::Idle, now)
            } else {
                c.phase
            },
            ShutdownEvent::Drained => c.phase,
        },
        Phase::Draining { cause, drain_deadline } => match event {
            ShutdownEvent::Drained => Phase::Stopped { graceful: true },
            ShutdownEvent::Tick => if now >= drain_deadline {
                Phase::Stopped { graceful: false }
            } else {
                c.phase
            },
            _ => c.phase,
        },
        Phase::Stopped { graceful } => c.phase,
    }
}

fn add_span(now: u64, span: u64) -> (t: u64)
    ensures
        t == later(now, span),
{
    match now.checked_add(span) {
        Some(t) => t,
        None => u64::MAX,
    }
}

impl ShutdownCoordinator {
    /// A coordinator that starts running at `now`.
    pub fn new(idle_timeout: Option<u64>, grace: u64, now: u64) -> (c: Self)
        ensures
            c.idle_timeout == idle_timeout,
            c.grace == grace,
            c.phase == (Phase::Running { idle_deadline: idle_deadline_from(idle_timeout, now) }),
    {
        let idle_deadline = match idle_timeout {
            Some(span) => Some(add_span(now, span)),
            None => None,
        };
        ShutdownCoordinator { idle_timeout, grace, phase: Phase::Running { idle_deadline } }
    }

    /// Takes note of `event`, which happened at `now`, and gives the phase
    /// that holds after it.
    pub fn observe(&mut self, event: ShutdownEvent, now: u64) -> (phase: Phase)
        ensures
            final(self).idle_timeout == old(self).idle_timeout,
            final(self).grace == old(self).grace,
            final(self).phase == phase_after(*old(self), event, now),
            phase == final(self).phase,
    {
        let next = match self.phase {
            Phase::Running { idle_deadline } => match event {
                ShutdownEvent::Connection => Phase::Running {
                    idle_deadline: match self.idle_timeout {
                        Some(span) => Some(add_span(now, span)),
                        None => None,
                    },
                },
                ShutdownEvent::Request => Phase::Draining {
                    cause: ShutdownCause::Requested,
                    drain_deadline: add_span(now, self.grace),
                },
                ShutdownEvent::Interrupt => Phase::Draining {
                    cause: ShutdownCause::Interrupted,
                    drain_deadline: add_span(now, self.grace),
                },
                ShutdownEvent::Tick => match idle_deadline {
                    Some(deadline) => if now >= deadline {
                        Phase::Draining {
                            cause: ShutdownCause::Idle,
                            drain_deadline: add_span(now, self.grace),
                        }
                    } else {
                        self.phase
                    },
                    None => self.phase,
                },
                ShutdownEvent::Drained => self.phase,
            },
            Phase::Draining { cause, drain_deadline } => match event {
                ShutdownEvent::Drained => Phase::Stopped { graceful: true },
                ShutdownEvent::Tick => if now >= drain_deadline {
                    Phase::Stopped { graceful: false }
                } else {
                    self.phase
                },
                _ => self.phase,
            },
            Phase::Stopped { graceful } => self.phase,
        };
        self.phase = next;
        next
    }

    /// Whether connections are still accepted.
    pub fn is_running(&self) -> (b: bool)
        ensures
            b == (self.phase is Running),
    {
        match self.phase {
            Phase::Running { .. } => true,
            _ => false,
        }
    }

    /// The time at which the next tick is due: the idle deadline while
    /// running, the drain deadline while draining.
    pub fn next_deadline(&self) -> (t: Option<u64>)
        ensures
            t == match self.phase {
                Phase::Running { idle_deadline } => idle_deadline,
                Phase::Draining { cause, drain_deadline } => Some(drain_deadline),
                Phase::Stopped { graceful } => None,
            },
    {
        match self.phase {
            Phase::Running { idle_deadline } => idle_deadline,
            Phase::Draining { cause, drain_deadline } => Some(drain_deadline),
            Phase::Stopped { graceful } => None,
        }
    }
}

/// The words for a drain that ran out of time.
pub open spec fn drain_failure_text(grace_seconds: u8) -> Seq<char> {
    "could not finish graceful shutdown in "@ + decimal_digits(grace_seconds as nat)
        + " seconds"@
}

/// How serving ended, once the coordinator has stopped: well after a
/// graceful drain, with an error after one that ran out of time. `None`
/// while the coordinator has not stopped.
pub fn serve_result(phase: Phase, grace_seconds: u8) -> (r: Option<Result<(), String>>)
    ensures
        match phase {
            Phase::Stopped { graceful: true } => r == Some(Ok::<(), String>(())),
            Phase::Stopped { graceful: false } => r matches Some(Err(msg)) && msg@
                == drain_failure_text(grace_seconds),
            _ => r is None,
        },
{
    match phase {
        Phase::Stopped { graceful } => if graceful {
            Some(Ok(()))
        } else {
            let mut msg = String::from_str("could not finish graceful shutdown in ");
            push_decimal(&mut msg, grace_seconds as usize);
            msg.append(" seconds");
            Some(Err(msg))
        },
        _ => None,
    }
}

/// With an idle timeout and nothing happening, the loop leaves `Running` at
/// the first tick that comes a full timeout after the start.
pub proof fn lemma_idle_timeout_fires(c: ShutdownCoordinator, start: u64, span: u64, now: u64)
    requires
        c.idle_timeout == Some(span),
        c.phase == (Phase::Running { idle_deadline: idle_deadline_from(c.idle_timeout, start) }),
        now >= later(start, span),
    ensures
        phase_after(c, ShutdownEvent::Tick, now) == draining(c, ShutdownCause::Idle, now),
        !(phase_after(c, ShutdownEvent::Tick, now) is Running),
{
}

/// Before the idle deadline a tick changes nothing.
pub proof fn lemma_idle_timeout_waits(c: ShutdownCoordinator, start: u64, span: u64, now: u64)
    requires
        c.idle_timeout == Some(span),
        c.phase == (Phase::Running { idle_deadline: idle_deadline_from(c.idle_timeout, start) }),
        now < later(start, span),
    ensures
        phase_after(c, ShutdownEvent::Tick, now) == c.phase,
{
}

/// A connection sets the whole idle window anew: after one accepted at
/// `accepted`, the loop keeps running at every tick before
/// `later(accepted, span)`, whatever the deadline was before.
pub proof fn lemma_connection_resets_idle_window(
    c: ShutdownCoordinator,
    span: u64,
    accepted: u64,
    now: u64,
)
    requires
        c.idle_timeout == Some(span),
        c.phase is Running,
        now < later(accepted, span),
    ensures
        ({
            let after = ShutdownCoordinator {
                phase: phase_after(c, ShutdownEvent::Connection, accepted),
                ..c
            };
            phase_after(after, ShutdownEvent::Tick, now) == after.phase && after.phase is Running
        }),
{
}

/// A shutdown fires once: no event leads from draining or stopped back to
/// running, and a stopped coordinator stays as it is.
pub proof fn lemma_no_way_back(c: ShutdownCoordinator, event: ShutdownEvent, now: u64)
    requires
        !(c.phase is Running),
    ensures
        !(phase_after(c, event, now) is Running),
        c.phase is Stopped ==> phase_after(c, event, now) == c.phase,
{
}

/// A drain ends by its deadline: at any tick from then on the coordinator
/// has stopped, ungracefully if the connections have not finished before.
pub proof fn lemma_drain_is_bounded(c: ShutdownCoordinator, now: u64)
    requires
        c.phase is Draining,
        now >= c.phase->drain_deadline,
    ensures
        phase_after(c, ShutdownEvent::Tick, now) == (Phase::Stopped { graceful: false }),
{
}

} // verus!
