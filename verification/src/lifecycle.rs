use vstd::prelude::*;

use crate::config::Config;
use crate::errors::MonitorError;

verus! {

/// How often the caller checks, while stopping, whether the monitor thread
/// has exited: every tenth of a second.
pub const STOP_POLL_INTERVAL_MICROS: u64 = 100_000;

/// Lifecycle of one monitor instance.
#[derive(Clone, Copy, PartialEq, Eq, Debug)]
pub enum LifecycleState {
    /// Constructed; the loop has never run.
    NotStarted,
    /// The loop thread is running.
    Running,
    /// The loop thread has been stopped and joined.
    Stopped,
}

/// How the bounded wait for the monitor thread ended.
#[derive(Clone, Copy, PartialEq, Eq, Debug)]
pub enum StopOutcome {
    /// The thread exited within the timeout and was joined (a panic inside
    /// the loop is tolerated and not propagated).
    Exited,
    /// The thread did not exit within the timeout; it stays un-joined.
    TimedOut,
    /// The thread exited but could not be joined.
    JoinFailed,
}

/// The public lifecycle surface: guards every start/stop/reset against the
/// current state, so that the surrounding runtime only ever spawns, signals
/// or joins the loop thread when the transition is legal.
#[derive(Clone, Copy, PartialEq, Eq, Debug)]
pub struct Controller {
    /// The timing configuration, immutable after construction.
    pub config: Config,
    /// Where the monitor stands.
    pub state: LifecycleState,
}

impl Controller {
    /// A fresh monitor: configured, not yet started.
    pub fn new(config: Config) -> (c: Controller)
        ensures
            c == (Controller { config, state: LifecycleState::NotStarted }),
    {
        Controller { config, state: LifecycleState::NotStarted }
    }

    /// Whether the monitor thread is running.
    pub open spec fn spec_is_running(self) -> bool {
        self.state == LifecycleState::Running
    }

    /// Non-blocking state query.
    pub fn is_running(&self) -> (r: bool)
        ensures
            r == self.spec_is_running(),
    {
        matches!(self.state, LifecycleState::Running)
    }

    /// Transition into `Running`. Legal from `NotStarted` and from
    /// `Stopped`; a second start while already running is rejected rather
    /// than spawning a second loop over the first (which would leak the
    /// running thread).
    pub fn start(&mut self) -> (r: Result<(), MonitorError>)
        ensures
            final(self).config == old(self).config,
            old(self).state != LifecycleState::Running ==> r is Ok && final(self).state
                == LifecycleState::Running,
            old(self).state == LifecycleState::Running ==> r == Err::<(), MonitorError>(
                MonitorError::InvalidState,
            ) && *final(self) == *old(self),
    {
        match self.state {
            LifecycleState::Running => Err(MonitorError::InvalidState),
            _ => {
                self.state = LifecycleState::Running;
                Ok(())
            },
        }
    }

    /// Whether a stop may proceed: only a running monitor can be stopped.
    /// On `Ok` the caller sends the stop message and waits, bounded by the
    /// configured timeout, before reporting back through `finish_stop`.
    pub fn request_stop(&self) -> (r: Result<(), MonitorError>)
        ensures
            r is Ok <==> self.state == LifecycleState::Running,
            r is Err ==> r == Err::<(), MonitorError>(MonitorError::InvalidState),
    {
        match self.state {
            LifecycleState::Running => Ok(()),
            _ => Err(MonitorError::InvalidState),
        }
    }

    /// Settle a stop against how the bounded wait ended. A thread that
    /// exited in time leaves the monitor `Stopped`; one that outlived the
    /// timeout is a hard `Timeout` error and the monitor stays `Running`,
    /// so the caller may decide to stop again; a join failure is an
    /// `InternalError`, with nothing left to join.
    pub fn finish_stop(&mut self, outcome: StopOutcome) -> (r: Result<(), MonitorError>)
        requires
            old(self).state == LifecycleState::Running,
        ensures
            final(self).config == old(self).config,
            (match outcome {
                StopOutcome::Exited => r is Ok && final(self).state == LifecycleState::Stopped,
                StopOutcome::TimedOut => r == Err::<(), MonitorError>(MonitorError::Timeout)
                    && *final(self) == *old(self),
                StopOutcome::JoinFailed => r == Err::<(), MonitorError>(MonitorError::InternalError)
                    && final(self).state == LifecycleState::Stopped,
            }),
    {
        match outcome {
            StopOutcome::Exited => {
                self.state = LifecycleState::Stopped;
                Ok(())
            },
            StopOutcome::TimedOut => Err(MonitorError::Timeout),
            StopOutcome::JoinFailed => {
                self.state = LifecycleState::Stopped;
                Err(MonitorError::InternalError)
            },
        }
    }

    /// Whether a reset may proceed: only a running monitor can be reset.
    /// On `Ok` the caller sends the reset message, waits for the
    /// acknowledgement bounded by the configured timeout, and settles the
    /// outcome through `finish_reset`; the lifecycle state itself never
    /// changes on reset.
    pub fn request_reset(&self) -> (r: Result<(), MonitorError>)
        ensures
            r is Ok <==> self.state == LifecycleState::Running,
            r is Err ==> r == Err::<(), MonitorError>(MonitorError::InvalidState),
    {
        match self.state {
            LifecycleState::Running => Ok(()),
            _ => Err(MonitorError::InvalidState),
        }
    }
}

/// Settle a reset against whether the loop acknowledged it in time. A
/// missing acknowledgement is recoverable — the caller has already zeroed
/// the shared metric as a local fallback — so it surfaces as a `Warning`,
/// never as a hard failure.
pub fn finish_reset(acked: bool) -> (r: Result<(), MonitorError>)
    ensures
        acked <==> r is Ok,
        !acked ==> r == Err::<(), MonitorError>(MonitorError::Warning),
{
    if acked {
        Ok(())
    } else {
        Err(MonitorError::Warning)
    }
}

/// Whether the bounded wait for the monitor thread has run out: the wait is
/// over once strictly more than the configured timeout has elapsed.
pub fn stop_deadline_exceeded(waited_micros: u64, timeout_micros: u64) -> (r: bool)
    ensures
        r == (waited_micros > timeout_micros),
{
    waited_micros > timeout_micros
}

} // verus!
