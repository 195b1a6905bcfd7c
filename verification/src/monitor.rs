use vstd::prelude::*;

use crate::metric::lemma_more_waiting_greater_metric;
use crate::metric::lemma_zero_metric_value;
use crate::metric::Metric;
use crate::window::sat_add_micros;
use crate::window::WindowResult;

verus! {

/// Durations accumulated across the sampling windows completed since the
/// monitor started or was last reset.
#[derive(Clone, Copy, PartialEq, Eq, Debug)]
pub struct RunningTotals {
    /// Total time the probes spent waiting for the monitored lock, in microseconds.
    pub waiting_micros: u64,
    /// Total time spent inside sampling windows, in microseconds.
    pub sampling_micros: u64,
}

impl RunningTotals {
    /// Totals right after start or reset: nothing accumulated.
    pub fn zero() -> (t: RunningTotals)
        ensures
            t == (RunningTotals { waiting_micros: 0, sampling_micros: 0 }),
    {
        RunningTotals { waiting_micros: 0, sampling_micros: 0 }
    }

    /// What folding one window result into the totals yields: both sums
    /// grow monotonically, saturating at the largest representable duration.
    pub open spec fn spec_fold(self, w: WindowResult) -> RunningTotals {
        RunningTotals {
            waiting_micros: sat_add_micros(self.waiting_micros as int, w.waiting_micros as int),
            sampling_micros: sat_add_micros(self.sampling_micros as int, w.elapsed_micros as int),
        }
    }

    /// Fold a completed window's result into the totals.
    pub fn fold(&mut self, w: &WindowResult)
        ensures
            *final(self) == old(self).spec_fold(*w),
    {
        self.waiting_micros = self.waiting_micros.saturating_add(w.waiting_micros);
        self.sampling_micros = self.sampling_micros.saturating_add(w.elapsed_micros);
    }

    /// The metric these totals derive to.
    pub fn as_metric(&self) -> (m: Metric)
        ensures
            m == (Metric {
                waiting_micros: self.waiting_micros,
                sampling_micros: self.sampling_micros,
            }),
    {
        Metric { waiting_micros: self.waiting_micros, sampling_micros: self.sampling_micros }
    }
}

/// A control message sent into the running loop.
#[derive(Clone, Copy, PartialEq, Eq, Debug)]
pub enum ControlMessage {
    /// Exit the loop promptly, abandoning any in-flight window.
    Stop,
    /// Zero the totals and the published metric, then acknowledge.
    Reset,
}

/// What one timed wait on the control channel came back with.
#[derive(Clone, Copy, Debug)]
pub enum LoopEvent {
    /// A control message arrived.
    Received(ControlMessage),
    /// The control channel's sender is gone; nobody can stop the loop any
    /// more, so this counts as a stop.
    Disconnected,
    /// The wait timed out. The payload is the result of the in-flight
    /// sampling window if that window has completed, and nothing if no
    /// window has completed (none in flight, or still running).
    TimedOut(Option<WindowResult>),
}

/// What the loop must do after a step.
#[derive(Clone, Copy, Debug)]
pub enum LoopAction {
    /// Leave the loop; any in-flight window is abandoned.
    Exit,
    /// Write a zero metric to the shared cell and acknowledge the reset.
    AckReset,
    /// Write this metric to the shared cell and launch the next sampling
    /// window.
    Reconcile(Metric),
    /// Launch a sampling window.
    Launch,
    /// Nothing to do; wait for the next event.
    Wait,
}

/// Where the control loop stands.
#[derive(Clone, Copy, PartialEq, Eq, Debug)]
pub enum MonitorPhase {
    /// No sampling window in flight.
    Idle,
    /// One sampling window in flight.
    Sampling,
    /// The loop has exited.
    Stopped,
}

/// The control loop's whole state: running totals, the metric it last
/// published, and its phase.
#[derive(Clone, Copy, PartialEq, Eq, Debug)]
pub struct MonitorState {
    /// Durations accumulated since start or the last reset.
    pub totals: RunningTotals,
    /// The metric as last written to the shared cell.
    pub published: Metric,
    /// Whether a window is in flight and whether the loop still runs.
    pub phase: MonitorPhase,
}

/// What a reset leaves behind: totals and published metric at zero, the
/// phase untouched (an in-flight window is not cancelled; its result will
/// be folded into the zeroed totals).
pub open spec fn spec_reset(s: MonitorState) -> MonitorState {
    MonitorState {
        totals: RunningTotals { waiting_micros: 0, sampling_micros: 0 },
        published: Metric { waiting_micros: 0, sampling_micros: 0 },
        phase: s.phase,
    }
}

impl MonitorState {
    /// The loop's state as it begins: nothing accumulated, a zero metric
    /// published, no window in flight yet.
    pub fn new() -> (s: MonitorState)
        ensures
            s == (MonitorState {
                totals: RunningTotals { waiting_micros: 0, sampling_micros: 0 },
                published: Metric { waiting_micros: 0, sampling_micros: 0 },
                phase: MonitorPhase::Idle,
            }),
            s.published.is_zero(),
            s.published.spec_value_millionths() == 0,
    {
        MonitorState {
            totals: RunningTotals::zero(),
            published: Metric::zero(),
            phase: MonitorPhase::Idle,
        }
    }

    /// Entering the loop launches the first sampling window.
    pub fn enter_loop(&mut self) -> (a: LoopAction)
        requires
            old(self).phase == MonitorPhase::Idle,
        ensures
            final(self).totals == old(self).totals,
            final(self).published == old(self).published,
            final(self).phase == MonitorPhase::Sampling,
            a is Launch,
    {
        self.phase = MonitorPhase::Sampling;
        LoopAction::Launch
    }

    /// One turn of the control loop: consume the outcome of one timed wait
    /// on the control channel and say what to do next.
    ///
    /// A stop message, like a disconnected channel, exits at once. A reset
    /// zeroes totals and metric and is acknowledged, whatever the phase. A
    /// timeout with a completed window folds that window's result into the
    /// totals and republishes the ratio of the new totals — unless no
    /// sampling time has accumulated yet, in which case the previously
    /// published value stands — and the next window is launched at once. A
    /// timeout with no completed window launches a window only if none is
    /// in flight.
    pub fn step(&mut self, event: LoopEvent) -> (a: LoopAction)
        requires
            old(self).phase != MonitorPhase::Stopped,
            event matches LoopEvent::TimedOut(w) && w is Some ==> old(self).phase
                == MonitorPhase::Sampling,
        ensures
            (match event {
                LoopEvent::Received(ControlMessage::Stop) => {
                    &&& *final(self) == (MonitorState {
                        totals: old(self).totals,
                        published: old(self).published,
                        phase: MonitorPhase::Stopped,
                    })
                    &&& a is Exit
                },
                LoopEvent::Disconnected => {
                    &&& *final(self) == (MonitorState {
                        totals: old(self).totals,
                        published: old(self).published,
                        phase: MonitorPhase::Stopped,
                    })
                    &&& a is Exit
                },
                LoopEvent::Received(ControlMessage::Reset) => {
                    &&& *final(self) == spec_reset(*old(self))
                    &&& final(self).published.is_zero()
                    &&& final(self).published.spec_value_millionths() == 0
                    &&& a is AckReset
                },
                LoopEvent::TimedOut(window) => match window {
                    Some(w) => {
                        &&& final(self).totals == old(self).totals.spec_fold(w)
                        &&& final(self).published == (if final(self).totals.sampling_micros > 0 {
                            Metric {
                                waiting_micros: final(self).totals.waiting_micros,
                                sampling_micros: final(self).totals.sampling_micros,
                            }
                        } else {
                            old(self).published
                        })
                        &&& final(self).phase == MonitorPhase::Sampling
                        &&& a == LoopAction::Reconcile(final(self).published)
                    },
                    None => {
                        &&& final(self).totals == old(self).totals
                        &&& final(self).published == old(self).published
                        &&& (old(self).phase == MonitorPhase::Idle ==> final(self).phase
                            == MonitorPhase::Sampling && a is Launch)
                        &&& (old(self).phase == MonitorPhase::Sampling ==> *final(self) == *old(
                            self,
                        ) && a is Wait)
                    },
                },
            }),
    {
        match event {
            LoopEvent::Received(ControlMessage::Stop) => {
                self.phase = MonitorPhase::Stopped;
                LoopAction::Exit
            },
            LoopEvent::Received(ControlMessage::Reset) => {
                self.totals = RunningTotals::zero();
                self.published = Metric::zero();
                LoopAction::AckReset
            },
            LoopEvent::Disconnected => {
                self.phase = MonitorPhase::Stopped;
                LoopAction::Exit
            },
            LoopEvent::TimedOut(Some(w)) => {
                self.totals.fold(&w);
                if self.totals.sampling_micros > 0 {
                    self.published = self.totals.as_metric();
                }
                LoopAction::Reconcile(self.published)
            },
            LoopEvent::TimedOut(None) => {
                match self.phase {
                    MonitorPhase::Idle => {
                        self.phase = MonitorPhase::Sampling;
                        LoopAction::Launch
                    },
                    _ => LoopAction::Wait,
                }
            },
        }
    }
}

/// Observing a contended lock reads strictly higher than observing an
/// uncontended one, all else equal: folding a window with the same elapsed
/// time but strictly more wait time into the same totals yields a strictly
/// greater metric — as long as neither sum saturates (once a total has
/// capped at the largest representable duration, two runs can no longer be
/// told apart).
pub proof fn lemma_contended_window_reads_higher(
    t: RunningTotals,
    quiet: WindowResult,
    contended: WindowResult,
)
    requires
        quiet.elapsed_micros == contended.elapsed_micros,
        quiet.waiting_micros < contended.waiting_micros,
        t.sampling_micros + quiet.elapsed_micros > 0,
        t.sampling_micros + quiet.elapsed_micros <= u64::MAX,
        t.waiting_micros + contended.waiting_micros <= u64::MAX,
    ensures
        ({
            let q = t.spec_fold(quiet);
            let c = t.spec_fold(contended);
            (Metric { waiting_micros: q.waiting_micros, sampling_micros: q.sampling_micros })
                .ratio_lt(
                Metric { waiting_micros: c.waiting_micros, sampling_micros: c.sampling_micros },
            )
        }),
{
    let q = t.spec_fold(quiet);
    let c = t.spec_fold(contended);
    lemma_more_waiting_greater_metric(
        Metric { waiting_micros: q.waiting_micros, sampling_micros: q.sampling_micros },
        Metric { waiting_micros: c.waiting_micros, sampling_micros: c.sampling_micros },
    );
}

/// Resetting is idempotent: a second reset, with no intervening activity,
/// changes nothing, and after either reset the published metric reads as
/// exactly zero.
pub proof fn lemma_reset_idempotent(s: MonitorState)
    ensures
        spec_reset(spec_reset(s)) == spec_reset(s),
        spec_reset(s).published.is_zero(),
        spec_reset(s).published.spec_value_millionths() == 0,
{
    lemma_zero_metric_value(spec_reset(s).published);
}

} // verus!
