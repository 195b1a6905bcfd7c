use vstd::prelude::*;

verus! {

/// What one completed sampling window reports back: the total time its
/// probes spent waiting for the monitored lock, and the wall-clock time the
/// window actually ran (which may exceed the configured sampling interval
/// by scheduling slack, and is the value the ratio must use).
#[derive(Clone, Copy, PartialEq, Eq, Debug)]
pub struct WindowResult {
    /// Accumulated lock-wait time of all probes in the window, in microseconds.
    pub waiting_micros: u64,
    /// Measured duration of the whole window, in microseconds.
    pub elapsed_micros: u64,
}

/// Saturating sum of two durations in microseconds: accumulated times never
/// wrap, they cap at the largest representable duration.
pub open spec fn sat_add_micros(a: int, b: int) -> u64 {
    if a + b > u64::MAX {
        u64::MAX
    } else {
        (a + b) as u64
    }
}

/// Whether a sampling window keeps probing: it runs until its measured
/// elapsed time reaches the configured sampling interval.
pub fn window_should_continue(elapsed_micros: u64, sampling_interval_micros: u64) -> (r: bool)
    ensures
        r == (elapsed_micros < sampling_interval_micros),
{
    elapsed_micros < sampling_interval_micros
}

/// Wait-time accounting of one sampling window while it is running.
#[derive(Clone, Copy, PartialEq, Eq, Debug)]
pub struct WindowAccumulator {
    /// Lock-wait time summed over the probes made so far, in microseconds.
    pub waiting_micros: u64,
}

impl WindowAccumulator {
    /// A window starts with no wait time recorded.
    pub fn new() -> (w: WindowAccumulator)
        ensures
            w.waiting_micros == 0,
    {
        WindowAccumulator { waiting_micros: 0 }
    }

    /// Record the wait time of one completed lock probe.
    pub fn record_wait(&mut self, wait_micros: u64)
        ensures
            final(self).waiting_micros == sat_add_micros(
                old(self).waiting_micros as int,
                wait_micros as int,
            ),
    {
        self.waiting_micros = self.waiting_micros.saturating_add(wait_micros);
    }

    /// Close the window against its measured elapsed time.
    pub fn finish(&self, elapsed_micros: u64) -> (r: WindowResult)
        ensures
            r == (WindowResult { waiting_micros: self.waiting_micros, elapsed_micros }),
    {
        WindowResult { waiting_micros: self.waiting_micros, elapsed_micros }
    }
}

} // verus!
