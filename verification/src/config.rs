use vstd::prelude::*;

use crate::errors::MonitorError;

verus! {

/// Default time between successive lock probes inside a window, in microseconds.
pub const DEFAULT_POLLING_INTERVAL_MICROS: u64 = 1000;

/// The default sampling interval is this many polling intervals.
pub const DEFAULT_SAMPLING_MULTIPLIER: u64 = 10;

/// Slack added on top of `polling + sampling` for the default timeout, in
/// microseconds (one second).
pub const DEFAULT_TIMEOUT_SLACK_MICROS: u64 = 1_000_000;

/// The polling interval that construction settles on: the given value, or
/// the default.
pub open spec fn chosen_polling(polling_micros: Option<u64>) -> int {
    match polling_micros {
        Some(v) => v as int,
        None => DEFAULT_POLLING_INTERVAL_MICROS as int,
    }
}

/// The sampling interval that construction settles on: the given value, or
/// ten polling intervals.
pub open spec fn chosen_sampling(polling_micros: Option<u64>, sampling_micros: Option<u64>) -> int {
    match sampling_micros {
        Some(v) => v as int,
        None => DEFAULT_SAMPLING_MULTIPLIER * chosen_polling(polling_micros),
    }
}

/// The timeout that construction settles on: the given value, or
/// `polling + sampling` plus one second.
pub open spec fn chosen_timeout(
    polling_micros: Option<u64>,
    sampling_micros: Option<u64>,
    timeout_micros: Option<u64>,
) -> int {
    match timeout_micros {
        Some(v) => v as int,
        None => chosen_polling(polling_micros) + chosen_sampling(polling_micros, sampling_micros)
            + DEFAULT_TIMEOUT_SLACK_MICROS,
    }
}

/// A configuration is valid exactly when the timeout strictly exceeds one
/// polling interval plus one sampling interval: a stop or reset must be
/// given enough budget to outlast a full probe-and-sample cycle.
pub open spec fn intervals_valid(polling: int, sampling: int, timeout: int) -> bool {
    timeout > polling + sampling
}

/// Immutable timing configuration of a monitor, all in microseconds.
#[derive(Clone, Copy, PartialEq, Eq, Debug)]
pub struct Config {
    /// Time between successive lock probes inside a sampling window.
    pub polling_interval_micros: u64,
    /// Time one sampling window keeps probing before it reports back.
    pub sampling_interval_micros: u64,
    /// Longest time a caller waits for the monitor thread on stop or reset.
    pub timeout_micros: u64,
}

impl Config {
    /// Well-formedness: established at construction and never changed.
    pub open spec fn wf(self) -> bool {
        intervals_valid(
            self.polling_interval_micros as int,
            self.sampling_interval_micros as int,
            self.timeout_micros as int,
        )
    }

    /// Build a configuration from optional microsecond values, filling in
    /// defaults and rejecting any combination whose timeout does not
    /// strictly exceed `polling + sampling` (or whose defaults do not fit
    /// in 64 bits).
    pub fn new(
        polling_interval_micros: Option<u64>,
        sampling_interval_micros: Option<u64>,
        timeout_micros: Option<u64>,
    ) -> (r: Result<Config, MonitorError>)
        ensures
            ({
                let p = chosen_polling(polling_interval_micros);
                let s = chosen_sampling(polling_interval_micros, sampling_interval_micros);
                let t = chosen_timeout(
                    polling_interval_micros,
                    sampling_interval_micros,
                    timeout_micros,
                );
                &&& (r is Ok <==> s <= u64::MAX && t <= u64::MAX && intervals_valid(p, s, t))
                &&& (r matches Ok(c) ==> c == (Config {
                    polling_interval_micros: p as u64,
                    sampling_interval_micros: s as u64,
                    timeout_micros: t as u64,
                }) && c.wf())
                &&& (r is Err ==> r == Err::<Config, MonitorError>(
                    MonitorError::InvalidConfiguration,
                ))
            }),
    {
        let polling: u64 = match polling_interval_micros {
            Some(v) => v,
            None => DEFAULT_POLLING_INTERVAL_MICROS,
        };
        let sampling: u64 = match sampling_interval_micros {
            Some(v) => v,
            None => {
                if polling > u64::MAX / DEFAULT_SAMPLING_MULTIPLIER {
                    return Err(MonitorError::InvalidConfiguration);
                }
                polling * DEFAULT_SAMPLING_MULTIPLIER
            },
        };
        if sampling > u64::MAX - polling {
            // `polling + sampling` exceeds any representable timeout.
            return Err(MonitorError::InvalidConfiguration);
        }
        let cycle: u64 = polling + sampling;
        let timeout: u64 = match timeout_micros {
            Some(v) => v,
            None => {
                if cycle > u64::MAX - DEFAULT_TIMEOUT_SLACK_MICROS {
                    return Err(MonitorError::InvalidConfiguration);
                }
                cycle + DEFAULT_TIMEOUT_SLACK_MICROS
            },
        };
        if timeout <= cycle {
            return Err(MonitorError::InvalidConfiguration);
        }
        Ok(Config {
            polling_interval_micros: polling,
            sampling_interval_micros: sampling,
            timeout_micros: timeout,
        })
    }
}

} // verus!
