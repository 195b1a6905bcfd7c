use vstd::prelude::*;

verus! {

/// Failure taxonomy of the monitor.
///
/// Configuration and state errors are raised synchronously by the
/// operation that detects them; `Timeout` reports that a bounded wait for
/// the monitor thread ran out; `InternalError` reports a failure that
/// should never happen in normal operation (a thread that cannot be
/// joined); `Warning` is recoverable: the operation completed by a local
/// fallback even though the monitor thread did not acknowledge it.
#[derive(Clone, Copy, PartialEq, Eq, Debug)]
pub enum MonitorError {
    InvalidConfiguration,
    InvalidState,
    Timeout,
    InternalError,
    Warning,
}

} // verus!
