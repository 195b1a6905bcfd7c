//! Measurement core for contention on a single cooperative lock.
//!
//! The crate models the sampling engine of a lock-contention monitor: a
//! configuration with validated interval relationships, the accounting of
//! sampling windows, the control-loop state machine that folds window
//! results into running totals and publishes a contention ratio, and the
//! lifecycle controller that guards start/stop/reset transitions.
//!
//! Everything here is plain-value logic; the surrounding runtime (threads,
//! channels, the shared metric cell, and the probe of the monitored lock)
//! lives outside the verified core and drives these state machines.

pub mod config;
pub mod errors;
pub mod lifecycle;
pub mod metric;
pub mod monitor;
pub mod window;
