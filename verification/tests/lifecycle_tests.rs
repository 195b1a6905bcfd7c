use gilknocker::config::Config;
use gilknocker::errors::MonitorError;
use gilknocker::lifecycle::finish_reset;
use gilknocker::lifecycle::stop_deadline_exceeded;
use gilknocker::lifecycle::Controller;
use gilknocker::lifecycle::StopOutcome;

fn controller() -> Controller {
    Controller::new(Config::new(Some(1000), Some(10000), Some(12000)).unwrap())
}

#[test]
fn stop_before_start_is_invalid_state() {
    let ctl = controller();
    assert_eq!(ctl.request_stop(), Err(MonitorError::InvalidState));
}

#[test]
fn reset_before_start_is_invalid_state() {
    let ctl = controller();
    assert_eq!(ctl.request_reset(), Err(MonitorError::InvalidState));
}

#[test]
fn start_makes_the_monitor_running() {
    let mut ctl = controller();
    assert!(!ctl.is_running());
    assert_eq!(ctl.start(), Ok(()));
    assert!(ctl.is_running());
}

#[test]
fn second_start_is_rejected() {
    let mut ctl = controller();
    ctl.start().unwrap();
    assert_eq!(ctl.start(), Err(MonitorError::InvalidState));
    assert!(ctl.is_running());
}

#[test]
fn stop_after_start_leaves_not_running() {
    let mut ctl = controller();
    ctl.start().unwrap();
    assert_eq!(ctl.request_stop(), Ok(()));
    assert_eq!(ctl.finish_stop(StopOutcome::Exited), Ok(()));
    assert!(!ctl.is_running());
}

#[test]
fn stop_timeout_is_a_hard_error_and_stays_running() {
    let mut ctl = controller();
    ctl.start().unwrap();
    assert_eq!(ctl.finish_stop(StopOutcome::TimedOut), Err(MonitorError::Timeout));
    assert!(ctl.is_running());
}

#[test]
fn join_failure_is_an_internal_error() {
    let mut ctl = controller();
    ctl.start().unwrap();
    assert_eq!(ctl.finish_stop(StopOutcome::JoinFailed), Err(MonitorError::InternalError));
    assert!(!ctl.is_running());
}

#[test]
fn restart_after_stop_is_allowed() {
    let mut ctl = controller();
    ctl.start().unwrap();
    ctl.finish_stop(StopOutcome::Exited).unwrap();
    assert_eq!(ctl.start(), Ok(()));
    assert!(ctl.is_running());
}

#[test]
fn reset_after_start_is_allowed() {
    let mut ctl = controller();
    ctl.start().unwrap();
    assert_eq!(ctl.request_reset(), Ok(()));
    assert!(ctl.is_running());
}

#[test]
fn missing_reset_ack_is_a_recoverable_warning() {
    assert_eq!(finish_reset(true), Ok(()));
    assert_eq!(finish_reset(false), Err(MonitorError::Warning));
}

#[test]
fn stop_deadline_is_strict() {
    assert!(!stop_deadline_exceeded(0, 12000));
    assert!(!stop_deadline_exceeded(12000, 12000));
    assert!(stop_deadline_exceeded(12001, 12000));
}
