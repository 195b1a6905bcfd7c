use gilknocker::config::Config;
use gilknocker::lifecycle::stop_deadline_exceeded;
use gilknocker::lifecycle::Controller;
use gilknocker::lifecycle::StopOutcome;
use gilknocker::monitor::ControlMessage;
use gilknocker::monitor::LoopAction;
use gilknocker::monitor::LoopEvent;
use gilknocker::monitor::MonitorState;
use gilknocker::window::WindowAccumulator;
use gilknocker::window::window_should_continue;
use gilknocker::window::WindowResult;

/// One sampling window made of simulated probes: each probe waits
/// `wait_per_probe` microseconds and one polling interval passes between
/// probes.
fn simulated_window(polling: u64, sampling: u64, wait_per_probe: u64) -> WindowResult {
    let mut acc = WindowAccumulator::new();
    let mut elapsed: u64 = 0;
    while window_should_continue(elapsed, sampling) {
        acc.record_wait(wait_per_probe);
        elapsed += wait_per_probe + polling;
    }
    acc.finish(elapsed)
}

#[test]
fn run_sample_and_stop_within_timeout() {
    let config = Config::new(Some(1000), Some(10000), Some(12000)).unwrap();
    let mut ctl = Controller::new(config);
    ctl.start().unwrap();
    assert!(ctl.is_running());

    let mut loop_state = MonitorState::new();
    assert_eq!(loop_state.published.value_millionths(), 0);
    loop_state.enter_loop();

    // Roughly 50 ms of monitoring: five windows come back, each folded in.
    for _ in 0..5 {
        let w = simulated_window(
            config.polling_interval_micros,
            config.sampling_interval_micros,
            250,
        );
        let a = loop_state.step(LoopEvent::TimedOut(Some(w)));
        assert!(matches!(a, LoopAction::Reconcile(_)));
    }
    let metric = loop_state.published.value_millionths() as f32 / 1_000_000f32;
    assert!(metric.is_finite());
    assert!(metric >= 0.0);
    assert!(metric > 0.1 && metric < 0.3);

    // Stop: the loop exits on the first message, well within the timeout.
    assert_eq!(ctl.request_stop(), Ok(()));
    let a = loop_state.step(LoopEvent::Received(ControlMessage::Stop));
    assert!(matches!(a, LoopAction::Exit));
    let waited: u64 = 10_000;
    assert!(!stop_deadline_exceeded(waited, config.timeout_micros));
    assert_eq!(ctl.finish_stop(StopOutcome::Exited), Ok(()));
    assert!(!ctl.is_running());
}

#[test]
fn contended_run_reads_higher_than_quiet_run() {
    let config = Config::new(Some(1000), Some(10000), Some(12000)).unwrap();

    let mut quiet = MonitorState::new();
    quiet.enter_loop();
    let mut contended = MonitorState::new();
    contended.enter_loop();

    for _ in 0..5 {
        let qw = simulated_window(
            config.polling_interval_micros,
            config.sampling_interval_micros,
            10,
        );
        quiet.step(LoopEvent::TimedOut(Some(qw)));
        let cw = simulated_window(
            config.polling_interval_micros,
            config.sampling_interval_micros,
            3000,
        );
        contended.step(LoopEvent::TimedOut(Some(cw)));
    }
    assert!(quiet.published.value_millionths() < contended.published.value_millionths());
}
