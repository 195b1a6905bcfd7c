use gilknocker::metric::Metric;
use gilknocker::window::WindowAccumulator;

#[test]
fn fresh_metric_reads_zero() {
    let m = Metric::zero();
    assert_eq!(m.value_millionths(), 0);
}

#[test]
fn half_contention_reads_half() {
    let m = Metric { waiting_micros: 5000, sampling_micros: 10000 };
    assert_eq!(m.value_millionths(), 500_000);
}

#[test]
fn ratio_rounds_down() {
    let m = Metric { waiting_micros: 1, sampling_micros: 3 };
    assert_eq!(m.value_millionths(), 333_333);
}

#[test]
fn no_sampling_time_reads_zero() {
    let m = Metric { waiting_micros: 123, sampling_micros: 0 };
    assert_eq!(m.value_millionths(), 0);
}

#[test]
fn fully_contended_reads_one() {
    let m = Metric { waiting_micros: 10000, sampling_micros: 10000 };
    assert_eq!(m.value_millionths(), 1_000_000);
}

#[test]
fn metric_as_float_is_finite_and_nonnegative() {
    let m = Metric { waiting_micros: 7000, sampling_micros: 10000 };
    let v = m.value_millionths() as f32 / 1_000_000f32;
    assert!(v.is_finite());
    assert!(v >= 0.0);
    assert!((v - 0.7).abs() < 1e-6);
}

#[test]
fn more_waiting_reads_strictly_higher() {
    let quiet = Metric { waiting_micros: 100, sampling_micros: 10000 };
    let contended = Metric { waiting_micros: 9000, sampling_micros: 10000 };
    assert!(quiet.value_millionths() < contended.value_millionths());
}

#[test]
fn window_accumulator_sums_waits() {
    let mut acc = WindowAccumulator::new();
    assert_eq!(acc.waiting_micros, 0);
    acc.record_wait(300);
    acc.record_wait(700);
    let r = acc.finish(10_000);
    assert_eq!(r.waiting_micros, 1000);
    assert_eq!(r.elapsed_micros, 10_000);
}

#[test]
fn window_accumulator_saturates() {
    let mut acc = WindowAccumulator::new();
    acc.record_wait(u64::MAX);
    acc.record_wait(12345);
    assert_eq!(acc.waiting_micros, u64::MAX);
}

#[test]
fn window_continues_until_sampling_interval() {
    assert!(gilknocker::window::window_should_continue(0, 10_000));
    assert!(gilknocker::window::window_should_continue(9_999, 10_000));
    assert!(!gilknocker::window::window_should_continue(10_000, 10_000));
    assert!(!gilknocker::window::window_should_continue(20_000, 10_000));
}
