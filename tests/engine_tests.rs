use bolt::{ConfigError, LoadTestConfig, LoadTestState, RunController, SampleOutcome, WorkerAction};
use bolt::engine::next_tick;

const MS: u64 = 1_000_000;

fn config(workers: usize, secs: u64, warm: u64, ramp: u64, rate: Option<u64>) -> LoadTestConfig {
    LoadTestConfig {
        url: "http://localhost/".to_string(),
        method: "GET".to_string(),
        concurrent_users: workers,
        duration_secs: secs,
        warmup_secs: warm,
        ramp_up_secs: ramp,
        rate_per_worker: rate,
        channel_capacity: 10000,
    }
}

/// Runs every worker against a simulated transport that answers `status`
/// after `latency`, until each one stops or `cancel_at` is reached.
fn simulate(c: &mut RunController, status: u16, latency: u64, cancel_at: Option<u64>) -> u64 {
    let workers = c.config.concurrent_users;
    let mut last = 0;
    for w in 0..workers {
        let mut now: u64 = 0;
        let mut due: u64 = 0;
        loop {
            let cancelled = cancel_at.map_or(false, |t| now >= t);
            c.advance(now);
            match c.worker_action(w, now, due, cancelled) {
                WorkerAction::Stop => break,
                WorkerAction::WaitUntil(t) => now = t,
                WorkerAction::Issue => {
                    due = c.next_due(due.min(now), now);
                    let done = now + latency;
                    c.on_sample(status, latency, done);
                    now = done;
                }
            }
        }
        last = last.max(now);
    }
    last
}

#[test]
fn config_checks() {
    assert!(config(1, 1, 0, 0, None).validate().is_ok());
    assert_eq!(config(0, 1, 0, 0, None).validate(), Err(ConfigError::ZeroConcurrency));
    assert_eq!(config(1, 1, 0, 0, Some(0)).validate(), Err(ConfigError::ZeroRate));
    let mut c = config(1, 1, 0, 0, None);
    c.channel_capacity = 0;
    assert_eq!(c.validate(), Err(ConfigError::ZeroChannelCapacity));
    assert_eq!(config(1, u64::MAX, 0, 0, None).validate(), Err(ConfigError::DurationTooLong));
    assert!(matches!(RunController::new(config(0, 1, 0, 0, None)), Err(ConfigError::ZeroConcurrency)));
}

#[test]
fn default_config() {
    let c = LoadTestConfig::default();
    assert_eq!(c.url, "https://httpbin.org/get");
    assert_eq!(c.concurrent_users, 10);
    assert_eq!(c.duration_secs, 30);
    assert_eq!(c.warmup_secs, 5);
    assert_eq!(c.ramp_up_secs, 10);
}

#[test]
fn phases_follow_schedule() {
    let c = config(4, 10, 2, 4, None);
    assert_eq!(c.phase_at(0), LoadTestState::WarmingUp);
    assert_eq!(c.phase_at(2_000 * MS), LoadTestState::RampingUp);
    assert_eq!(c.phase_at(6_000 * MS), LoadTestState::Running);
    assert_eq!(c.phase_at(16_000 * MS), LoadTestState::Completed);
    assert_eq!(config(4, 10, 0, 0, None).phase_at(0), LoadTestState::Running);
}

#[test]
fn ramp_is_linear() {
    let c = config(5, 10, 1, 4, None);
    assert_eq!(c.active_workers(0), 1);
    assert_eq!(c.active_workers(1_000 * MS), 1);
    assert_eq!(c.active_workers(2_000 * MS), 2);
    assert_eq!(c.active_workers(3_000 * MS), 3);
    assert_eq!(c.active_workers(4_999 * MS), 4);
    assert_eq!(c.active_workers(5_000 * MS), 5);
    assert_eq!(c.active_workers(15_000 * MS), 0);
}

#[test]
fn next_tick_skips_missed_ticks() {
    assert_eq!(next_tick(0, 50, 100), 100);
    assert_eq!(next_tick(0, 100, 100), 200);
    assert_eq!(next_tick(0, 350, 100), 400);
}

#[test]
fn advance_moves_forward_only() {
    let mut c = RunController::new(config(2, 1, 1, 1, None)).unwrap();
    assert_eq!(c.state, LoadTestState::NotStarted);
    c.advance(0);
    assert_eq!(c.state, LoadTestState::WarmingUp);
    c.advance(1_500 * MS);
    assert_eq!(c.state, LoadTestState::RampingUp);
    c.advance(0);
    assert_eq!(c.state, LoadTestState::RampingUp);
    c.advance(10_000 * MS);
    assert_eq!(c.state, LoadTestState::Running);
}

#[test]
fn closed_loop_mock_transport_run() {
    let mut c = RunController::new(config(5, 1, 0, 0, None)).unwrap();
    let end = simulate(&mut c, 200, 10 * MS, None);
    c.finish(end);
    assert_eq!(c.state, LoadTestState::Completed);
    let r = &c.result;
    assert_eq!(r.total_requests, 500);
    assert_eq!(r.successful_requests, 500);
    let qps = r.qps_milli as f64 / 1000.0;
    assert!((qps - r.total_requests as f64).abs() <= 0.05 * r.total_requests as f64);
    assert_eq!(r.p99_latency_ns, 10 * MS);
}

#[test]
fn open_loop_paces_requests() {
    let mut c = RunController::new(config(1, 1, 0, 0, Some(10))).unwrap();
    let end = simulate(&mut c, 200, 5 * MS, None);
    c.finish(end);
    assert_eq!(c.result.total_requests, 10);
}

#[test]
fn failing_transport_run() {
    let mut c = RunController::new(config(3, 1, 0, 0, None)).unwrap();
    let end = simulate(&mut c, 0, 20 * MS, None);
    c.finish(end);
    assert!(c.result.total_requests > 0);
    assert_eq!(c.result.failed_requests, c.result.total_requests);
    assert_eq!(c.result.successful_requests, 0);
}

#[test]
fn cancel_mid_run_fails_and_stops_workers() {
    let mut c = RunController::new(config(2, 10, 0, 0, Some(10))).unwrap();
    let end = simulate(&mut c, 200, 5 * MS, Some(500 * MS));
    assert!(end <= 600 * MS);
    c.cancel();
    assert_eq!(c.state, LoadTestState::Failed);
    assert_eq!(c.worker_action(0, 600 * MS, 0, false), WorkerAction::Stop);
    let before = c.result.total_requests;
    assert_eq!(c.on_sample(200, MS, 700 * MS), SampleOutcome::Frozen);
    assert_eq!(c.result.total_requests, before);
    c.finish(20_000 * MS);
    assert_eq!(c.state, LoadTestState::Failed);
}

#[test]
fn wait_never_exceeds_interval() {
    let c = RunController::new(config(1, 10, 0, 0, Some(10))).unwrap();
    match c.worker_action(0, 0, 100 * MS + 1, false) {
        WorkerAction::WaitUntil(t) => assert!(t <= 100 * MS),
        other => panic!("unexpected {:?}", other),
    }
}

#[test]
fn warm_up_samples_are_discarded() {
    let mut c = RunController::new(config(1, 1, 1, 0, None)).unwrap();
    let end = simulate(&mut c, 200, 10 * MS, None);
    c.finish(end);
    assert_eq!(c.state, LoadTestState::Completed);
    assert_eq!(c.result.total_requests, 100);
    assert_eq!(c.discarded_warmup, 100);
    let mut d = RunController::new(config(1, 1, 1, 0, None)).unwrap();
    assert_eq!(d.on_sample(200, MS, 999 * MS), SampleOutcome::WarmUp);
    assert_eq!(d.on_sample(200, 2 * MS, 1_001 * MS), SampleOutcome::WarmUp);
    assert_eq!(d.result.total_requests, 0);
    assert_eq!(d.on_sample(200, MS, 1_001 * MS), SampleOutcome::Folded);
    assert_eq!(d.result.total_requests, 1);
}

#[test]
fn finish_brings_throughput_to_end() {
    let mut c = RunController::new(config(1, 1, 0, 0, None)).unwrap();
    assert_eq!(c.on_sample(200, 10 * MS, 10 * MS), SampleOutcome::Folded);
    assert_eq!(c.on_sample(200, 10 * MS, 20 * MS), SampleOutcome::Folded);
    assert_eq!(c.result.qps_milli, 200_000);
    c.finish(1_010 * MS);
    assert_eq!(c.state, LoadTestState::Completed);
    assert_eq!(c.result.elapsed_ns, 1_000 * MS);
    assert_eq!(c.result.qps_milli, 2_000);
}

#[test]
fn early_finish_fails() {
    let mut c = RunController::new(config(1, 1, 0, 0, None)).unwrap();
    c.finish(500 * MS);
    assert_eq!(c.state, LoadTestState::Failed);
}

#[test]
fn latency_sum_overflow_fails_run() {
    let mut c = RunController::new(config(1, 1, 0, 0, None)).unwrap();
    assert_eq!(c.on_sample(200, u64::MAX - 10, 5 * MS), SampleOutcome::Folded);
    assert_eq!(c.on_sample(200, 11, 6 * MS), SampleOutcome::Overflow);
    assert_eq!(c.state, LoadTestState::Failed);
    assert_eq!(c.result.total_requests, 1);
}
