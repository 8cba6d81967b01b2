//! The run controller: configuration checks, the phase state machine,
//! the ramp-up schedule, request pacing and which samples are counted.
//!
//! Time is measured in nanoseconds since the run started. The caller runs
//! the workers, the timers and the transport, and asks the controller what
//! to do at each step.
use vstd::prelude::*;
use crate::result::{LoadTestResult, throughput_milli};

verus! {

pub const NANOS_PER_SEC: u64 = 1_000_000_000;

/// How long an inactive worker waits before it asks again whether it may
/// start, in closed-loop mode.
pub const IDLE_POLL_NS: u64 = 10_000_000;

/// Configuration of one load test.
#[derive(Debug, Clone)]
pub struct LoadTestConfig {
    pub url: String,
    pub method: String,
    /// Number of workers at full load.
    pub concurrent_users: usize,
    /// Length of the measured run, after warm-up and ramp-up.
    pub duration_secs: u64,
    /// Warm-up: one worker, samples discarded.
    pub warmup_secs: u64,
    /// Ramp-up: workers started on a linear schedule.
    pub ramp_up_secs: u64,
    /// Requests per second per worker (open loop), or `None` for closed
    /// loop, where each worker issues its next request when the previous
    /// one completes.
    pub rate_per_worker: Option<u64>,
    /// Bound of the sample channel between workers and aggregator.
    pub channel_capacity: usize,
}

/// Why a configuration is refused before any worker starts.
#[derive(Debug, Clone, Copy, PartialEq, Eq, Structural)]
pub enum ConfigError {
    ZeroConcurrency,
    ZeroRate,
    ZeroChannelCapacity,
    /// Warm-up, ramp-up and run together do not fit in `u64` nanoseconds.
    DurationTooLong,
}

/// Lifecycle of a run. Transitions only move forward.
#[derive(Debug, Clone, Copy, PartialEq, Eq, Structural)]
pub enum LoadTestState {
    NotStarted,
    WarmingUp,
    RampingUp,
    Running,
    Completed,
    Failed,
}

/// Position of a state in the lifecycle order.
pub open spec fn state_rank(s: LoadTestState) -> int {
    match s {
        LoadTestState::NotStarted => 0,
        LoadTestState::WarmingUp => 1,
        LoadTestState::RampingUp => 2,
        LoadTestState::Running => 3,
        LoadTestState::Completed => 4,
        LoadTestState::Failed => 5,
    }
}

pub open spec fn is_terminal(s: LoadTestState) -> bool {
    s == LoadTestState::Completed || s == LoadTestState::Failed
}

impl LoadTestState {
    pub fn is_terminal(&self) -> (r: bool)
        ensures
            r == is_terminal(*self),
    {
        match self {
            LoadTestState::Completed | LoadTestState::Failed => true,
            _ => false,
        }
    }
}

/// What a worker does next.
#[derive(Debug, Clone, Copy, PartialEq, Eq, Structural)]
pub enum WorkerAction {
    /// Issue one request now.
    Issue,
    /// Wait until this time, then ask again.
    WaitUntil(u64),
    /// Leave the loop; issue nothing more.
    Stop,
}

/// What became of a sample handed to the controller.
#[derive(Debug, Clone, Copy, PartialEq, Eq, Structural)]
pub enum SampleOutcome {
    /// Folded into the result.
    Folded,
    /// Its request was issued during warm-up: discarded.
    WarmUp,
    /// The run has ended: the result is frozen.
    Frozen,
    /// The counters cannot hold it: the run has failed.
    Overflow,
}

pub open spec fn secs_to_ns(s: u64) -> int {
    s as int * NANOS_PER_SEC as int
}

/// End of warm-up.
pub open spec fn warm_end(c: &LoadTestConfig) -> int {
    secs_to_ns(c.warmup_secs)
}

/// End of ramp-up.
pub open spec fn ramp_end(c: &LoadTestConfig) -> int {
    secs_to_ns(c.warmup_secs) + secs_to_ns(c.ramp_up_secs)
}

/// End of the measured run.
pub open spec fn run_end(c: &LoadTestConfig) -> int {
    ramp_end(c) + secs_to_ns(c.duration_secs)
}

/// The outcome of checking a configuration: the first rule broken, in the
/// order concurrency, rate, channel capacity, total duration.
pub open spec fn config_check(c: &LoadTestConfig) -> Result<(), ConfigError> {
    if c.concurrent_users == 0 {
        Err(ConfigError::ZeroConcurrency)
    } else if c.rate_per_worker == Some(0u64) {
        Err(ConfigError::ZeroRate)
    } else if c.channel_capacity == 0 {
        Err(ConfigError::ZeroChannelCapacity)
    } else if run_end(c) > u64::MAX {
        Err(ConfigError::DurationTooLong)
    } else {
        Ok(())
    }
}

/// A configuration that a run can start from.
pub open spec fn config_valid(c: &LoadTestConfig) -> bool {
    &&& c.concurrent_users >= 1
    &&& c.channel_capacity >= 1
    &&& (c.rate_per_worker matches Some(r) ==> r >= 1)
    &&& run_end(c) <= u64::MAX
}

/// The phase that the schedule assigns to time `t`.
pub open spec fn phase_at(c: &LoadTestConfig, t: int) -> LoadTestState {
    if t < warm_end(c) {
        LoadTestState::WarmingUp
    } else if t < ramp_end(c) {
        LoadTestState::RampingUp
    } else if t < run_end(c) {
        LoadTestState::Running
    } else {
        LoadTestState::Completed
    }
}

/// Number of workers the schedule runs at time `t`: one during warm-up;
/// during ramp-up from one, linearly, towards all of them; all of them
/// while running; none once the run has ended.
pub open spec fn active_at(c: &LoadTestConfig, t: int) -> int {
    let n = c.concurrent_users as int;
    if t < warm_end(c) {
        1
    } else if t < ramp_end(c) {
        1 + (n - 1) * (t - warm_end(c)) / secs_to_ns(c.ramp_up_secs)
    } else if t < run_end(c) {
        n
    } else {
        0
    }
}

/// Interval between two requests of one worker at `rate` per second.
pub open spec fn interval_for(rate: u64) -> int {
    if rate >= NANOS_PER_SEC {
        1
    } else {
        NANOS_PER_SEC as int / rate as int
    }
}

/// The first tick of the schedule `last + k * interval` (k >= 1) that
/// lies after `now`: ticks missed while a request was in flight are
/// skipped, never made up in a burst.
pub open spec fn next_tick_spec(last: int, now: int, interval: int) -> int {
    if now < last + interval {
        last + interval
    } else {
        last + ((now - last) / interval + 1) * interval
    }
}

impl Default for LoadTestConfig {
    /// The defaults against `https://httpbin.org/get` with GET.
    fn default() -> (r: LoadTestConfig)
        ensures
            r.url@ == "https://httpbin.org/get"@,
            r.method@ == "GET"@,
            r.concurrent_users == 10,
            r.duration_secs == 30,
            r.warmup_secs == 5,
            r.ramp_up_secs == 10,
            r.rate_per_worker == Some(10u64),
            r.channel_capacity == 10000,
            config_valid(&r),
    {
        LoadTestConfig::new("https://httpbin.org/get".to_owned(), "GET".to_owned())
    }
}

impl LoadTestConfig {
    /// The defaults: ten workers for thirty seconds, after five seconds of
    /// warm-up and ten of ramp-up, ten requests per second per worker.
    pub fn new(url: String, method: String) -> (r: LoadTestConfig)
        ensures
            r.url == url,
            r.method == method,
            r.concurrent_users == 10,
            r.duration_secs == 30,
            r.warmup_secs == 5,
            r.ramp_up_secs == 10,
            r.rate_per_worker == Some(10u64),
            r.channel_capacity == 10000,
            config_valid(&r),
    {
        LoadTestConfig {
            url,
            method,
            concurrent_users: 10,
            duration_secs: 30,
            warmup_secs: 5,
            ramp_up_secs: 10,
            rate_per_worker: Some(10),
            channel_capacity: 10000,
        }
    }

    /// Checks the configuration and reports the first rule it breaks.
    pub fn validate(&self) -> (r: Result<(), ConfigError>)
        ensures
            r is Ok <==> config_valid(self),
            r == config_check(self),
    {
        if self.concurrent_users == 0 {
            return Err(ConfigError::ZeroConcurrency);
        }
        if let Some(rate) = self.rate_per_worker {
            if rate == 0 {
                return Err(ConfigError::ZeroRate);
            }
        }
        if self.channel_capacity == 0 {
            return Err(ConfigError::ZeroChannelCapacity);
        }
        let total: u128 = self.warmup_secs as u128 + self.ramp_up_secs as u128 + self.duration_secs as u128;
        proof {
            assert(total * NANOS_PER_SEC <= 3 * (u64::MAX as int) * NANOS_PER_SEC) by (nonlinear_arith)
                requires total <= 3 * (u64::MAX as int);
            assert(run_end(self) == total * NANOS_PER_SEC) by (nonlinear_arith)
                requires total == self.warmup_secs + self.ramp_up_secs + self.duration_secs;
        }
        if total * (NANOS_PER_SEC as u128) > u64::MAX as u128 {
            return Err(ConfigError::DurationTooLong);
        }
        Ok(())
    }

    /// End of warm-up, in nanoseconds.
    pub fn warm_end_ns(&self) -> (r: u64)
        requires
            config_valid(self),
        ensures
            r == warm_end(self),
    {
        self.warmup_secs * NANOS_PER_SEC
    }

    /// End of ramp-up, in nanoseconds.
    pub fn ramp_end_ns(&self) -> (r: u64)
        requires
            config_valid(self),
        ensures
            r == ramp_end(self),
    {
        self.warmup_secs * NANOS_PER_SEC + self.ramp_up_secs * NANOS_PER_SEC
    }

    /// End of the measured run, in nanoseconds.
    pub fn run_end_ns(&self) -> (r: u64)
        requires
            config_valid(self),
        ensures
            r == run_end(self),
    {
        self.warmup_secs * NANOS_PER_SEC + self.ramp_up_secs * NANOS_PER_SEC + self.duration_secs * NANOS_PER_SEC
    }
    /// The phase that the schedule assigns to time `t`.
    pub fn phase_at(&self, t: u64) -> (r: LoadTestState)
        requires
            config_valid(self),
        ensures
            r == phase_at(self, t as int),
    {
        if t < self.warm_end_ns() {
            LoadTestState::WarmingUp
        } else if t < self.ramp_end_ns() {
            LoadTestState::RampingUp
        } else if t < self.run_end_ns() {
            LoadTestState::Running
        } else {
            LoadTestState::Completed
        }
    }

    /// Number of workers that the schedule runs at time `t`.
    pub fn active_workers(&self, t: u64) -> (r: usize)
        requires
            config_valid(self),
        ensures
            r == active_at(self, t as int),
            r <= self.concurrent_users,
    {
        let n = self.concurrent_users;
        if t < self.warm_end_ns() {
            1
        } else if t < self.ramp_end_ns() {
            let since: u128 = (t - self.warm_end_ns()) as u128;
            let window: u128 = (self.ramp_end_ns() - self.warm_end_ns()) as u128;
            proof {
                assert(since < window);
                assert((n - 1) as int * since <= (n - 1) as int * window) by (nonlinear_arith)
                    requires since < window, n >= 1;
                assert((n - 1) as int * window <= u64::MAX as int * u64::MAX as int) by (nonlinear_arith)
                    requires n - 1 <= u64::MAX, window <= u64::MAX, n >= 1;
                assert((n - 1) as int * since / window as int <= (n - 1) as int) by (nonlinear_arith)
                    requires since < window, n >= 1, window > 0;
            }
            let k: u128 = ((n - 1) as u128) * since / window;
            1 + k as usize
        } else if t < self.run_end_ns() {
            n
        } else {
            0
        }
    }

    /// Interval between two requests of one worker in open-loop mode.
    pub fn interval_ns(&self) -> (r: Option<u64>)
        requires
            config_valid(self),
        ensures
            match self.rate_per_worker {
                None => r is None,
                Some(rate) => r == Some(interval_for(rate) as u64),
            },
            r matches Some(i) ==> i >= 1,
    {
        match self.rate_per_worker {
            None => None,
            Some(rate) => {
                if rate >= NANOS_PER_SEC {
                    Some(1)
                } else {
                    proof {
                        assert(NANOS_PER_SEC as int / rate as int >= 1) by (nonlinear_arith)
                            requires rate < NANOS_PER_SEC, rate >= 1;
                    }
                    Some(NANOS_PER_SEC / rate)
                }
            }
        }
    }
}

/// The next tick of a worker's pacing schedule after `now`, skipping any
/// that were missed.
pub fn next_tick(last: u64, now: u64, interval: u64) -> (r: u64)
    requires
        interval >= 1,
        last <= now,
        now + interval <= u64::MAX,
    ensures
        r == next_tick_spec(last as int, now as int, interval as int),
        now < r <= now + interval,
        r >= last + interval,
        (r - last) % (interval as int) == 0,
{
    if now < last + interval {
        proof {
            assert((interval as int) % (interval as int) == 0) by (nonlinear_arith)
                requires interval >= 1;
        }
        last + interval
    } else {
        let k: u64 = (now - last) / interval + 1;
        proof {
            let d = (now - last) as int;
            let q = d / interval as int;
            assert(q * interval as int <= d < q * interval as int + interval as int) by (nonlinear_arith)
                requires interval >= 1, q == d / interval as int, d >= 0;
            assert(k as int * interval as int == q * interval as int + interval as int) by (nonlinear_arith)
                requires k == q + 1;
            assert((k as int * interval as int) % (interval as int) == 0) by (nonlinear_arith)
                requires interval >= 1, k >= 1;
        }
        last + k * interval
    }
}

/// Longest wait of a worker before it looks again: its pacing interval
/// in open loop, the idle poll in closed loop.
pub open spec fn max_wait(c: &LoadTestConfig) -> int {
    match c.rate_per_worker {
        None => IDLE_POLL_NS as int,
        Some(rate) => interval_for(rate),
    }
}

/// When a worker that may not issue yet looks again: at its tick `due`
/// if it is active, but no later than one wait from `now` nor than the
/// end of the run.
pub open spec fn wait_target(c: &LoadTestConfig, worker: int, now: int, due: int) -> int {
    let cap = if now + max_wait(c) < run_end(c) { now + max_wait(c) } else { run_end(c) };
    if worker >= active_at(c, now) || cap <= due {
        cap
    } else {
        due
    }
}

/// When the request of a sample began: its completion time less its
/// latency (zero if the latency is longer).
pub open spec fn issued_at(completed_at: u64, latency_ns: u64) -> u64 {
    if latency_ns <= completed_at {
        (completed_at - latency_ns) as u64
    } else {
        0
    }
}

/// The state the controller moves to at time `t`: the scheduled phase,
/// held at `Running` until every worker has stopped.
pub open spec fn scheduled_state(c: &LoadTestConfig, t: int) -> LoadTestState {
    if phase_at(c, t) == LoadTestState::Completed {
        LoadTestState::Running
    } else {
        phase_at(c, t)
    }
}

/// The single owner of a run's state and result. Workers report samples
/// to it, in any order, and ask it what to do next.
pub struct RunController {
    pub config: LoadTestConfig,
    pub state: LoadTestState,
    pub result: LoadTestResult,
    /// Completion time of the first folded sample.
    pub first_sample_ns: Option<u64>,
    /// Samples of requests issued during warm-up, discarded.
    pub discarded_warmup: u64,
    /// Issue times of the folded samples, in the order of `result`'s
    /// samples.
    pub folded_at: Ghost<Seq<u64>>,
}

impl RunController {
    /// What every controller holds: a valid configuration, a well-formed
    /// result, and no folded sample of a request issued during warm-up.
    pub open spec fn wf(&self) -> bool {
        &&& config_valid(&self.config)
        &&& self.result.wf()
        &&& self.folded_at@.len() == self.result@.len()
        &&& forall|i: int| 0 <= i < self.folded_at@.len() ==> #[trigger] self.folded_at@[i] >= warm_end(&self.config)
        &&& (self.first_sample_ns is Some <==> self.result@.len() > 0)
    }

    /// A controller for a run of `config`, not started, or the first rule
    /// that `config` breaks.
    pub fn new(config: LoadTestConfig) -> (r: Result<RunController, ConfigError>)
        ensures
            r is Ok <==> config_valid(&config),
            match r {
                Ok(c) => c.wf() && c.config == config && c.state == LoadTestState::NotStarted
                    && c.result@.len() == 0 && c.result.qps_milli == 0,
                Err(e) => config_check(&config) == Err::<(), ConfigError>(e),
            },
    {
        match config.validate() {
            Err(e) => Err(e),
            Ok(()) => {
                let result = LoadTestResult::new();
                Ok(RunController {
                    config,
                    state: LoadTestState::NotStarted,
                    result,
                    first_sample_ns: None,
                    discarded_warmup: 0,
                    folded_at: Ghost(Seq::empty()),
                })
            }
        }
    }

    /// Moves the state forward to the one scheduled at time `now`; a
    /// terminal state, or one already further on, is kept.
    pub fn advance(&mut self, now: u64)
        requires
            old(self).wf(),
        ensures
            final(self).wf(),
            final(self).state == if !is_terminal(old(self).state) && state_rank(old(self).state)
                < state_rank(scheduled_state(&old(self).config, now as int)) {
                scheduled_state(&old(self).config, now as int)
            } else {
                old(self).state
            },
            state_rank(old(self).state) <= state_rank(final(self).state),
            final(self).result.same_as(&old(self).result),
            final(self).config == old(self).config,
            final(self).first_sample_ns == old(self).first_sample_ns,
            final(self).folded_at == old(self).folded_at,
    {
        if !self.state.is_terminal() {
            let mut next = self.config.phase_at(now);
            if next == LoadTestState::Completed {
                next = LoadTestState::Running;
            }
            if Self::rank(next) > Self::rank(self.state) {
                self.state = next;
            }
        }
    }

    fn rank(s: LoadTestState) -> (r: u8)
        ensures
            r == state_rank(s),
    {
        match s {
            LoadTestState::NotStarted => 0,
            LoadTestState::WarmingUp => 1,
            LoadTestState::RampingUp => 2,
            LoadTestState::Running => 3,
            LoadTestState::Completed => 4,
            LoadTestState::Failed => 5,
        }
    }

    /// What worker number `worker` does at time `now`. It stops on
    /// cancellation, once the run has ended, or once the controller is in
    /// a terminal state. A worker that the schedule does not run yet
    /// waits. An active worker issues a request when its tick `due` has
    /// come (at once, in closed loop), and otherwise waits for it. No wait
    /// is longer than one pacing interval, so a cancellation is seen
    /// within one.
    pub fn worker_action(&self, worker: usize, now: u64, due: u64, cancelled: bool) -> (r: WorkerAction)
        requires
            self.wf(),
        ensures
            (cancelled || is_terminal(self.state) || now >= run_end(&self.config)) <==> r == WorkerAction::Stop,
            r == WorkerAction::Issue <==> !cancelled && !is_terminal(self.state) && now < run_end(&self.config)
                && worker < active_at(&self.config, now as int)
                && (self.config.rate_per_worker is None || due <= now),
            r matches WorkerAction::WaitUntil(t) ==> now < t && t == wait_target(&self.config, worker as int, now as int, due as int),
    {
        let end = self.config.run_end_ns();
        if cancelled || self.state.is_terminal() || now >= end {
            return WorkerAction::Stop;
        }
        let wait: u64 = match self.config.interval_ns() {
            None => IDLE_POLL_NS,
            Some(i) => i,
        };
        if worker >= self.config.active_workers(now) {
            if end - now < wait {
                WorkerAction::WaitUntil(end)
            } else {
                WorkerAction::WaitUntil(now + wait)
            }
        } else if self.config.rate_per_worker.is_none() || due <= now {
            WorkerAction::Issue
        } else if due - now > wait {
            if end - now < wait {
                WorkerAction::WaitUntil(end)
            } else {
                WorkerAction::WaitUntil(now + wait)
            }
        } else if due > end {
            WorkerAction::WaitUntil(end)
        } else {
            WorkerAction::WaitUntil(due)
        }
    }

    /// The tick after a request issued at `now` for the tick `due`: the
    /// next one of the schedule after `now` in open loop, skipping missed
    /// ones; `now` in closed loop.
    pub fn next_due(&self, due: u64, now: u64) -> (r: u64)
        requires
            self.wf(),
            due <= now,
            now <= u64::MAX - NANOS_PER_SEC,
        ensures
            match self.config.rate_per_worker {
                None => r == now,
                Some(rate) => r == next_tick_spec(due as int, now as int, interval_for(rate)),
            },
    {
        match self.config.interval_ns() {
            None => now,
            Some(i) => next_tick(due, now, i),
        }
    }

    /// Hands the controller one sample, completed at `completed_at` after
    /// `latency_ns`. It is folded unless the run has ended, its request was
    /// issued during warm-up, or the counters cannot hold it (the run then
    /// fails). A folded sample brings the throughput up to `completed_at`.
    pub fn on_sample(&mut self, status: u16, latency_ns: u64, completed_at: u64) -> (r: SampleOutcome)
        requires
            old(self).wf(),
        ensures
            final(self).wf(),
            final(self).config == old(self).config,
            r == if is_terminal(old(self).state) {
                SampleOutcome::Frozen
            } else if (issued_at(completed_at, latency_ns) as int) < warm_end(&old(self).config) {
                SampleOutcome::WarmUp
            } else if old(self).result.total_requests == u64::MAX
                || old(self).result.total_duration_ns + latency_ns > u64::MAX {
                SampleOutcome::Overflow
            } else {
                SampleOutcome::Folded
            },
            r == SampleOutcome::Folded ==> final(self).result@ == old(self).result@.push((status, latency_ns))
                && final(self).folded_at@ == old(self).folded_at@.push(issued_at(completed_at, latency_ns))
                && final(self).state == old(self).state,
            r == SampleOutcome::Folded ==> final(self).first_sample_ns == match old(self).first_sample_ns {
                Some(f) => Some(f),
                None => Some(completed_at),
            },
            r == SampleOutcome::Folded ==> match final(self).first_sample_ns {
                Some(f) if f < completed_at => final(self).result.qps_milli == throughput_milli(
                    final(self).result.total_requests as nat,
                    (completed_at - f) as nat,
                ) && final(self).result.elapsed_ns == completed_at - f,
                _ => final(self).result.qps_milli == old(self).result.qps_milli
                    && final(self).result.elapsed_ns == old(self).result.elapsed_ns,
            },
            r != SampleOutcome::Folded ==> final(self).result.same_as(&old(self).result)
                && final(self).first_sample_ns == old(self).first_sample_ns,
            r == SampleOutcome::Overflow ==> final(self).state == LoadTestState::Failed,
            r != SampleOutcome::Overflow ==> final(self).state == old(self).state,
            state_rank(old(self).state) <= state_rank(final(self).state),
    {
        if self.state.is_terminal() {
            return SampleOutcome::Frozen;
        }
        let issued: u64 = if latency_ns <= completed_at { completed_at - latency_ns } else { 0 };
        if issued < self.config.warm_end_ns() {
            if self.discarded_warmup < u64::MAX {
                self.discarded_warmup = self.discarded_warmup + 1;
            }
            return SampleOutcome::WarmUp;
        }
        if self.result.total_requests == u64::MAX || latency_ns > u64::MAX - self.result.total_duration_ns {
            self.state = LoadTestState::Failed;
            return SampleOutcome::Overflow;
        }
        self.result.add_response(status, latency_ns);
        self.folded_at = Ghost(self.folded_at@.push(issued));
        if self.first_sample_ns.is_none() {
            self.first_sample_ns = Some(completed_at);
        }
        self.update_throughput(completed_at);
        proof {
            assert forall|i: int| 0 <= i < self.folded_at@.len() implies #[trigger] self.folded_at@[i]
                >= warm_end(&self.config) by {
                if i < old(self).folded_at@.len() {
                    assert(self.folded_at@[i] == old(self).folded_at@[i]);
                }
            }
        }
        SampleOutcome::Folded
    }

    /// Updates the throughput from the time between the first folded
    /// sample and `now`.
    pub fn update_throughput(&mut self, now: u64)
        requires
            old(self).wf(),
        ensures
            final(self).wf(),
            final(self).result@ == old(self).result@,
            final(self).state == old(self).state,
            final(self).config == old(self).config,
            final(self).first_sample_ns == old(self).first_sample_ns,
            final(self).folded_at == old(self).folded_at,
            final(self).discarded_warmup == old(self).discarded_warmup,
            match old(self).first_sample_ns {
                Some(f) if f < now => final(self).result.qps_milli == throughput_milli(
                    old(self).result.total_requests as nat,
                    (now - f) as nat,
                ) && final(self).result.elapsed_ns == now - f,
                _ => final(self).result.same_as(&old(self).result),
            },
    {
        if let Some(first) = self.first_sample_ns {
            if first < now {
                self.result.calculate_qps(now - first);
            }
        }
    }

    /// Stops the run on an external signal or an internal fault: a run
    /// that has not ended fails; an ended one is kept as it is.
    pub fn cancel(&mut self)
        requires
            old(self).wf(),
        ensures
            final(self).wf(),
            final(self).state == if is_terminal(old(self).state) {
                old(self).state
            } else {
                LoadTestState::Failed
            },
            final(self).result.same_as(&old(self).result),
            final(self).config == old(self).config,
    {
        if !self.state.is_terminal() {
            self.state = LoadTestState::Failed;
        }
    }

    /// Ends the run once every worker has stopped, at time `now`: it is
    /// completed if the configured run has elapsed, and failed if the
    /// workers stopped early. The throughput is brought up to `now`: the
    /// samples over the time since the first one. An ended run is left as
    /// it is.
    pub fn finish(&mut self, now: u64)
        requires
            old(self).wf(),
        ensures
            final(self).wf(),
            final(self).state == if is_terminal(old(self).state) {
                old(self).state
            } else if now as int >= run_end(&old(self).config) {
                LoadTestState::Completed
            } else {
                LoadTestState::Failed
            },
            final(self).result@ == old(self).result@,
            final(self).config == old(self).config,
            final(self).first_sample_ns == old(self).first_sample_ns,
            state_rank(old(self).state) <= state_rank(final(self).state),
            match old(self).first_sample_ns {
                Some(f) if f < now && !is_terminal(old(self).state) => final(self).result.qps_milli
                    == throughput_milli(old(self).result.total_requests as nat, (now - f) as nat)
                    && final(self).result.elapsed_ns == now - f,
                _ => final(self).result.same_as(&old(self).result),
            },
    {
        if !self.state.is_terminal() {
            self.update_throughput(now);
            if now >= self.config.run_end_ns() {
                self.state = LoadTestState::Completed;
            } else {
                self.state = LoadTestState::Failed;
            }
        }
    }
}

/// A waiting worker looks again within one pacing interval (one idle
/// poll in closed loop), and never after the run's end: a cancellation is
/// seen that soon.
pub proof fn lemma_wait_bounded(c: &LoadTestConfig, worker: int, now: int, due: int)
    requires
        now < run_end(c),
    ensures
        wait_target(c, worker, now, due) <= now + max_wait(c),
        wait_target(c, worker, now, due) <= run_end(c),
{
}

/// No sample of a request issued during warm-up is ever counted: every
/// folded sample's request was issued at or after the end of warm-up.
pub proof fn lemma_no_warmup_samples(c: &RunController)
    requires
        c.wf(),
    ensures
        forall|i: int| 0 <= i < c.result@.len() ==> phase_at(&c.config, #[trigger] c.folded_at@[i] as int)
            != LoadTestState::WarmingUp,
{
    assert forall|i: int| 0 <= i < c.result@.len() implies phase_at(&c.config, #[trigger] c.folded_at@[i] as int)
        != LoadTestState::WarmingUp by {
        assert(c.folded_at@[i] >= warm_end(&c.config));
    }
}

/// The schedule never moves back: a later time has a phase no earlier in
/// the lifecycle.
pub proof fn lemma_phase_monotone(c: &LoadTestConfig, t1: int, t2: int)
    requires
        t1 <= t2,
    ensures
        state_rank(phase_at(c, t1)) <= state_rank(phase_at(c, t2)),
        state_rank(scheduled_state(c, t1)) <= state_rank(scheduled_state(c, t2)),
{
}

proof fn lemma_active_bounds(c: &LoadTestConfig, t: int)
    requires
        config_valid(c),
        0 <= t < run_end(c),
    ensures
        1 <= active_at(c, t) <= c.concurrent_users,
{
    let n = c.concurrent_users as int;
    let w = warm_end(c);
    let d = secs_to_ns(c.ramp_up_secs);
    if w <= t && t < ramp_end(c) {
        assert((n - 1) * (t - w) / d >= 0) by (nonlinear_arith)
            requires n >= 1, t >= w, d > 0;
        assert((n - 1) * (t - w) / d <= n - 1) by (nonlinear_arith)
            requires n >= 1, t - w < d, t >= w, d > 0;
    }
}

/// Ramp-up never stops a worker: until the run ends, the number of active
/// workers does not decrease, and it stays between one and all of them.
pub proof fn lemma_ramp_monotone(c: &LoadTestConfig, t1: int, t2: int)
    requires
        config_valid(c),
        0 <= t1 <= t2 < run_end(c),
    ensures
        1 <= active_at(c, t1) <= active_at(c, t2) <= c.concurrent_users,
{
    lemma_active_bounds(c, t1);
    lemma_active_bounds(c, t2);
    let n = c.concurrent_users as int;
    let w = warm_end(c);
    let d = secs_to_ns(c.ramp_up_secs);
    if w <= t1 && t2 < ramp_end(c) {
        assert((n - 1) * (t1 - w) <= (n - 1) * (t2 - w)) by (nonlinear_arith)
            requires n >= 1, t1 <= t2;
        assert((n - 1) * (t1 - w) / d <= (n - 1) * (t2 - w) / d) by (nonlinear_arith)
            requires (n - 1) * (t1 - w) <= (n - 1) * (t2 - w), d > 0;
    }
}

} // verus!
