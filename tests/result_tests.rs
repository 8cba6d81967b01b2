use bolt::LoadTestResult;

const MS: u64 = 1_000_000;

fn fold(samples: &[(u16, u64)]) -> LoadTestResult {
    let mut r = LoadTestResult::new();
    for &(s, l) in samples {
        r.add_response(s, l);
    }
    r
}

#[test]
fn empty_result_has_sentinel_bounds() {
    let r = LoadTestResult::new();
    assert_eq!(r.total_requests, 0);
    assert_eq!(r.min_latency_ns, u64::MAX);
    assert_eq!(r.max_latency_ns, 0);
    assert_eq!(r.p99_latency_ns, 0);
    assert_eq!(r.avg_latency_ns, 0);
}

#[test]
fn status_classes_follow_boundaries() {
    let r = fold(&[(0, 1), (199, 1), (200, 1), (299, 1), (300, 1), (399, 1), (400, 1), (499, 1), (500, 1), (599, 1)]);
    assert_eq!(r.total_requests, 10);
    assert_eq!(r.failed_requests, 2);
    assert_eq!(r.successful_requests, 4);
    assert_eq!(r.status_2xx, 4);
    assert_eq!(r.status_4xx, 2);
    assert_eq!(r.status_5xx, 2);
}

#[test]
fn redirect_counts_as_success_and_2xx() {
    let r = fold(&[(300, 5)]);
    assert_eq!(r.total_requests, 1);
    assert_eq!(r.status_2xx, 1);
    assert_eq!(r.successful_requests, 1);
    assert_eq!(r.failed_requests, 0);
    assert_eq!(r.status_4xx, 0);
    assert_eq!(r.status_5xx, 0);
}

#[test]
fn counts_partition_total() {
    let r = fold(&[(200, 3), (302, 4), (404, 5), (503, 6), (0, 7), (201, 8)]);
    assert_eq!(r.total_requests, r.successful_requests + r.failed_requests + r.status_4xx + r.status_5xx);
    assert_eq!(r.successful_requests, r.status_2xx);
    assert_eq!(r.successful_requests, 3);
}

#[test]
fn bounds_cover_every_latency() {
    let lat = [7 * MS, 3 * MS, 12 * MS, 5 * MS];
    let mut r = LoadTestResult::new();
    for &l in &lat {
        r.add_response(200, l);
        assert!(r.min_latency_ns <= l && l <= r.max_latency_ns);
    }
    assert_eq!(r.min_latency_ns, 3 * MS);
    assert_eq!(r.max_latency_ns, 12 * MS);
    assert_eq!(r.total_duration_ns, 27 * MS);
    assert_eq!(r.avg_latency_ns, 27 * MS / 4);
    assert_eq!(r.sorted, vec![3 * MS, 5 * MS, 7 * MS, 12 * MS]);
}

#[test]
fn quantiles_by_nearest_rank() {
    let mut r = LoadTestResult::new();
    for l in (1..=100u64).rev() {
        r.add_response(200, l);
    }
    assert_eq!(r.p50_latency_ns, 50);
    assert_eq!(r.p90_latency_ns, 90);
    assert_eq!(r.p95_latency_ns, 95);
    assert_eq!(r.p99_latency_ns, 99);
    assert_eq!(r.max_latency_ns, 100);
}

#[test]
fn quantiles_are_ordered() {
    let r = fold(&[(200, 9), (200, 1), (200, 30), (200, 2), (200, 2), (200, 17), (200, 4)]);
    assert!(r.p50_latency_ns <= r.p90_latency_ns);
    assert!(r.p90_latency_ns <= r.p95_latency_ns);
    assert!(r.p95_latency_ns <= r.p99_latency_ns);
    assert!(r.p99_latency_ns <= r.max_latency_ns);
    assert_eq!(r.p50_latency_ns, 4);
    assert_eq!(r.p99_latency_ns, 30);
}

#[test]
fn single_sample_quantiles() {
    let r = fold(&[(200, 42)]);
    assert_eq!(r.p50_latency_ns, 42);
    assert_eq!(r.p99_latency_ns, 42);
    assert_eq!(r.min_latency_ns, 42);
}

#[test]
fn snapshots_without_samples_are_identical() {
    let r = fold(&[(200, 5), (500, 9)]);
    let a = r.snapshot();
    let b = r.snapshot();
    assert_eq!(a.total_requests, b.total_requests);
    assert_eq!(a.status_5xx, b.status_5xx);
    assert_eq!(a.p95_latency_ns, b.p95_latency_ns);
    assert_eq!(a.sorted, b.sorted);
    assert_eq!(a.sorted, r.sorted);
    assert_eq!(a.qps_milli, b.qps_milli);
}

#[test]
fn throughput_over_elapsed_time() {
    let mut r = fold(&[(200, 10 * MS), (200, 10 * MS), (200, 10 * MS), (200, 10 * MS)]);
    r.calculate_qps(2_000 * MS);
    assert_eq!(r.qps_milli, 2_000);
    assert_eq!(r.elapsed_ns, 2_000 * MS);
    r.calculate_qps(0);
    assert_eq!(r.qps_milli, 2_000);
}

#[test]
fn throughput_of_empty_result_is_left_alone() {
    let mut r = LoadTestResult::new();
    r.calculate_qps(1_000 * MS);
    assert_eq!(r.qps_milli, 0);
    assert_eq!(r.elapsed_ns, 0);
}

#[test]
fn all_failures_count_as_failed() {
    let r = fold(&[(0, 1), (0, 2), (0, 3)]);
    assert_eq!(r.failed_requests, r.total_requests);
    assert_eq!(r.successful_requests, 0);
}
