use tracing_allocator::perf::benchmark::perf_benchmark;
use tracing_allocator::perf::compare::{PerfThresholds, PerfThresholdsBuilder};
use tracing_allocator::perf::measure::{
    bench, bench_iters, duration_of, Instant, PerfStats, Stats,
};
use tracing_allocator::threshold::{Threshold, ThresholdFor};

#[test]
fn running_moments_of_a_ramp() {
    // The deterministic sequence 1, 2, ..., 5 seconds, in microseconds.
    let mut stats = Stats::new();
    for k in 1_u64..=5 {
        stats.update(k * 1_000_000);
    }
    assert_eq!(stats.count(), 5);
    // mean = (n + 1) / 2 seconds = 3 s exactly.
    assert_eq!(stats.mean_micros(), 3_000_000);
    // population variance = (n^2 - 1) / 12 = 2 square seconds exactly:
    // numerator n * sum_sq - sum^2, denominator n^2.
    let (num, den) = stats.variance_parts().unwrap();
    assert_eq!(den, 25);
    assert_eq!(num, 50_000_000_000_000);
    assert_eq!(num / den, 2_000_000_000_000);
}

#[test]
fn running_moments_of_a_longer_ramp() {
    let n: u64 = 101;
    let mut stats = Stats::new();
    for k in 1..=n {
        stats.update(k * 1_000_000);
    }
    assert_eq!(stats.count(), n);
    assert_eq!(stats.mean_micros(), 500_000 * (n + 1));
    let (num, den) = stats.variance_parts().unwrap();
    assert_eq!(den, (n as u128) * (n as u128));
    // 12 * (n * sum_sq - sum^2) == 10^12 * n^2 * (n^2 - 1)
    let n2 = (n as u128) * (n as u128);
    assert_eq!(12 * num, 1_000_000_000_000 * n2 * (n2 - 1));
}

#[test]
fn moments_of_identical_samples() {
    let mut stats = Stats::new();
    for _ in 0..8 {
        stats.update(250);
    }
    assert_eq!(stats.mean_micros(), 250);
    let (num, _den) = stats.variance_parts().unwrap();
    assert_eq!(num, 0);
}

#[test]
fn instant_arithmetic() {
    let t = Instant(1_000);
    assert_eq!(t.duration_since(Instant(400)), 600);
    assert_eq!(t.checked_add(5), Some(Instant(1_005)));
    assert_eq!(t.checked_add(u64::MAX), None);
    assert_eq!(t.checked_sub(1_000), Some(Instant(0)));
    assert_eq!(t.checked_sub(1_001), None);
    let earlier = Instant::now();
    let _ = earlier.elapsed();
}

#[test]
fn bench_produces_a_mean() {
    let stats = bench(|| {
        let mut v: Vec<u64> = Vec::new();
        for i in 0..100 {
            v.push(i);
        }
        v.len()
    });
    // Wall-clock readings cannot be pinned; the call must complete and the
    // mean is some microsecond count.
    let _ = stats.mean;
    let stats = bench_iters(30, || 1 + 1);
    let _ = stats.mean;
    let micros = duration_of(|| 2 * 2);
    let _ = micros;
    let stats = perf_benchmark("smoke", || ());
    let _ = stats.mean;
}

#[test]
fn perf_thresholds_check_the_mean() {
    let limits = PerfThresholdsBuilder::default()
        .mean(Threshold::Cap(10))
        .build()
        .unwrap();
    let base = PerfStats { mean: 100 };
    assert!(limits.check_threshold(&PerfStats { mean: 110 }, &base).is_ok());
    let e = limits
        .check_threshold(&PerfStats { mean: 111 }, &base)
        .unwrap_err();
    assert_eq!(e.param_name(), "mean");
    assert_eq!(e.error.value, 111);
    assert_eq!(e.error.ref_value, 100);

    let neutral = PerfThresholds {
        mean: Threshold::default(),
    };
    assert!(neutral.check(&PerfStats { mean: u64::MAX }, &base).is_ok());
    assert_eq!(PerfStats::default().mean, 0);
}
