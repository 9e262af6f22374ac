use tracing_allocator::memory::allocator::TracingAllocator;
use tracing_allocator::memory::compare::{AllocParam, AllocThresholdsBuilder};
use tracing_allocator::memory::default_tracing_allocator;
use tracing_allocator::memory::measure::{MemoryStats, TraceStation};
use tracing_allocator::threshold::{Threshold, ThresholdFor};

#[test]
fn limits() {
    let rs = MemoryStats {
        current: 100,
        peak: 1000,
        total_size: 2000,
        total_num: 100,
        reallocs: 0,
    };
    let vs = MemoryStats {
        current: 110,
        peak: 1100,
        total_size: 2200,
        total_num: 110,
        reallocs: 1,
    };

    let ls = AllocThresholdsBuilder::default().build().unwrap();
    assert!(ls.check_threshold(&rs, &rs).is_ok());
    assert!(ls.check_threshold(&vs, &rs).is_ok());

    let ls = AllocThresholdsBuilder::default()
        .current(Threshold::Cap(1))
        .build()
        .unwrap();
    let r = ls.check(&vs, &rs);
    assert!(r.unwrap_err().param_name() == "current");

    let ls = AllocThresholdsBuilder::default()
        .reallocs(Threshold::Cap(0))
        .build()
        .unwrap();
    let r = ls.check(&vs, &rs);
    assert!(r.unwrap_err().param_name() == "reallocs");
}

#[test]
fn first_violation_wins() {
    let rs = MemoryStats {
        current: 10,
        peak: 10,
        total_size: 10,
        total_num: 10,
        reallocs: 10,
    };
    let vs = MemoryStats {
        current: 20,
        peak: 20,
        total_size: 20,
        total_num: 20,
        reallocs: 20,
    };
    // Every field fails; the verdict names the first in the fixed order.
    let ls = AllocThresholdsBuilder::default()
        .current(Threshold::Cap(0))
        .peak(Threshold::Cap(0))
        .total_size(Threshold::Cap(0))
        .total_num(Threshold::Cap(0))
        .reallocs(Threshold::Cap(0))
        .build()
        .unwrap();
    let e = ls.check(&vs, &rs).unwrap_err();
    assert_eq!(e.param, AllocParam::Current);
    assert_eq!(e.error.value, 20);
    assert_eq!(e.error.ref_value, 10);
    // With the first two fields tolerant, the third in order is named.
    let ls = AllocThresholdsBuilder::default()
        .total_size(Threshold::Cap(0))
        .total_num(Threshold::Cap(0))
        .reallocs(Threshold::Cap(0))
        .build()
        .unwrap();
    let e = ls.check(&vs, &rs).unwrap_err();
    assert_eq!(e.param, AllocParam::TotalSize);
    assert_eq!(e.param.name(), "total_size");
}

#[test]
fn session_single_alloc_then_dealloc() {
    let mut station = TraceStation::new();
    assert!(station.try_start());
    station.on_alloc(512);
    station.on_dealloc(512);
    let stats = station.stop();
    assert_eq!(
        stats,
        MemoryStats {
            current: 0,
            peak: 512,
            total_size: 512,
            total_num: 1,
            reallocs: 0,
        }
    );
}

#[test]
fn session_alloc_then_realloc() {
    let mut station = TraceStation::new();
    assert!(station.try_start());
    station.on_alloc(300);
    station.on_realloc(300, 200);
    let stats = station.stop();
    // The reallocation counts as a dealloc plus a fresh alloc, so the totals
    // count both claimed regions.
    assert_eq!(
        stats,
        MemoryStats {
            current: 200,
            peak: 300,
            total_size: 500,
            total_num: 2,
            reallocs: 1,
        }
    );

    let mut station = TraceStation::new();
    assert!(station.try_start());
    station.on_alloc(200);
    station.on_realloc(200, 300);
    let stats = station.stop();
    assert_eq!(stats.peak, 300);
    assert_eq!(stats.current, 300);
    assert_eq!(stats.total_size, 500);
}

#[test]
fn session_acquisition_is_exclusive() {
    let mut station = TraceStation::new();
    assert!(station.try_start());
    // A second start attempt does not acquire while recording.
    assert!(!station.try_start());
    station.on_alloc(64);
    assert!(!station.try_start());
    let stats = station.stop();
    assert_eq!(stats.total_size, 64);
    // After stop, the slot is free again and the accumulator is zeroed.
    assert!(station.try_start());
    let stats = station.stop();
    assert_eq!(stats, MemoryStats::default());
}

#[test]
fn hooks_outside_session_are_no_ops() {
    let mut station = TraceStation::new();
    station.on_alloc(1000);
    station.on_realloc(1000, 2000);
    station.on_dealloc(500);
    station.on_alloc_zeroed(123);
    assert!(station.try_start());
    let stats = station.stop();
    assert_eq!(stats, MemoryStats::default());
}

#[test]
fn tracing_allocator_pairs_its_parts() {
    let a = TracingAllocator::new("hooks", 7_u32);
    assert_eq!(a.0, 7);
    assert_eq!(a.1, "hooks");
    let _default = default_tracing_allocator();
}

#[test]
fn dealloc_saturates_at_zero() {
    let mut stats = MemoryStats::default();
    stats.record_alloc(10);
    stats.record_dealloc(25);
    assert_eq!(stats.current, 0);
    assert_eq!(stats.peak, 10);
    stats.record_alloc_zeroed(5);
    assert_eq!(stats.current, 5);
    assert_eq!(stats.total_num, 2);
    assert_eq!(stats.total_size, 15);
}
