use delta_snapshot::alloc_stats::{
    add_bytes, alloc_tracking_enabled, current_native_bytes, peak_native_bytes, reported_bytes,
    reset_peak_native_bytes, total_allocated_native_bytes, total_freed_native_bytes, AllocStats,
    AllocatorCall, TrackingAlloc,
};
use peak_alloc::PeakAlloc;

fn counters(allocator: &TrackingAlloc) -> (u64, u64) {
    (allocator.total_allocated, allocator.total_freed)
}

#[test]
fn getters_report_disabled_tracking() {
    let stats = AllocStats {
        tracking: false,
        counters: TrackingAlloc {
            total_allocated: 5,
            total_freed: 3,
        },
    };
    assert!(!alloc_tracking_enabled(&stats));
    assert_eq!(peak_native_bytes(&stats), 0);
    assert_eq!(current_native_bytes(&stats), 0);
    assert_eq!(reset_peak_native_bytes(&stats), 0);
    assert_eq!(total_allocated_native_bytes(&stats), 0);
    assert_eq!(total_freed_native_bytes(&stats), 0);
}

#[test]
fn cumulative_counters_track_all_allocator_operations_and_balance() {
    let mut allocator = TrackingAlloc::new();
    allocator.record(AllocatorCall::Alloc { size: 64 }, true);
    assert_eq!(counters(&allocator), (64, 0));
    allocator.record(
        AllocatorCall::Realloc {
            old_size: 64,
            new_size: 128,
        },
        true,
    );
    assert_eq!(counters(&allocator), (192, 64));
    allocator.record(AllocatorCall::Dealloc { size: 128 }, true);
    assert_eq!(counters(&allocator), (192, 192));
    allocator.record(AllocatorCall::AllocZeroed { size: 32 }, true);
    assert_eq!(counters(&allocator), (224, 192));
    allocator.record(AllocatorCall::Dealloc { size: 32 }, true);
    assert_eq!(counters(&allocator), (224, 224));
}

#[test]
fn cumulative_counters_saturate() {
    let mut allocator = TrackingAlloc {
        total_allocated: u64::MAX - 32,
        total_freed: 0,
    };
    allocator.record(AllocatorCall::Alloc { size: 64 }, true);
    assert_eq!(allocator.total_allocated, u64::MAX);
    allocator.total_freed = u64::MAX - 32;
    allocator.record(AllocatorCall::Dealloc { size: 64 }, true);
    assert_eq!(allocator.total_freed, u64::MAX);
    assert_eq!(add_bytes(u64::MAX, 1), u64::MAX);
    assert_eq!(add_bytes(1, 2), 3);
}

#[test]
fn failed_allocator_operations_do_not_change_cumulative_counters() {
    let mut allocator = TrackingAlloc::new();
    allocator.record(AllocatorCall::Alloc { size: 64 }, false);
    assert_eq!(counters(&allocator), (0, 0));
    allocator.record(AllocatorCall::AllocZeroed { size: 64 }, false);
    assert_eq!(counters(&allocator), (0, 0));

    allocator.record(AllocatorCall::Alloc { size: 64 }, true);
    assert_eq!(counters(&allocator), (64, 0));
    allocator.record(
        AllocatorCall::Realloc {
            old_size: 64,
            new_size: 128,
        },
        false,
    );
    assert_eq!(counters(&allocator), (64, 0));
    allocator.record(AllocatorCall::Dealloc { size: 64 }, true);
    assert_eq!(counters(&allocator), (64, 64));
}

// The allocator is not installed in this process, so its counters stay at zero here.
#[test]
fn live_and_peak_bytes_are_those_of_the_allocator() {
    let stats = AllocStats {
        tracking: true,
        counters: TrackingAlloc::new(),
    };
    assert!(alloc_tracking_enabled(&stats));
    assert_eq!(peak_native_bytes(&stats), PeakAlloc.peak_usage() as u64);
    assert_eq!(current_native_bytes(&stats), PeakAlloc.current_usage() as u64);
}

#[test]
fn reset_leaves_the_peak_at_the_live_bytes() {
    let stats = AllocStats {
        tracking: true,
        counters: TrackingAlloc::new(),
    };
    let peak = peak_native_bytes(&stats);
    let live = current_native_bytes(&stats);
    assert_eq!(reset_peak_native_bytes(&stats), peak);
    assert_eq!(peak_native_bytes(&stats), live);
    assert_eq!(current_native_bytes(&stats), live);
}

#[test]
fn tracked_values_are_reported() {
    let stats = AllocStats {
        tracking: true,
        counters: TrackingAlloc {
            total_allocated: 5,
            total_freed: 3,
        },
    };
    assert_eq!(total_allocated_native_bytes(&stats), 5);
    assert_eq!(total_freed_native_bytes(&stats), 3);
    assert_eq!(reported_bytes(true, 9), 9);
    assert_eq!(reported_bytes(false, 9), 0);
}
