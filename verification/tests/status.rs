use host_telemetry::error::ApiError;
use host_telemetry::status::{build_status, memory_usage, MemoryReading, MemorySnapshot};

#[test]
fn usage_is_total_minus_available() {
    assert_eq!(memory_usage(1000, 250), 750);
    assert_eq!(memory_usage(1000, 1000), 0);
    assert_eq!(memory_usage(1000, 0), 1000);
}

#[test]
fn usage_is_clamped_when_available_exceeds_total() {
    assert_eq!(memory_usage(1000, 1001), 0);
    assert_eq!(memory_usage(0, u64::MAX), 0);
}

#[test]
fn status_holds_both_readings() {
    let status = build_status(
        Some(MemoryReading { total: 16_000_000_000, available: 4_000_000_000 }),
        Some(8),
    )
    .unwrap();
    assert_eq!(status.cpu_count, 8);
    assert_eq!(status.memory, MemorySnapshot { total: 16_000_000_000, usage: 12_000_000_000 });
    assert_eq!(status.uptime_seconds, None);
    assert_eq!(status.cpu_usage_percent, None);
}

#[test]
fn status_fails_without_memory() {
    assert_eq!(build_status(None, Some(8)), Err(ApiError::Unavailable));
}

#[test]
fn status_fails_without_cpu_count() {
    let memory = Some(MemoryReading { total: 10, available: 5 });
    assert_eq!(build_status(memory, None), Err(ApiError::Unavailable));
    assert_eq!(build_status(memory, Some(0)), Err(ApiError::Unavailable));
}
