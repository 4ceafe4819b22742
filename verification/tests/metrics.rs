//! Metrics of a running VM.

use std::cell::Cell;
use std::rc::Rc;

use krun::metrics::{
    latency_bucket, latency_bucket_upper_bound, timestamp_from_millis, unix_timestamp_ms,
    BlockDeviceMetrics, BlockRequestKind, FilesystemMetrics, LatencyHistogram, MetricsWriter,
};

fn plain_writer() -> MetricsWriter<fn() -> Option<u64>> {
    MetricsWriter::<fn() -> Option<u64>>::default()
}

#[test]
fn cpu_time_is_unavailable_until_written() {
    let mut writer = plain_writer();

    assert_eq!(writer.handle().snapshot().cpu.vcpu_time_ns, None);

    writer.add_vcpu_time_ns(12);

    assert_eq!(writer.handle().snapshot().cpu.vcpu_time_ns, Some(12));
}

#[test]
fn memory_used_is_derived_from_configured_total_and_available() {
    let mut writer = plain_writer();

    writer.set_memory_total_bytes(1024);

    let snapshot = writer.handle().snapshot();
    assert_eq!(snapshot.memory.total_bytes, 1024);
    assert_eq!(snapshot.memory.available_bytes, None);
    assert_eq!(snapshot.memory.used_bytes, None);

    writer.set_memory_available_bytes(256);

    let snapshot = writer.handle().snapshot();
    assert_eq!(snapshot.memory.available_bytes, Some(256));
    assert_eq!(snapshot.memory.used_bytes, Some(768));
}

#[test]
fn memory_used_is_unavailable_when_available_exceeds_total() {
    let mut writer = plain_writer();

    writer.set_memory_total_bytes(1024);
    writer.set_memory_available_bytes(2048);

    let snapshot = writer.handle().snapshot();
    assert_eq!(snapshot.memory.available_bytes, Some(2048));
    assert_eq!(snapshot.memory.used_bytes, None);
}

#[test]
fn host_resident_sampler_refreshes_snapshot() {
    let value = Rc::new(Cell::new(4096u64));
    let sampler_value = Rc::clone(&value);
    let mut writer = MetricsWriter::default();

    writer.set_memory_host_resident_sampler(move || Some(sampler_value.get()));

    assert_eq!(writer.handle().snapshot().memory.host_resident_bytes, Some(4096));

    value.set(8192);

    assert_eq!(writer.handle().snapshot().memory.host_resident_bytes, Some(8192));
}

#[test]
fn host_resident_sampler_failure_clears_previous_value() {
    let value = Rc::new(Cell::new(4096u64));
    let sampler_value = Rc::clone(&value);
    let mut writer = MetricsWriter::default();

    writer.set_memory_host_resident_sampler(move || match sampler_value.get() {
        0 => None,
        bytes => Some(bytes),
    });

    assert_eq!(writer.handle().snapshot().memory.host_resident_bytes, Some(4096));

    value.set(0);

    assert_eq!(writer.handle().snapshot().memory.host_resident_bytes, None);
}

#[test]
fn block_metrics_include_aggregate_and_per_device_counters() {
    let mut writer = plain_writer();
    let root = writer.register_block_device("root".to_string());
    let data = writer.register_block_device("data".to_string());

    root.add_read_bytes(&mut writer.state, 128);
    root.add_write_bytes(&mut writer.state, 256);
    data.add_read_bytes(&mut writer.state, 512);

    let snapshot = writer.handle().snapshot();
    assert_eq!(snapshot.block.read_bytes, 640);
    assert_eq!(snapshot.block.write_bytes, 256);
    assert_eq!(
        snapshot.block.devices,
        vec![
            BlockDeviceMetrics { id: "root".to_string(), read_bytes: 128, write_bytes: 256 },
            BlockDeviceMetrics { id: "data".to_string(), read_bytes: 512, write_bytes: 0 },
        ]
    );
}

#[test]
fn aggregate_snapshot_omits_per_device_block_counters() {
    let mut writer = plain_writer();
    let root = writer.register_block_device("root".to_string());

    root.add_read_bytes(&mut writer.state, 128);
    root.add_write_bytes(&mut writer.state, 256);

    let snapshot = writer.handle().aggregate_snapshot();
    assert_eq!(snapshot.block.read_bytes, 128);
    assert_eq!(snapshot.block.write_bytes, 256);
    assert!(snapshot.block.devices.is_empty());
}

#[test]
fn block_io_profile_is_absent_until_enabled() {
    let mut writer = plain_writer();
    let root = writer.register_block_device("root".to_string());

    root.record_request_kind(&mut writer.state, BlockRequestKind::Read);
    assert_eq!(writer.handle().block_io_profile(), None);

    root.enable_io_profile(&mut writer.state);
    assert_eq!(writer.handle().block_io_profile().unwrap().read_requests, 1);
}

#[test]
fn block_io_profile_aggregates_devices_and_latency_buckets() {
    let mut writer = plain_writer();
    let root = writer.register_block_device("root".to_string());
    let data = writer.register_block_device("data".to_string());
    root.enable_io_profile(&mut writer.state);
    data.enable_io_profile(&mut writer.state);

    root.record_request_kind(&mut writer.state, BlockRequestKind::Read);
    root.record_request_ns(&mut writer.state, 1);
    root.record_request_ns(&mut writer.state, 2);
    root.add_scratch_vectors(&mut writer.state, 7);
    data.record_request_kind(&mut writer.state, BlockRequestKind::Write);
    data.record_request_ns(&mut writer.state, 8);
    data.record_failed_request(&mut writer.state);

    let profile = writer.handle().block_io_profile().unwrap();
    assert_eq!(profile.read_requests, 1);
    assert_eq!(profile.write_requests, 1);
    assert_eq!(profile.failed_requests, 1);
    assert_eq!(profile.scratch_vectors, 7);
    assert_eq!(profile.request.count, 3);
    assert_eq!(profile.request.total_ns, 11);
    assert_eq!(profile.request.max_ns, 8);
    assert_eq!(profile.request.mean_ns(), Some(3));
    assert_eq!(profile.request.percentile_upper_bound_ns(50), Some(3));
    assert_eq!(profile.request.percentile_upper_bound_ns(100), Some(15));
    assert_eq!(profile.devices.len(), 2);
}

#[test]
fn filesystem_metrics_are_unavailable_until_written() {
    let mut writer = plain_writer();

    assert_eq!(writer.handle().snapshot().filesystem, FilesystemMetrics::default());

    writer.set_upper_filesystem_bytes(4096, 8192);

    let snapshot = writer.handle().snapshot();
    assert_eq!(snapshot.filesystem.upper_used_bytes, Some(4096));
    assert_eq!(snapshot.filesystem.upper_free_bytes, Some(8192));
    assert!(snapshot.filesystem.upper_sampled_at_unix_ms.is_some());
}

#[test]
fn filesystem_metrics_can_be_cleared() {
    let mut writer = plain_writer();

    writer.set_upper_filesystem_bytes(4096, 8192);
    writer.clear_upper_filesystem_bytes();

    assert_eq!(writer.handle().snapshot().filesystem, FilesystemMetrics::default());
}

#[test]
fn filesystem_sample_carries_its_time() {
    let mut writer = plain_writer();
    writer.set_upper_filesystem_sample(1, 2, 3);
    assert_eq!(writer.handle().snapshot().filesystem.upper_sampled_at_unix_ms, Some(3));
}

#[test]
fn time_comes_from_the_clock() {
    assert!(unix_timestamp_ms() > 1_600_000_000_000);
    let mut writer = plain_writer();
    writer.set_upper_filesystem_bytes(1, 2);
    let sampled = writer.handle().snapshot().filesystem.upper_sampled_at_unix_ms;
    assert!(sampled.unwrap() > 1_600_000_000_000);
    assert_eq!(timestamp_from_millis(None), 0);
    assert_eq!(timestamp_from_millis(Some(77)), 77);
}

#[test]
fn buckets_are_powers_of_two() {
    assert_eq!(latency_bucket(0), 0);
    assert_eq!(latency_bucket(1), 1);
    assert_eq!(latency_bucket(8), 4);
    assert_eq!(latency_bucket(u64::MAX), 64);
    assert_eq!(latency_bucket_upper_bound(0), 0);
    assert_eq!(latency_bucket_upper_bound(4), 15);
    assert_eq!(latency_bucket_upper_bound(64), u64::MAX);
}

#[test]
fn histograms_merge() {
    let mut first = LatencyHistogram::default();
    assert_eq!(first.mean_ns(), None);
    assert_eq!(first.percentile_upper_bound_ns(50), None);
    first.record(4);
    let mut second = LatencyHistogram::default();
    second.record(100);
    first.merge(&second);
    assert_eq!((first.count, first.total_ns, first.max_ns), (2, 104, 100));
    assert_eq!(first.mean_ns(), Some(52));
}
