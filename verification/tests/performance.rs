//! Selection of performance experiments.

use krun::performance::{eq_ignore_ascii_case, PerfExperiment, PERF_EXPERIMENTS_ENV};

#[test]
fn selectors_support_individual_group_and_all_modes() {
    assert!(PerfExperiment::BlockIoUring.enabled_in("block-io-uring"));
    assert!(PerfExperiment::BlockIoUring.enabled_in("block"));
    assert!(PerfExperiment::VcpuAccounting.enabled_in("all"));
    assert!(!PerfExperiment::VcpuAccounting.enabled_in("network"));
    assert!(!PerfExperiment::BlockIoUring.enabled_in("all,-block-io-uring"));
    assert!(PerfExperiment::BlockCompletions.enabled_in("all,-block-io-uring"));
}

#[test]
fn selectors_ignore_case_and_white_space() {
    assert!(PerfExperiment::NetworkOffload.enabled_in(" x , Network-OFFLOAD\t"));
    assert!(!PerfExperiment::NetworkOffload.enabled_in(""));
    assert!(!PerfExperiment::NetworkOffload.enabled_in("- network"));
    assert!(eq_ignore_ascii_case("ALL", "all"));
    assert!(!eq_ignore_ascii_case("\u{e4}ll", "\u{c4}ll"));
}

#[test]
fn last_selector_decides() {
    assert!(PerfExperiment::BlockMultiqueue.enabled_in("-block,block-multiqueue"));
    assert!(!PerfExperiment::BlockMultiqueue.enabled_in("block-multiqueue,-block,vcpu"));
}

#[test]
fn names_and_groups() {
    assert_eq!(PerfExperiment::MetricsResidency.name(), "metrics-residency");
    assert_eq!(PerfExperiment::MetricsResidency.group(), "metrics");
    assert_eq!(PerfExperiment::NetworkMultiqueue.group(), "network");
    assert_eq!(PerfExperiment::BlockFdatasync.name(), "block-fdatasync");
    assert_eq!(PerfExperiment::BlockDescriptors.group(), "block");
    assert_eq!(PERF_EXPERIMENTS_ENV, "MSB_PERF_EXPERIMENTS");
}
