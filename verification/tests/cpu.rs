//! The CPU device.

use krun::cpu::device::{Cpu, CpuEnforcement, CpuStateSnapshot};

#[test]
fn requests_are_held_between_one_and_possible() {
    let mut cpu = Cpu::new(4, 2);
    assert_eq!(cpu.set_requested_online(0), (1, false));
    assert_eq!(cpu.set_requested_online(9), (4, false));
    assert_eq!(
        cpu.state_snapshot(),
        CpuStateSnapshot { possible: 4, requested_online: 4, actual_online: 2, enforced: 4 }
    );
    assert!(cpu.activate(1, 1, true).is_ok());
    assert_eq!(cpu.set_requested_online(3), (3, true));
    assert!(cpu.is_activated());
}

#[test]
fn boot_cpu_always_runs() {
    let mut enforcement = CpuEnforcement::new(0);
    assert_eq!(enforcement.enforced(), 1);
    assert!(enforcement.runnable(0));
    assert!(!enforcement.runnable(1));
    enforcement.set(2);
    assert!(enforcement.runnable(1));
}

#[test]
fn guest_reports_its_online_cpus() {
    let mut cpu = Cpu::new(4, 2);
    assert!(cpu.write_config(8, &3u32.to_le_bytes()));
    assert!(!cpu.write_config(4, &3u32.to_le_bytes()));
    assert!(!cpu.write_config(8, &[3]));
    let mut bytes = [0u8; 12];
    cpu.read_config(0, &mut bytes);
    assert_eq!(bytes, [4, 0, 0, 0, 2, 0, 0, 0, 3, 0, 0, 0]);
    let mut tail = [9u8; 8];
    cpu.read_config(8, &mut tail);
    assert_eq!(tail, [3, 0, 0, 0, 9, 9, 9, 9]);
    assert!(cpu.activate(1, 2, true).is_err());
    assert!(cpu.activate(1, 1, false).is_err());
    assert_eq!(cpu.device_name(), "msb-cpu");
    assert_eq!(cpu.enforcement().enforced(), 2);
}
