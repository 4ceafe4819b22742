//! Virtual CPUs on Apple silicon.

use krun::hvf::error::{Error, GicKind};
use krun::hvf::registers::{
    state_icc_registers, state_ich_registers, state_system_registers, HvfVcpuState,
    GENERAL_REGISTER_COUNT, HV_GIC_ICC_REG_IGRPEN0_EL1, HV_GIC_ICC_REG_IGRPEN1_EL1,
    HV_GIC_ICC_REG_RPR_EL1, HV_GIC_ICH_REG_HCR_EL2, SIMD_REGISTER_COUNT,
};
use krun::hvf::vcpu::{
    counter_timebase, mach_absolute_time_to_ns, psci_arguments, timebase_or_unit, CapturedValues,
    EntryWrite, ExitReason, ExitStep, HvfVcpu, VcpuExit, VtimerSync,
};

fn state(nested_enabled: bool) -> HvfVcpuState {
    HvfVcpuState {
        general: (0..GENERAL_REGISTER_COUNT as u32).map(|register| (register, 0)).collect(),
        simd: (0..SIMD_REGISTER_COUNT as u32).map(|register| (register, 0)).collect(),
        system: state_system_registers(nested_enabled)
            .into_iter()
            .map(|register| (register, 0))
            .collect(),
        icc: state_icc_registers(nested_enabled)
            .into_iter()
            .map(|register| (register, 0))
            .collect(),
        ich: state_ich_registers(nested_enabled)
            .into_iter()
            .map(|register| (register, 0))
            .collect(),
        pending_irq: false,
        pending_fiq: false,
        vtimer_mask: false,
        vtimer_offset: 0,
        pending_advance_pc: false,
        nested_enabled,
    }
}

#[test]
fn timer_rebase_uses_the_same_wrapping_displacement_for_every_vcpu() {
    let mut first = state(false);
    let mut second = state(false);
    first.vtimer_offset = 9;
    second.vtimer_offset = 9;
    let displacement = u64::MAX - 3;
    first.rebase_timer_offset(displacement);
    second.rebase_timer_offset(displacement);
    assert_eq!(first.vtimer_offset, 5);
    assert_eq!(first.vtimer_offset, second.vtimer_offset);
}

#[test]
fn physical_gic_cpu_interface_topology_is_exact() {
    let state = state(false);

    assert!(state.has_register_topology(false));
    assert_eq!(state.icc.len(), ICC_REGISTERS);
    assert!(state.ich.is_empty());
    assert!(!state.icc.iter().any(|(register, _)| *register == HV_GIC_ICC_REG_RPR_EL1));
    assert_eq!(
        state.icc.iter().rev().take(2).map(|(register, _)| *register).collect::<Vec<_>>(),
        [HV_GIC_ICC_REG_IGRPEN1_EL1, HV_GIC_ICC_REG_IGRPEN0_EL1]
    );
}

#[test]
fn nested_gic_cpu_interface_topology_is_explicit() {
    let state = state(true);

    assert!(state.has_register_topology(true));
    assert_eq!(state.icc.len(), ICC_REGISTERS + NESTED_ICC_REGISTERS);
    assert_eq!(state.ich.len(), NESTED_ICH_REGISTERS);
    assert_eq!(
        state.ich.last().map(|(register, _)| *register),
        Some(HV_GIC_ICH_REG_HCR_EL2)
    );
}

#[test]
fn gic_cpu_interface_topology_rejects_missing_or_reordered_state() {
    let mut missing = state(false);
    missing.icc.pop();
    assert!(!missing.has_register_topology(false));

    let mut reordered = state(false);
    reordered.icc.swap(0, 1);
    assert!(!reordered.has_register_topology(false));

    assert!(!state(true).has_register_topology(false));
}

#[test]
fn ticks_become_nanoseconds() {
    assert_eq!(mach_absolute_time_to_ns(24, (125, 3)), 1000);
    assert_eq!(mach_absolute_time_to_ns(u64::MAX, (125, 3)), u64::MAX);
    assert_eq!(timebase_or_unit(false, 125, 3), (1, 1));
    assert_eq!(timebase_or_unit(true, 125, 3), (125, 3));
    assert_eq!(counter_timebase(false, 125, 3), None);
    assert_eq!(counter_timebase(true, 125, 3), Some((125, 3)));
}

#[test]
fn psci_calls_are_answered() {
    let vcpu = HvfVcpu::new(1, 24_000_000, false);
    assert_eq!(vcpu.id(), 1);
    let (result, exit) = vcpu.handle_psci_request(0x8400_0000, 0, 0, 0);
    assert_eq!(result, Some(2));
    assert!(matches!(exit, VcpuExit::PsciHandled));
    let (_, exit) = vcpu.handle_psci_request(0xc400_0003, 3, 0x8000_0000, 9);
    assert!(matches!(exit, VcpuExit::CpuOn(3, 0x8000_0000, 9)));
    assert_eq!(psci_arguments(0xdead_beef), None);
}

#[test]
fn mmio_read_finishes_with_the_data() {
    let mut vcpu = HvfVcpu::new(0, 24_000_000, false);
    // A data abort from a lower level: a four byte read into the third register.
    let syndrome = (0x24u64 << 26) | (1 << 25) | (1 << 24) | (2 << 22) | (3 << 16);
    match vcpu.handle_exception(syndrome, 0x0a00_0000) {
        ExitStep::Exit(VcpuExit::MmioRead { addr, len }) => {
            assert_eq!((addr, len), (0x0a00_0000, 4))
        }
        _ => panic!("expected a read"),
    }
    vcpu.set_mmio_byte(0, 0x78);
    vcpu.set_mmio_byte(1, 0x56);
    assert_eq!(vcpu.finish_mmio_read(), Some((3, 0x5678)));
    assert_eq!(vcpu.finish_mmio_read(), None);
    assert_eq!(vcpu.next_pc(0x1000), Some(0x1004));
}

#[test]
fn run_starts_with_what_the_last_exit_left() {
    let mut vcpu = HvfVcpu::new(0, 24_000_000, false);
    assert!(!vcpu.needs_pc());
    assert!(vcpu.begin_run(0, false).is_empty());
    let syndrome = (0x24u64 << 26) | (1 << 25) | (1 << 24) | (1 << 16);
    vcpu.handle_exception(syndrome, 0x0a00_0000);
    vcpu.set_mmio_byte(0, 0xab);
    assert!(vcpu.needs_pc());
    assert_eq!(
        vcpu.begin_run(0x1000, true),
        vec![
            EntryWrite::General { reg: 1, value: 0xab },
            EntryWrite::ProgramCounter { value: 0x1004 },
            EntryWrite::PendingIrq,
        ]
    );
    assert!(vcpu.needs_pc());
    assert_eq!(
        vcpu.begin_run(0x1000, false),
        vec![EntryWrite::ProgramCounter { value: 0x1004 }]
    );
    vcpu.pc_advanced();
    assert!(!vcpu.needs_pc());
    assert!(vcpu.begin_run(0, false).is_empty());
}

#[test]
fn waiting_without_a_timer_needs_no_frequency() {
    let vcpu = HvfVcpu::new(0, 0, false);
    assert!(matches!(vcpu.wait_for_event(0, u64::MAX, 0), VcpuExit::WaitForEvent));
    assert!(matches!(vcpu.wait_for_event(3, u64::MAX, 0), VcpuExit::WaitForEvent));
    assert!(matches!(vcpu.wait_for_event(1, 4, 5), VcpuExit::WaitForEventExpired));
    let ticking = HvfVcpu::new(0, 24_000_000, false);
    assert!(!ticking.is_vtimer_masked());
    assert!(matches!(ticking.wait_for_event(1, 15, 5), VcpuExit::WaitForEventTimeout(410)));
}

#[test]
fn mmio_write_carries_the_register() {
    let mut vcpu = HvfVcpu::new(0, 24_000_000, false);
    let exit = vcpu.mmio_write(0x0a00_0000, 2, Some(0x1234));
    assert!(matches!(exit, VcpuExit::MmioWrite { addr: 0x0a00_0000, len: 2 }));
    assert_eq!(&vcpu.mmio_bytes()[..2], &[0x34, 0x12]);
}

#[test]
fn exits_have_reasons() {
    let mut vcpu = HvfVcpu::new(0, 24_000_000, false);
    assert!(matches!(vcpu.exit_reason(0), ExitReason::Exit(VcpuExit::Canceled)));
    assert!(matches!(vcpu.exit_reason(1), ExitReason::Exception));
    assert!(matches!(vcpu.exit_reason(2), ExitReason::Exit(VcpuExit::VtimerActivated)));
    assert!(matches!(vcpu.exit_reason(77), ExitReason::Unexpected));
}

#[test]
fn captured_state_can_be_restored() {
    let mut vcpu = HvfVcpu::new(0, 24_000_000, false);
    let values = CapturedValues {
        general: vec![7; GENERAL_REGISTER_COUNT],
        simd: vec![1; SIMD_REGISTER_COUNT],
        system: vec![2; state_system_registers(false).len()],
        icc: vec![3; state_icc_registers(false).len()],
        ich: vec![],
        pending_irq: true,
        pending_fiq: false,
        vtimer_mask: true,
        vtimer_offset: 99,
    };
    let state = vcpu.capture_state(&values).ok().unwrap();
    assert!(state.has_register_topology(false));
    assert_eq!(state.general[4], (4, 7));
    assert!(vcpu.restore_state(&state).is_ok());
    vcpu.restored(&state);

    let nested = HvfVcpu::new(0, 24_000_000, true);
    assert!(nested.restore_state(&state).is_err());
}

#[test]
fn errors_have_messages() {
    assert!(!Error::VcpuRun.message().is_empty());
    let message = Error::VcpuReadGicRegister(GicKind::Icc, 0xc230).message();
    assert!(message.contains("GIC"));
}

const ICC_REGISTERS: usize = 9;
const NESTED_ICC_REGISTERS: usize = 1;
const NESTED_ICH_REGISTERS: usize = 20;

#[test]
fn masked_timer_raises_its_interrupt() {
    let mut vcpu = HvfVcpu::new(3, 24_000_000, false);
    assert_eq!(vcpu.mmio_bytes(), &[0u8; 8]);
    assert_eq!(vcpu.hvf_sync_vtimer(5), VtimerSync { raise_for: None, unmask: false });
    assert!(matches!(vcpu.exit_reason(2), ExitReason::Exit(VcpuExit::VtimerActivated)));
    assert!(vcpu.is_vtimer_masked());
    assert_eq!(vcpu.hvf_sync_vtimer(5), VtimerSync { raise_for: Some(3), unmask: false });
    assert!(vcpu.is_vtimer_masked());
    assert_eq!(vcpu.hvf_sync_vtimer(1), VtimerSync { raise_for: Some(3), unmask: true });
    assert!(!vcpu.is_vtimer_masked());
    assert_eq!(vcpu.hvf_sync_vtimer(1), VtimerSync { raise_for: None, unmask: false });
}
