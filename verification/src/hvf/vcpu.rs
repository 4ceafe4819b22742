//! What a virtual CPU does before and after it runs, and how its state is saved and restored.

use crate::bytes::{
    get_le_u16, get_le_u32, get_le_u64, le_u16, le_u32, le_u64, put_le_u64, with_le_u64,
};
use crate::hvf::error::Error;
use crate::hvf::registers::{
    gic_icc_registers, gic_ich_registers, state_icc_registers, state_ich_registers,
    state_system_registers, system_registers, HvfVcpuState, GENERAL_REGISTER_COUNT, HV_REG_CPSR,
    HV_REG_PC, HV_REG_X0, HV_SYS_REG_CNTHCTL_EL2, HV_SYS_REG_HCR_EL2, HV_SYS_REG_ID_AA64PFR0_EL1,
    HV_SYS_REG_ID_AA64PFR1_EL1, HV_SYS_REG_SCTLR_EL1, SIMD_REGISTER_COUNT,
};
use vstd::prelude::*;

verus! {

/// The framework stopped the virtual CPU on request.
pub const HV_EXIT_REASON_CANCELED: u32 = 0;

/// The virtual CPU did something that the host has to see to.
pub const HV_EXIT_REASON_EXCEPTION: u32 = 1;

/// The virtual timer fired.
pub const HV_EXIT_REASON_VTIMER_ACTIVATED: u32 = 2;

/// The guest may read a mapping.
pub const HV_MEMORY_READ: u64 = 1;

/// The guest may write a mapping.
pub const HV_MEMORY_WRITE: u64 = 2;

/// The guest may execute a mapping.
pub const HV_MEMORY_EXEC: u64 = 4;

/// Processor status at the entry of a kernel: exceptions masked, in the kernel's mode.
pub const PSTATE_EL1_FAULT_BITS_64: u64 = 0x3c5;

/// Processor status at the entry of a hypervisor: exceptions masked, in the hypervisor's mode.
pub const PSTATE_EL2_FAULT_BITS_64: u64 = 0x3c9;

/// System control at reset: translation, caches and alignment checks are off.
pub const SCTLR_EL1_RES1: u64 = 0x30d0_0800;

/// Hypervisor configuration at reset.
pub const HCR_EL2_BITS: u64 = 0x8_807c_663f;

/// Accesses to both counters are trapped.
pub const CNTHCTL_EL2_BITS: u64 = 3;

/// A hypervisor's mode and the interrupt controller are there.
pub const AA64PFR0_EL1_BITS: u64 = 0x100_0100;

/// The bits for the matrix extension.
pub const AA64PFR1_EL1_SMEMASK: u64 = 0x300_0000;

/// The virtual CPU waits for an event.
pub const EC_WFX_TRAP: u64 = 0x1;

/// A call of the hypervisor.
pub const EC_AA64_HVC: u64 = 0x16;

/// A call of the secure monitor.
pub const EC_AA64_SMC: u64 = 0x17;

/// An access to a system register.
pub const EC_SYSTEMREGISTERTRAP: u64 = 0x18;

/// An access to memory that is not there.
pub const EC_DATAABORT: u64 = 0x24;

/// A breakpoint.
pub const EC_AA64_BKPT: u64 = 0x3c;

/// The bits of a syndrome that name a system register.
pub const SYSREG_MASK: u32 = 0x003f_fc1e;

/// A line of the interrupt controller.
#[derive(Clone, Copy, Debug, PartialEq, Eq, Structural)]
pub enum InterruptType {
    Irq,
    Fiq,
}

/// What is done about the virtual timer after an exception.
#[derive(Clone, Copy, Debug, PartialEq, Eq, Structural)]
pub struct VtimerSync {
    /// The virtual CPU that gets its timer interrupt.
    pub raise_for: Option<u64>,
    /// The timer is unmasked.
    pub unmask: bool,
}

/// What the virtual CPUs share.
pub trait Vcpus {
    fn set_vtimer_irq(&self, vcpuid: u64);

    fn should_wait(&self, vcpuid: u64) -> bool;

    fn has_pending_irq(&self, vcpuid: u64) -> bool;

    fn get_pending_irq(&self, vcpuid: u64) -> u32;

    fn handle_sysreg_read(&self, vcpuid: u64, reg: u32) -> Option<u64>;

    fn handle_sysreg_write(&self, vcpuid: u64, reg: u32, val: u64) -> bool;
}

/// A host-counter tick in nanoseconds, as a fraction. A clock that says nothing counts nanoseconds.
pub fn timebase_or_unit(answered: bool, numer: u32, denom: u32) -> (r: (u32, u32))
    ensures
        r == if answered && denom != 0 {
            (numer, denom)
        } else {
            (1u32, 1u32)
        },
        r.1 != 0,
{
    if answered && denom != 0 {
        (numer, denom)
    } else {
        (1, 1)
    }
}

/// A host-counter tick in nanoseconds, as a fraction, if the clock says so.
pub fn counter_timebase(answered: bool, numer: u32, denom: u32) -> (r: Option<(u32, u32)>)
    ensures
        r == if answered && numer != 0 && denom != 0 {
            Some((numer, denom))
        } else {
            None
        },
{
    if answered && numer != 0 && denom != 0 {
        Some((numer, denom))
    } else {
        None
    }
}

/// Host-counter ticks in nanoseconds, held at the largest number.
pub fn mach_absolute_time_to_ns(ticks: u64, timebase: (u32, u32)) -> (r: u64)
    requires
        timebase.1 != 0,
    ensures
        r == if (ticks * timebase.0) / timebase.1 as int <= u64::MAX {
            (ticks * timebase.0) / timebase.1 as int
        } else {
            u64::MAX as int
        },
{
    let numer: u128 = timebase.0 as u128;
    let denom: u128 = timebase.1 as u128;
    assert(ticks * numer <= 0xffff_ffff_ffff_ffff * 0xffff_ffff) by (nonlinear_arith)
        requires
            ticks <= 0xffff_ffff_ffff_ffff,
            numer <= 0xffff_ffff,
    ;
    let ns: u128 = (ticks as u128 * numer) / denom;
    if ns <= u64::MAX as u128 {
        ns as u64
    } else {
        u64::MAX
    }
}

/// A change of what the guest may do with a mapping.
#[derive(Clone, Copy, Debug, PartialEq, Eq, Structural)]
pub struct ProtectRequest {
    pub guest_start_addr: u64,
    pub size: usize,
    pub flags: u64,
}

/// What the guest may do with memory: read and execute it, and write it where it is writable.
pub open spec fn protection_flags(writable: bool) -> u64 {
    if writable {
        7
    } else {
        5
    }
}

/// The change that makes a mapping writable, or keeps it from being written.
pub fn protect_memory(guest_start_addr: u64, size: u64, writable: bool) -> (r: Result<
    ProtectRequest,
    Error,
>)
    ensures
        r is Ok <==> size <= usize::MAX,
        r matches Ok(request) ==> request.guest_start_addr == guest_start_addr && request.size
            == size && request.flags == protection_flags(writable),
        r is Err ==> r == Err::<ProtectRequest, Error>(Error::MemoryProtect),
{
    if size > usize::MAX as u64 {
        return Err(Error::MemoryProtect);
    }
    let flags: u64 = if writable {
        HV_MEMORY_READ + HV_MEMORY_EXEC + HV_MEMORY_WRITE
    } else {
        HV_MEMORY_READ + HV_MEMORY_EXEC
    };
    Ok(ProtectRequest { guest_start_addr, size: size as usize, flags })
}

/// The virtual machine of this process.
#[derive(Clone, Copy, Debug, PartialEq, Eq, Structural)]
pub struct HvfVm {
    /// Its virtual CPUs may run virtual machines themselves.
    pub nested_enabled: bool,
}

impl HvfVm {
    /// The change that makes a mapping writable, or keeps it from being written.
    pub fn protect_memory(&self, guest_start_addr: u64, size: u64, writable: bool) -> (r: Result<
        ProtectRequest,
        Error,
    >)
        ensures
            r is Ok <==> size <= usize::MAX,
            r matches Ok(request) ==> request.guest_start_addr == guest_start_addr && request.size
                == size && request.flags == protection_flags(writable),
            r is Err ==> r == Err::<ProtectRequest, Error>(Error::MemoryProtect),
    {
        protect_memory(guest_start_addr, size, writable)
    }
}

/// Why a virtual CPU stopped.
#[derive(Clone, Copy, Debug, PartialEq, Eq, Structural)]
pub enum VcpuExit {
    /// The guest asks whether a virtual CPU is on.
    AffinityInfo(u64),
    Breakpoint,
    Canceled,
    /// The virtual CPU is off until it is turned on again.
    CpuOff,
    /// The guest turns a virtual CPU on: which, where, and with what.
    CpuOn(u64, u64, u64),
    HypervisorCall,
    /// The guest reads so many bytes at an address.
    MmioRead { addr: u64, len: usize },
    /// The guest writes so many bytes to an address.
    MmioWrite { addr: u64, len: usize },
    PsciHandled,
    SecureMonitorCall,
    Shutdown,
    SystemRegister,
    VtimerActivated,
    WaitForEvent,
    WaitForEventExpired,
    /// The guest waits for no longer than so many nanoseconds.
    WaitForEventTimeout(u64),
}

/// A read that the guest waits for.
#[derive(Clone, Copy, Debug, PartialEq, Eq, Structural)]
pub struct MmioRead {
    pub addr: u64,
    pub len: usize,
    /// The register that takes the value.
    pub srt: u32,
}

/// What is left to do about an exit.
#[derive(Clone, Copy, Debug, PartialEq, Eq, Structural)]
pub enum ExitStep {
    /// The exit is complete.
    Exit(VcpuExit),
    /// Read this register, then call `mmio_write`.
    MmioWrite { addr: u64, len: usize, srt: u32 },
    /// Ask for the value of a system register, and put it in a general one, if any.
    SysregRead { reg: u32, rt: Option<u32> },
    /// Set a system register from a general one, or to zero.
    SysregWrite { reg: u32, rt: Option<u32> },
    /// Look at the virtual timer, then call `wait_for_event`.
    Wait,
    /// Read the registers of a call, then call `handle_psci_request`.
    Psci,
}

/// A function that the guest may call.
pub open spec fn psci_known(function: u64) -> bool {
    function == 0x8400_0000 || function == 0x8400_0002 || function == 0x8400_0004 || function
        == 0xc400_0004 || function == 0x8400_0006 || function == 0x8400_0008 || function
        == 0x8400_0009 || function == 0xc400_0003
}

/// What a call of the guest comes to: the value that goes back to it, if any, and the exit.
pub open spec fn psci_result(function: u64, x1: u64, x2: u64, x3: u64) -> (Option<u64>, VcpuExit) {
    if function == 0x8400_0000 || function == 0x8400_0006 {
        (Some(2), VcpuExit::PsciHandled)
    } else if function == 0x8400_0002 {
        (None, VcpuExit::CpuOff)
    } else if function == 0x8400_0004 || function == 0xc400_0004 {
        (None, VcpuExit::AffinityInfo(x1))
    } else if function == 0x8400_0008 || function == 0x8400_0009 {
        (None, VcpuExit::Shutdown)
    } else {
        (Some(0), VcpuExit::CpuOn(x1, x2, x3))
    }
}

/// Arguments of a call that are read: one for a question, three for turning a virtual CPU on.
pub fn psci_arguments(function: u64) -> (r: Option<usize>)
    ensures
        r is Some <==> psci_known(function),
        r matches Some(count) ==> count == if function == 0x8400_0004 || function
            == 0xc400_0004 {
            1int
        } else if function == 0xc400_0003 {
            3int
        } else {
            0int
        },
{
    match function {
        0x8400_0000 | 0x8400_0002 | 0x8400_0006 | 0x8400_0008 | 0x8400_0009 => Some(0),
        0x8400_0004 | 0xc400_0004 => Some(1),
        0xc400_0003 => Some(3),
        _ => None,
    }
}

/// The class of an exception.
pub open spec fn exception_class(syndrome: u64) -> u64 {
    (syndrome / 0x400_0000 % 0x40) as u64
}

/// The classes of exceptions that a guest may cause.
pub open spec fn exception_known(class: u64) -> bool {
    class == EC_WFX_TRAP || class == EC_AA64_HVC || class == EC_AA64_SMC || class
        == EC_SYSTEMREGISTERTRAP || class == EC_DATAABORT || class == EC_AA64_BKPT
}

/// Bytes of an access to memory.
pub open spec fn access_len(syndrome: u64) -> int {
    let size = syndrome / 0x40_0000 % 4;
    if size == 0 {
        1
    } else if size == 1 {
        2
    } else if size == 2 {
        4
    } else {
        8
    }
}

/// The register of an access to memory.
pub open spec fn access_register(syndrome: u64) -> u32 {
    (syndrome / 0x1_0000 % 0x20) as u32
}

/// An access to memory writes.
pub open spec fn access_writes(syndrome: u64) -> bool {
    syndrome / 0x40 % 2 == 1
}

/// What is left to do about an exception.
pub open spec fn exception_step(syndrome: u64, pa: u64) -> ExitStep {
    let class = exception_class(syndrome);
    let len = access_len(syndrome) as usize;
    let rt = (syndrome / 0x20 % 0x20) as u32;
    let named = if rt == 31 {
        None
    } else {
        Some(rt)
    };
    let reg = (syndrome % 0x1_0000_0000) as u32 & SYSREG_MASK;
    if class == EC_AA64_BKPT {
        ExitStep::Exit(VcpuExit::Breakpoint)
    } else if class == EC_DATAABORT {
        if access_writes(syndrome) {
            ExitStep::MmioWrite { addr: pa, len, srt: access_register(syndrome) }
        } else {
            ExitStep::Exit(VcpuExit::MmioRead { addr: pa, len })
        }
    } else if class == EC_SYSTEMREGISTERTRAP {
        if syndrome % 2 == 1 {
            if rt == 31 {
                ExitStep::Exit(VcpuExit::SystemRegister)
            } else {
                ExitStep::SysregRead { reg, rt: named }
            }
        } else {
            ExitStep::SysregWrite { reg, rt: named }
        }
    } else if class == EC_WFX_TRAP {
        ExitStep::Wait
    } else {
        ExitStep::Psci
    }
}

/// Exceptions whose instruction is skipped when the virtual CPU runs on.
pub open spec fn advances(class: u64) -> bool {
    class == EC_DATAABORT || class == EC_SYSTEMREGISTERTRAP || class == EC_WFX_TRAP || class
        == EC_AA64_SMC
}

/// The value of an access of so many bytes.
pub open spec fn buffer_value(buf: Seq<u8>, len: int) -> int {
    if len == 1 {
        buf[0] as int
    } else if len == 2 {
        le_u16(buf, 0)
    } else if len == 4 {
        le_u32(buf, 0)
    } else {
        le_u64(buf, 0)
    }
}

/// The buffer with the low bytes of a value at its start.
pub open spec fn buffer_with(buf: Seq<u8>, len: int, value: u64) -> Seq<u8> {
    with_le_u64(Seq::new(8, |i: int| 0u8), 0, value as int).take(len) + buf.skip(len)
}

/// Sizes of accesses to memory.
pub open spec fn access_size(len: int) -> bool {
    len == 1 || len == 2 || len == 4 || len == 8
}

/// One virtual CPU.
pub struct HvfVcpu {
    vcpuid: u64,
    cntfrq: u64,
    mmio_buf: Vec<u8>,
    pending_mmio_read: Option<MmioRead>,
    pending_advance_pc: bool,
    vtimer_masked: bool,
    nested_enabled: bool,
}

/// Why the framework handed control back.
#[derive(Clone, Copy, Debug, PartialEq, Eq, Structural)]
pub enum ExitReason {
    /// The exit is complete.
    Exit(VcpuExit),
    /// An exception is to be seen to.
    Exception,
    /// A reason that does not exist.
    Unexpected,
}

/// A register that is written when a virtual CPU starts.
#[derive(Clone, Copy, Debug, PartialEq, Eq, Structural)]
pub enum RegisterWrite {
    General { reg: u32, value: u64 },
    System { reg: u16, value: u64 },
}

/// What is done before a virtual CPU runs on.
#[derive(Clone, Copy, Debug, PartialEq, Eq, Structural)]
pub enum EntryWrite {
    /// A general register takes a value that was read for it.
    General { reg: u32, value: u64 },
    /// The program counter moves.
    ProgramCounter { value: u64 },
    /// An interrupt is raised.
    PendingIrq,
}

/// A part of a state that is restored.
#[derive(Clone, Copy, Debug, PartialEq, Eq, Structural)]
pub enum StateWrite {
    General { reg: u32, value: u64 },
    Simd { reg: u32, value: u128 },
    System { reg: u16, value: u64 },
    Icc { reg: u16, value: u64 },
    Ich { reg: u16, value: u64 },
    VtimerOffset { value: u64 },
    Pending { line: InterruptType, pending: bool },
    VtimerMask { masked: bool },
}

/// What was read of a virtual CPU, in the order of its registers.
pub struct CapturedValues {
    pub general: Vec<u64>,
    pub simd: Vec<u128>,
    pub system: Vec<u64>,
    pub icc: Vec<u64>,
    pub ich: Vec<u64>,
    pub pending_irq: bool,
    pub pending_fiq: bool,
    pub vtimer_mask: bool,
    pub vtimer_offset: u64,
}

/// Values with the numbers of their registers.
pub open spec fn numbered<V>(values: Seq<V>) -> Seq<(u32, V)> {
    Seq::new(values.len(), |i: int| (i as u32, values[i]))
}

/// Values with the registers that they belong to.
pub open spec fn paired(registers: Seq<u16>, values: Seq<u64>) -> Seq<(u16, u64)> {
    Seq::new(values.len(), |i: int| (registers[i], values[i]))
}

fn number_values<V: Copy>(values: &[V]) -> (r: Vec<(u32, V)>)
    requires
        values@.len() <= 64,
    ensures
        r@ == numbered(values@),
{
    let mut list: Vec<(u32, V)> = Vec::new();
    let mut i: usize = 0;
    while i < values.len()
        invariant
            i <= values@.len() <= 64,
            list@.len() == i,
            forall|j: int| 0 <= j < i ==> #[trigger] list@[j] == (j as u32, values@[j]),
        decreases values@.len() - i,
    {
        list.push((i as u32, values[i]));
        i = i + 1;
    }
    assert(list@ =~= numbered(values@));
    list
}

fn pair_values(registers: &[u16], values: &[u64]) -> (r: Vec<(u16, u64)>)
    requires
        registers@.len() == values@.len(),
    ensures
        r@ == paired(registers@, values@),
{
    let mut list: Vec<(u16, u64)> = Vec::new();
    let mut i: usize = 0;
    while i < values.len()
        invariant
            i <= values@.len(),
            registers@.len() == values@.len(),
            list@.len() == i,
            forall|j: int| 0 <= j < i ==> #[trigger] list@[j] == (registers@[j], values@[j]),
        decreases values@.len() - i,
    {
        list.push((registers[i], values[i]));
        i = i + 1;
    }
    assert(list@ =~= paired(registers@, values@));
    list
}

/// The writes that restore a state, in order.
pub open spec fn restore_writes(state: HvfVcpuState) -> Seq<StateWrite> {
    let general = state.general@.map_values(
        |p: (u32, u64)| StateWrite::General { reg: p.0, value: p.1 },
    );
    let simd = state.simd@.map_values(
        |p: (u32, u128)| StateWrite::Simd { reg: p.0, value: p.1 },
    );
    let system = state.system@.map_values(
        |p: (u16, u64)| StateWrite::System { reg: p.0, value: p.1 },
    );
    let icc = state.icc@.map_values(|p: (u16, u64)| StateWrite::Icc { reg: p.0, value: p.1 });
    let ich = state.ich@.map_values(|p: (u16, u64)| StateWrite::Ich { reg: p.0, value: p.1 });
    general + simd + system + icc + ich + seq![
        StateWrite::VtimerOffset { value: state.vtimer_offset },
        StateWrite::Pending { line: InterruptType::Irq, pending: state.pending_irq },
        StateWrite::Pending { line: InterruptType::Fiq, pending: state.pending_fiq },
        StateWrite::VtimerMask { masked: state.vtimer_mask },
    ]
}

/// The registers of a virtual CPU that starts. `pfr0` and `pfr1` are what its feature registers
/// read as; only a virtual CPU that runs virtual machines itself looks at them.
pub open spec fn start_writes(nested: bool, entry_addr: u64, fdt_addr: u64, pfr0: u64, pfr1: u64) -> Seq<
    RegisterWrite,
> {
    let mode = if nested {
        seq![
            RegisterWrite::General { reg: HV_REG_CPSR, value: PSTATE_EL2_FAULT_BITS_64 },
            RegisterWrite::System { reg: HV_SYS_REG_HCR_EL2, value: HCR_EL2_BITS },
            RegisterWrite::System { reg: HV_SYS_REG_CNTHCTL_EL2, value: CNTHCTL_EL2_BITS },
            RegisterWrite::System {
                reg: HV_SYS_REG_ID_AA64PFR0_EL1,
                value: pfr0 | AA64PFR0_EL1_BITS,
            },
            RegisterWrite::System {
                reg: HV_SYS_REG_ID_AA64PFR1_EL1,
                value: pfr1 & !AA64PFR1_EL1_SMEMASK,
            },
        ]
    } else {
        seq![
            RegisterWrite::General { reg: HV_REG_CPSR, value: PSTATE_EL1_FAULT_BITS_64 },
            RegisterWrite::System { reg: HV_SYS_REG_SCTLR_EL1, value: SCTLR_EL1_RES1 },
        ]
    };
    mode + seq![
        RegisterWrite::General { reg: HV_REG_PC, value: entry_addr },
        RegisterWrite::General { reg: HV_REG_X0, value: fdt_addr },
    ]
}

impl HvfVcpu {
    pub closed spec fn spec_id(self) -> u64 {
        self.vcpuid
    }

    pub closed spec fn spec_cntfrq(self) -> u64 {
        self.cntfrq
    }

    /// The bytes of the last access to memory.
    pub closed spec fn buffer(self) -> Seq<u8> {
        self.mmio_buf@
    }

    pub closed spec fn spec_pending_read(self) -> Option<MmioRead> {
        self.pending_mmio_read
    }

    pub closed spec fn spec_advance(self) -> bool {
        self.pending_advance_pc
    }

    pub closed spec fn spec_masked(self) -> bool {
        self.vtimer_masked
    }

    pub closed spec fn spec_nested(self) -> bool {
        self.nested_enabled
    }

    /// The buffer has room for every access, and a read that is waited for has a size that exists.
    pub open spec fn wf(self) -> bool {
        &&& self.buffer().len() == 8
        &&& self.spec_pending_read() matches Some(read) ==> access_size(read.len as int)
    }

    /// Everything that does not change while the virtual CPU lives.
    pub open spec fn same_vcpu(self, other: HvfVcpu) -> bool {
        &&& self.spec_id() == other.spec_id()
        &&& self.spec_cntfrq() == other.spec_cntfrq()
        &&& self.spec_nested() == other.spec_nested()
    }

    /// A virtual CPU that has not run yet.
    pub fn new(vcpuid: u64, cntfrq: u64, nested_enabled: bool) -> (r: HvfVcpu)
        ensures
            r.wf(),
            r.spec_id() == vcpuid,
            r.spec_cntfrq() == cntfrq,
            r.spec_nested() == nested_enabled,
            r.buffer() == Seq::new(8, |i: int| 0u8),
            r.spec_pending_read() is None,
            !r.spec_advance(),
            !r.spec_masked(),
    {
        let mmio_buf: Vec<u8> = vec![0u8; 8];
        assert(mmio_buf@ =~= Seq::new(8, |i: int| 0u8));
        HvfVcpu {
            vcpuid,
            cntfrq,
            mmio_buf,
            pending_mmio_read: None,
            pending_advance_pc: false,
            vtimer_masked: false,
            nested_enabled,
        }
    }

    /// The registers that are written before the virtual CPU starts.
    pub fn set_initial_state(&self, entry_addr: u64, fdt_addr: u64, pfr0: u64, pfr1: u64) -> (r:
        Vec<RegisterWrite>)
        ensures
            r@ == start_writes(self.spec_nested(), entry_addr, fdt_addr, pfr0, pfr1),
    {
        let mut writes: Vec<RegisterWrite> = Vec::new();
        if self.nested_enabled {
            writes.push(
                RegisterWrite::General { reg: HV_REG_CPSR, value: PSTATE_EL2_FAULT_BITS_64 },
            );
            writes.push(RegisterWrite::System { reg: HV_SYS_REG_HCR_EL2, value: HCR_EL2_BITS });
            writes.push(
                RegisterWrite::System { reg: HV_SYS_REG_CNTHCTL_EL2, value: CNTHCTL_EL2_BITS },
            );
            writes.push(
                RegisterWrite::System {
                    reg: HV_SYS_REG_ID_AA64PFR0_EL1,
                    value: pfr0 | AA64PFR0_EL1_BITS,
                },
            );
            writes.push(
                RegisterWrite::System {
                    reg: HV_SYS_REG_ID_AA64PFR1_EL1,
                    value: pfr1 & !AA64PFR1_EL1_SMEMASK,
                },
            );
        } else {
            writes.push(
                RegisterWrite::General { reg: HV_REG_CPSR, value: PSTATE_EL1_FAULT_BITS_64 },
            );
            writes.push(RegisterWrite::System { reg: HV_SYS_REG_SCTLR_EL1, value: SCTLR_EL1_RES1 });
        }
        writes.push(RegisterWrite::General { reg: HV_REG_PC, value: entry_addr });
        writes.push(RegisterWrite::General { reg: HV_REG_X0, value: fdt_addr });
        assert(writes@ =~= start_writes(
            self.spec_nested(),
            entry_addr,
            fdt_addr,
            pfr0,
            pfr1,
        ));
        writes
    }

    /// The number of the virtual CPU.
    pub fn id(&self) -> (r: u64)
        ensures
            r == self.spec_id(),
    {
        self.vcpuid
    }

    /// Retries the instruction that caused the current exit.
    pub fn retry_current_instruction(&mut self)
        requires
            old(self).wf(),
        ensures
            final(self).wf(),
            final(self).same_vcpu(*old(self)),
            !final(self).spec_advance(),
            final(self).buffer() == old(self).buffer(),
            final(self).spec_pending_read() == old(self).spec_pending_read(),
            final(self).spec_masked() == old(self).spec_masked(),
    {
        self.pending_advance_pc = false;
    }

    /// The register that takes the result of a call, and the result.
    pub fn write_psci_result(&self, val: u64) -> (r: RegisterWrite)
        ensures
            r == (RegisterWrite::General { reg: HV_REG_X0, value: val }),
    {
        RegisterWrite::General { reg: HV_REG_X0, value: val }
    }

    /// What a call of the guest comes to: the value that goes back to it, if any, and the exit.
    pub fn handle_psci_request(&self, function: u64, x1: u64, x2: u64, x3: u64) -> (r: (
        Option<u64>,
        VcpuExit,
    ))
        requires
            psci_known(function),
        ensures
            r == psci_result(function, x1, x2, x3),
    {
        match function {
            0x8400_0000 | 0x8400_0006 => (Some(2), VcpuExit::PsciHandled),
            0x8400_0002 => (None, VcpuExit::CpuOff),
            0x8400_0004 | 0xc400_0004 => (None, VcpuExit::AffinityInfo(x1)),
            0x8400_0008 | 0x8400_0009 => (None, VcpuExit::Shutdown),
            _ => (Some(0), VcpuExit::CpuOn(x1, x2, x3)),
        }
    }

    /// The timer line of the virtual timer is high: enabled, not masked and fired.
    pub open spec fn timer_line(ctl: u64) -> bool {
        ctl % 8 == 5
    }

    /// Looks at the virtual timer after an exception. While it is masked, its interrupt is raised
    /// for this virtual CPU. Once its line is low it is unmasked again.
    pub fn hvf_sync_vtimer(&mut self, ctl: u64) -> (r: VtimerSync)
        requires
            old(self).wf(),
        ensures
            final(self).wf(),
            final(self).same_vcpu(*old(self)),
            final(self).buffer() == old(self).buffer(),
            final(self).spec_pending_read() == old(self).spec_pending_read(),
            final(self).spec_advance() == old(self).spec_advance(),
            r.raise_for == if old(self).spec_masked() {
                Some(old(self).spec_id())
            } else {
                None::<u64>
            },
            r.unmask == (old(self).spec_masked() && !Self::timer_line(ctl)),
            final(self).spec_masked() == (old(self).spec_masked() && Self::timer_line(ctl)),
    {
        if !self.vtimer_masked {
            return VtimerSync { raise_for: None, unmask: false };
        }
        let unmask: bool = ctl % 8 != 5;
        if unmask {
            self.vtimer_masked = false;
        }
        VtimerSync { raise_for: Some(self.vcpuid), unmask }
    }

    /// The register write that ends a read that the guest waited for.
    pub open spec fn finished_read(self) -> Option<(u32, u64)> {
        match self.spec_pending_read() {
            Some(read) if read.srt < 31 => Some(
                (read.srt, buffer_value(self.buffer(), read.len as int) as u64),
            ),
            _ => None,
        }
    }

    /// Ends a read that the guest waited for: the register that takes the value, if there is one.
    pub fn finish_mmio_read(&mut self) -> (r: Option<(u32, u64)>)
        requires
            old(self).wf(),
        ensures
            final(self).wf(),
            final(self).same_vcpu(*old(self)),
            r == old(self).finished_read(),
            final(self).spec_pending_read() is None,
            final(self).buffer() == old(self).buffer(),
            final(self).spec_advance() == old(self).spec_advance(),
            final(self).spec_masked() == old(self).spec_masked(),
    {
        let read: MmioRead = match self.pending_mmio_read {
            None => {
                return None;
            },
            Some(read) => read,
        };
        self.pending_mmio_read = None;
        if read.srt >= 31 {
            return None;
        }
        let value: u64 = if read.len == 1 {
            self.mmio_buf[0] as u64
        } else if read.len == 2 {
            get_le_u16(self.mmio_buf.as_slice(), 0) as u64
        } else if read.len == 4 {
            get_le_u32(self.mmio_buf.as_slice(), 0) as u64
        } else {
            get_le_u64(self.mmio_buf.as_slice(), 0)
        };
        Some((read.srt, value))
    }

    /// The program counter behind the instruction that was emulated, where one was.
    pub fn next_pc(&self, pc: u64) -> (r: Option<u64>)
        requires
            self.spec_advance() ==> pc <= u64::MAX - 4,
        ensures
            r == if self.spec_advance() {
                Some((pc + 4) as u64)
            } else {
                None
            },
    {
        if self.pending_advance_pc {
            Some(pc + 4)
        } else {
            None
        }
    }

    /// The program counter was moved.
    pub fn pc_advanced(&mut self)
        requires
            old(self).wf(),
        ensures
            final(self).wf(),
            final(self).same_vcpu(*old(self)),
            !final(self).spec_advance(),
            final(self).buffer() == old(self).buffer(),
            final(self).spec_pending_read() == old(self).spec_pending_read(),
            final(self).spec_masked() == old(self).spec_masked(),
    {
        self.pending_advance_pc = false;
    }

    /// What is done before the virtual CPU runs on, in this order: the read that the guest waited
    /// for ends, the program counter moves behind an emulated instruction, and an interrupt that
    /// waits is raised.
    pub open spec fn entry_writes(self, pc: u64, pending_irq: bool) -> Seq<EntryWrite> {
        let read = match self.finished_read() {
            Some((reg, value)) => seq![EntryWrite::General { reg, value }],
            None => Seq::empty(),
        };
        let advance = if self.spec_advance() {
            seq![EntryWrite::ProgramCounter { value: (pc + 4) as u64 }]
        } else {
            Seq::empty()
        };
        let irq = if pending_irq {
            seq![EntryWrite::PendingIrq]
        } else {
            Seq::empty()
        };
        read + advance + irq
    }

    /// Ticks of the counter per second.
    pub fn cntfrq(&self) -> (r: u64)
        ensures
            r == self.spec_cntfrq(),
    {
        self.cntfrq
    }

    /// Whether the virtual timer is masked, so that its control register has to be looked at after
    /// an exception.
    pub fn is_vtimer_masked(&self) -> (r: bool)
        ensures
            r == self.spec_masked(),
    {
        self.vtimer_masked
    }

    /// Whether the program counter has to be read before the virtual CPU runs on.
    pub fn needs_pc(&self) -> (r: bool)
        ensures
            r == self.spec_advance(),
    {
        self.pending_advance_pc
    }

    /// Prepares the virtual CPU to run on. Where the program counter was not read, `pc` is not
    /// looked at. Once its new value is written, `pc_advanced` has to be called: until then it is
    /// still to be moved.
    pub fn begin_run(&mut self, pc: u64, pending_irq: bool) -> (r: Vec<EntryWrite>)
        requires
            old(self).wf(),
            old(self).spec_advance() ==> pc <= u64::MAX - 4,
        ensures
            final(self).wf(),
            final(self).same_vcpu(*old(self)),
            r@ == old(self).entry_writes(pc, pending_irq),
            final(self).spec_pending_read() is None,
            final(self).spec_advance() == old(self).spec_advance(),
            final(self).buffer() == old(self).buffer(),
            final(self).spec_masked() == old(self).spec_masked(),
    {
        let mut writes: Vec<EntryWrite> = Vec::new();
        match self.finish_mmio_read() {
            Some((reg, value)) => {
                writes.push(EntryWrite::General { reg, value });
            },
            None => {},
        }
        if self.pending_advance_pc {
            writes.push(EntryWrite::ProgramCounter { value: pc + 4 });
        }
        if pending_irq {
            writes.push(EntryWrite::PendingIrq);
        }
        assert(writes@ =~= old(self).entry_writes(pc, pending_irq));
        writes
    }

    /// Why the framework handed control back. A timer that fired is masked until its line is low.
    pub fn exit_reason(&mut self, reason: u32) -> (r: ExitReason)
        requires
            old(self).wf(),
        ensures
            final(self).wf(),
            final(self).same_vcpu(*old(self)),
            final(self).buffer() == old(self).buffer(),
            final(self).spec_pending_read() == old(self).spec_pending_read(),
            final(self).spec_advance() == old(self).spec_advance(),
            final(self).spec_masked() == (old(self).spec_masked() || reason
                == HV_EXIT_REASON_VTIMER_ACTIVATED),
            r == if reason == HV_EXIT_REASON_EXCEPTION {
                ExitReason::Exception
            } else if reason == HV_EXIT_REASON_VTIMER_ACTIVATED {
                ExitReason::Exit(VcpuExit::VtimerActivated)
            } else if reason == HV_EXIT_REASON_CANCELED {
                ExitReason::Exit(VcpuExit::Canceled)
            } else {
                ExitReason::Unexpected
            },
    {
        if reason == HV_EXIT_REASON_EXCEPTION {
            ExitReason::Exception
        } else if reason == HV_EXIT_REASON_VTIMER_ACTIVATED {
            self.vtimer_masked = true;
            ExitReason::Exit(VcpuExit::VtimerActivated)
        } else if reason == HV_EXIT_REASON_CANCELED {
            ExitReason::Exit(VcpuExit::Canceled)
        } else {
            ExitReason::Unexpected
        }
    }

    /// Whether a guest may cause exceptions of this kind.
    pub fn is_known_exception(syndrome: u64) -> (r: bool)
        ensures
            r == exception_known(exception_class(syndrome)),
    {
        let class: u64 = syndrome / 0x400_0000 % 0x40;
        class == EC_WFX_TRAP || class == EC_AA64_HVC || class == EC_AA64_SMC || class
            == EC_SYSTEMREGISTERTRAP || class == EC_DATAABORT || class == EC_AA64_BKPT
    }

    /// Takes an exception in: what is left to do about it, and what the next run starts with.
    pub fn handle_exception(&mut self, syndrome: u64, pa: u64) -> (r: ExitStep)
        requires
            old(self).wf(),
            exception_known(exception_class(syndrome)),
        ensures
            final(self).wf(),
            final(self).same_vcpu(*old(self)),
            r == exception_step(syndrome, pa),
            final(self).buffer() == old(self).buffer(),
            final(self).spec_masked() == old(self).spec_masked(),
            final(self).spec_advance() == (old(self).spec_advance() || advances(
                exception_class(syndrome),
            )),
            final(self).spec_pending_read() == if exception_class(syndrome) == EC_DATAABORT
                && !access_writes(syndrome) {
                Some(
                    MmioRead {
                        addr: pa,
                        len: access_len(syndrome) as usize,
                        srt: access_register(syndrome),
                    },
                )
            } else {
                old(self).spec_pending_read()
            },
    {
        let class: u64 = syndrome / 0x400_0000 % 0x40;
        if class == EC_AA64_BKPT {
            return ExitStep::Exit(VcpuExit::Breakpoint);
        }
        if class == EC_DATAABORT {
            let size: u64 = syndrome / 0x40_0000 % 4;
            let len: usize = if size == 0 {
                1
            } else if size == 1 {
                2
            } else if size == 2 {
                4
            } else {
                8
            };
            let srt: u32 = (syndrome / 0x1_0000 % 0x20) as u32;
            self.pending_advance_pc = true;
            if syndrome / 0x40 % 2 == 1 {
                return ExitStep::MmioWrite { addr: pa, len, srt };
            }
            self.pending_mmio_read = Some(MmioRead { addr: pa, len, srt });
            return ExitStep::Exit(VcpuExit::MmioRead { addr: pa, len });
        }
        if class == EC_SYSTEMREGISTERTRAP {
            let rt: u32 = (syndrome / 0x20 % 0x20) as u32;
            let reg: u32 = (syndrome % 0x1_0000_0000) as u32 & SYSREG_MASK;
            let named: Option<u32> = if rt == 31 {
                None
            } else {
                Some(rt)
            };
            self.pending_advance_pc = true;
            if syndrome % 2 == 1 {
                if rt == 31 {
                    return ExitStep::Exit(VcpuExit::SystemRegister);
                }
                return ExitStep::SysregRead { reg, rt: named };
            }
            return ExitStep::SysregWrite { reg, rt: named };
        }
        if class == EC_WFX_TRAP {
            self.pending_advance_pc = true;
            return ExitStep::Wait;
        }
        if class == EC_AA64_SMC {
            self.pending_advance_pc = true;
        }
        ExitStep::Psci
    }

    /// Keeps the bytes that the guest writes. The register that has no number is zero.
    pub fn mmio_write(&mut self, addr: u64, len: usize, value: Option<u64>) -> (r: VcpuExit)
        requires
            old(self).wf(),
            access_size(len as int),
        ensures
            final(self).wf(),
            final(self).same_vcpu(*old(self)),
            r == (VcpuExit::MmioWrite { addr, len }),
            final(self).buffer() == buffer_with(
                old(self).buffer(),
                len as int,
                match value {
                    Some(value) => value,
                    None => 0,
                },
            ),
            final(self).spec_pending_read() == old(self).spec_pending_read(),
            final(self).spec_advance() == old(self).spec_advance(),
            final(self).spec_masked() == old(self).spec_masked(),
    {
        let val: u64 = match value {
            Some(value) => value,
            None => 0,
        };
        let mut bytes: Vec<u8> = vec![0u8; 8];
        assert(bytes@ =~= Seq::new(8, |i: int| 0u8));
        put_le_u64(bytes.as_mut_slice(), 0, val);
        let ghost full = bytes@;
        let ghost before = self.mmio_buf@;
        let mut i: usize = 0;
        while i < len
            invariant
                i <= len <= 8,
                bytes@ == full,
                full.len() == 8,
                before.len() == 8,
                self.mmio_buf@.len() == 8,
                self.same_vcpu(*old(self)),
                self.pending_mmio_read == old(self).pending_mmio_read,
                self.pending_advance_pc == old(self).pending_advance_pc,
                self.vtimer_masked == old(self).vtimer_masked,
                forall|j: int| 0 <= j < i ==> #[trigger] self.mmio_buf@[j] == full[j],
                forall|j: int| i <= j < 8 ==> #[trigger] self.mmio_buf@[j] == before[j],
            decreases len - i,
        {
            self.mmio_buf.set(i, bytes[i]);
            i = i + 1;
        }
        assert(self.mmio_buf@ =~= buffer_with(before, len as int, val));
        VcpuExit::MmioWrite { addr, len }
    }

    /// The bytes that the guest wrote.
    pub fn mmio_bytes(&self) -> (r: &[u8])
        ensures
            r@ == self.buffer(),
    {
        self.mmio_buf.as_slice()
    }

    /// Answers a read of the guest.
    pub fn set_mmio_byte(&mut self, index: usize, byte: u8)
        requires
            old(self).wf(),
            index < 8,
        ensures
            final(self).wf(),
            final(self).same_vcpu(*old(self)),
            final(self).buffer() == old(self).buffer().update(index as int, byte),
            final(self).spec_pending_read() == old(self).spec_pending_read(),
            final(self).spec_advance() == old(self).spec_advance(),
            final(self).spec_masked() == old(self).spec_masked(),
    {
        self.mmio_buf.set(index, byte);
    }

    /// How long the guest waits: for any event where its timer is off or masked, not at all where
    /// it has fired, and else until it fires.
    pub fn wait_for_event(&self, ctl: u64, cval: u64, now: u64) -> (r: VcpuExit)
        requires
            ctl % 2 == 1 && ctl / 2 % 2 == 0 && now <= cval ==> self.spec_cntfrq() != 0 && (cval
                - now) * (1_000_000_000int / self.spec_cntfrq() as int) <= u64::MAX,
        ensures
            r == if ctl % 2 == 0 || ctl / 2 % 2 == 1 {
                VcpuExit::WaitForEvent
            } else if now > cval {
                VcpuExit::WaitForEventExpired
            } else {
                VcpuExit::WaitForEventTimeout(
                    ((cval - now) * (1_000_000_000int / self.spec_cntfrq() as int)) as u64,
                )
            },
    {
        if ctl % 2 == 0 || ctl / 2 % 2 == 1 {
            return VcpuExit::WaitForEvent;
        }
        if now > cval {
            return VcpuExit::WaitForEventExpired;
        }
        VcpuExit::WaitForEventTimeout((cval - now) * (1_000_000_000 / self.cntfrq))
    }

    /// As many values as the registers of the virtual CPU.
    pub open spec fn complete(self, values: CapturedValues) -> bool {
        &&& values.general@.len() == GENERAL_REGISTER_COUNT
        &&& values.simd@.len() == SIMD_REGISTER_COUNT
        &&& values.system@.len() == system_registers(self.spec_nested()).len()
        &&& values.icc@.len() == gic_icc_registers(self.spec_nested()).len()
        &&& values.ich@.len() == gic_ich_registers(self.spec_nested()).len()
    }

    /// The state that the values make up.
    pub open spec fn captured(self, values: CapturedValues, state: HvfVcpuState) -> bool {
        &&& state.general@ == numbered(values.general@)
        &&& state.simd@ == numbered(values.simd@)
        &&& state.system@ == paired(system_registers(self.spec_nested()), values.system@)
        &&& state.icc@ == paired(gic_icc_registers(self.spec_nested()), values.icc@)
        &&& state.ich@ == paired(gic_ich_registers(self.spec_nested()), values.ich@)
        &&& state.pending_irq == values.pending_irq
        &&& state.pending_fiq == values.pending_fiq
        &&& state.vtimer_mask == values.vtimer_mask
        &&& state.vtimer_offset == values.vtimer_offset
        &&& state.pending_advance_pc == self.spec_advance()
        &&& state.nested_enabled == self.spec_nested()
    }

    /// Saves the virtual CPU from what its registers read as. One that waits for a read to end
    /// cannot be saved, since the read would be lost.
    pub fn capture_state(&self, values: &CapturedValues) -> (r: Result<HvfVcpuState, Error>)
        requires
            self.complete(*values),
        ensures
            r is Err <==> self.spec_pending_read() is Some,
            r is Err ==> r == Err::<HvfVcpuState, Error>(Error::VcpuStatePendingMmio),
            r matches Ok(state) ==> self.captured(*values, state) && state.topology(
                self.spec_nested(),
            ),
    {
        if self.pending_mmio_read.is_some() {
            return Err(Error::VcpuStatePendingMmio);
        }
        let system: Vec<u16> = state_system_registers(self.nested_enabled);
        let icc: Vec<u16> = state_icc_registers(self.nested_enabled);
        let ich: Vec<u16> = state_ich_registers(self.nested_enabled);
        Ok(
            HvfVcpuState {
                general: number_values(values.general.as_slice()),
                simd: number_values(values.simd.as_slice()),
                system: pair_values(system.as_slice(), values.system.as_slice()),
                icc: pair_values(icc.as_slice(), values.icc.as_slice()),
                ich: pair_values(ich.as_slice(), values.ich.as_slice()),
                pending_irq: values.pending_irq,
                pending_fiq: values.pending_fiq,
                vtimer_mask: values.vtimer_mask,
                vtimer_offset: values.vtimer_offset,
                pending_advance_pc: self.pending_advance_pc,
                nested_enabled: self.nested_enabled,
            },
        )
    }

    /// The writes that restore a state. A state with other registers is refused.
    pub fn restore_state(&self, state: &HvfVcpuState) -> (r: Result<Vec<StateWrite>, Error>)
        ensures
            r is Ok <==> state.topology(self.spec_nested()),
            r is Err ==> r == Err::<Vec<StateWrite>, Error>(Error::VcpuStateTopology),
            r matches Ok(writes) ==> writes@ == restore_writes(*state),
    {
        if !state.has_register_topology(self.nested_enabled) {
            return Err(Error::VcpuStateTopology);
        }
        let mut writes: Vec<StateWrite> = Vec::new();
        let mut i: usize = 0;
        while i < state.general.len()
            invariant
                i <= state.general@.len(),
                writes@ == state.general@.take(i as int).map_values(
                    |p: (u32, u64)| StateWrite::General { reg: p.0, value: p.1 },
                ),
            decreases state.general@.len() - i,
        {
            writes.push(
                StateWrite::General { reg: state.general[i].0, value: state.general[i].1 },
            );
            i = i + 1;
            assert(writes@ =~= state.general@.take(i as int).map_values(
                |p: (u32, u64)| StateWrite::General { reg: p.0, value: p.1 },
            ));
        }
        assert(state.general@.take(i as int) =~= state.general@);
        let ghost before = writes@;
        let mut i: usize = 0;
        assert(writes@ =~= before + state.simd@.take(0).map_values(
            |p: (u32, u128)| StateWrite::Simd { reg: p.0, value: p.1 },
        ));
        while i < state.simd.len()
            invariant
                i <= state.simd@.len(),
                writes@ == before + state.simd@.take(i as int).map_values(
                    |p: (u32, u128)| StateWrite::Simd { reg: p.0, value: p.1 },
                ),
            decreases state.simd@.len() - i,
        {
            writes.push(StateWrite::Simd { reg: state.simd[i].0, value: state.simd[i].1 });
            i = i + 1;
            assert(writes@ =~= before + state.simd@.take(i as int).map_values(
                |p: (u32, u128)| StateWrite::Simd { reg: p.0, value: p.1 },
            ));
        }
        assert(state.simd@.take(i as int) =~= state.simd@);
        let ghost before = writes@;
        let mut i: usize = 0;
        assert(writes@ =~= before + state.system@.take(0).map_values(
            |p: (u16, u64)| StateWrite::System { reg: p.0, value: p.1 },
        ));
        while i < state.system.len()
            invariant
                i <= state.system@.len(),
                writes@ == before + state.system@.take(i as int).map_values(
                    |p: (u16, u64)| StateWrite::System { reg: p.0, value: p.1 },
                ),
            decreases state.system@.len() - i,
        {
            writes.push(StateWrite::System { reg: state.system[i].0, value: state.system[i].1 });
            i = i + 1;
            assert(writes@ =~= before + state.system@.take(i as int).map_values(
                |p: (u16, u64)| StateWrite::System { reg: p.0, value: p.1 },
            ));
        }
        assert(state.system@.take(i as int) =~= state.system@);
        let ghost before = writes@;
        let mut i: usize = 0;
        assert(writes@ =~= before + state.icc@.take(0).map_values(
            |p: (u16, u64)| StateWrite::Icc { reg: p.0, value: p.1 },
        ));
        while i < state.icc.len()
            invariant
                i <= state.icc@.len(),
                writes@ == before + state.icc@.take(i as int).map_values(
                    |p: (u16, u64)| StateWrite::Icc { reg: p.0, value: p.1 },
                ),
            decreases state.icc@.len() - i,
        {
            writes.push(StateWrite::Icc { reg: state.icc[i].0, value: state.icc[i].1 });
            i = i + 1;
            assert(writes@ =~= before + state.icc@.take(i as int).map_values(
                |p: (u16, u64)| StateWrite::Icc { reg: p.0, value: p.1 },
            ));
        }
        assert(state.icc@.take(i as int) =~= state.icc@);
        let ghost before = writes@;
        let mut i: usize = 0;
        assert(writes@ =~= before + state.ich@.take(0).map_values(
            |p: (u16, u64)| StateWrite::Ich { reg: p.0, value: p.1 },
        ));
        while i < state.ich.len()
            invariant
                i <= state.ich@.len(),
                writes@ == before + state.ich@.take(i as int).map_values(
                    |p: (u16, u64)| StateWrite::Ich { reg: p.0, value: p.1 },
                ),
            decreases state.ich@.len() - i,
        {
            writes.push(StateWrite::Ich { reg: state.ich[i].0, value: state.ich[i].1 });
            i = i + 1;
            assert(writes@ =~= before + state.ich@.take(i as int).map_values(
                |p: (u16, u64)| StateWrite::Ich { reg: p.0, value: p.1 },
            ));
        }
        assert(state.ich@.take(i as int) =~= state.ich@);
        writes.push(StateWrite::VtimerOffset { value: state.vtimer_offset });
        writes.push(
            StateWrite::Pending { line: InterruptType::Irq, pending: state.pending_irq },
        );
        writes.push(
            StateWrite::Pending { line: InterruptType::Fiq, pending: state.pending_fiq },
        );
        writes.push(StateWrite::VtimerMask { masked: state.vtimer_mask });
        assert(writes@ =~= restore_writes(*state));
        Ok(writes)
    }

    /// All writes of a restored state were made.
    pub fn restored(&mut self, state: &HvfVcpuState)
        requires
            old(self).wf(),
        ensures
            final(self).wf(),
            final(self).same_vcpu(*old(self)),
            final(self).spec_pending_read() is None,
            final(self).spec_advance() == state.pending_advance_pc,
            final(self).spec_masked() == state.vtimer_mask,
            final(self).buffer() == old(self).buffer(),
    {
        self.pending_mmio_read = None;
        self.pending_advance_pc = state.pending_advance_pc;
        self.vtimer_masked = state.vtimer_mask;
    }
}

/// A state that was saved can be restored on a virtual CPU of the same kind, and each value goes
/// back to the register that it was read from.
pub proof fn saved_state_is_restorable(vcpu: HvfVcpu, values: CapturedValues, state: HvfVcpuState)
    requires
        vcpu.complete(values),
        vcpu.captured(values, state),
    ensures
        state.topology(vcpu.spec_nested()),
        forall|i: int|
            0 <= i < values.general@.len() ==> restore_writes(state).contains(
                StateWrite::General { reg: i as u32, value: #[trigger] values.general@[i] },
            ),
        forall|i: int|
            0 <= i < values.simd@.len() ==> restore_writes(state).contains(
                StateWrite::Simd { reg: i as u32, value: #[trigger] values.simd@[i] },
            ),
        forall|i: int|
            0 <= i < values.system@.len() ==> restore_writes(state).contains(
                StateWrite::System {
                    reg: system_registers(vcpu.spec_nested())[i],
                    value: #[trigger] values.system@[i],
                },
            ),
        forall|i: int|
            0 <= i < values.icc@.len() ==> restore_writes(state).contains(
                StateWrite::Icc {
                    reg: gic_icc_registers(vcpu.spec_nested())[i],
                    value: #[trigger] values.icc@[i],
                },
            ),
        forall|i: int|
            0 <= i < values.ich@.len() ==> restore_writes(state).contains(
                StateWrite::Ich {
                    reg: gic_ich_registers(vcpu.spec_nested())[i],
                    value: #[trigger] values.ich@[i],
                },
            ),
        restore_writes(state).contains(StateWrite::VtimerOffset { value: values.vtimer_offset }),
        restore_writes(state).contains(
            StateWrite::Pending { line: InterruptType::Irq, pending: values.pending_irq },
        ),
        restore_writes(state).contains(
            StateWrite::Pending { line: InterruptType::Fiq, pending: values.pending_fiq },
        ),
        restore_writes(state).contains(StateWrite::VtimerMask { masked: values.vtimer_mask }),
{
    let writes = restore_writes(state);
    let nested = vcpu.spec_nested();
    let simd = state.general@.len() as int;
    let system = simd + state.simd@.len();
    let icc = system + state.system@.len();
    let ich = icc + state.icc@.len();
    let rest = ich + state.ich@.len();
    assert forall|i: int| 0 <= i < values.general@.len() implies writes.contains(
        StateWrite::General { reg: i as u32, value: #[trigger] values.general@[i] },
    ) by {
        assert(writes[i] == (StateWrite::General { reg: i as u32, value: values.general@[i] }));
    }
    assert forall|i: int| 0 <= i < values.simd@.len() implies writes.contains(
        StateWrite::Simd { reg: i as u32, value: #[trigger] values.simd@[i] },
    ) by {
        assert(writes[simd + i] == (StateWrite::Simd { reg: i as u32, value: values.simd@[i] }));
    }
    assert forall|i: int| 0 <= i < values.system@.len() implies writes.contains(
        StateWrite::System { reg: system_registers(nested)[i], value: #[trigger] values.system@[i] },
    ) by {
        assert(writes[system + i] == (StateWrite::System {
            reg: system_registers(nested)[i],
            value: values.system@[i],
        }));
    }
    assert forall|i: int| 0 <= i < values.icc@.len() implies writes.contains(
        StateWrite::Icc { reg: gic_icc_registers(nested)[i], value: #[trigger] values.icc@[i] },
    ) by {
        assert(writes[icc + i] == (StateWrite::Icc {
            reg: gic_icc_registers(nested)[i],
            value: values.icc@[i],
        }));
    }
    assert forall|i: int| 0 <= i < values.ich@.len() implies writes.contains(
        StateWrite::Ich { reg: gic_ich_registers(nested)[i], value: #[trigger] values.ich@[i] },
    ) by {
        assert(writes[ich + i] == (StateWrite::Ich {
            reg: gic_ich_registers(nested)[i],
            value: values.ich@[i],
        }));
    }
    assert(writes[rest] == (StateWrite::VtimerOffset { value: values.vtimer_offset }));
    assert(writes[rest + 1] == (StateWrite::Pending {
        line: InterruptType::Irq,
        pending: values.pending_irq,
    }));
    assert(writes[rest + 2] == (StateWrite::Pending {
        line: InterruptType::Fiq,
        pending: values.pending_fiq,
    }));
    assert(writes[rest + 3] == (StateWrite::VtimerMask { masked: values.vtimer_mask }));
}

/// The low part of a value that an access of so many bytes carries.
pub open spec fn low_part(value: u64, len: int) -> int {
    if len == 1 {
        value as int % 0x100
    } else if len == 2 {
        value as int % 0x1_0000
    } else if len == 4 {
        value as int % 0x1_0000_0000
    } else {
        value as int
    }
}

proof fn lemma_low_part(v: int, low: int, high: int, m: int)
    requires
        v == low + m * high,
        0 <= low < m,
        high >= 0,
    ensures
        v % m == low,
{
    assert(v == high * m + low) by (nonlinear_arith)
        requires
            v == low + m * high,
    ;
    vstd::arithmetic::div_mod::lemma_fundamental_div_mod_converse(v, m, high, low);
}

/// A value that the guest writes reads back from the buffer, cut to the size of the access.
pub proof fn written_value_reads_back(buf: Seq<u8>, len: int, value: u64)
    requires
        buf.len() == 8,
        access_size(len),
    ensures
        buffer_value(buffer_with(buf, len, value), len) == low_part(value, len),
{
    let zero = Seq::new(8, |i: int| 0u8);
    let full = with_le_u64(zero, 0, value as int);
    crate::bytes::le_u64_read_after_write(zero, 0, value as int);
    lemma_prefix_kept(full, buf, len);
    lemma_low_parts(full);
}

proof fn lemma_prefix_kept(full: Seq<u8>, buf: Seq<u8>, len: int)
    requires
        full.len() == 8,
        buf.len() == 8,
        access_size(len),
    ensures
        buffer_value(full.take(len) + buf.skip(len), len) == buffer_value(full, len),
{
    let with = full.take(len) + buf.skip(len);
    assert forall|i: int| 0 <= i < len implies #[trigger] with[i] == full[i] by {}
}

proof fn lemma_low_parts(full: Seq<u8>)
    requires
        full.len() == 8,
    ensures
        le_u64(full, 0) % 0x100 == full[0],
        le_u64(full, 0) % 0x1_0000 == le_u16(full, 0),
        le_u64(full, 0) % 0x1_0000_0000 == le_u32(full, 0),
{
    let v = le_u64(full, 0);
    let w1 = le_u16(full, 2);
    let w23 = le_u32(full, 4);
    assert(0 <= w23);
    lemma_low_part(v, le_u32(full, 0), w23, 0x1_0000_0000);
    lemma_low_part(v, le_u16(full, 0), w1 + 0x1_0000 * w23, 0x1_0000);
    lemma_low_part(
        v,
        full[0] as int,
        full[1] + 0x100 * (w1 + 0x1_0000 * w23),
        0x100,
    );
}

/// The syndrome of a data abort: the fields of an access at their places, and what else the
/// hardware puts between and above them.
pub open spec fn data_abort(
    above: int,
    valid: int,
    size: int,
    sign: int,
    register: int,
    middle: int,
    write: int,
    low: int,
) -> int {
    above * 0x1_0000_0000 + 0x24 * 0x400_0000 + valid * 0x100_0000 + size * 0x40_0000 + sign
        * 0x20_0000 + register * 0x1_0000 + middle * 0x80 + write * 0x40 + low
}

/// A store to memory that is not there is handed on with its address, the length that its size
/// field is the logarithm of, and the register that its register field names; a load keeps the same
/// for when the device has answered. Both are skipped when the virtual CPU runs on.
pub proof fn data_abort_names_its_access(
    vcpu: &mut HvfVcpu,
    syndrome: u64,
    pa: u64,
    r: ExitStep,
    above: int,
    valid: int,
    size: int,
    sign: int,
    register: int,
    middle: int,
    write: int,
    low: int,
)
    requires
        call_ensures(HvfVcpu::handle_exception, (vcpu, syndrome, pa), r),
        syndrome == data_abort(above, valid, size, sign, register, middle, write, low),
        above >= 0,
        0 <= valid < 4,
        0 <= size < 4,
        0 <= sign < 2,
        0 <= register < 32,
        0 <= middle < 0x200,
        0 <= write < 2,
        0 <= low < 0x40,
    ensures
        size == 0 ==> access_named(*old(vcpu), *final(vcpu), r, pa, 1, register, write == 1),
        size == 1 ==> access_named(*old(vcpu), *final(vcpu), r, pa, 2, register, write == 1),
        size == 2 ==> access_named(*old(vcpu), *final(vcpu), r, pa, 4, register, write == 1),
        size == 3 ==> access_named(*old(vcpu), *final(vcpu), r, pa, 8, register, write == 1),
        final(vcpu).spec_advance(),
        final(vcpu).buffer() == old(vcpu).buffer(),
        final(vcpu).spec_masked() == old(vcpu).spec_masked(),
{
    let s = syndrome as int;
    let high = above * 64 + 0x24;
    assert(s / 0x400_0000 == high) by (nonlinear_arith)
        requires
            s == above * 0x1_0000_0000 + 0x24 * 0x400_0000 + valid * 0x100_0000 + size * 0x40_0000
                + sign * 0x20_0000 + register * 0x1_0000 + middle * 0x80 + write * 0x40 + low,
            high == above * 64 + 0x24,
            0 <= valid < 4,
            0 <= size < 4,
            0 <= sign < 2,
            0 <= register < 32,
            0 <= middle < 0x200,
            0 <= write < 2,
            0 <= low < 0x40,
    ;
    assert(high % 0x40 == 0x24);
    assert(s / 0x40_0000 == high * 16 + valid * 4 + size);
    assert(s / 0x1_0000 == (high * 16 + valid * 4 + size) * 64 + sign * 32 + register);
    assert(s / 0x40 == ((high * 16 + valid * 4 + size) * 64 + sign * 32 + register) * 1024 + middle
        * 2 + write);
    assert((s / 0x40_0000) % 4 == size);
    assert((s / 0x1_0000) % 0x20 == register);
    assert((s / 0x40) % 2 == write);
}

/// An access of `len` bytes at `pa` and a register was told apart as a store or a load.
pub open spec fn access_named(
    before: HvfVcpu,
    after: HvfVcpu,
    r: ExitStep,
    pa: u64,
    len: usize,
    register: int,
    write: bool,
) -> bool {
    if write {
        &&& r is MmioWrite
        &&& r->MmioWrite_addr == pa
        &&& r->MmioWrite_len == len
        &&& r->srt == register
        &&& after.spec_pending_read() == before.spec_pending_read()
    } else {
        &&& r is Exit
        &&& r->Exit_0 is MmioRead
        &&& r->Exit_0->MmioRead_addr == pa
        &&& r->Exit_0->MmioRead_len == len
        &&& after.spec_pending_read() is Some
        &&& after.spec_pending_read()->Some_0.addr == pa
        &&& after.spec_pending_read()->Some_0.len == len
        &&& after.spec_pending_read()->Some_0.srt == register
    }
}

/// A trapped access to a system register names the register by its fields, moves the value in the
/// direction that bit zero tells, and to or from the general register that stands in bits five to
/// nine; the last of those numbers stands for zero.
pub proof fn sysreg_trap_names_its_registers(
    vcpu: &mut HvfVcpu,
    syndrome: u64,
    pa: u64,
    r: ExitStep,
    above: int,
    unused: u32,
    op: u32,
    rt: u32,
    crm: u32,
    read: u32,
)
    requires
        call_ensures(HvfVcpu::handle_exception, (vcpu, syndrome, pa), r),
        syndrome == above * 0x1_0000_0000 + 0x18 * 0x400_0000 + unused * 0x40_0000 + op * 0x400 + rt
            * 0x20 + crm * 2 + read,
        above >= 0,
        unused < 16,
        op < 0x1000,
        rt < 32,
        crm < 16,
        read < 2,
    ensures
        read == 1 && rt < 31 ==> r == (ExitStep::SysregRead {
            reg: (op * 0x400 + crm * 2) as u32,
            rt: Some(rt),
        }),
        read == 1 && rt == 31 ==> r == ExitStep::Exit(VcpuExit::SystemRegister),
        read == 0 && rt < 31 ==> r == (ExitStep::SysregWrite {
            reg: (op * 0x400 + crm * 2) as u32,
            rt: Some(rt),
        }),
        read == 0 && rt == 31 ==> r == (ExitStep::SysregWrite {
            reg: (op * 0x400 + crm * 2) as u32,
            rt: None,
        }),
        final(vcpu).spec_advance(),
        final(vcpu).spec_pending_read() == old(vcpu).spec_pending_read(),
{
    lemma_sysreg_fields(syndrome as int, above, unused, op, rt, crm, read);
}

proof fn lemma_sysreg_fields(
    s: int,
    above: int,
    unused: u32,
    op: u32,
    rt: u32,
    crm: u32,
    read: u32,
)
    requires
        s == above * 0x1_0000_0000 + 0x18 * 0x400_0000 + unused * 0x40_0000 + op * 0x400 + rt * 0x20
            + crm * 2 + read,
        above >= 0,
        unused < 16,
        op < 0x1000,
        rt < 32,
        crm < 16,
        read < 2,
    ensures
        s / 0x400_0000 % 0x40 == 0x18,
        s / 0x20 % 0x20 == rt,
        s % 2 == read,
        (s % 0x1_0000_0000) as u32 & 0x003f_fc1eu32 == op * 0x400 + crm * 2,
{
    let rest = unused * 0x40_0000 + op * 0x400 + rt * 0x20 + crm * 2 + read;
    let low: u32 = (0x6000_0000 + rest) as u32;
    assert(0 <= rest < 0x400_0000);
    assert(s == above * 0x1_0000_0000 + low);
    assert(s % 0x1_0000_0000 == low);
    assert(s / 0x400_0000 == above * 64 + 0x18);
    assert((above * 64 + 0x18) % 0x40 == 0x18);
    let higher = above * 0x40_0000 + 0x18 * 0x1_0000 + unused * 0x1000 + op;
    assert(s == higher * 0x400 + rt * 0x20 + crm * 2 + read);
    assert(s / 0x20 == higher * 32 + rt);
    assert((higher * 32 + rt) % 0x20 == rt);
    assert(s == 2 * (higher * 0x200 + rt * 0x10 + crm) + read);
    assert(low & 0x003f_fc1eu32 == op * 0x400u32 + crm * 2u32) by (bit_vector)
        requires
            low == 0x6000_0000u32 + unused * 0x40_0000u32 + op * 0x400u32 + rt * 0x20u32 + crm * 2u32
                + read,
            unused < 16,
            op < 0x1000,
            rt < 32,
            crm < 16,
            read < 2,
    ;
}

/// Exceptions that are no accesses: waiting and calls of the monitor are skipped when the virtual
/// CPU runs on, calls of the hypervisor and breakpoints are not. None of them touches a load that
/// waits.
pub proof fn other_exceptions_are_told_apart(
    vcpu: &mut HvfVcpu,
    syndrome: u64,
    pa: u64,
    r: ExitStep,
    above: int,
    class: int,
    low: int,
)
    requires
        call_ensures(HvfVcpu::handle_exception, (vcpu, syndrome, pa), r),
        syndrome == above * 0x1_0000_0000 + class * 0x400_0000 + low,
        above >= 0,
        0 <= class < 64,
        0 <= low < 0x400_0000,
    ensures
        class == 0x01 ==> r == ExitStep::Wait && final(vcpu).spec_advance(),
        class == 0x16 ==> r == ExitStep::Psci
            && final(vcpu).spec_advance() == old(vcpu).spec_advance(),
        class == 0x17 ==> r == ExitStep::Psci && final(vcpu).spec_advance(),
        class == 0x3c ==> r == ExitStep::Exit(VcpuExit::Breakpoint) && final(vcpu).spec_advance()
            == old(vcpu).spec_advance(),
        class != 0x24 ==> final(vcpu).spec_pending_read() == old(vcpu).spec_pending_read(),
{
    let s = syndrome as int;
    assert(s / 0x400_0000 == above * 64 + class);
    assert((above * 64 + class) % 0x40 == class);
}

/// The exceptions that a guest may cause are the six classes that are handled.
pub proof fn known_exceptions_are_the_handled_ones(syndrome: u64, r: bool)
    requires
        call_ensures(HvfVcpu::is_known_exception, (syndrome,), r),
    ensures
        r <==> exists|above: int, class: int, low: int| #[trigger]
            is_syndrome(syndrome, above, class, low) && (class == 0x01 || class == 0x16 || class
                == 0x17 || class == 0x18 || class == 0x24 || class == 0x3c),
{
    let s = syndrome as int;
    let above = s / 0x1_0000_0000;
    let class = s / 0x400_0000 % 0x40;
    let low = s % 0x400_0000;
    assert(s / 0x400_0000 / 0x40 == above);
    assert(is_syndrome(syndrome, above, class, low));
    assert forall|a: int, c: int, l: int| is_syndrome(syndrome, a, c, l) implies c == class by {
        assert(s / 0x400_0000 == a * 64 + c);
    }
}

/// A syndrome of a class of exceptions.
pub open spec fn is_syndrome(syndrome: u64, above: int, class: int, low: int) -> bool {
    &&& syndrome == above * 0x1_0000_0000 + class * 0x400_0000 + low
    &&& 0 <= class < 64
    &&& 0 <= low < 0x400_0000
}

/// The bytes at the start of a buffer as a little-endian number.
pub open spec fn little_endian(b: Seq<u8>, len: int) -> int {
    b[0] + (if len > 1 {
        256 * b[1]
    } else {
        0
    }) + (if len > 2 {
        65536 * b[2] + 16777216 * b[3]
    } else {
        0
    }) + (if len > 4 {
        4294967296 * b[4] + 1099511627776 * b[5] + 281474976710656 * b[6] + 72057594037927936 * b[7]
    } else {
        0
    })
}

/// What a load waits for goes, once the device has answered, as a little-endian number to the
/// register that the load named, and the program counter moves behind the load.
pub proof fn load_ends_in_its_register(
    vcpu: &mut HvfVcpu,
    pc: u64,
    pending_irq: bool,
    writes: Vec<EntryWrite>,
    read: MmioRead,
)
    requires
        vcpu.wf(),
        vcpu.spec_pending_read() == Some(read),
        vcpu.spec_advance(),
        pc <= u64::MAX - 4,
        call_ensures(HvfVcpu::begin_run, (vcpu, pc, pending_irq), writes),
    ensures
        ({
            let k = if read.srt < 31 {
                1int
            } else {
                0
            };
            &&& writes@.len() == k + 1 + if pending_irq {
                1int
            } else {
                0
            }
            &&& read.srt < 31 ==> writes@[0] is General && writes@[0]->reg == read.srt
                && writes@[0]->General_value == little_endian(old(vcpu).buffer(), read.len as int)
            &&& writes@[k] is ProgramCounter && writes@[k]->ProgramCounter_value == pc + 4
            &&& pending_irq ==> writes@[k + 1] is PendingIrq
        }),
        final(vcpu).spec_pending_read() is None,
{
    let b = old(vcpu).buffer();
    assert(le_u16(b, 0) == b[0] + 256 * b[1]);
    assert(le_u32(b, 0) == little_endian(b, 4));
    assert(le_u64(b, 0) == little_endian(b, 8));
}

/// A virtual CPU that neither waits for a load nor has to move on starts with nothing but the
/// interrupt that waits, if one does.
pub proof fn run_starts_with_nothing_else(
    vcpu: &mut HvfVcpu,
    pc: u64,
    pending_irq: bool,
    writes: Vec<EntryWrite>,
)
    requires
        vcpu.spec_pending_read() is None,
        !vcpu.spec_advance(),
        call_ensures(HvfVcpu::begin_run, (vcpu, pc, pending_irq), writes),
    ensures
        !pending_irq ==> writes@.len() == 0,
        pending_irq ==> writes@.len() == 1 && writes@[0] is PendingIrq,
{
}

/// The bytes that a store hands to the device are the low ones of the register, as a little-endian
/// number; the last register number stores zero. No byte behind them changes.
pub proof fn store_hands_on_the_low_bytes(
    vcpu: &mut HvfVcpu,
    addr: u64,
    len: usize,
    value: Option<u64>,
    r: VcpuExit,
)
    requires
        vcpu.wf(),
        len == 1 || len == 2 || len == 4 || len == 8,
        call_ensures(HvfVcpu::mmio_write, (vcpu, addr, len, value), r),
    ensures
        r == (VcpuExit::MmioWrite { addr, len }),
        ({
            let v = match value {
                Some(v) => v as int,
                None => 0,
            };
            let b = final(vcpu).buffer();
            &&& b.len() == 8
            &&& len == 1 ==> little_endian(b, 1) == v % 256
            &&& len == 2 ==> little_endian(b, 2) == v % 65536
            &&& len == 4 ==> little_endian(b, 4) == v % 4294967296
            &&& len == 8 ==> little_endian(b, 8) == v
            &&& forall|k: int| len <= k < 8 ==> #[trigger] b[k] == old(vcpu).buffer()[k]
        }),
{
    let v: u64 = match value {
        Some(v) => v,
        None => 0,
    };
    let zero = Seq::new(8, |i: int| 0u8);
    crate::bytes::le_u64_read_after_write(zero, 0, v as int);
    let full = with_le_u64(zero, 0, v as int);
    let b = final(vcpu).buffer();
    assert(b == full.take(len as int) + old(vcpu).buffer().skip(len as int));
    lemma_low_bytes(full, v as int);
    assert(b[0] == full[0]);
    assert(len > 1 ==> b[1] == full[1]);
    assert(len > 2 ==> b[2] == full[2] && b[3] == full[3]);
    assert(len == 8 ==> b =~= full);
}

proof fn lemma_low_bytes(b: Seq<u8>, v: int)
    requires
        b.len() == 8,
        le_u64(b, 0) == v,
    ensures
        little_endian(b, 1) == v % 256,
        little_endian(b, 2) == v % 65536,
        little_endian(b, 4) == v % 4294967296,
        little_endian(b, 8) == v,
{
    let low = b[0] + 256 * b[1];
    let half = low + 65536 * b[2] + 16777216 * b[3];
    let rest = b[4] + 256 * b[5] + 65536 * b[6] + 16777216 * b[7];
    assert(v == half + 4294967296 * rest);
    assert(v % 4294967296 == half);
    assert(v == low + 65536 * (b[2] + 256 * b[3] + 65536 * rest));
    assert(v % 65536 == low);
    assert(v == b[0] + 256 * (b[1] + 256 * (b[2] + 256 * b[3] + 65536 * rest)));
    assert(v % 256 == b[0]);
}

/// While the timer is masked every look at it raises the interrupt of this virtual CPU. It is
/// unmasked unless it is still enabled, not masked by the guest, and fired.
pub proof fn timer_stays_masked_while_its_line_is_high(
    vcpu: &mut HvfVcpu,
    ctl: u64,
    r: VtimerSync,
    rest: int,
    fired: int,
    imask: int,
    enabled: int,
)
    requires
        call_ensures(HvfVcpu::hvf_sync_vtimer, (vcpu, ctl), r),
        ctl == rest * 8 + fired * 4 + imask * 2 + enabled,
        0 <= fired < 2,
        0 <= imask < 2,
        0 <= enabled < 2,
    ensures
        !old(vcpu).spec_masked() ==> r.raise_for is None && !r.unmask && !final(vcpu).spec_masked(),
        old(vcpu).spec_masked() ==> r.raise_for == Some(old(vcpu).spec_id()),
        old(vcpu).spec_masked() && enabled == 1 && imask == 0 && fired == 1 ==> !r.unmask
            && final(vcpu).spec_masked(),
        old(vcpu).spec_masked() && !(enabled == 1 && imask == 0 && fired == 1) ==> r.unmask
            && !final(vcpu).spec_masked(),
{
    assert(ctl as int % 8 == fired * 4 + imask * 2 + enabled);
}

/// A guest whose timer is off or masked waits for any event, one whose timer has fired does not
/// wait, and any other waits for as many nanoseconds as its ticks take, one tick longer for a
/// deadline one tick later.
pub proof fn waiting_ends_with_the_timer(
    vcpu: HvfVcpu,
    ctl: u64,
    cval: u64,
    now: u64,
    r: VcpuExit,
    rest: int,
    imask: int,
    enabled: int,
)
    requires
        call_ensures(HvfVcpu::wait_for_event, (&vcpu, ctl, cval, now), r),
        ctl == rest * 4 + imask * 2 + enabled,
        0 <= imask < 2,
        0 <= enabled < 2,
        now <= cval ==> vcpu.spec_cntfrq() > 0 && (cval - now) * (1_000_000_000int
            / vcpu.spec_cntfrq() as int) <= u64::MAX,
    ensures
        enabled == 0 || imask == 1 ==> r == VcpuExit::WaitForEvent,
        enabled == 1 && imask == 0 && now > cval ==> r == VcpuExit::WaitForEventExpired,
        enabled == 1 && imask == 0 && now == cval ==> r == VcpuExit::WaitForEventTimeout(0),
        enabled == 1 && imask == 0 && now < cval ==> r is WaitForEventTimeout
            && r->WaitForEventTimeout_0 * vcpu.spec_cntfrq() <= (cval - now) * 1_000_000_000
            && (r->WaitForEventTimeout_0 + (cval - now)) * vcpu.spec_cntfrq() > (cval - now)
            * 1_000_000_000,
{
    assert(ctl as int % 2 == enabled);
    assert(ctl as int / 2 % 2 == imask);
    if now == cval {
        assert((cval - now) * (1_000_000_000int / vcpu.spec_cntfrq() as int) == 0)
            by (nonlinear_arith)
            requires
                now == cval,
        ;
    }
    if now < cval {
        let ticks = cval - now;
        let freq = vcpu.spec_cntfrq() as int;
        let period = 1_000_000_000int / freq;
        assert(period * freq <= 1_000_000_000 < (period + 1) * freq) by (nonlinear_arith)
            requires
                freq > 0,
                period == 1_000_000_000int / freq,
        ;
        assert((ticks * period) * freq <= ticks * 1_000_000_000) by (nonlinear_arith)
            requires
                ticks > 0,
                period * freq <= 1_000_000_000,
        ;
        assert((ticks * period + ticks) * freq > ticks * 1_000_000_000) by (nonlinear_arith)
            requires
                ticks > 0,
                (period + 1) * freq > 1_000_000_000,
        ;
    }
}

/// The calls of the power interface: the version is two, turning on takes the target, the entry and
/// its argument in this order and answers zero, a question of affinity is about the first argument,
/// and turning off answers nothing.
pub proof fn power_calls_keep_their_arguments(
    vcpu: HvfVcpu,
    function: u64,
    x1: u64,
    x2: u64,
    x3: u64,
    r: (Option<u64>, VcpuExit),
)
    requires
        call_ensures(HvfVcpu::handle_psci_request, (&vcpu, function, x1, x2, x3), r),
    ensures
        function == 0x8400_0000 ==> r == (Some(2u64), VcpuExit::PsciHandled),
        function == 0x8400_0006 ==> r == (Some(2u64), VcpuExit::PsciHandled),
        function == 0x8400_0002 ==> r == (None::<u64>, VcpuExit::CpuOff),
        function == 0x8400_0008 || function == 0x8400_0009 ==> r == (
            None::<u64>,
            VcpuExit::Shutdown,
        ),
        function == 0x8400_0004 || function == 0xc400_0004 ==> r.0 is None && r.1 is AffinityInfo
            && r.1->AffinityInfo_0 == x1,
        function == 0xc400_0003 ==> r.0 == Some(0u64) && r.1 is CpuOn && r.1->CpuOn_0 == x1
            && r.1->CpuOn_1 == x2 && r.1->CpuOn_2 == x3,
{
}

/// A virtual CPU starts at its entry, with the address of the device tree in the first register and
/// all four kinds of exceptions masked. One that runs virtual machines itself starts in the
/// hypervisor's mode and keeps every other feature; any other starts in the kernel's mode with
/// translation and caches off.
pub proof fn start_state_is_the_boot_protocols(
    vcpu: HvfVcpu,
    entry_addr: u64,
    fdt_addr: u64,
    pfr0: u64,
    pfr1: u64,
    r: Vec<RegisterWrite>,
)
    requires
        call_ensures(HvfVcpu::set_initial_state, (&vcpu, entry_addr, fdt_addr, pfr0, pfr1), r),
    ensures
        r@.contains(RegisterWrite::General { reg: 31, value: entry_addr }),
        r@.contains(RegisterWrite::General { reg: 0, value: fdt_addr }),
        forall|i: int|
            0 <= i < r@.len() && (#[trigger] r@[i]) is General ==> {
                ||| r@[i] == (RegisterWrite::General { reg: 31, value: entry_addr })
                ||| r@[i] == (RegisterWrite::General { reg: 0, value: fdt_addr })
                ||| r@[i]->General_reg == 34 && r@[i]->General_value / 0x40 == 0xf
                    && r@[i]->General_value % 0x40 == if vcpu.spec_nested() {
                    9int
                } else {
                    5int
                }
            },
        exists|i: int| 0 <= i < r@.len() && (#[trigger] r@[i]) is General
            && r@[i]->General_reg == 34,
        !vcpu.spec_nested() ==> r@.contains(
            RegisterWrite::System { reg: HV_SYS_REG_SCTLR_EL1, value: 0x30d0_0800 },
        ) && r@.len() == 4,
        vcpu.spec_nested() ==> r@.len() == 7 && exists|i: int, j: int|
            0 <= i < r@.len() && 0 <= j < r@.len() && #[trigger] keeps_features(r@[i], pfr0)
                && #[trigger] drops_matrices(r@[j], pfr1),
{
    let w = r@;
    let n = w.len() as int;
    assert(w[n - 2] == (RegisterWrite::General { reg: 31, value: entry_addr }));
    assert(w[n - 1] == (RegisterWrite::General { reg: 0, value: fdt_addr }));
    assert(w[0] is General);
    if vcpu.spec_nested() {
        let a = pfr0;
        let b = pfr1;
        assert((a | 0x100_0100u64) & a == a && (a | 0x100_0100u64) & 0x100_0100u64 == 0x100_0100u64)
            by (bit_vector);
        assert((b & !0x300_0000u64) & 0x300_0000u64 == 0 && (b & !0x300_0000u64) | (b
            & 0x300_0000u64) == b) by (bit_vector);
        assert(keeps_features(w[3], pfr0));
        assert(drops_matrices(w[4], pfr1));
    } else {
        assert(w[1] == (RegisterWrite::System { reg: HV_SYS_REG_SCTLR_EL1, value: 0x30d0_0800 }));
    }
}

/// The first feature register keeps what it had, with the hypervisor's mode and the interrupt
/// controller.
pub open spec fn keeps_features(write: RegisterWrite, pfr0: u64) -> bool {
    &&& write is System
    &&& write->System_reg == HV_SYS_REG_ID_AA64PFR0_EL1
    &&& write->System_value & pfr0 == pfr0
    &&& write->System_value & 0x100_0100u64 == 0x100_0100u64
}

/// The second feature register keeps what it had but for the matrix extension.
pub open spec fn drops_matrices(write: RegisterWrite, pfr1: u64) -> bool {
    &&& write is System
    &&& write->System_reg == HV_SYS_REG_ID_AA64PFR1_EL1
    &&& write->System_value & 0x300_0000u64 == 0
    &&& write->System_value | (pfr1 & 0x300_0000u64) == pfr1
}

/// Nanoseconds are the ticks times the timebase, rounded down, as far as they fit.
pub proof fn ticks_become_nanoseconds(ticks: u64, timebase: (u32, u32), r: u64)
    requires
        timebase.1 > 0,
        call_ensures(mach_absolute_time_to_ns, (ticks, timebase), r),
    ensures
        r * timebase.1 <= ticks * timebase.0,
        r < u64::MAX ==> ticks * timebase.0 < (r + 1) * timebase.1,
{
    let product = ticks * timebase.0;
    let denom = timebase.1 as int;
    let q = product / denom;
    assert(q * denom <= product < (q + 1) * denom) by (nonlinear_arith)
        requires
            denom > 0,
            q == product / denom,
    ;
    if q > u64::MAX {
        assert(u64::MAX * denom <= q * denom) by (nonlinear_arith)
            requires
                q > u64::MAX,
                denom > 0,
        ;
    }
}

/// Memory can always be read and executed, and written exactly where it was made writable; its
/// place and size are handed on.
pub proof fn protection_is_for_the_range(
    start: u64,
    size: u64,
    writable: bool,
    r: Result<ProtectRequest, Error>,
)
    requires
        size <= usize::MAX,
        call_ensures(protect_memory, (start, size, writable), r),
    ensures
        r is Ok,
        r->Ok_0.guest_start_addr == start,
        r->Ok_0.size == size,
        r->Ok_0.flags % 2 == 1,
        r->Ok_0.flags / 4 == 1,
        (r->Ok_0.flags / 2 % 2 == 1) == writable,
{
}

/// Why the framework stopped a virtual CPU: only a timer that fires masks the timer.
pub proof fn stop_reasons_are_told_apart(vcpu: &mut HvfVcpu, reason: u32, r: ExitReason)
    requires
        call_ensures(HvfVcpu::exit_reason, (vcpu, reason), r),
    ensures
        reason == 0 ==> r == ExitReason::Exit(VcpuExit::Canceled),
        reason == 1 ==> r == ExitReason::Exception,
        reason == 2 ==> r == ExitReason::Exit(VcpuExit::VtimerActivated)
            && final(vcpu).spec_masked(),
        reason > 2 ==> r == ExitReason::Unexpected,
        reason != 2 ==> final(vcpu).spec_masked() == old(vcpu).spec_masked(),
        final(vcpu).spec_advance() == old(vcpu).spec_advance(),
{
}

/// A virtual CPU that is restored from what it was saved as is written every register that was
/// read of it, with the value that was read: the general ones, the vector ones, the system
/// registers and those of the interrupt controller, in this order, then the timer and the lines.
pub proof fn saved_registers_are_written_back(
    vcpu: HvfVcpu,
    values: CapturedValues,
    state: HvfVcpuState,
    other: HvfVcpu,
    r: Result<Vec<StateWrite>, Error>,
    system: Vec<u16>,
    icc: Vec<u16>,
    ich: Vec<u16>,
    i: int,
)
    requires
        vcpu.complete(values),
        call_ensures(HvfVcpu::capture_state, (&vcpu, &values), Ok::<HvfVcpuState, Error>(state)),
        other.spec_nested() == vcpu.spec_nested(),
        call_ensures(HvfVcpu::restore_state, (&other, &state), r),
        call_ensures(crate::hvf::registers::state_system_registers, (vcpu.spec_nested(),), system),
        call_ensures(crate::hvf::registers::state_icc_registers, (vcpu.spec_nested(),), icc),
        call_ensures(crate::hvf::registers::state_ich_registers, (vcpu.spec_nested(),), ich),
    ensures
        r is Ok,
        ({
            let writes = r->Ok_0@;
            let (s, c, h) = (system@.len() as int, icc@.len() as int, ich@.len() as int);
            &&& writes.len() == 35 + 32 + s + c + h + 4
            &&& 0 <= i < 35 ==> writes[i] == (StateWrite::General {
                reg: i as u32,
                value: values.general@[i],
            })
            &&& 0 <= i < 32 ==> writes[35 + i] == (StateWrite::Simd {
                reg: i as u32,
                value: values.simd@[i],
            })
            &&& 0 <= i < s ==> writes[67 + i] == (StateWrite::System {
                reg: system@[i],
                value: values.system@[i],
            })
            &&& 0 <= i < c ==> writes[67 + s + i] == (StateWrite::Icc {
                reg: icc@[i],
                value: values.icc@[i],
            })
            &&& 0 <= i < h ==> writes[67 + s + c + i] == (StateWrite::Ich {
                reg: ich@[i],
                value: values.ich@[i],
            })
            &&& writes[67 + s + c + h] == (StateWrite::VtimerOffset { value: values.vtimer_offset })
            &&& writes[68 + s + c + h] == (StateWrite::Pending {
                line: InterruptType::Irq,
                pending: values.pending_irq,
            })
            &&& writes[69 + s + c + h] == (StateWrite::Pending {
                line: InterruptType::Fiq,
                pending: values.pending_fiq,
            })
            &&& writes[70 + s + c + h] == (StateWrite::VtimerMask { masked: values.vtimer_mask })
        }),
{
    saved_state_is_restorable(vcpu, values, state);
}

/// What stands between two instructions is saved too: that the next one is due, and the mask of the
/// timer. A read that has not ended cannot be saved.
pub proof fn restored_cpu_goes_on_where_it_was(
    vcpu: HvfVcpu,
    values: CapturedValues,
    saved: Result<HvfVcpuState, Error>,
    other: &mut HvfVcpu,
)
    requires
        vcpu.complete(values),
        other.wf(),
        call_ensures(HvfVcpu::capture_state, (&vcpu, &values), saved),
        saved is Ok ==> call_ensures(HvfVcpu::restored, (other, &saved->Ok_0), ()),
    ensures
        saved is Ok <==> vcpu.spec_pending_read() is None,
        saved is Ok ==> final(other).spec_advance() == vcpu.spec_advance()
            && final(other).spec_masked() == values.vtimer_mask
                && final(other).spec_pending_read() is None
                && saved->Ok_0.nested_enabled == vcpu.spec_nested(),
{
}

/// An instruction that is due moves the counter by its four bytes.
pub proof fn due_instruction_moves_the_counter(vcpu: HvfVcpu, pc: u64, r: Option<u64>)
    requires
        pc <= u64::MAX - 4,
        call_ensures(HvfVcpu::next_pc, (&vcpu, pc), r),
    ensures
        r is Some <==> vcpu.spec_advance(),
        r is Some ==> r->Some_0 == pc + 4,
{
}

/// A clock that answers nothing usable counts nanoseconds, or is not used as a counter.
pub proof fn unusable_clocks_count_nanoseconds(
    answered: bool,
    numer: u32,
    denom: u32,
    unit: (u32, u32),
    counter: Option<(u32, u32)>,
)
    requires
        call_ensures(timebase_or_unit, (answered, numer, denom), unit),
        call_ensures(counter_timebase, (answered, numer, denom), counter),
    ensures
        answered && denom > 0 ==> unit == (numer, denom),
        !answered || denom == 0 ==> unit == (1u32, 1u32),
        counter is Some <==> answered && numer > 0 && denom > 0,
        counter is Some ==> counter->Some_0 == (numer, denom),
{
}

/// A read that ends gives its register what the device put into the first bytes of the buffer, the
/// lowest first. The register that reads as zero takes nothing, and a read ends once.
pub proof fn ended_reads_give_the_devices_bytes(
    vcpu: &mut HvfVcpu,
    r: Option<(u32, u64)>,
    read: MmioRead,
)
    requires
        vcpu.wf(),
        vcpu.spec_pending_read() == Some(read),
        call_ensures(HvfVcpu::finish_mmio_read, (vcpu,), r),
    ensures
        ({
            let b = old(vcpu).buffer();
            &&& r is Some <==> read.srt < 31
            &&& r is Some ==> r->Some_0.0 == read.srt
            &&& r is Some && read.len == 1 ==> r->Some_0.1 == b[0]
            &&& r is Some && read.len == 2 ==> r->Some_0.1 == b[0] + 256 * b[1]
            &&& r is Some && read.len == 4 ==> r->Some_0.1 == b[0] + 256 * b[1] + 65536 * b[2]
                + 16777216 * b[3]
        }),
        final(vcpu).spec_pending_read() is None,
{
}

/// The result of a power call goes into the first register, and each call has its arguments.
pub proof fn power_results_go_into_the_first_register(
    vcpu: HvfVcpu,
    value: u64,
    r: RegisterWrite,
    function: u64,
    count: Option<usize>,
)
    requires
        call_ensures(HvfVcpu::write_psci_result, (&vcpu, value), r),
        call_ensures(psci_arguments, (function,), count),
    ensures
        r == (RegisterWrite::General { reg: 0, value }),
        function == 0xc400_0003 ==> count == Some(3usize),
        function == 0x8400_0004 || function == 0xc400_0004 ==> count == Some(1usize),
        function == 0x8400_0000 || function == 0x8400_0002 || function == 0x8400_0006 || function
            == 0x8400_0008 || function == 0x8400_0009 ==> count == Some(0usize),
        function < 0x8400_0000 ==> count is None,
{
}

/// A virtual CPU that runs virtual machines itself starts with the traps and the timer access that
/// it needs for them, set before anything that depends on them.
pub proof fn nested_cpus_start_with_their_controls(
    vcpu: HvfVcpu,
    entry_addr: u64,
    fdt_addr: u64,
    pfr0: u64,
    pfr1: u64,
    r: Vec<RegisterWrite>,
)
    requires
        vcpu.spec_nested(),
        call_ensures(HvfVcpu::set_initial_state, (&vcpu, entry_addr, fdt_addr, pfr0, pfr1), r),
    ensures
        r@[1] is System && r@[1]->System_reg == 0xe088 && r@[1]->System_value == 0x8_807c_663f,
        r@[2] is System && r@[2]->System_reg == 0xe708 && r@[2]->System_value == 3,
        r@[3] is System && r@[3]->System_reg == 0xc020,
        r@[4] is System && r@[4]->System_reg == 0xc021,
{
}

} // verus!
