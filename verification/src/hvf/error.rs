//! What can go wrong with a virtual CPU.

use crate::text::{hexadecimal, push_hexadecimal};
use vstd::prelude::*;

verus! {

/// Which registers of the interrupt controller.
#[derive(Clone, Copy, Debug, PartialEq, Eq, Structural)]
pub enum GicKind {
    Icc,
    Ich,
}

/// What went wrong.
#[derive(Debug)]
pub enum Error {
    EnableEL2,
    FindSymbol(String),
    MemoryMap,
    MemoryProtect,
    MemoryUnmap,
    NestedCheck,
    VcpuCreate,
    VcpuInitialRegisters,
    VcpuReadRegister,
    VcpuReadPendingInterrupt,
    VcpuReadGicRegister(GicKind, u16),
    VcpuReadSimdRegister,
    VcpuReadSystemRegister,
    VcpuReadVtimer,
    VcpuRequestExit,
    VcpuRun,
    VcpuSetPendingIrq,
    VcpuSetGicRegister(GicKind, u16, u64),
    VcpuSetRegister,
    VcpuSetSimdRegister,
    VcpuSetSystemRegister(u16, u64),
    VcpuSetVtimerMask,
    VcpuSetVtimerOffset,
    VcpuStatePendingMmio,
    VcpuStateTopology,
    GicStateCreate,
    GicStateRead,
    GicStateWrite,
    VmCreate,
}

/// The name of the registers of the interrupt controller.
pub open spec fn gic_kind_name(kind: GicKind) -> Seq<char> {
    match kind {
        GicKind::Icc => "ICC"@,
        GicKind::Ich => "ICH"@,
    }
}

fn push_gic_kind(s: &mut String, kind: GicKind)
    ensures
        final(s)@ == old(s)@ + gic_kind_name(kind),
{
    match kind {
        GicKind::Icc => s.append("ICC"),
        GicKind::Ich => s.append("ICH"),
    }
}

/// An error in words.
pub open spec fn error_text(error: Error) -> Seq<char> {
    match error {
        Error::EnableEL2 => "Error enabling EL2 mode in HVF"@,
        Error::FindSymbol(name) => "Couldn't find symbol in HVF library: "@ + name@,
        Error::MemoryMap => "Error registering memory region in HVF"@,
        Error::MemoryProtect => "Error changing HVF memory permissions"@,
        Error::MemoryUnmap => "Error unregistering memory region in HVF"@,
        Error::NestedCheck => "Nested virtualization was requested but it's not support in this system"@,
        Error::VcpuCreate => "Error creating HVF vCPU instance"@,
        Error::VcpuInitialRegisters => "Error setting up initial HVF vCPU registers"@,
        Error::VcpuReadRegister => "Error reading HVF vCPU register"@,
        Error::VcpuReadPendingInterrupt => "Error reading HVF vCPU interrupt state"@,
        Error::VcpuReadGicRegister(kind, reg) => "Error reading HVF vCPU GIC "@ + gic_kind_name(kind)
            + " register 0x"@ + hexadecimal(reg as nat),
        Error::VcpuReadSimdRegister => "Error reading HVF vCPU SIMD register"@,
        Error::VcpuReadSystemRegister => "Error reading HVF vCPU system register"@,
        Error::VcpuReadVtimer => "Error reading HVF vCPU virtual timer state"@,
        Error::VcpuRequestExit => "Error requesting HVF vCPU exit"@,
        Error::VcpuRun => "Error running HVF vCPU"@,
        Error::VcpuSetPendingIrq => "Error setting HVF vCPU pending irq"@,
        Error::VcpuSetGicRegister(kind, reg, value) => "Error setting HVF vCPU GIC "@ + gic_kind_name(
            kind,
        ) + " register 0x"@ + hexadecimal(reg as nat) + " to 0x"@ + hexadecimal(value as nat),
        Error::VcpuSetRegister => "Error setting HVF vCPU register"@,
        Error::VcpuSetSimdRegister => "Error setting HVF vCPU SIMD register"@,
        Error::VcpuSetSystemRegister(reg, value) => "Error setting HVF vCPU system register 0x0x"@ + hexadecimal(
            reg as nat,
        ) + " to 0x0x"@ + hexadecimal(value as nat),
        Error::VcpuSetVtimerMask => "Error setting HVF vCPU vtimer mask"@,
        Error::VcpuSetVtimerOffset => "Error setting HVF vCPU vtimer offset"@,
        Error::VcpuStatePendingMmio => "HVF vCPU has an incomplete MMIO read"@,
        Error::VcpuStateTopology => "HVF vCPU state does not match its configuration"@,
        Error::GicStateCreate => "Error creating an HVF GIC state object"@,
        Error::GicStateRead => "Error reading HVF GIC state"@,
        Error::GicStateWrite => "Error restoring HVF GIC state"@,
        Error::VmCreate => "Error creating HVF VM instance"@,
    }
}

impl Error {
    /// The error in words.
    pub fn message(&self) -> (r: String)
        ensures
            r@ == error_text(*self),
    {
        match self {
            Error::EnableEL2 => "Error enabling EL2 mode in HVF".to_owned(),
            Error::FindSymbol(name) => {
                let mut s = "Couldn't find symbol in HVF library: ".to_owned();
                s.append(name.as_str());
                s
            },
            Error::MemoryMap => "Error registering memory region in HVF".to_owned(),
            Error::MemoryProtect => "Error changing HVF memory permissions".to_owned(),
            Error::MemoryUnmap => "Error unregistering memory region in HVF".to_owned(),
            Error::NestedCheck => "Nested virtualization was requested but it's not support in this system".to_owned(),
            Error::VcpuCreate => "Error creating HVF vCPU instance".to_owned(),
            Error::VcpuInitialRegisters => "Error setting up initial HVF vCPU registers".to_owned(),
            Error::VcpuReadRegister => "Error reading HVF vCPU register".to_owned(),
            Error::VcpuReadPendingInterrupt => "Error reading HVF vCPU interrupt state".to_owned(),
            Error::VcpuReadGicRegister(kind, reg) => {
                let mut s = "Error reading HVF vCPU GIC ".to_owned();
                push_gic_kind(&mut s, *kind);
                s.append(" register 0x");
                push_hexadecimal(&mut s, *reg as u64);
                s
            },
            Error::VcpuReadSimdRegister => "Error reading HVF vCPU SIMD register".to_owned(),
            Error::VcpuReadSystemRegister => "Error reading HVF vCPU system register".to_owned(),
            Error::VcpuReadVtimer => "Error reading HVF vCPU virtual timer state".to_owned(),
            Error::VcpuRequestExit => "Error requesting HVF vCPU exit".to_owned(),
            Error::VcpuRun => "Error running HVF vCPU".to_owned(),
            Error::VcpuSetPendingIrq => "Error setting HVF vCPU pending irq".to_owned(),
            Error::VcpuSetGicRegister(kind, reg, value) => {
                let mut s = "Error setting HVF vCPU GIC ".to_owned();
                push_gic_kind(&mut s, *kind);
                s.append(" register 0x");
                push_hexadecimal(&mut s, *reg as u64);
                s.append(" to 0x");
                push_hexadecimal(&mut s, *value);
                s
            },
            Error::VcpuSetRegister => "Error setting HVF vCPU register".to_owned(),
            Error::VcpuSetSimdRegister => "Error setting HVF vCPU SIMD register".to_owned(),
            Error::VcpuSetSystemRegister(reg, value) => {
                let mut s = "Error setting HVF vCPU system register 0x0x".to_owned();
                push_hexadecimal(&mut s, *reg as u64);
                s.append(" to 0x0x");
                push_hexadecimal(&mut s, *value);
                s
            },
            Error::VcpuSetVtimerMask => "Error setting HVF vCPU vtimer mask".to_owned(),
            Error::VcpuSetVtimerOffset => "Error setting HVF vCPU vtimer offset".to_owned(),
            Error::VcpuStatePendingMmio => "HVF vCPU has an incomplete MMIO read".to_owned(),
            Error::VcpuStateTopology => "HVF vCPU state does not match its configuration".to_owned(),
            Error::GicStateCreate => "Error creating an HVF GIC state object".to_owned(),
            Error::GicStateRead => "Error reading HVF GIC state".to_owned(),
            Error::GicStateWrite => "Error restoring HVF GIC state".to_owned(),
            Error::VmCreate => "Error creating HVF VM instance".to_owned(),
        }
    }
}

/// A message about a register ends with its number, and one about a value with the value, in
/// hexadecimal.
pub proof fn messages_end_with_their_numbers(
    reg: u16,
    value: u64,
    kind: GicKind,
    read: String,
    set: String,
    system: String,
    number: &mut String,
    written: &mut String,
)
    requires
        call_ensures(Error::message, (&Error::VcpuReadGicRegister(kind, reg),), read),
        call_ensures(Error::message, (&Error::VcpuSetGicRegister(kind, reg, value),), set),
        call_ensures(Error::message, (&Error::VcpuSetSystemRegister(reg, value),), system),
        number@.len() == 0,
        written@.len() == 0,
        call_ensures(push_hexadecimal, (number, reg as u64), ()),
        call_ensures(push_hexadecimal, (written, value), ()),
    ensures
        final(number)@.is_suffix_of(read@),
        final(written)@.is_suffix_of(set@),
        final(written)@.is_suffix_of(system@),
{
    assert(final(number)@ =~= hexadecimal(reg as nat));
    assert(final(written)@ =~= hexadecimal(value as nat));
    let (n, w) = (final(number)@, final(written)@);
    assert(read@.subrange(read@.len() - n.len(), read@.len() as int) =~= n);
    assert(set@.subrange(set@.len() - w.len(), set@.len() as int) =~= w);
    assert(system@.subrange(system@.len() - w.len(), system@.len() as int) =~= w);
}

} // verus!
