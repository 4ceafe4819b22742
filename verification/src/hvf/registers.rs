//! The registers that make up the state of a virtual CPU, and their order in a saved state.
//!
//! System registers are numbered by their place in the architecture's encoding: two bits of `op0`,
//! three of `op1`, four of `CRn`, four of `CRm` and three of `op2`.

use vstd::prelude::*;

verus! {

/// General registers of a virtual CPU: thirty-one, the program counter and three of status.
pub const GENERAL_REGISTER_COUNT: usize = 35;

/// Vector registers of a virtual CPU.
pub const SIMD_REGISTER_COUNT: usize = 32;

/// The first general register.
pub const HV_REG_X0: u32 = 0;

/// The second general register.
pub const HV_REG_X1: u32 = 1;

/// The third general register.
pub const HV_REG_X2: u32 = 2;

/// The fourth general register.
pub const HV_REG_X3: u32 = 3;

/// The program counter.
pub const HV_REG_PC: u32 = 31;

/// The processor status.
pub const HV_REG_CPSR: u32 = 34;

pub const HV_SYS_REG_SCTLR_EL1: u16 = 0xc080;

pub const HV_SYS_REG_ACTLR_EL1: u16 = 0xc081;

pub const HV_SYS_REG_CPACR_EL1: u16 = 0xc082;

pub const HV_SYS_REG_TTBR0_EL1: u16 = 0xc100;

pub const HV_SYS_REG_TTBR1_EL1: u16 = 0xc101;

pub const HV_SYS_REG_TCR_EL1: u16 = 0xc102;

pub const HV_SYS_REG_APIAKEYLO_EL1: u16 = 0xc108;

pub const HV_SYS_REG_APIAKEYHI_EL1: u16 = 0xc109;

pub const HV_SYS_REG_APIBKEYLO_EL1: u16 = 0xc10a;

pub const HV_SYS_REG_APIBKEYHI_EL1: u16 = 0xc10b;

pub const HV_SYS_REG_APDAKEYLO_EL1: u16 = 0xc110;

pub const HV_SYS_REG_APDAKEYHI_EL1: u16 = 0xc111;

pub const HV_SYS_REG_APDBKEYLO_EL1: u16 = 0xc112;

pub const HV_SYS_REG_APDBKEYHI_EL1: u16 = 0xc113;

pub const HV_SYS_REG_APGAKEYLO_EL1: u16 = 0xc118;

pub const HV_SYS_REG_APGAKEYHI_EL1: u16 = 0xc119;

pub const HV_SYS_REG_SPSR_EL1: u16 = 0xc200;

pub const HV_SYS_REG_ELR_EL1: u16 = 0xc201;

pub const HV_SYS_REG_SP_EL0: u16 = 0xc208;

pub const HV_SYS_REG_SP_EL1: u16 = 0xe208;

pub const HV_SYS_REG_AFSR0_EL1: u16 = 0xc288;

pub const HV_SYS_REG_AFSR1_EL1: u16 = 0xc289;

pub const HV_SYS_REG_ESR_EL1: u16 = 0xc290;

pub const HV_SYS_REG_FAR_EL1: u16 = 0xc300;

pub const HV_SYS_REG_PAR_EL1: u16 = 0xc3a0;

pub const HV_SYS_REG_MAIR_EL1: u16 = 0xc510;

pub const HV_SYS_REG_AMAIR_EL1: u16 = 0xc518;

pub const HV_SYS_REG_VBAR_EL1: u16 = 0xc600;

pub const HV_SYS_REG_CONTEXTIDR_EL1: u16 = 0xc681;

pub const HV_SYS_REG_TPIDR_EL1: u16 = 0xc684;

pub const HV_SYS_REG_TPIDR_EL0: u16 = 0xde82;

pub const HV_SYS_REG_TPIDRRO_EL0: u16 = 0xde83;

pub const HV_SYS_REG_CNTKCTL_EL1: u16 = 0xc708;

pub const HV_SYS_REG_CSSELR_EL1: u16 = 0xd000;

pub const HV_SYS_REG_CNTV_CTL_EL0: u16 = 0xdf19;

pub const HV_SYS_REG_CNTV_CVAL_EL0: u16 = 0xdf1a;

pub const HV_SYS_REG_CNTP_CTL_EL0: u16 = 0xdf11;

pub const HV_SYS_REG_CNTP_CVAL_EL0: u16 = 0xdf12;

pub const HV_SYS_REG_CNTHCTL_EL2: u16 = 0xe708;

pub const HV_SYS_REG_CNTHP_CTL_EL2: u16 = 0xe711;

pub const HV_SYS_REG_CNTHP_CVAL_EL2: u16 = 0xe712;

pub const HV_SYS_REG_CNTVOFF_EL2: u16 = 0xe703;

pub const HV_SYS_REG_CPTR_EL2: u16 = 0xe08a;

pub const HV_SYS_REG_ELR_EL2: u16 = 0xe201;

pub const HV_SYS_REG_ESR_EL2: u16 = 0xe290;

pub const HV_SYS_REG_FAR_EL2: u16 = 0xe300;

pub const HV_SYS_REG_HCR_EL2: u16 = 0xe088;

pub const HV_SYS_REG_HPFAR_EL2: u16 = 0xe304;

pub const HV_SYS_REG_MAIR_EL2: u16 = 0xe510;

pub const HV_SYS_REG_MDCR_EL2: u16 = 0xe089;

pub const HV_SYS_REG_SCTLR_EL2: u16 = 0xe080;

pub const HV_SYS_REG_SPSR_EL2: u16 = 0xe200;

pub const HV_SYS_REG_SP_EL2: u16 = 0xf208;

pub const HV_SYS_REG_TCR_EL2: u16 = 0xe102;

pub const HV_SYS_REG_TPIDR_EL2: u16 = 0xe682;

pub const HV_SYS_REG_TTBR0_EL2: u16 = 0xe100;

pub const HV_SYS_REG_TTBR1_EL2: u16 = 0xe101;

pub const HV_SYS_REG_VBAR_EL2: u16 = 0xe600;

pub const HV_SYS_REG_VMPIDR_EL2: u16 = 0xe005;

pub const HV_SYS_REG_VPIDR_EL2: u16 = 0xe000;

pub const HV_SYS_REG_VTCR_EL2: u16 = 0xe10a;

pub const HV_SYS_REG_VTTBR_EL2: u16 = 0xe108;

pub const HV_SYS_REG_MPIDR_EL1: u16 = 0xc005;

pub const HV_SYS_REG_ID_AA64PFR0_EL1: u16 = 0xc020;

pub const HV_SYS_REG_ID_AA64PFR1_EL1: u16 = 0xc021;

pub const HV_GIC_ICC_REG_CTLR_EL1: u16 = 0xc664;

pub const HV_GIC_ICC_REG_PMR_EL1: u16 = 0xc230;

pub const HV_GIC_ICC_REG_BPR0_EL1: u16 = 0xc643;

pub const HV_GIC_ICC_REG_BPR1_EL1: u16 = 0xc663;

pub const HV_GIC_ICC_REG_AP0R0_EL1: u16 = 0xc644;

pub const HV_GIC_ICC_REG_AP1R0_EL1: u16 = 0xc648;

pub const HV_GIC_ICC_REG_SRE_EL1: u16 = 0xc665;

pub const HV_GIC_ICC_REG_IGRPEN0_EL1: u16 = 0xc666;

pub const HV_GIC_ICC_REG_IGRPEN1_EL1: u16 = 0xc667;

pub const HV_GIC_ICC_REG_RPR_EL1: u16 = 0xc65b;

pub const HV_GIC_ICC_REG_SRE_EL2: u16 = 0xe64d;

pub const HV_GIC_ICH_REG_AP0R0_EL2: u16 = 0xe640;

pub const HV_GIC_ICH_REG_AP1R0_EL2: u16 = 0xe648;

pub const HV_GIC_ICH_REG_VMCR_EL2: u16 = 0xe65f;

pub const HV_GIC_ICH_REG_LR0_EL2: u16 = 0xe660;

pub const HV_GIC_ICH_REG_LR1_EL2: u16 = 0xe661;

pub const HV_GIC_ICH_REG_LR2_EL2: u16 = 0xe662;

pub const HV_GIC_ICH_REG_LR3_EL2: u16 = 0xe663;

pub const HV_GIC_ICH_REG_LR4_EL2: u16 = 0xe664;

pub const HV_GIC_ICH_REG_LR5_EL2: u16 = 0xe665;

pub const HV_GIC_ICH_REG_LR6_EL2: u16 = 0xe666;

pub const HV_GIC_ICH_REG_LR7_EL2: u16 = 0xe667;

pub const HV_GIC_ICH_REG_LR8_EL2: u16 = 0xe668;

pub const HV_GIC_ICH_REG_LR9_EL2: u16 = 0xe669;

pub const HV_GIC_ICH_REG_LR10_EL2: u16 = 0xe66a;

pub const HV_GIC_ICH_REG_LR11_EL2: u16 = 0xe66b;

pub const HV_GIC_ICH_REG_LR12_EL2: u16 = 0xe66c;

pub const HV_GIC_ICH_REG_LR13_EL2: u16 = 0xe66d;

pub const HV_GIC_ICH_REG_LR14_EL2: u16 = 0xe66e;

pub const HV_GIC_ICH_REG_LR15_EL2: u16 = 0xe66f;

pub const HV_GIC_ICH_REG_HCR_EL2: u16 = 0xe658;

/// The number of a system register.
pub open spec fn encoding(op0: int, op1: int, crn: int, crm: int, op2: int) -> int {
    op0 * 0x4000 + op1 * 0x800 + crn * 0x80 + crm * 8 + op2
}

/// System registers of every virtual CPU.
pub open spec fn el1_system_registers() -> Seq<u16> {
    seq![
        HV_SYS_REG_SCTLR_EL1,
        HV_SYS_REG_ACTLR_EL1,
        HV_SYS_REG_CPACR_EL1,
        HV_SYS_REG_TTBR0_EL1,
        HV_SYS_REG_TTBR1_EL1,
        HV_SYS_REG_TCR_EL1,
        HV_SYS_REG_APIAKEYLO_EL1,
        HV_SYS_REG_APIAKEYHI_EL1,
        HV_SYS_REG_APIBKEYLO_EL1,
        HV_SYS_REG_APIBKEYHI_EL1,
        HV_SYS_REG_APDAKEYLO_EL1,
        HV_SYS_REG_APDAKEYHI_EL1,
        HV_SYS_REG_APDBKEYLO_EL1,
        HV_SYS_REG_APDBKEYHI_EL1,
        HV_SYS_REG_APGAKEYLO_EL1,
        HV_SYS_REG_APGAKEYHI_EL1,
        HV_SYS_REG_SPSR_EL1,
        HV_SYS_REG_ELR_EL1,
        HV_SYS_REG_SP_EL0,
        HV_SYS_REG_SP_EL1,
        HV_SYS_REG_AFSR0_EL1,
        HV_SYS_REG_AFSR1_EL1,
        HV_SYS_REG_ESR_EL1,
        HV_SYS_REG_FAR_EL1,
        HV_SYS_REG_PAR_EL1,
        HV_SYS_REG_MAIR_EL1,
        HV_SYS_REG_AMAIR_EL1,
        HV_SYS_REG_VBAR_EL1,
        HV_SYS_REG_CONTEXTIDR_EL1,
        HV_SYS_REG_TPIDR_EL1,
        HV_SYS_REG_TPIDR_EL0,
        HV_SYS_REG_TPIDRRO_EL0,
        HV_SYS_REG_CNTKCTL_EL1,
        HV_SYS_REG_CSSELR_EL1,
        HV_SYS_REG_CNTV_CTL_EL0,
        HV_SYS_REG_CNTV_CVAL_EL0,
        HV_SYS_REG_CNTP_CTL_EL0,
        HV_SYS_REG_CNTP_CVAL_EL0,
    ]
}

fn el1_system_registers_list() -> (r: Vec<u16>)
    ensures
        r@ == el1_system_registers(),
{
    let list: Vec<u16> = vec![
        HV_SYS_REG_SCTLR_EL1,
        HV_SYS_REG_ACTLR_EL1,
        HV_SYS_REG_CPACR_EL1,
        HV_SYS_REG_TTBR0_EL1,
        HV_SYS_REG_TTBR1_EL1,
        HV_SYS_REG_TCR_EL1,
        HV_SYS_REG_APIAKEYLO_EL1,
        HV_SYS_REG_APIAKEYHI_EL1,
        HV_SYS_REG_APIBKEYLO_EL1,
        HV_SYS_REG_APIBKEYHI_EL1,
        HV_SYS_REG_APDAKEYLO_EL1,
        HV_SYS_REG_APDAKEYHI_EL1,
        HV_SYS_REG_APDBKEYLO_EL1,
        HV_SYS_REG_APDBKEYHI_EL1,
        HV_SYS_REG_APGAKEYLO_EL1,
        HV_SYS_REG_APGAKEYHI_EL1,
        HV_SYS_REG_SPSR_EL1,
        HV_SYS_REG_ELR_EL1,
        HV_SYS_REG_SP_EL0,
        HV_SYS_REG_SP_EL1,
        HV_SYS_REG_AFSR0_EL1,
        HV_SYS_REG_AFSR1_EL1,
        HV_SYS_REG_ESR_EL1,
        HV_SYS_REG_FAR_EL1,
        HV_SYS_REG_PAR_EL1,
        HV_SYS_REG_MAIR_EL1,
        HV_SYS_REG_AMAIR_EL1,
        HV_SYS_REG_VBAR_EL1,
        HV_SYS_REG_CONTEXTIDR_EL1,
        HV_SYS_REG_TPIDR_EL1,
        HV_SYS_REG_TPIDR_EL0,
        HV_SYS_REG_TPIDRRO_EL0,
        HV_SYS_REG_CNTKCTL_EL1,
        HV_SYS_REG_CSSELR_EL1,
        HV_SYS_REG_CNTV_CTL_EL0,
        HV_SYS_REG_CNTV_CVAL_EL0,
        HV_SYS_REG_CNTP_CTL_EL0,
        HV_SYS_REG_CNTP_CVAL_EL0,
    ];
    assert(list@ =~= el1_system_registers());
    list
}

/// System registers of a virtual CPU that runs virtual machines itself.
pub open spec fn el2_system_registers() -> Seq<u16> {
    seq![
        HV_SYS_REG_CNTHCTL_EL2,
        HV_SYS_REG_CNTHP_CTL_EL2,
        HV_SYS_REG_CNTHP_CVAL_EL2,
        HV_SYS_REG_CNTVOFF_EL2,
        HV_SYS_REG_CPTR_EL2,
        HV_SYS_REG_ELR_EL2,
        HV_SYS_REG_ESR_EL2,
        HV_SYS_REG_FAR_EL2,
        HV_SYS_REG_HCR_EL2,
        HV_SYS_REG_HPFAR_EL2,
        HV_SYS_REG_MAIR_EL2,
        HV_SYS_REG_MDCR_EL2,
        HV_SYS_REG_SCTLR_EL2,
        HV_SYS_REG_SPSR_EL2,
        HV_SYS_REG_SP_EL2,
        HV_SYS_REG_TCR_EL2,
        HV_SYS_REG_TPIDR_EL2,
        HV_SYS_REG_TTBR0_EL2,
        HV_SYS_REG_TTBR1_EL2,
        HV_SYS_REG_VBAR_EL2,
        HV_SYS_REG_VMPIDR_EL2,
        HV_SYS_REG_VPIDR_EL2,
        HV_SYS_REG_VTCR_EL2,
        HV_SYS_REG_VTTBR_EL2,
    ]
}

fn el2_system_registers_list() -> (r: Vec<u16>)
    ensures
        r@ == el2_system_registers(),
{
    let list: Vec<u16> = vec![
        HV_SYS_REG_CNTHCTL_EL2,
        HV_SYS_REG_CNTHP_CTL_EL2,
        HV_SYS_REG_CNTHP_CVAL_EL2,
        HV_SYS_REG_CNTVOFF_EL2,
        HV_SYS_REG_CPTR_EL2,
        HV_SYS_REG_ELR_EL2,
        HV_SYS_REG_ESR_EL2,
        HV_SYS_REG_FAR_EL2,
        HV_SYS_REG_HCR_EL2,
        HV_SYS_REG_HPFAR_EL2,
        HV_SYS_REG_MAIR_EL2,
        HV_SYS_REG_MDCR_EL2,
        HV_SYS_REG_SCTLR_EL2,
        HV_SYS_REG_SPSR_EL2,
        HV_SYS_REG_SP_EL2,
        HV_SYS_REG_TCR_EL2,
        HV_SYS_REG_TPIDR_EL2,
        HV_SYS_REG_TTBR0_EL2,
        HV_SYS_REG_TTBR1_EL2,
        HV_SYS_REG_VBAR_EL2,
        HV_SYS_REG_VMPIDR_EL2,
        HV_SYS_REG_VPIDR_EL2,
        HV_SYS_REG_VTCR_EL2,
        HV_SYS_REG_VTTBR_EL2,
    ];
    assert(list@ =~= el2_system_registers());
    list
}

/// Interrupt interface registers. Enables come after priorities and active state.
pub open spec fn icc_registers() -> Seq<u16> {
    seq![
        HV_GIC_ICC_REG_CTLR_EL1,
        HV_GIC_ICC_REG_PMR_EL1,
        HV_GIC_ICC_REG_BPR0_EL1,
        HV_GIC_ICC_REG_BPR1_EL1,
        HV_GIC_ICC_REG_AP0R0_EL1,
        HV_GIC_ICC_REG_AP1R0_EL1,
        HV_GIC_ICC_REG_SRE_EL1,
        HV_GIC_ICC_REG_IGRPEN0_EL1,
        HV_GIC_ICC_REG_IGRPEN1_EL1,
    ]
}

fn icc_registers_list() -> (r: Vec<u16>)
    ensures
        r@ == icc_registers(),
{
    let list: Vec<u16> = vec![
        HV_GIC_ICC_REG_CTLR_EL1,
        HV_GIC_ICC_REG_PMR_EL1,
        HV_GIC_ICC_REG_BPR0_EL1,
        HV_GIC_ICC_REG_BPR1_EL1,
        HV_GIC_ICC_REG_AP0R0_EL1,
        HV_GIC_ICC_REG_AP1R0_EL1,
        HV_GIC_ICC_REG_SRE_EL1,
        HV_GIC_ICC_REG_IGRPEN0_EL1,
        HV_GIC_ICC_REG_IGRPEN1_EL1,
    ];
    assert(list@ =~= icc_registers());
    list
}

/// Interrupt interface registers of a virtual CPU that runs virtual machines itself.
pub open spec fn nested_icc_registers() -> Seq<u16> {
    seq![
        HV_GIC_ICC_REG_SRE_EL2,
    ]
}

fn nested_icc_registers_list() -> (r: Vec<u16>)
    ensures
        r@ == nested_icc_registers(),
{
    let list: Vec<u16> = vec![
        HV_GIC_ICC_REG_SRE_EL2,
    ];
    assert(list@ =~= nested_icc_registers());
    list
}

/// Virtual interrupt interface registers. The enable comes last.
pub open spec fn nested_ich_registers() -> Seq<u16> {
    seq![
        HV_GIC_ICH_REG_AP0R0_EL2,
        HV_GIC_ICH_REG_AP1R0_EL2,
        HV_GIC_ICH_REG_VMCR_EL2,
        HV_GIC_ICH_REG_LR0_EL2,
        HV_GIC_ICH_REG_LR1_EL2,
        HV_GIC_ICH_REG_LR2_EL2,
        HV_GIC_ICH_REG_LR3_EL2,
        HV_GIC_ICH_REG_LR4_EL2,
        HV_GIC_ICH_REG_LR5_EL2,
        HV_GIC_ICH_REG_LR6_EL2,
        HV_GIC_ICH_REG_LR7_EL2,
        HV_GIC_ICH_REG_LR8_EL2,
        HV_GIC_ICH_REG_LR9_EL2,
        HV_GIC_ICH_REG_LR10_EL2,
        HV_GIC_ICH_REG_LR11_EL2,
        HV_GIC_ICH_REG_LR12_EL2,
        HV_GIC_ICH_REG_LR13_EL2,
        HV_GIC_ICH_REG_LR14_EL2,
        HV_GIC_ICH_REG_LR15_EL2,
        HV_GIC_ICH_REG_HCR_EL2,
    ]
}

fn nested_ich_registers_list() -> (r: Vec<u16>)
    ensures
        r@ == nested_ich_registers(),
{
    let list: Vec<u16> = vec![
        HV_GIC_ICH_REG_AP0R0_EL2,
        HV_GIC_ICH_REG_AP1R0_EL2,
        HV_GIC_ICH_REG_VMCR_EL2,
        HV_GIC_ICH_REG_LR0_EL2,
        HV_GIC_ICH_REG_LR1_EL2,
        HV_GIC_ICH_REG_LR2_EL2,
        HV_GIC_ICH_REG_LR3_EL2,
        HV_GIC_ICH_REG_LR4_EL2,
        HV_GIC_ICH_REG_LR5_EL2,
        HV_GIC_ICH_REG_LR6_EL2,
        HV_GIC_ICH_REG_LR7_EL2,
        HV_GIC_ICH_REG_LR8_EL2,
        HV_GIC_ICH_REG_LR9_EL2,
        HV_GIC_ICH_REG_LR10_EL2,
        HV_GIC_ICH_REG_LR11_EL2,
        HV_GIC_ICH_REG_LR12_EL2,
        HV_GIC_ICH_REG_LR13_EL2,
        HV_GIC_ICH_REG_LR14_EL2,
        HV_GIC_ICH_REG_LR15_EL2,
        HV_GIC_ICH_REG_HCR_EL2,
    ];
    assert(list@ =~= nested_ich_registers());
    list
}

/// System registers of a state.
pub open spec fn system_registers(nested_enabled: bool) -> Seq<u16> {
    if nested_enabled {
        el1_system_registers() + el2_system_registers()
    } else {
        el1_system_registers()
    }
}

/// Interrupt interface registers of a state.
pub open spec fn gic_icc_registers(nested_enabled: bool) -> Seq<u16> {
    if nested_enabled {
        nested_icc_registers() + icc_registers()
    } else {
        icc_registers()
    }
}

/// Virtual interrupt interface registers of a state.
pub open spec fn gic_ich_registers(nested_enabled: bool) -> Seq<u16> {
    if nested_enabled {
        nested_ich_registers()
    } else {
        Seq::empty()
    }
}

/// System registers of a state, in order.
pub fn state_system_registers(nested_enabled: bool) -> (r: Vec<u16>)
    ensures
        r@ == system_registers(nested_enabled),
{
    let mut registers: Vec<u16> = el1_system_registers_list();
    if nested_enabled {
        let mut more: Vec<u16> = el2_system_registers_list();
        registers.append(&mut more);
    }
    registers
}

/// Interrupt interface registers of a state, in order.
pub fn state_icc_registers(nested_enabled: bool) -> (r: Vec<u16>)
    ensures
        r@ == gic_icc_registers(nested_enabled),
{
    if nested_enabled {
        let mut registers: Vec<u16> = nested_icc_registers_list();
        let mut more: Vec<u16> = icc_registers_list();
        registers.append(&mut more);
        registers
    } else {
        icc_registers_list()
    }
}

/// Virtual interrupt interface registers of a state, in order.
pub fn state_ich_registers(nested_enabled: bool) -> (r: Vec<u16>)
    ensures
        r@ == gic_ich_registers(nested_enabled),
{
    if nested_enabled {
        nested_ich_registers_list()
    } else {
        let none: Vec<u16> = Vec::new();
        assert(none@ =~= Seq::empty());
        none
    }
}

/// A list names each register once, in the given order.
pub open spec fn names<V>(list: Seq<(u16, V)>, registers: Seq<u16>) -> bool {
    &&& list.len() == registers.len()
    &&& forall|i: int| 0 <= i < list.len() ==> (#[trigger] list[i]).0 == registers[i]
}

/// A list names the first registers by number.
pub open spec fn names_from_zero<V>(list: Seq<(u32, V)>, count: nat) -> bool {
    &&& list.len() == count
    &&& forall|i: int| 0 <= i < list.len() ==> (#[trigger] list[i]).0 == i
}

fn names_registers(list: &[(u16, u64)], registers: &[u16]) -> (r: bool)
    ensures
        r == names(list@, registers@),
{
    if list.len() != registers.len() {
        return false;
    }
    let mut i: usize = 0;
    while i < list.len()
        invariant
            i <= list@.len(),
            list@.len() == registers@.len(),
            forall|j: int| 0 <= j < i ==> (#[trigger] list@[j]).0 == registers@[j],
        decreases list@.len() - i,
    {
        if list[i].0 != registers[i] {
            assert(list@[i as int].0 != registers@[i as int]);
            return false;
        }
        i = i + 1;
    }
    true
}

fn names_numbers<V>(list: &[(u32, V)], count: usize) -> (r: bool)
    requires
        count <= u32::MAX,
    ensures
        r == names_from_zero(list@, count as nat),
{
    if list.len() != count {
        return false;
    }
    let mut i: usize = 0;
    while i < list.len()
        invariant
            i <= list@.len(),
            list@.len() == count,
            count <= u32::MAX,
            forall|j: int| 0 <= j < i ==> (#[trigger] list@[j]).0 == j,
        decreases list@.len() - i,
    {
        if list[i].0 != i as u32 {
            assert(list@[i as int].0 != i);
            return false;
        }
        i = i + 1;
    }
    true
}

/// The complete state of one virtual CPU. Registers are kept with their numbers, so that a state of
/// another make is told apart.
#[derive(Clone, Debug)]
pub struct HvfVcpuState {
    pub general: Vec<(u32, u64)>,
    pub simd: Vec<(u32, u128)>,
    pub system: Vec<(u16, u64)>,
    pub icc: Vec<(u16, u64)>,
    pub ich: Vec<(u16, u64)>,
    pub pending_irq: bool,
    pub pending_fiq: bool,
    pub vtimer_mask: bool,
    pub vtimer_offset: u64,
    pub pending_advance_pc: bool,
    pub nested_enabled: bool,
}

impl HvfVcpuState {
    /// The registers are the ones of such a virtual CPU, each once and in order.
    pub open spec fn topology(self, nested_enabled: bool) -> bool {
        &&& self.nested_enabled == nested_enabled
        &&& names_from_zero(self.general@, GENERAL_REGISTER_COUNT as nat)
        &&& names_from_zero(self.simd@, SIMD_REGISTER_COUNT as nat)
        &&& names(self.system@, system_registers(nested_enabled))
        &&& names(self.icc@, gic_icc_registers(nested_enabled))
        &&& names(self.ich@, gic_ich_registers(nested_enabled))
    }

    /// Rebases the saved virtual counter by the VM-wide host-counter displacement. Every virtual
    /// CPU must receive the same displacement before any of them resumes.
    pub fn rebase_timer_offset(&mut self, displacement: u64)
        ensures
            *final(self) == (HvfVcpuState {
                vtimer_offset: rebased(old(self).vtimer_offset, displacement),
                ..*old(self)
            }),
    {
        self.vtimer_offset = self.vtimer_offset.wrapping_add(displacement);
    }

    /// Whether the registers are the ones of such a virtual CPU.
    pub fn has_register_topology(&self, nested_enabled: bool) -> (r: bool)
        ensures
            r == self.topology(nested_enabled),
    {
        let system: Vec<u16> = state_system_registers(nested_enabled);
        let icc: Vec<u16> = state_icc_registers(nested_enabled);
        let ich: Vec<u16> = state_ich_registers(nested_enabled);
        self.nested_enabled == nested_enabled && names_numbers(
            self.general.as_slice(),
            GENERAL_REGISTER_COUNT,
        ) && names_numbers(self.simd.as_slice(), SIMD_REGISTER_COUNT) && names_registers(
            self.system.as_slice(),
            system.as_slice(),
        ) && names_registers(self.icc.as_slice(), icc.as_slice()) && names_registers(
            self.ich.as_slice(),
            ich.as_slice(),
        )
    }
}

/// A counter offset moved on, around its end.
pub open spec fn rebased(offset: u64, displacement: u64) -> u64 {
    ((offset + displacement) % 0x1_0000_0000_0000_0000) as u64
}

/// Rebasing every virtual CPU by the same displacement keeps their offsets apart as they were:
/// those that agreed agree, and moving back restores them.
pub proof fn rebasing_keeps_counters_together(a: u64, b: u64, displacement: u64, back: u64)
    requires
        displacement + back == 0x1_0000_0000_0000_0000,
    ensures
        a == b <==> rebased(a, displacement) == rebased(b, displacement),
        rebased(rebased(a, displacement), back) == a,
{
}

/// A state has the registers of one kind of virtual CPU at most.
pub proof fn topology_tells_nested_apart(state: HvfVcpuState)
    ensures
        !(state.topology(true) && state.topology(false)),
{
}

/// The numbers of the registers are their places in the architecture.
pub proof fn register_numbers_follow_the_encoding()
    ensures
        HV_SYS_REG_SCTLR_EL1 == encoding(3, 0, 1, 0, 0),
        HV_SYS_REG_ACTLR_EL1 == encoding(3, 0, 1, 0, 1),
        HV_SYS_REG_CPACR_EL1 == encoding(3, 0, 1, 0, 2),
        HV_SYS_REG_TTBR0_EL1 == encoding(3, 0, 2, 0, 0),
        HV_SYS_REG_TTBR1_EL1 == encoding(3, 0, 2, 0, 1),
        HV_SYS_REG_TCR_EL1 == encoding(3, 0, 2, 0, 2),
        HV_SYS_REG_APIAKEYLO_EL1 == encoding(3, 0, 2, 1, 0),
        HV_SYS_REG_APIAKEYHI_EL1 == encoding(3, 0, 2, 1, 1),
        HV_SYS_REG_APIBKEYLO_EL1 == encoding(3, 0, 2, 1, 2),
        HV_SYS_REG_APIBKEYHI_EL1 == encoding(3, 0, 2, 1, 3),
        HV_SYS_REG_APDAKEYLO_EL1 == encoding(3, 0, 2, 2, 0),
        HV_SYS_REG_APDAKEYHI_EL1 == encoding(3, 0, 2, 2, 1),
        HV_SYS_REG_APDBKEYLO_EL1 == encoding(3, 0, 2, 2, 2),
        HV_SYS_REG_APDBKEYHI_EL1 == encoding(3, 0, 2, 2, 3),
        HV_SYS_REG_APGAKEYLO_EL1 == encoding(3, 0, 2, 3, 0),
        HV_SYS_REG_APGAKEYHI_EL1 == encoding(3, 0, 2, 3, 1),
        HV_SYS_REG_SPSR_EL1 == encoding(3, 0, 4, 0, 0),
        HV_SYS_REG_ELR_EL1 == encoding(3, 0, 4, 0, 1),
        HV_SYS_REG_SP_EL0 == encoding(3, 0, 4, 1, 0),
        HV_SYS_REG_SP_EL1 == encoding(3, 4, 4, 1, 0),
        HV_SYS_REG_AFSR0_EL1 == encoding(3, 0, 5, 1, 0),
        HV_SYS_REG_AFSR1_EL1 == encoding(3, 0, 5, 1, 1),
        HV_SYS_REG_ESR_EL1 == encoding(3, 0, 5, 2, 0),
        HV_SYS_REG_FAR_EL1 == encoding(3, 0, 6, 0, 0),
        HV_SYS_REG_PAR_EL1 == encoding(3, 0, 7, 4, 0),
        HV_SYS_REG_MAIR_EL1 == encoding(3, 0, 10, 2, 0),
        HV_SYS_REG_AMAIR_EL1 == encoding(3, 0, 10, 3, 0),
        HV_SYS_REG_VBAR_EL1 == encoding(3, 0, 12, 0, 0),
        HV_SYS_REG_CONTEXTIDR_EL1 == encoding(3, 0, 13, 0, 1),
        HV_SYS_REG_TPIDR_EL1 == encoding(3, 0, 13, 0, 4),
        HV_SYS_REG_TPIDR_EL0 == encoding(3, 3, 13, 0, 2),
        HV_SYS_REG_TPIDRRO_EL0 == encoding(3, 3, 13, 0, 3),
        HV_SYS_REG_CNTKCTL_EL1 == encoding(3, 0, 14, 1, 0),
        HV_SYS_REG_CSSELR_EL1 == encoding(3, 2, 0, 0, 0),
        HV_SYS_REG_CNTV_CTL_EL0 == encoding(3, 3, 14, 3, 1),
        HV_SYS_REG_CNTV_CVAL_EL0 == encoding(3, 3, 14, 3, 2),
        HV_SYS_REG_CNTP_CTL_EL0 == encoding(3, 3, 14, 2, 1),
        HV_SYS_REG_CNTP_CVAL_EL0 == encoding(3, 3, 14, 2, 2),
        HV_SYS_REG_CNTHCTL_EL2 == encoding(3, 4, 14, 1, 0),
        HV_SYS_REG_CNTHP_CTL_EL2 == encoding(3, 4, 14, 2, 1),
        HV_SYS_REG_CNTHP_CVAL_EL2 == encoding(3, 4, 14, 2, 2),
        HV_SYS_REG_CNTVOFF_EL2 == encoding(3, 4, 14, 0, 3),
        HV_SYS_REG_CPTR_EL2 == encoding(3, 4, 1, 1, 2),
        HV_SYS_REG_ELR_EL2 == encoding(3, 4, 4, 0, 1),
        HV_SYS_REG_ESR_EL2 == encoding(3, 4, 5, 2, 0),
        HV_SYS_REG_FAR_EL2 == encoding(3, 4, 6, 0, 0),
        HV_SYS_REG_HCR_EL2 == encoding(3, 4, 1, 1, 0),
        HV_SYS_REG_HPFAR_EL2 == encoding(3, 4, 6, 0, 4),
        HV_SYS_REG_MAIR_EL2 == encoding(3, 4, 10, 2, 0),
        HV_SYS_REG_MDCR_EL2 == encoding(3, 4, 1, 1, 1),
        HV_SYS_REG_SCTLR_EL2 == encoding(3, 4, 1, 0, 0),
        HV_SYS_REG_SPSR_EL2 == encoding(3, 4, 4, 0, 0),
        HV_SYS_REG_SP_EL2 == encoding(3, 6, 4, 1, 0),
        HV_SYS_REG_TCR_EL2 == encoding(3, 4, 2, 0, 2),
        HV_SYS_REG_TPIDR_EL2 == encoding(3, 4, 13, 0, 2),
        HV_SYS_REG_TTBR0_EL2 == encoding(3, 4, 2, 0, 0),
        HV_SYS_REG_TTBR1_EL2 == encoding(3, 4, 2, 0, 1),
        HV_SYS_REG_VBAR_EL2 == encoding(3, 4, 12, 0, 0),
        HV_SYS_REG_VMPIDR_EL2 == encoding(3, 4, 0, 0, 5),
        HV_SYS_REG_VPIDR_EL2 == encoding(3, 4, 0, 0, 0),
        HV_SYS_REG_VTCR_EL2 == encoding(3, 4, 2, 1, 2),
        HV_SYS_REG_VTTBR_EL2 == encoding(3, 4, 2, 1, 0),
        HV_SYS_REG_MPIDR_EL1 == encoding(3, 0, 0, 0, 5),
        HV_SYS_REG_ID_AA64PFR0_EL1 == encoding(3, 0, 0, 4, 0),
        HV_SYS_REG_ID_AA64PFR1_EL1 == encoding(3, 0, 0, 4, 1),
        HV_GIC_ICC_REG_CTLR_EL1 == encoding(3, 0, 12, 12, 4),
        HV_GIC_ICC_REG_PMR_EL1 == encoding(3, 0, 4, 6, 0),
        HV_GIC_ICC_REG_BPR0_EL1 == encoding(3, 0, 12, 8, 3),
        HV_GIC_ICC_REG_BPR1_EL1 == encoding(3, 0, 12, 12, 3),
        HV_GIC_ICC_REG_AP0R0_EL1 == encoding(3, 0, 12, 8, 4),
        HV_GIC_ICC_REG_AP1R0_EL1 == encoding(3, 0, 12, 9, 0),
        HV_GIC_ICC_REG_SRE_EL1 == encoding(3, 0, 12, 12, 5),
        HV_GIC_ICC_REG_IGRPEN0_EL1 == encoding(3, 0, 12, 12, 6),
        HV_GIC_ICC_REG_IGRPEN1_EL1 == encoding(3, 0, 12, 12, 7),
        HV_GIC_ICC_REG_RPR_EL1 == encoding(3, 0, 12, 11, 3),
        HV_GIC_ICC_REG_SRE_EL2 == encoding(3, 4, 12, 9, 5),
        HV_GIC_ICH_REG_AP0R0_EL2 == encoding(3, 4, 12, 8, 0),
        HV_GIC_ICH_REG_AP1R0_EL2 == encoding(3, 4, 12, 9, 0),
        HV_GIC_ICH_REG_VMCR_EL2 == encoding(3, 4, 12, 11, 7),
        HV_GIC_ICH_REG_LR0_EL2 == encoding(3, 4, 12, 12, 0),
        HV_GIC_ICH_REG_LR1_EL2 == encoding(3, 4, 12, 12, 1),
        HV_GIC_ICH_REG_LR2_EL2 == encoding(3, 4, 12, 12, 2),
        HV_GIC_ICH_REG_LR3_EL2 == encoding(3, 4, 12, 12, 3),
        HV_GIC_ICH_REG_LR4_EL2 == encoding(3, 4, 12, 12, 4),
        HV_GIC_ICH_REG_LR5_EL2 == encoding(3, 4, 12, 12, 5),
        HV_GIC_ICH_REG_LR6_EL2 == encoding(3, 4, 12, 12, 6),
        HV_GIC_ICH_REG_LR7_EL2 == encoding(3, 4, 12, 12, 7),
        HV_GIC_ICH_REG_LR8_EL2 == encoding(3, 4, 12, 13, 0),
        HV_GIC_ICH_REG_LR9_EL2 == encoding(3, 4, 12, 13, 1),
        HV_GIC_ICH_REG_LR10_EL2 == encoding(3, 4, 12, 13, 2),
        HV_GIC_ICH_REG_LR11_EL2 == encoding(3, 4, 12, 13, 3),
        HV_GIC_ICH_REG_LR12_EL2 == encoding(3, 4, 12, 13, 4),
        HV_GIC_ICH_REG_LR13_EL2 == encoding(3, 4, 12, 13, 5),
        HV_GIC_ICH_REG_LR14_EL2 == encoding(3, 4, 12, 13, 6),
        HV_GIC_ICH_REG_LR15_EL2 == encoding(3, 4, 12, 13, 7),
        HV_GIC_ICH_REG_HCR_EL2 == encoding(3, 4, 12, 11, 0),
{
}

/// Rebasing moves an offset on by the displacement, around its end.
pub proof fn rebasing_adds_the_displacement(
    state: &mut HvfVcpuState,
    displacement: u64,
)
    requires
        call_ensures(HvfVcpuState::rebase_timer_offset, (state, displacement), ()),
    ensures
        final(state).vtimer_offset == old(state).vtimer_offset + displacement
            || final(state).vtimer_offset
            == old(state).vtimer_offset + displacement - 0x1_0000_0000_0000_0000,
        *final(state) == (HvfVcpuState { vtimer_offset: final(state).vtimer_offset, ..*old(state) }),
{
}

/// A CPU that runs virtual machines itself has the registers of one that does not, and more: its
/// system registers stand before the further ones, and its interrupt registers behind one more.
pub proof fn nested_cpus_have_further_registers(
    plain: Vec<u16>,
    nested: Vec<u16>,
    icc: Vec<u16>,
    nested_icc: Vec<u16>,
    ich: Vec<u16>,
    nested_ich: Vec<u16>,
    i: int,
)
    requires
        call_ensures(state_system_registers, (false,), plain),
        call_ensures(state_system_registers, (true,), nested),
        call_ensures(state_icc_registers, (false,), icc),
        call_ensures(state_icc_registers, (true,), nested_icc),
        call_ensures(state_ich_registers, (false,), ich),
        call_ensures(state_ich_registers, (true,), nested_ich),
    ensures
        plain@.len() == 38 && nested@.len() == 62,
        icc@.len() == 9 && nested_icc@.len() == 10,
        ich@.len() == 0 && nested_ich@.len() == 20,
        0 <= i < 38 ==> nested@[i] == plain@[i],
        0 <= i < 9 ==> nested_icc@[i + 1] == icc@[i],
        0 <= i < 16 ==> nested_ich@[i + 3] == 0xe660 + i,
{
}

/// A state fits where it is of the same kind and holds each register once, under its number and in
/// order.
pub proof fn fitting_states_hold_every_register(
    state: HvfVcpuState,
    nested: bool,
    r: bool,
    system: Vec<u16>,
    icc: Vec<u16>,
    ich: Vec<u16>,
    i: int,
)
    requires
        call_ensures(HvfVcpuState::has_register_topology, (&state, nested), r),
        call_ensures(state_system_registers, (nested,), system),
        call_ensures(state_icc_registers, (nested,), icc),
        call_ensures(state_ich_registers, (nested,), ich),
        r,
    ensures
        state.nested_enabled == nested,
        state.general@.len() == 35 && state.simd@.len() == 32,
        0 <= i < 35 ==> state.general@[i].0 == i,
        0 <= i < 32 ==> state.simd@[i].0 == i,
        state.system@.len() == system@.len() && state.icc@.len() == icc@.len() && state.ich@.len()
            == ich@.len(),
        0 <= i < system@.len() ==> state.system@[i].0 == system@[i],
        0 <= i < icc@.len() ==> state.icc@[i].0 == icc@[i],
        0 <= i < ich@.len() ==> state.ich@[i].0 == ich@[i],
{
}

} // verus!
