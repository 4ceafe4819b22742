//! The guest's address map on 64-bit ARM.

use vstd::prelude::*;

verus! {

/// Start of RAM when loading an EFI firmware.
pub const DRAM_MEM_START_EFI: u64 = 0x4000_0000;

/// Start of RAM when loading a kernel.
pub const DRAM_MEM_START_KERNEL: u64 = 0x8000_0000;

/// The maximum addressable RAM address.
pub const DRAM_MEM_END: u64 = 0x00ff_8000_0000;

/// The maximum RAM size.
pub const DRAM_MEM_MAX_SIZE: u64 = DRAM_MEM_END - DRAM_MEM_START_KERNEL;

/// Kernel command line maximum size.
pub const CMDLINE_MAX_SIZE: usize = 16 * 1024;

/// Maximum size of the device tree blob.
pub const FDT_MAX_SIZE: usize = 0x20_0000;

/// First usable interrupt.
pub const IRQ_BASE: u32 = 32;

/// Last usable interrupt.
pub const IRQ_MAX: u32 = 223;

/// Secure timer interrupt.
pub const GTIMER_SEC: u32 = 13;

/// Hypervisor timer interrupt.
pub const GTIMER_HYP: u32 = 14;

/// Virtual timer interrupt.
pub const GTIMER_VIRT: u32 = 11;

/// Physical timer interrupt.
pub const GTIMER_PHYS: u32 = 12;

/// The virtual timer interrupt as the interrupt controller numbers it.
pub const VTIMER_IRQ: u32 = GTIMER_VIRT + 16;

/// Below this address resides the interrupt controller, above it the MMIO devices.
pub const MAPPED_IO_START: u64 = 0x0a00_0000;

/// 32-bit PCI MMIO / BAR aperture.
pub const PCIE_MMIO32_BASE: u64 = 0x1000_0000;

/// Size of the 32-bit aperture, which ends where the configuration window starts.
pub const PCIE_MMIO32_SIZE: u64 = 0x2000_0000;

/// PCIe configuration window.
pub const PCIE_ECAM_BASE: u64 = 0x3000_0000;

/// Size of the configuration window: one MiB for every bus.
pub const PCIE_ECAM_SIZE: u64 = 0x0020_0000;

/// Highest bus number that the configuration window can address.
pub const PCIE_MAX_BUS: u8 = 1;

/// 64-bit high PCI MMIO / BAR aperture.
pub const PCIE_MMIO64_BASE: u64 = 0x40_0000_0000;

/// Size of the 64-bit aperture.
pub const PCIE_MMIO64_SIZE: u64 = 0x40_0000_0000;

/// The address to put the SMBIOS contents, if present.
pub const SMBIOS_START: u64 = 0x4000_f000;

/// Where the PC register will point after a reset.
pub const RESET_VECTOR: u64 = 0x0;

/// The address to load the firmware, if present.
pub const FIRMWARE_START: u64 = 0;

/// The windows of the PCIe host bridge do not overlap each other, the interrupt controller or the
/// firmware's RAM, and the highest bus is the last one whose configuration fits in its window.
pub proof fn pcie_windows_are_apart()
    ensures
        MAPPED_IO_START < PCIE_MMIO32_BASE,
        PCIE_MMIO32_BASE + PCIE_MMIO32_SIZE == PCIE_ECAM_BASE,
        PCIE_ECAM_BASE + PCIE_ECAM_SIZE <= DRAM_MEM_START_EFI,
        DRAM_MEM_START_KERNEL < PCIE_MMIO64_BASE,
        (PCIE_MAX_BUS + 1) * 0x10_0000 == PCIE_ECAM_SIZE,
{
}

} // verus!
