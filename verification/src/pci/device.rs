//! What the bus asks of a PCI device.

use vstd::prelude::*;

verus! {

/// The kind of memory behind a BAR.
#[derive(Clone, Copy, Debug, PartialEq, Eq, Structural)]
pub enum PciBarRegionType {
    Memory32BitRegion,
    IoRegion,
    Memory64BitRegion,
}

/// A BAR that the guest moves.
#[derive(Clone, Copy, Debug, PartialEq, Eq, Structural)]
pub struct BarReprogrammingParams {
    pub old_base: u64,
    pub new_base: u64,
    pub len: u64,
    pub region_type: PciBarRegionType,
}

/// A PCI device. What a register may read as, and what a write does, is up to the device.
pub trait PciDevice: Sized {
    /// A read of a register may give this value: any, unless the device says more.
    open spec fn reads(&self, reg_idx: usize, value: u32) -> bool {
        true
    }

    /// A write to a register may leave the device like this, and ask for these BAR moves: in any
    /// way, unless the device says more.
    open spec fn wrote(
        &self,
        reg_idx: usize,
        offset: u64,
        data: Seq<u8>,
        after: &Self,
        moves: Seq<BarReprogrammingParams>,
    ) -> bool {
        true
    }

    /// Taking back the old address of a BAR may leave the device like this: in any way, unless the
    /// device says more.
    open spec fn restored(&self, params: BarReprogrammingParams, after: &Self) -> bool {
        true
    }

    /// Sets a register in the configuration space.
    fn write_config_register(&mut self, reg_idx: usize, offset: u64, data: &[u8]) -> (moves: Vec<
        BarReprogrammingParams,
    >)
        ensures
            old(self).wrote(reg_idx, offset, data@, final(self), moves@),
    ;

    /// Gets a register from the configuration space.
    fn read_config_register(&self, reg_idx: usize) -> (value: u32)
        ensures
            self.reads(reg_idx, value),
    ;

    /// Reads from a BAR region mapped into the device. Without one nothing is read.
    fn read_bar(&mut self, _base: u64, _offset: u64, _data: &mut [u8])
        default_ensures
            *final(self) == *old(self),
            final(_data)@ == old(_data)@,
    {
    }

    /// Writes to a BAR region mapped into the device. Without one nothing is written.
    fn write_bar(&mut self, _base: u64, _offset: u64, _data: &[u8])
        default_ensures
            *final(self) == *old(self),
    {
    }

    /// Relocates the BAR to a different address in guest address space.
    fn move_bar(&mut self, _old_base: u64, _new_base: u64) -> (r: Result<(), std::io::Error>)
        default_ensures
            *final(self) == *old(self),
            r is Ok,
    {
        Ok(())
    }

    /// Restores a BAR address in the configuration space after a failed move.
    fn restore_bar_addr(&mut self, params: &BarReprogrammingParams)
        ensures
            old(self).restored(*params, final(self)),
    ;

    /// A unique identifier, if the device has one.
    fn id(&self) -> Option<String>;
}

/// Whoever maps BARs into the guest's address space.
pub trait DeviceRelocation<D: PciDevice> {
    /// A move of a BAR may turn the device `before` into `after`, and go well or not: in any way,
    /// unless more is said.
    open spec fn moved(
        &self,
        old_base: u64,
        new_base: u64,
        len: u64,
        region_type: PciBarRegionType,
        before: D,
        after: D,
        ok: bool,
    ) -> bool {
        true
    }

    /// The BAR needs to be moved to a different location in the guest address space.
    fn move_bar(
        &self,
        old_base: u64,
        new_base: u64,
        len: u64,
        pci_dev: &mut D,
        region_type: PciBarRegionType,
    ) -> (r: Result<(), std::io::Error>)
        ensures
            self.moved(
                old_base,
                new_base,
                len,
                region_type,
                *old(pci_dev),
                *final(pci_dev),
                r is Ok,
            ),
    ;
}

} // verus!
