//! The root bus, the bus behind its root port, and the guest's window on their configuration.

use crate::pci::device::{BarReprogrammingParams, DeviceRelocation, PciDevice};
use crate::pci::root_port::{byte_of, register_byte};
use std::collections::HashMap;
use vstd::prelude::*;

verus! {

/// The device number of a bus' root bridge.
pub const PCI_ROOT_DEVICE_ID: u8 = 0;

/// The maximum number of devices on a bus.
pub const NUM_DEVICE_IDS: u8 = 32;

/// Vendor of the host bridge.
pub const VENDOR_ID_AMAZON: u16 = 0x1d0f;

/// The host bridge.
pub const DEVICE_ID_AMAZON_HOST_BRIDGE: u16 = 0x0200;

/// The class of bridges.
pub const CLASS_BRIDGE_DEVICE: u8 = 0x06;

/// The subclass of host bridges.
pub const SUBCLASS_HOST_BRIDGE: u8 = 0x00;

/// What a device says that it is.
#[derive(Clone, Copy, Debug, PartialEq, Eq, Structural)]
pub struct PciIdentity {
    pub vendor_id: u16,
    pub device_id: u16,
    pub revision_id: u8,
    pub class_code: u8,
    pub subclass: u8,
    pub subsystem_vendor_id: u16,
    pub subsystem_id: u16,
}

/// What the host bridge says that it is, unless it is given a configuration of its own.
pub fn host_bridge_identity() -> (r: PciIdentity)
    ensures
        r == (PciIdentity {
            vendor_id: VENDOR_ID_AMAZON,
            device_id: DEVICE_ID_AMAZON_HOST_BRIDGE,
            revision_id: 0,
            class_code: CLASS_BRIDGE_DEVICE,
            subclass: SUBCLASS_HOST_BRIDGE,
            subsystem_vendor_id: 0,
            subsystem_id: 0,
        }),
{
    PciIdentity {
        vendor_id: VENDOR_ID_AMAZON,
        device_id: DEVICE_ID_AMAZON_HOST_BRIDGE,
        revision_id: 0,
        class_code: CLASS_BRIDGE_DEVICE,
        subclass: SUBCLASS_HOST_BRIDGE,
        subsystem_vendor_id: 0,
        subsystem_id: 0,
    }
}

/// Errors of the root bus.
#[derive(Clone, Copy, Debug, PartialEq, Eq, Structural)]
pub enum PciRootError {
    /// Could not find an available device slot on the bus.
    NoPciDeviceSlotAvailable,
    /// Invalid device identifier provided.
    InvalidPciDeviceSlot(usize),
    /// Valid device identifier but already used.
    AlreadyInUsePciDeviceSlot(usize),
}

/// The root bridge: its configuration space and nothing else.
pub struct PciRoot<C> {
    pub config: C,
}

impl<C: PciDevice> PciRoot<C> {
    /// A root bridge with a configuration space.
    pub fn new(config: C) -> (r: PciRoot<C>)
        ensures
            r.config == config,
    {
        PciRoot { config }
    }
}

impl<C: PciDevice> PciDevice for PciRoot<C> {
    open spec fn reads(&self, reg_idx: usize, value: u32) -> bool {
        self.config.reads(reg_idx, value)
    }

    open spec fn wrote(
        &self,
        reg_idx: usize,
        offset: u64,
        data: Seq<u8>,
        after: &Self,
        moves: Seq<BarReprogrammingParams>,
    ) -> bool {
        self.config.wrote(reg_idx, offset, data, &after.config, moves)
    }

    open spec fn restored(&self, params: BarReprogrammingParams, after: &Self) -> bool {
        *after == *self
    }

    fn write_config_register(&mut self, reg_idx: usize, offset: u64, data: &[u8]) -> (moves: Vec<
        BarReprogrammingParams,
    >)
    {
        self.config.write_config_register(reg_idx, offset, data)
    }

    fn read_config_register(&self, reg_idx: usize) -> (value: u32)
    {
        self.config.read_config_register(reg_idx)
    }

    fn restore_bar_addr(&mut self, _params: &BarReprogrammingParams) {
    }

    fn id(&self) -> Option<String> {
        None
    }
}

/// Whether `after` is what one BAR move makes of the device `before`: a move that goes well, or one
/// that fails and after which the device takes the old address back.
pub open spec fn moved_once<D: PciDevice, R: DeviceRelocation<D>>(
    relocation: R,
    params: BarReprogrammingParams,
    before: D,
    after: D,
) -> bool {
    ||| move_ends(relocation, params, before, after, true)
    ||| exists|middle: D| #[trigger]
        move_ends(relocation, params, before, middle, false) && middle.restored(params, &after)
}

/// The move that `params` asks for may turn `before` into `after`, and go well or not.
pub open spec fn move_ends<D: PciDevice, R: DeviceRelocation<D>>(
    relocation: R,
    params: BarReprogrammingParams,
    before: D,
    after: D,
    ok: bool,
) -> bool {
    relocation.moved(
        params.old_base,
        params.new_base,
        params.len,
        params.region_type,
        before,
        after,
        ok,
    )
}

/// The devices that BAR moves lead through, one after the other.
pub open spec fn moves_through<D: PciDevice, R: DeviceRelocation<D>>(
    relocation: R,
    moves: Seq<BarReprogrammingParams>,
    states: Seq<D>,
) -> bool {
    &&& states.len() == moves.len() + 1
    &&& forall|i: int|
        0 <= i < moves.len() ==> moved_once(
            relocation,
            #[trigger] moves[i],
            states[i],
            states[i + 1],
        )
}

/// Whether `after` is what a list of BAR moves makes of the device `before`.
pub open spec fn moved_all<D: PciDevice, R: DeviceRelocation<D>>(
    relocation: R,
    moves: Seq<BarReprogrammingParams>,
    before: D,
    after: D,
) -> bool {
    exists|states: Seq<D>| #[trigger]
        moves_through(relocation, moves, states) && states[0] == before && states.last() == after
}

/// What a device number is used for.
#[derive(Clone, Copy, Debug, PartialEq, Eq, Structural)]
pub enum DeviceIdState {
    Free,
    Reserved,
    Allocated,
}

/// The devices of the root bus and of the bus behind its root port.
pub struct PciBus<D> {
    devices: HashMap<u8, D>,
    secondary: HashMap<u8, D>,
    bridge_slot: Option<u8>,
    device_ids: Vec<DeviceIdState>,
}

/// Where an access to the configuration window goes.
#[derive(Clone, Copy, Debug, PartialEq, Eq, Structural)]
pub struct ConfigAddress {
    pub bus: usize,
    pub device: usize,
    pub function: usize,
    pub register: usize,
}

/// The bus, device, function and register of an address in the configuration window.
pub open spec fn config_address(address: u32) -> ConfigAddress {
    ConfigAddress {
        bus: (address / 0x10_0000 % 0x100) as usize,
        device: (address / 0x8000 % 0x20) as usize,
        function: (address / 0x1000 % 0x8) as usize,
        register: (address / 4 % 0x400) as usize,
    }
}

/// A field of an address.
pub fn shift_and_mask(value: u32, offset: usize, mask: u32) -> (r: usize)
    requires
        offset < 32,
    ensures
        r == (value >> (offset as u32)) & mask,
{
    ((value >> (offset as u32)) & mask) as usize
}

/// The bus, device, function and register of an address in the configuration window.
pub fn parse_mmio_config_address(address: u32) -> (r: ConfigAddress)
    ensures
        r == config_address(address),
{
    assert((address >> 20u32) & 0xff == address / 0x10_0000 % 0x100 && (address >> 15u32) & 0x1f
        == address / 0x8000 % 0x20 && (address >> 12u32) & 0x7 == address / 0x1000 % 0x8 && (address
        >> 2u32) & 0x3ff == address / 4 % 0x400) by (bit_vector);
    ConfigAddress {
        bus: shift_and_mask(address, 20, 0xff),
        device: shift_and_mask(address, 15, 0x1f),
        function: shift_and_mask(address, 12, 0x07),
        register: shift_and_mask(address, 2, 0x3ff),
    }
}

/// Which of the two buses.
#[derive(Clone, Copy, Debug, PartialEq, Eq, Structural)]
pub enum BusSide {
    Root,
    Secondary,
}

impl<D: PciDevice> PciBus<D> {
    /// The devices on the root bus.
    pub closed spec fn root_devices(self) -> Map<u8, D> {
        self.devices@
    }

    /// The devices behind the root port.
    pub closed spec fn secondary_devices(self) -> Map<u8, D> {
        self.secondary@
    }

    /// The slot of the root port.
    pub closed spec fn bridge(self) -> Option<u8> {
        self.bridge_slot
    }

    /// What every device number is used for.
    pub closed spec fn ids(self) -> Seq<DeviceIdState> {
        self.device_ids@
    }

    /// Every device number is accounted for.
    pub open spec fn wf(self) -> bool {
        self.ids().len() == NUM_DEVICE_IDS
    }

    /// The devices of one side.
    pub open spec fn side(self, side: BusSide) -> Map<u8, D> {
        match side {
            BusSide::Root => self.root_devices(),
            BusSide::Secondary => self.secondary_devices(),
        }
    }

    /// A bus with its root bridge as the only device.
    pub fn new(pci_root: D) -> (r: PciBus<D>)
        ensures
            r.wf(),
            r.root_devices() == Map::<u8, D>::empty().insert(PCI_ROOT_DEVICE_ID, pci_root),
            r.secondary_devices() == Map::<u8, D>::empty(),
            r.bridge() is None,
            r.ids()[0] == DeviceIdState::Allocated,
            forall|i: int| 1 <= i < NUM_DEVICE_IDS ==> #[trigger] r.ids()[i] == DeviceIdState::Free,
    {
        broadcast use vstd::std_specs::hash::group_hash_axioms;

        let mut devices: HashMap<u8, D> = HashMap::new();
        devices.insert(PCI_ROOT_DEVICE_ID, pci_root);
        let mut device_ids: Vec<DeviceIdState> = Vec::new();
        device_ids.push(DeviceIdState::Allocated);
        while device_ids.len() < NUM_DEVICE_IDS as usize
            invariant
                1 <= device_ids@.len() <= NUM_DEVICE_IDS,
                device_ids@[0] == DeviceIdState::Allocated,
                forall|i: int|
                    1 <= i < device_ids@.len() ==> #[trigger] device_ids@[i] == DeviceIdState::Free,
            decreases NUM_DEVICE_IDS - device_ids@.len(),
        {
            device_ids.push(DeviceIdState::Free);
        }
        PciBus { devices, secondary: HashMap::new(), bridge_slot: None, device_ids }
    }

    /// Puts a device on the root bus. One that was in its slot goes.
    pub fn add_device(&mut self, device_id: u8, device: D) -> (r: Result<(), PciRootError>)
        ensures
            r is Ok,
            final(self).root_devices() == old(self).root_devices().insert(device_id, device),
            final(self).secondary_devices() == old(self).secondary_devices(),
            final(self).bridge() == old(self).bridge(),
            final(self).ids() == old(self).ids(),
    {
        broadcast use vstd::std_specs::hash::group_hash_axioms;

        let _ = self.devices.insert(device_id, device);
        Ok(())
    }

    /// Registers a root-port bridge on the root bus at `slot` and records it as the bridge that
    /// fronts the secondary bus.
    pub fn add_bridge(&mut self, slot: u8, device: D)
        requires
            old(self).wf(),
            slot < NUM_DEVICE_IDS,
        ensures
            final(self).wf(),
            final(self).root_devices() == old(self).root_devices().insert(slot, device),
            final(self).secondary_devices() == old(self).secondary_devices(),
            final(self).bridge() == Some(slot),
            final(self).ids() == old(self).ids().update(slot as int, DeviceIdState::Allocated),
    {
        broadcast use vstd::std_specs::hash::group_hash_axioms;

        let _ = self.devices.insert(slot, device);
        self.device_ids[slot as usize] = DeviceIdState::Allocated;
        self.bridge_slot = Some(slot);
    }

    /// Attaches a device to the secondary bus behind the root port, at `slot`.
    pub fn add_secondary_device(&mut self, slot: u8, device: D)
        ensures
            final(self).secondary_devices() == old(self).secondary_devices().insert(slot, device),
            final(self).root_devices() == old(self).root_devices(),
            final(self).bridge() == old(self).bridge(),
            final(self).ids() == old(self).ids(),
    {
        broadcast use vstd::std_specs::hash::group_hash_axioms;

        let _ = self.secondary.insert(slot, device);
    }

    /// The secondary bus may have this number: what the root port's register six reads as holds it
    /// in its second byte. Without a root port there is none.
    pub open spec fn secondary_is(self, number: Option<u8>) -> bool {
        match self.bridge() {
            None => number is None,
            Some(slot) => if self.root_devices().contains_key(slot) {
                exists|value: u32| #[trigger]
                    self.root_devices()[slot].reads(6, value) && number == Some(byte_of(value, 1))
            } else {
                number is None
            },
        }
    }

    /// The root port's live secondary-bus number.
    pub fn secondary_bus_number(&self) -> (r: Option<u8>)
        ensures
            self.secondary_is(r),
    {
        broadcast use vstd::std_specs::hash::group_hash_axioms;

        match self.bridge_slot {
            None => None,
            Some(slot) => match self.devices.get(&slot) {
                None => None,
                Some(device) => {
                    let value: u32 = device.read_config_register(6);
                    Some(register_byte(value, 1))
                },
            },
        }
    }

    /// The first device number that is free.
    pub open spec fn first_free(self, id: int) -> bool {
        &&& 0 <= id < self.ids().len()
        &&& self.ids()[id] == DeviceIdState::Free
        &&& forall|i: int| 0 <= i < id ==> #[trigger] self.ids()[i] != DeviceIdState::Free
    }

    /// No device number is free.
    pub open spec fn none_free(self) -> bool {
        forall|i: int| 0 <= i < self.ids().len() ==> #[trigger] self.ids()[i] != DeviceIdState::Free
    }

    /// Allocates a device number: the requested one, or else the first that is free.
    pub fn allocate_device_id(&mut self, id: Option<u8>) -> (r: Result<u8, PciRootError>)
        requires
            old(self).wf(),
        ensures
            final(self).wf(),
            final(self).root_devices() == old(self).root_devices(),
            final(self).secondary_devices() == old(self).secondary_devices(),
            final(self).bridge() == old(self).bridge(),
            r is Err ==> final(self).ids() == old(self).ids(),
            r matches Ok(n) ==> final(self).ids() == old(self).ids().update(
                n as int,
                DeviceIdState::Allocated,
            ),
            id matches Some(wanted) ==> r == if wanted >= NUM_DEVICE_IDS {
                Err::<u8, PciRootError>(PciRootError::InvalidPciDeviceSlot(wanted as usize))
            } else if old(self).ids()[wanted as int] == DeviceIdState::Allocated {
                Err(PciRootError::AlreadyInUsePciDeviceSlot(wanted as usize))
            } else {
                Ok(wanted)
            },
            id is None ==> (r is Err <==> old(self).none_free()),
            id is None && r is Err ==> r == Err::<u8, PciRootError>(
                PciRootError::NoPciDeviceSlotAvailable,
            ),
            id is None ==> (r matches Ok(n) ==> old(self).first_free(n as int)),
    {
        match id {
            Some(wanted) => {
                let idx: usize = wanted as usize;
                if wanted >= NUM_DEVICE_IDS {
                    Err(PciRootError::InvalidPciDeviceSlot(idx))
                } else if self.device_ids[idx] == DeviceIdState::Allocated {
                    Err(PciRootError::AlreadyInUsePciDeviceSlot(idx))
                } else {
                    self.device_ids[idx] = DeviceIdState::Allocated;
                    Ok(wanted)
                }
            },
            None => {
                let mut idx: u8 = 0;
                while idx < NUM_DEVICE_IDS
                    invariant
                        id is None,
                        *self == *old(self),
                        self.wf(),
                        idx <= NUM_DEVICE_IDS,
                        forall|i: int|
                            0 <= i < idx ==> #[trigger] self.device_ids@[i] != DeviceIdState::Free,
                    decreases NUM_DEVICE_IDS - idx,
                {
                    if self.device_ids[idx as usize] == DeviceIdState::Free {
                        assert(self.ids()[idx as int] == DeviceIdState::Free);
                        self.device_ids[idx as usize] = DeviceIdState::Allocated;
                        return Ok(idx);
                    }
                    idx = idx + 1;
                }
                Err(PciRootError::NoPciDeviceSlotAvailable)
            },
        }
    }

    /// The side that a bus number names: the root bus is zero, and the other one has the number
    /// that the root port was given.
    pub open spec fn side_of(bus: usize, number: Option<u8>) -> Option<BusSide> {
        if bus == 0 {
            Some(BusSide::Root)
        } else if number == Some(bus as u8) {
            Some(BusSide::Secondary)
        } else {
            None
        }
    }

    fn route(&self, bus: usize) -> (r: Option<BusSide>)
        requires
            bus < 256,
        ensures
            exists|number: Option<u8>| #[trigger]
                self.secondary_is(number) && r == Self::side_of(bus, number),
    {
        let number: Option<u8> = self.secondary_bus_number();
        assert(self.secondary_is(number));
        if bus == 0 {
            Some(BusSide::Root)
        } else {
            match number {
                Some(n) if n == bus as u8 => Some(BusSide::Secondary),
                _ => None,
            }
        }
    }

    /// A read at an address may give this value: what the device there may read as, and all ones
    /// where there is none.
    pub open spec fn reads_at(self, address: u32, number: Option<u8>, value: u32) -> bool {
        let at = config_address(address);
        match Self::side_of(at.bus, number) {
            None => value == 0xffff_ffff,
            Some(side) => if self.side(side).contains_key(at.device as u8) {
                self.side(side)[at.device as u8].reads(at.register, value)
            } else {
                value == 0xffff_ffff
            },
        }
    }

    /// Reads a register of the device at an address.
    pub fn config_space_read(&self, address: u32) -> (r: u32)
        ensures
            exists|number: Option<u8>| #[trigger]
                self.secondary_is(number) && self.reads_at(address, number, r),
    {
        broadcast use vstd::std_specs::hash::group_hash_axioms;

        let at: ConfigAddress = parse_mmio_config_address(address);
        let side: BusSide = match self.route(at.bus) {
            None => {
                return 0xffff_ffff;
            },
            Some(side) => side,
        };
        let slot: u8 = at.device as u8;
        let found = match side {
            BusSide::Root => self.devices.get(&slot),
            BusSide::Secondary => self.secondary.get(&slot),
        };
        match found {
            None => 0xffff_ffff,
            Some(device) => device.read_config_register(at.register),
        }
    }

    /// Everything but the device in one slot is the same.
    pub open spec fn same_but_slot(self, other: PciBus<D>, side: BusSide, slot: u8) -> bool {
        &&& self.bridge() == other.bridge()
        &&& self.ids() == other.ids()
        &&& self.side(side).contains_key(slot)
        &&& match side {
            BusSide::Root => {
                &&& self.root_devices() == other.root_devices().insert(
                    slot,
                    self.root_devices()[slot],
                )
                &&& self.secondary_devices() == other.secondary_devices()
            },
            BusSide::Secondary => {
                &&& self.secondary_devices() == other.secondary_devices().insert(
                    slot,
                    self.secondary_devices()[slot],
                )
                &&& self.root_devices() == other.root_devices()
            },
        }
    }

    /// The slot that a write at an address goes to, if there is a device.
    pub open spec fn target(self, address: u32, number: Option<u8>) -> Option<(BusSide, u8)> {
        let at = config_address(address);
        match Self::side_of(at.bus, number) {
            None => None,
            Some(side) => if self.side(side).contains_key(at.device as u8) {
                Some((side, at.device as u8))
            } else {
                None
            },
        }
    }

    /// A write of `data` at `offset` in a register, where the secondary bus has the given number,
    /// leaves the bus like `after` and asks for `moves`.
    pub open spec fn wrote_at(
        self,
        address: u32,
        number: Option<u8>,
        offset: u64,
        data: Seq<u8>,
        place: Option<(BusSide, u8)>,
        moves: Seq<BarReprogrammingParams>,
        after: PciBus<D>,
    ) -> bool {
        if offset + data.len() > 4 {
            after == self && place is None && moves.len() == 0
        } else {
            &&& place == self.target(address, number)
            &&& match place {
                None => after == self && moves.len() == 0,
                Some((side, slot)) => {
                    &&& after.same_but_slot(self, side, slot)
                    &&& self.side(side)[slot].wrote(
                        config_address(address).register,
                        offset,
                        data,
                        &after.side(side)[slot],
                        moves,
                    )
                },
            }
        }
    }

    /// Writes to a register of the device at an address. A write that reaches past its register is
    /// dropped. The BAR moves that the device asks for are handed out, with the place of it.
    pub fn config_space_write(&mut self, address: u32, offset: u64, data: &[u8]) -> (r: (
        Option<(BusSide, u8)>,
        Vec<BarReprogrammingParams>,
    ))
        ensures
            exists|number: Option<u8>| #[trigger]
                old(self).secondary_is(number) && old(self).wrote_at(
                    address,
                    number,
                    offset,
                    data@,
                    r.0,
                    r.1@,
                    *final(self),
                ),
    {
        broadcast use vstd::std_specs::hash::group_hash_axioms;

        let at: ConfigAddress = parse_mmio_config_address(address);
        let ghost before = *self;
        let routed: Option<BusSide> = self.route(at.bus);
        let ghost number = choose|number: Option<u8>| #[trigger]
            before.secondary_is(number) && routed == Self::side_of(at.bus, number);
        if offset > 4 || data.len() > 4 || offset as usize + data.len() > 4 {
            assert(before.wrote_at(
                address,
                number,
                offset,
                data@,
                None,
                Seq::empty(),
                *self,
            ));
            let none: Vec<BarReprogrammingParams> = Vec::new();
            assert(none@ =~= Seq::empty());
            return (None, none);
        }
        let side: BusSide = match routed {
            None => {
                let none: Vec<BarReprogrammingParams> = Vec::new();
                assert(before.wrote_at(address, number, offset, data@, None, none@, *self));
                return (None, none);
            },
            Some(side) => side,
        };
        let slot: u8 = at.device as u8;
        let taken: Option<D> = match side {
            BusSide::Root => {
                if !self.devices.contains_key(&slot) {
                    let none: Vec<BarReprogrammingParams> = Vec::new();
                    assert(before.wrote_at(address, number, offset, data@, None, none@, *self));
                    return (None, none);
                }
                self.devices.remove(&slot)
            },
            BusSide::Secondary => {
                if !self.secondary.contains_key(&slot) {
                    let none: Vec<BarReprogrammingParams> = Vec::new();
                    assert(before.wrote_at(address, number, offset, data@, None, none@, *self));
                    return (None, none);
                }
                self.secondary.remove(&slot)
            },
        };
        match taken {
            None => (None, Vec::new()),
            Some(device) => {
                let mut device: D = device;
                let moves: Vec<BarReprogrammingParams> = device.write_config_register(
                    at.register,
                    offset,
                    data,
                );
                match side {
                    BusSide::Root => {
                        let _ = self.devices.insert(slot, device);
                        assert(self.devices@ =~= before.devices@.insert(slot, device));
                    },
                    BusSide::Secondary => {
                        let _ = self.secondary.insert(slot, device);
                        assert(self.secondary@ =~= before.secondary@.insert(slot, device));
                    },
                }
                assert(before.wrote_at(
                    address,
                    number,
                    offset,
                    data@,
                    Some((side, slot)),
                    moves@,
                    *self,
                ));
                (Some((side, slot)), moves)
            },
        }
    }

    /// Moves the BARs of a device, one after the other. Where a move fails, the device takes the
    /// old address back.
    pub fn relocate<R: DeviceRelocation<D>>(
        &mut self,
        side: BusSide,
        slot: u8,
        moves: &[BarReprogrammingParams],
        relocation: &R,
    )
        requires
            old(self).side(side).contains_key(slot),
        ensures
            final(self).same_but_slot(*old(self), side, slot),
            moved_all(
                *relocation,
                moves@,
                old(self).side(side)[slot],
                final(self).side(side)[slot],
            ),
            moves@.len() == 0 ==> final(self).side(side) == old(self).side(side),
    {
        broadcast use vstd::std_specs::hash::group_hash_axioms;

        let taken: Option<D> = match side {
            BusSide::Root => self.devices.remove(&slot),
            BusSide::Secondary => self.secondary.remove(&slot),
        };
        match taken {
            None => {},
            Some(device) => {
                let mut device: D = device;
                let ghost mut states: Seq<D> = seq![device];
                let mut i: usize = 0;
                while i < moves.len()
                    invariant
                        i <= moves@.len(),
                        states[0] == old(self).side(side)[slot],
                        states.last() == device,
                        moves_through(*relocation, moves@.take(i as int), states),
                    decreases moves@.len() - i,
                {
                    let ghost before = device;
                    let params: BarReprogrammingParams = moves[i];
                    let moved = relocation.move_bar(
                        params.old_base,
                        params.new_base,
                        params.len,
                        &mut device,
                        params.region_type,
                    );
                    assert(move_ends(*relocation, params, before, device, moved is Ok));
                    if moved.is_err() {
                        device.restore_bar_addr(&params);
                    }
                    proof {
                        let earlier = states;
                        states = earlier.push(device);
                        assert forall|j: int| 0 <= j < i + 1 implies moved_once(
                            *relocation,
                            #[trigger] moves@.take(i + 1)[j],
                            states[j],
                            states[j + 1],
                        ) by {
                            if j < i {
                                assert(moves@.take(i + 1)[j] == moves@.take(i as int)[j]);
                            }
                        }
                    }
                    i = i + 1;
                }
                assert(moves@.take(i as int) =~= moves@);
                match side {
                    BusSide::Root => {
                        let _ = self.devices.insert(slot, device);
                        assert(self.devices@ =~= old(self).devices@.insert(slot, device));
                        assert(moves@.len() == 0 ==> self.devices@ =~= old(self).devices@);
                    },
                    BusSide::Secondary => {
                        let _ = self.secondary.insert(slot, device);
                        assert(self.secondary@ =~= old(self).secondary@.insert(slot, device));
                        assert(moves@.len() == 0 ==> self.secondary@ =~= old(self).secondary@);
                    },
                }
            },
        }
    }
}

/// A number that was given out is not given out again.
pub proof fn allocated_id_is_taken<D: PciDevice>(before: PciBus<D>, id: u8, after: PciBus<D>)
    requires
        before.wf(),
        id < NUM_DEVICE_IDS,
        after.ids() == before.ids().update(id as int, DeviceIdState::Allocated),
    ensures
        !after.first_free(id as int),
        after.ids()[id as int] == DeviceIdState::Allocated,
        forall|other: int|
            other != id && 0 <= other < NUM_DEVICE_IDS ==> #[trigger] after.ids()[other]
                == before.ids()[other],
{
}

/// The memory-mapped window on the configuration of all devices.
pub struct PciConfigMmio<D> {
    pub pci_bus: PciBus<D>,
}

impl<D: PciDevice> PciConfigMmio<D> {
    /// A window on a bus.
    pub fn new(pci_bus: PciBus<D>) -> (r: PciConfigMmio<D>)
        ensures
            r.pci_bus == pci_bus,
    {
        PciConfigMmio { pci_bus }
    }

    /// An access that stays inside one register, and inside the window.
    pub open spec fn inside(offset: u64, len: nat) -> bool {
        offset % 4 + len <= 4 && offset <= u32::MAX
    }

    /// Reads from the window. An access that crosses a register or leaves the window reads as all
    /// ones.
    pub fn read(&self, offset: u64, data: &mut [u8])
        ensures
            final(data)@.len() == old(data)@.len(),
            !Self::inside(offset, old(data)@.len()) ==> forall|i: int|
                0 <= i < old(data)@.len() ==> #[trigger] final(data)@[i] == 0xff,
            Self::inside(offset, old(data)@.len()) ==> exists|number: Option<u8>, value: u32| {
                &&& #[trigger] self.pci_bus.secondary_is(number)
                &&& #[trigger] self.pci_bus.reads_at(offset as u32, number, value)
                &&& forall|i: int|
                    0 <= i < old(data)@.len() ==> #[trigger] final(data)@[i] == byte_of(
                        value,
                        offset % 4 + i,
                    )
            },
    {
        let start: usize = (offset % 4) as usize;
        let len: usize = data.len();
        if len > 4 || start + len > 4 || offset > u32::MAX as u64 {
            let mut i: usize = 0;
            while i < len
                invariant
                    i <= len,
                    len == data@.len(),
                    data@.len() == old(data)@.len(),
                    forall|j: int| 0 <= j < i ==> #[trigger] data@[j] == 0xff,
                decreases len - i,
            {
                data[i] = 0xff;
                i = i + 1;
            }
            return ;
        }
        let value: u32 = self.pci_bus.config_space_read(offset as u32);
        let ghost number = choose|number: Option<u8>| #[trigger]
            self.pci_bus.secondary_is(number) && self.pci_bus.reads_at(
                offset as u32,
                number,
                value,
            );
        let mut i: usize = 0;
        while i < len
            invariant
                i <= len,
                len == data@.len(),
                start == offset % 4,
                start + len <= 4,
                data@.len() == old(data)@.len(),
                forall|j: int|
                    0 <= j < i ==> #[trigger] data@[j] == byte_of(value, start + j),
            decreases len - i,
        {
            data[i] = register_byte(value, start + i);
            i = i + 1;
        }
        assert(self.pci_bus.secondary_is(number));
        assert(self.pci_bus.reads_at(offset as u32, number, value));
    }

    /// Writes to the window, and moves the BARs that the device asks for. An access that crosses a
    /// register or leaves the window is dropped.
    pub fn write<R: DeviceRelocation<D>>(&mut self, offset: u64, data: &[u8], relocation: &R)
        ensures
            !Self::inside(offset, data@.len()) ==> *final(self) == *old(self),
            Self::inside(offset, data@.len()) ==> exists|
                number: Option<u8>,
                place: Option<(BusSide, u8)>,
                moves: Seq<BarReprogrammingParams>,
                middle: PciBus<D>,
            | {
                &&& #[trigger] old(self).pci_bus.secondary_is(number)
                &&& #[trigger] old(self).pci_bus.wrote_at(
                    offset as u32,
                    number,
                    (offset % 4) as u64,
                    data@,
                    place,
                    moves,
                    middle,
                )
                &&& match place {
                    None => final(self).pci_bus == middle,
                    Some((side, slot)) => {
                        &&& final(self).pci_bus.same_but_slot(middle, side, slot)
                        &&& moved_all(
                            *relocation,
                            moves,
                            middle.side(side)[slot],
                            final(self).pci_bus.side(side)[slot],
                        )
                        &&& moves.len() == 0 ==> final(self).pci_bus.side(side) == middle.side(side)
                    },
                }
            },
    {
        if offset > u32::MAX as u64 || data.len() > 4 || (offset % 4) as usize + data.len() > 4 {
            return ;
        }
        let (place, moves) = self.pci_bus.config_space_write(offset as u32, offset % 4, data);
        let ghost middle = self.pci_bus;
        let ghost number = choose|number: Option<u8>| #[trigger]
            old(self).pci_bus.secondary_is(number) && old(self).pci_bus.wrote_at(
                offset as u32,
                number,
                (offset % 4) as u64,
                data@,
                place,
                moves@,
                middle,
            );
        match place {
            None => {},
            Some((side, slot)) => {
                self.pci_bus.relocate(side, slot, moves.as_slice(), relocation);
            },
        }
        assert(old(self).pci_bus.secondary_is(number));
        assert(old(self).pci_bus.wrote_at(
            offset as u32,
            number,
            (offset % 4) as u64,
            data@,
            place,
            moves@,
            middle,
        ));
    }
}

/// An address in the configuration window names a bus, a device, a function and a register, each in
/// a field of its own.
pub proof fn config_addresses_have_four_fields(
    address: u32,
    r: ConfigAddress,
    above: int,
    bus: int,
    device: int,
    function: int,
    register: int,
    low: int,
)
    requires
        call_ensures(parse_mmio_config_address, (address,), r),
        address == above * 0x1000_0000 + bus * 0x10_0000 + device * 0x8000 + function * 0x1000
            + register * 4 + low,
        above >= 0,
        0 <= bus < 256,
        0 <= device < 32,
        0 <= function < 8,
        0 <= register < 1024,
        0 <= low < 4,
    ensures
        r.bus == bus,
        r.device == device,
        r.function == function,
        r.register == register,
{
    let a = address as int;
    let front = above * 0x100 + bus;
    lemma_quotient(a, front * 0x4_0000 + device * 0x2000 + function * 0x400 + register, low, 4);
    lemma_quotient(a / 4, front * 0x100 + device * 8 + function, register, 0x400);
    lemma_quotient(
        a,
        front * 0x100 + device * 8 + function,
        register * 4 + low,
        0x1000,
    );
    lemma_quotient(a / 0x1000, front * 0x20 + device, function, 8);
    lemma_quotient(a, front * 0x20 + device, function * 0x1000 + register * 4 + low, 0x8000);
    lemma_quotient(a / 0x8000, front, device, 0x20);
    lemma_quotient(
        a,
        front,
        device * 0x8000 + function * 0x1000 + register * 4 + low,
        0x10_0000,
    );
    lemma_quotient(a / 0x10_0000, above, bus, 0x100);
}

proof fn lemma_quotient(a: int, q: int, rest: int, d: int)
    requires
        d > 0,
        a == q * d + rest,
        0 <= rest < d,
    ensures
        a / d == q,
        a % d == rest,
{
    vstd::arithmetic::div_mod::lemma_fundamental_div_mod_converse(a, d, q, rest);
}

/// What the guest reads is what the device at the address reads as: one of the root bus under bus
/// number zero, one behind the root port under the number that the port was given. Where there is
/// none, all ones are read.
pub proof fn reads_reach_the_addressed_device<D: PciDevice>(
    bus: PciBus<D>,
    address: u32,
    at: ConfigAddress,
    r: u32,
)
    requires
        call_ensures(PciBus::<D>::config_space_read, (&bus, address), r),
        call_ensures(parse_mmio_config_address, (address,), at),
        bus.bridge() is None,
    ensures
        at.bus == 0 && bus.root_devices().contains_key(at.device as u8)
            ==> bus.root_devices()[at.device as u8].reads(at.register, r),
        at.bus == 0 && !bus.root_devices().contains_key(at.device as u8) ==> r == 0xffff_ffff,
        at.bus != 0 ==> r == 0xffff_ffff,
{
}

/// The same with a root port: a bus number that it was given leads to the devices behind it.
pub proof fn reads_reach_behind_the_root_port(
    bus: PciBus<crate::pci::root_port::PciRootPort>,
    address: u32,
    at: ConfigAddress,
    r: u32,
    slot: u8,
)
    requires
        call_ensures(
            PciBus::<crate::pci::root_port::PciRootPort>::config_space_read,
            (&bus, address),
            r,
        ),
        call_ensures(parse_mmio_config_address, (address,), at),
        bus.bridge() == Some(slot),
        bus.root_devices().contains_key(slot),
        bus.root_devices()[slot].wf(),
        at.bus < 256,
    ensures
        at.bus == 0 && bus.root_devices().contains_key(at.device as u8) && at.register
            < bus.root_devices()[at.device as u8].registers().len() ==> r
            == bus.root_devices()[at.device as u8].registers()[at.register as int],
        at.bus != 0 && at.bus == bus.root_devices()[slot].registers()[6] / 256 % 256
            && bus.secondary_devices().contains_key(at.device as u8) && at.register
            < bus.secondary_devices()[at.device as u8].registers().len() ==> r
            == bus.secondary_devices()[at.device as u8].registers()[at.register as int],
        at.bus != 0 && at.bus != bus.root_devices()[slot].registers()[6] / 256 % 256 ==> r
            == 0xffff_ffff,
{
    let number = choose|number: Option<u8>| #[trigger]
        bus.secondary_is(number) && bus.reads_at(address, number, r);
    let value = choose|value: u32| #[trigger]
        bus.root_devices()[slot].reads(6, value) && number == Some(byte_of(value, 1));
    assert(value == bus.root_devices()[slot].registers()[6]);
}

/// A write goes to the register of the device at the address and leaves every other device alone;
/// one that reaches past its register is dropped.
pub proof fn writes_reach_the_addressed_device<D: PciDevice>(
    bus: &mut PciBus<D>,
    address: u32,
    offset: u64,
    data: &[u8],
    at: ConfigAddress,
    r: (Option<(BusSide, u8)>, Vec<BarReprogrammingParams>),
    other: u8,
)
    requires
        call_ensures(PciBus::<D>::config_space_write, (bus, address, offset, data), r),
        call_ensures(parse_mmio_config_address, (address,), at),
        at.bus == 0,
        other != at.device as u8,
    ensures
        offset + data@.len() > 4 ==> *final(bus) == *old(bus) && r.1@.len() == 0,
        final(bus).secondary_devices() == old(bus).secondary_devices(),
        final(bus).root_devices().contains_key(other)
            == old(bus).root_devices().contains_key(other),
        old(bus).root_devices().contains_key(other)
            ==> final(bus).root_devices()[other] == old(bus).root_devices()[other],
        offset + data@.len() <= 4 && old(bus).root_devices().contains_key(at.device as u8)
            ==> old(bus).root_devices()[at.device as u8].wrote(
            at.register,
            offset,
            data@,
            &final(bus).root_devices()[at.device as u8],
            r.1@,
        ) && r.0 == Some((BusSide::Root, at.device as u8)),
        offset + data@.len() <= 4 && !old(bus).root_devices().contains_key(at.device as u8)
            ==> *final(bus) == *old(bus) && r.0 is None,
{
    let number = choose|number: Option<u8>| #[trigger]
        old(bus).secondary_is(number) && old(bus).wrote_at(
            address,
            number,
            offset,
            data@,
            r.0,
            r.1@,
            *final(bus),
        );
    assert(old(bus).wrote_at(address, number, offset, data@, r.0, r.1@, *final(bus)));
}

/// What a guest reads of the window is the bytes of a register, from the one that it names on; an
/// access that leaves its register reads as all ones.
pub proof fn window_shows_the_bytes_of_a_register(
    mmio: PciConfigMmio<crate::pci::root_port::PciRootPort>,
    offset: u64,
    data: &mut [u8],
    k: int,
)
    requires
        call_ensures(
            PciConfigMmio::<crate::pci::root_port::PciRootPort>::read,
            (&mmio, offset, data),
            (),
        ),
        mmio.pci_bus.bridge() is None,
        offset < 0x10_0000,
        0 <= k < data@.len(),
        data@.len() <= 4,
    ensures
        offset % 4 + old(data)@.len() > 4 ==> final(data)@[k] == 0xff,
        offset % 4 + old(data)@.len() <= 4 && mmio.pci_bus.root_devices().contains_key(
            (offset / 0x8000 % 0x20) as u8,
        ) ==> {
            let device = mmio.pci_bus.root_devices()[(offset / 0x8000 % 0x20) as u8];
            let register = offset as int / 4 % 0x400;
            register < device.registers().len() ==> final(data)@[k] == byte_of(
                device.registers()[register],
                offset % 4 + k,
            )
        },
{
    if offset % 4 + old(data)@.len() <= 4 {
        let bus = mmio.pci_bus;
        let (number, value) = choose|number: Option<u8>, value: u32|
            {
                &&& #[trigger] bus.secondary_is(number)
                &&& #[trigger] bus.reads_at(offset as u32, number, value)
                &&& forall|i: int|
                    0 <= i < old(data)@.len() ==> #[trigger] final(data)@[i] == byte_of(
                        value,
                        offset % 4 + i,
                    )
            };
        assert(bus.reads_at(offset as u32, number, value));
        assert(config_address(offset as u32).bus == 0);
    }
}

/// A device number is given out once: the one that was asked for where it is one and not in use,
/// and else the lowest free one.
pub proof fn device_numbers_are_given_out_once<D: PciDevice>(
    bus: &mut PciBus<D>,
    id: Option<u8>,
    r: Result<u8, PciRootError>,
    other: int,
)
    requires
        bus.wf(),
        call_ensures(PciBus::<D>::allocate_device_id, (bus, id), r),
        0 <= other < 32,
    ensures
        r is Ok ==> final(bus).ids()[r->Ok_0 as int] is Allocated && r->Ok_0 < 32,
        r is Ok && other != r->Ok_0 ==> final(bus).ids()[other] == old(bus).ids()[other],
        r is Ok && id is Some ==> r->Ok_0 == id->Some_0
            && !(old(bus).ids()[id->Some_0 as int] is Allocated),
        r is Ok && id is None ==> old(bus).ids()[r->Ok_0 as int] is Free && (other < r->Ok_0 ==> !(
        old(bus).ids()[other] is Free)),
        r is Err ==> final(bus).ids() == old(bus).ids(),
        id is None && r is Err ==> !(old(bus).ids()[other] is Free),
        id is Some && id->Some_0 < 32 && !(old(bus).ids()[id->Some_0 as int] is Allocated) ==> r
            is Ok,
{
}

/// A device that is added stands in its slot on its side of the bus, and no other slot changes. A
/// bridge leads to the other side, and its number is taken.
pub proof fn added_devices_stand_in_their_slot<D: PciDevice>(
    bus: &mut PciBus<D>,
    bridged: &mut PciBus<D>,
    behind: &mut PciBus<D>,
    slot: u8,
    device: D,
    r: Result<(), PciRootError>,
    other: u8,
)
    requires
        bridged.wf(),
        slot < 32,
        call_ensures(PciBus::<D>::add_device, (bus, slot, device), r),
        call_ensures(PciBus::<D>::add_bridge, (bridged, slot, device), ()),
        call_ensures(PciBus::<D>::add_secondary_device, (behind, slot, device), ()),
        other != slot,
    ensures
        r is Ok,
        final(bus).root_devices().contains_key(slot) && final(bus).root_devices()[slot] == device,
        old(bus).root_devices().contains_key(other) ==> final(bus).root_devices().contains_key(
            other,
        ) && final(bus).root_devices()[other] == old(bus).root_devices()[other],
        final(bus).secondary_devices() == old(bus).secondary_devices(),
        final(bus).bridge() == old(bus).bridge(),
        final(bridged).bridge() == Some(slot),
        final(bridged).root_devices().contains_key(slot) && final(bridged).root_devices()[slot]
            == device,
        final(bridged).ids()[slot as int] is Allocated,
        final(behind).secondary_devices().contains_key(slot)
            && final(behind).secondary_devices()[slot] == device,
        final(behind).root_devices() == old(behind).root_devices(),
{
}

/// The host bridge says what it is.
pub proof fn host_bridge_is_a_host_bridge(r: PciIdentity)
    requires
        call_ensures(host_bridge_identity, (), r),
    ensures
        r.vendor_id == 0x1d0f,
        r.device_id == 0x0200,
        r.class_code == 6,
        r.subclass == 0,
        r.revision_id == 0,
        r.subsystem_vendor_id == 0 && r.subsystem_id == 0,
{
}

/// A BAR that is moved is moved from its old place to its new one, with its length and kind, and
/// the device is put back where that fails. No other device changes.
pub proof fn failed_moves_are_taken_back<D: PciDevice, R: DeviceRelocation<D>>(
    bus: &mut PciBus<D>,
    side: BusSide,
    slot: u8,
    moves: &[BarReprogrammingParams],
    relocation: R,
    other: u8,
)
    requires
        bus.side(side).contains_key(slot),
        call_ensures(
            PciBus::<D>::relocate::<R>,
            (bus, side, slot, moves, &relocation),
            (),
        ),
        moves@.len() == 1,
        other != slot,
    ensures
        exists|middle: D, ok: bool| #[trigger]
            relocation.moved(
                moves@[0].old_base,
                moves@[0].new_base,
                moves@[0].len,
                moves@[0].region_type,
                old(bus).side(side)[slot],
                middle,
                ok,
            ) && (if ok {
                final(bus).side(side)[slot] == middle
            } else {
                middle.restored(moves@[0], &final(bus).side(side)[slot])
            }),
        old(bus).side(side).contains_key(other) ==> final(bus).side(side).contains_key(other)
            && final(bus).side(side)[other] == old(bus).side(side)[other],
{
    let (before, after) = (old(bus).side(side)[slot], final(bus).side(side)[slot]);
    let states = choose|states: Seq<D>| #[trigger]
        moves_through(relocation, moves@, states) && states[0] == before && states.last() == after;
    assert(moved_once(relocation, moves@[0], states[0], states[1]));
    assert(states[1] == after);
}

} // verus!
