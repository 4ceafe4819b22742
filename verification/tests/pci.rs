//! The PCI bus, its root port, and assigned devices.

use krun::pci::bus::{
    host_bridge_identity, parse_mmio_config_address, shift_and_mask, BusSide, ConfigAddress,
    PciBus, PciConfigMmio, PciRootError,
};
use krun::pci::device::{BarReprogrammingParams, DeviceRelocation, PciBarRegionType, PciDevice};
use krun::pci::root_port::{register_byte, PciRootPort};
use krun::vfio_pci::device::{
    align_up, guest_view, is_bar_reg, register_offset, vendor_and_device, BarAllocator, BarProbe,
};
use krun::vfio_pci::msix::{MsixState, MsixTableEntry};
use krun::vfio_pci::vfio::{
    check_api_version, check_device, check_extension, check_group, config_dword, iommu_group_id,
    irq_disable_bytes, irq_set_bytes, regions_to_query, VfioError, VfioRegion, VfioRegions,
};

struct NoRelocation;

impl DeviceRelocation<PciRootPort> for NoRelocation {
    fn move_bar(
        &self,
        _old_base: u64,
        _new_base: u64,
        _len: u64,
        _pci_dev: &mut PciRootPort,
        _region_type: PciBarRegionType,
    ) -> Result<(), std::io::Error> {
        Ok(())
    }
}

#[test]
fn root_port_keeps_its_read_only_bits() {
    let mut port = PciRootPort::new(1);
    let identity = port.read_config_register(0);
    port.write_config_register(0, 0, &[0xff, 0xff, 0xff, 0xff]);
    assert_eq!(port.read_config_register(0), identity);
    assert_eq!(port.secondary_bus(), 1);
    port.write_config_register(6, 1, &[5]);
    assert_eq!(port.secondary_bus(), 5);
    assert_eq!(register_byte(0x0403_0201, 2), 3);
}

#[test]
fn bus_hands_out_slots() {
    let mut bus = PciBus::new(PciRootPort::new(0));
    let first = bus.allocate_device_id(None).ok().unwrap();
    assert_eq!(bus.allocate_device_id(Some(7)).ok(), Some(7));
    assert!(matches!(
        bus.allocate_device_id(Some(7)),
        Err(PciRootError::AlreadyInUsePciDeviceSlot(7))
    ));
    assert!(matches!(
        bus.allocate_device_id(Some(99)),
        Err(PciRootError::InvalidPciDeviceSlot(99))
    ));
    assert_ne!(first, 7);
    while bus.allocate_device_id(None).is_ok() {}
    assert!(matches!(
        bus.allocate_device_id(None),
        Err(PciRootError::NoPciDeviceSlotAvailable)
    ));
    let bridge = host_bridge_identity();
    assert_eq!((bridge.vendor_id, bridge.device_id), (0x1d0f, 0x0200));
}

#[test]
fn configuration_is_routed_by_address() {
    assert_eq!(
        parse_mmio_config_address((1 << 20) | (2 << 15) | (3 << 12) | (4 << 2)),
        ConfigAddress { bus: 1, device: 2, function: 3, register: 4 }
    );
    assert_eq!(shift_and_mask(0xabcd, 8, 0xf), 0xb);

    let mut bus = PciBus::new(PciRootPort::new(0));
    bus.add_bridge(1, PciRootPort::new(1));
    bus.add_secondary_device(0, PciRootPort::new(2));
    assert_eq!(bus.secondary_bus_number(), Some(1));
    let identity = PciRootPort::new(0).read_config_register(0);
    assert_eq!(bus.config_space_read(1 << 15), identity);
    assert_eq!(bus.config_space_read(1 << 20), identity);
    assert_eq!(bus.config_space_read(5 << 15), 0xffff_ffff);
    let (target, moves) = bus.config_space_write((1 << 15) | (6 << 2), 1, &[9]);
    assert_eq!(target.map(|(side, slot)| (side == BusSide::Root, slot)), Some((true, 1)));
    assert!(moves.is_empty());
    assert_eq!(bus.secondary_bus_number(), Some(9));
    let mut port = PciRootPort::new(1);
    let mut data = [7u8; 2];
    port.read_bar(0, 0, &mut data);
    port.write_bar(0, 0, &data);
    assert_eq!(data, [7, 7]);
    assert!(port.move_bar(0, 0x1000).is_ok());
    bus.relocate(
        BusSide::Root,
        1,
        &[BarReprogrammingParams {
            old_base: 0,
            new_base: 0x1000,
            len: 0x1000,
            region_type: PciBarRegionType::Memory32BitRegion,
        }],
        &NoRelocation,
    );

    let mut mmio = PciConfigMmio::new(bus);
    let mut data = [0u8; 4];
    mmio.read(1 << 15, &mut data);
    assert_eq!(u32::from_le_bytes(data), identity);
    mmio.write((1 << 15) | (6 << 2) | 1, &[4], &NoRelocation);
    assert_eq!(mmio.pci_bus.secondary_bus_number(), Some(4));
}

/// Refuses every move to an odd page, and remembers all of them.
struct PickyRelocation {
    moves: std::cell::RefCell<Vec<(u64, u64, u64)>>,
}

impl DeviceRelocation<Restoring> for PickyRelocation {
    fn move_bar(
        &self,
        old_base: u64,
        new_base: u64,
        len: u64,
        _pci_dev: &mut Restoring,
        _region_type: PciBarRegionType,
    ) -> Result<(), std::io::Error> {
        self.moves.borrow_mut().push((old_base, new_base, len));
        if new_base & 0x1000 == 0 {
            Ok(())
        } else {
            Err(std::io::Error::other("odd page"))
        }
    }
}

/// Remembers the addresses that it took back.
struct Restoring {
    restored: Vec<u64>,
}

impl PciDevice for Restoring {
    fn write_config_register(
        &mut self,
        _reg_idx: usize,
        _offset: u64,
        _data: &[u8],
    ) -> Vec<BarReprogrammingParams> {
        vec![bar_move(0x1000, 0x5000), bar_move(0x2000, 0x6000), bar_move(0x3000, 0x7000)]
    }

    fn read_config_register(&self, _reg_idx: usize) -> u32 {
        self.restored.len() as u32
    }

    fn restore_bar_addr(&mut self, params: &BarReprogrammingParams) {
        self.restored.push(params.old_base);
    }

    fn id(&self) -> Option<String> {
        None
    }
}

fn bar_move(old_base: u64, new_base: u64) -> BarReprogrammingParams {
    BarReprogrammingParams {
        old_base,
        new_base,
        len: 0x1000,
        region_type: PciBarRegionType::Memory32BitRegion,
    }
}

#[test]
fn failed_moves_are_taken_back() {
    let relocation = PickyRelocation { moves: std::cell::RefCell::new(Vec::new()) };
    let mut mmio = PciConfigMmio::new(PciBus::new(Restoring { restored: Vec::new() }));
    mmio.write(0x10, &[1], &relocation);
    assert_eq!(
        *relocation.moves.borrow(),
        vec![(0x1000, 0x5000, 0x1000), (0x2000, 0x6000, 0x1000), (0x3000, 0x7000, 0x1000)]
    );
    assert_eq!(mmio.pci_bus.config_space_read(0), 2);
}

#[test]
fn bars_are_placed_at_their_alignment() {
    assert_eq!(align_up(0x1001, 0x1000), 0x2000);
    assert_eq!(align_up(0x1000, 0x1000), 0x1000);
    let probes = [
        BarProbe { flags: 0, size: 0x4000 },
        BarProbe { flags: 0, size: 0 },
        BarProbe { flags: 0b1100, size: 0x10_0000 },
        BarProbe { flags: 0, size: 0 },
        BarProbe { flags: 0, size: 0 },
        BarProbe { flags: 0, size: 0 },
    ];
    let mut bars = BarAllocator::new();
    assert!(bars.can_place(&probes));
    assert!(!bars.can_place(&probes[..5]));
    let mut odd = probes;
    odd[1].size = 0x3000;
    assert!(!bars.can_place(&odd));
    odd[1].size = 1 << 63;
    assert!(!bars.can_place(&odd));
    odd[1].flags = 1;
    assert!(bars.can_place(&odd));
    odd[2].size = 1 << 62;
    assert!(bars.can_place(&odd));
    while let Some(request) = bars.next(&probes) {
        assert_eq!(request.addr % request.size, 0);
        bars.entered(&request, true);
    }
    let regions = bars.mmio_regions();
    assert_eq!(regions.len(), 2);
    assert_eq!(regions[1].index, 2);
    let found = bars.find_region(regions[0].start + 8).unwrap();
    assert_eq!(found.index, 0);
    assert_eq!(bars.bar_access(regions[0].start, 8), Some((0, 8)));
    assert_eq!(bars.bar_access(0, 8), None);
}

#[test]
fn assigned_device_registers() {
    assert_eq!(config_dword(Some([1, 2, 3, 4])), 0x0403_0201);
    assert_eq!(config_dword(None), 0xffff_ffff);
    assert!(is_bar_reg(4));
    assert!(is_bar_reg(9));
    assert!(!is_bar_reg(10));
    assert_eq!(register_offset(2, 3), 11);
    assert_eq!(vendor_and_device(0x2330_10de), (0x10de, 0x2330));
    assert_eq!(guest_view(0, 0x1234), 0x1234);
}

fn msix_config() -> Vec<u8> {
    let mut config = vec![0u8; 256];
    config[6] = 0x10;
    config[0x34] = 0x40;
    config[0x40] = 0x11;
    config[0x42..0x44].copy_from_slice(&3u16.to_le_bytes());
    config[0x44..0x48].copy_from_slice(&(0x2000u32 | 1).to_le_bytes());
    config[0x48..0x4c].copy_from_slice(&(0x3000u32 | 1).to_le_bytes());
    config
}

#[test]
fn msix_table_reads_back() {
    let mut state = MsixState::parse(&msix_config()).unwrap();
    assert_eq!(state.table_size, 4);
    assert!(state.entries.iter().all(|entry| entry.masked()));
    assert_eq!((state.table_bir, state.table_offset), (1, 0x2000));
    assert!(!state.enabled());
    assert!(!state.function_masked());
    assert_eq!(state.table_range(), (0x2000, 64));
    assert!(state.table_accessed(1, 0x2010, 4));
    assert!(!state.table_accessed(0, 0x2010, 4));
    let affected = state.write_table(0x2010, &0xfee0_0000u32.to_le_bytes());
    assert_eq!(affected, vec![1]);
    assert_eq!(state.entries[1].msg_addr_lo, 0xfee0_0000);
    let mut back = [0u8; 4];
    state.read_table(0x2010, &mut back);
    assert_eq!(u32::from_le_bytes(back), 0xfee0_0000);
    assert!(MsixState::parse(&[0u8; 256]).is_none());
}

#[test]
fn affected_vectors_come_in_order() {
    let mut state = MsixState::parse(&msix_config()).unwrap();
    assert_eq!(state.write_table(0x200c, &[0; 24]), vec![0, 1, 2]);
    assert_eq!(state.write_table(0x2038, &[0; 16]), vec![3]);
    assert!(state.write_table(0x2040, &[0; 4]).is_empty());
    assert!(state.write_table(0x2000, &[]).is_empty());
    assert!(!state.table_accessed(1, u64::MAX, 4));
    assert!(!state.table_accessed(0, u64::MAX, 4));
}

#[test]
fn msix_entries_survive_their_bytes() {
    let entry = MsixTableEntry { msg_addr_lo: 1, msg_addr_hi: 2, msg_data: 3, vector_ctl: 1 };
    assert!(entry.masked());
    let bytes = entry.to_bytes();
    assert_eq!(bytes.len(), 16);
    assert_eq!(MsixTableEntry::from_bytes(&bytes).to_bytes(), bytes);
    assert!(!MsixTableEntry::default().masked());
}

#[test]
fn vfio_answers_are_checked() {
    assert!(check_api_version(0).is_ok());
    assert!(matches!(check_api_version(3), Err(VfioError::ApiVersion(3, 0))));
    assert!(check_extension(1).is_ok());
    assert!(matches!(check_extension(0), Err(VfioError::ExtensionNotSupported)));
    assert!(check_group(5, 1).is_ok());
    assert!(matches!(check_group(5, 0), Err(VfioError::GroupNotViable(5))));
    assert!(check_device(2).is_ok());
    assert!(matches!(check_device(1), Err(VfioError::NotPciDevice(_))));
    assert!(regions_to_query(100) <= 100);
    assert_eq!(iommu_group_id("0000:01:00.0", Some("17")).ok(), Some(17));
    assert!(iommu_group_id("0000:01:00.0", Some("x")).is_err());
    assert!(iommu_group_id("0000:01:00.0", None).is_err());
}

#[test]
fn vfio_regions_are_bounded() {
    let regions = VfioRegions {
        regions: vec![VfioRegion { index: 0, flags: 7, size: 0x1000, offset: 0x10_0000 }],
    };
    assert_eq!(regions.locate(0, 0x10, 4).ok(), Some(0x10_0010));
    assert!(matches!(regions.locate(0, 0xffe, 4), Err(VfioError::RegionBounds(0))));
    assert!(matches!(regions.locate(1, 0, 4), Err(VfioError::RegionBounds(1))));
    assert_eq!(regions.map_range(0, 0, 0x1000).ok(), Some(0x10_0000));
    assert!(regions.region(1).is_none());
    let high = VfioRegions {
        regions: vec![VfioRegion { index: 0, flags: 7, size: 0x1000, offset: u64::MAX - 8 }],
    };
    assert_eq!(high.locate(0, 8, 8).ok(), Some(u64::MAX));
    assert!(matches!(high.locate(0, u64::MAX, 8), Err(VfioError::RegionBounds(0))));
    let read_only = VfioRegion { index: 0, flags: 5, size: 1, offset: 0 };
    assert!(read_only.is_mmappable());
    assert_eq!(read_only.protection(), (true, false));
}

#[test]
fn interrupt_requests_are_laid_out() {
    let set = irq_set_bytes(2, &[7, -1]);
    assert_eq!(u32::from_le_bytes([set[0], set[1], set[2], set[3]]) as usize, set.len());
    assert_eq!(set.len(), 28);
    assert_eq!(&set[20..24], &7i32.to_le_bytes());
    assert_eq!(&set[24..28], &(-1i32).to_le_bytes());
    let off = irq_disable_bytes(2);
    assert_eq!(off.len(), 20);
}
