//! Disk properties and the configuration of the block device.

use crate::activation::ActivateError;
use crate::bytes::{
    le_u32, le_u32_read_after_write, le_u64, le_u64_read_after_write, put_le_u32, put_le_u64,
    with_le_u32, with_le_u64,
};
use crate::block::request::VIRTIO_BLK_ID_BYTES;
use crate::config_space::{config_read, read_config_space};
use crate::host::HostOs;
use crate::text::{decimal, has_prefix, push_decimal};
use vstd::prelude::*;

verus! {

/// What the host does with a guest's flush requests.
#[derive(Clone, Copy, Debug, PartialEq, Eq, Structural)]
pub enum CacheType {
    /// Flushes are acknowledged and ignored.
    Unsafe,
    /// Flushes reach the disk.
    Writeback,
}

impl Default for CacheType {
    fn default() -> (r: CacheType)
        ensures
            r == CacheType::Unsafe,
    {
        CacheType::Unsafe
    }
}

impl CacheType {
    /// The cache type for a path. Raw disk nodes of macOS cannot be flushed; everywhere else
    /// flushes reach the disk.
    pub fn auto(path: &str, host: HostOs) -> (r: CacheType)
        ensures
            r == if host == HostOs::Macos && "/dev/rdisk"@.is_prefix_of(path@) {
                CacheType::Unsafe
            } else {
                CacheType::Writeback
            },
    {
        if host == HostOs::Macos && has_prefix(path, "/dev/rdisk") {
            CacheType::Unsafe
        } else {
            CacheType::Writeback
        }
    }
}

/// The format of a disk image.
#[derive(Clone, Copy, Debug, PartialEq, Eq, Structural)]
pub enum ImageType {
    Raw,
    Qcow2,
    Vmdk,
}

/// What the host does about durability.
#[derive(Clone, Copy, Debug, PartialEq, Eq, Structural)]
pub enum SyncMode {
    /// Nothing is synced.
    Off,
    /// Flushes count, the hardware need not sync.
    Relaxed,
    /// Flushes reach the hardware.
    Full,
}

/// Bits that a sector number is shifted by.
pub const SECTOR_SHIFT: u64 = 9;

/// Bytes in a sector.
pub const SECTOR_SIZE: u64 = 512;

/// Queues that the device has.
pub const NUM_QUEUES: usize = 1;

/// Features that every disk offers: the current interface, a segment limit, discarding, writing
/// zeroes and event indices.
pub const BLOCK_BASE_FEATURES: u64 = 0x1_2000_6004;

/// The guest may flush.
pub const BLOCK_FEATURE_FLUSH: u64 = 0x200;

/// The guest may not write.
pub const BLOCK_FEATURE_RO: u64 = 0x20;

/// Bytes in the configuration space of the device.
pub const BLOCK_CONFIG_BYTES: usize = 57;

/// Why a disk was refused.
#[derive(Clone, Copy, Debug, PartialEq, Eq, Structural)]
pub enum BlockError {
    /// A VMDK image was to be written to.
    WritableVmdk,
}

impl BlockError {
    /// The error in words.
    pub fn message(&self) -> (r: String)
        ensures
            r@ == "VMDK write support is not available; configure the disk as read-only"@,
    {
        "VMDK write support is not available; configure the disk as read-only".to_owned()
    }
}

/// Size and identity of a disk, as the guest sees them.
pub struct DiskProperties {
    cache_type: CacheType,
    nsectors: u64,
    image_id: Vec<u8>,
}

/// An identity of as many bytes as the device interface has, cut off or filled with zeroes.
pub open spec fn padded_id(id: Seq<u8>) -> Seq<u8> {
    Seq::new(
        VIRTIO_BLK_ID_BYTES as nat,
        |i: int|
            if i < id.len() {
                id[i]
            } else {
                0
            },
    )
}

fn pad_id(id: &[u8]) -> (r: Vec<u8>)
    ensures
        r@ == padded_id(id@),
{
    let mut padded: Vec<u8> = Vec::new();
    let mut i: usize = 0;
    while i < VIRTIO_BLK_ID_BYTES
        invariant
            i <= VIRTIO_BLK_ID_BYTES,
            padded@.len() == i,
            forall|j: int| 0 <= j < i ==> #[trigger] padded@[j] == padded_id(id@)[j],
        decreases VIRTIO_BLK_ID_BYTES - i,
    {
        if i < id.len() {
            padded.push(id[i]);
        } else {
            padded.push(0);
        }
        i = i + 1;
    }
    assert(padded@ =~= padded_id(id@));
    padded
}

/// The numbers of the device node, of the device it stands for and of the file, run together.
pub fn build_device_id(dev: u64, rdev: u64, ino: u64) -> (r: String)
    ensures
        r@ == decimal(dev as nat) + decimal(rdev as nat) + decimal(ino as nat),
{
    let mut id = String::new();
    push_decimal(&mut id, dev);
    push_decimal(&mut id, rdev);
    push_decimal(&mut id, ino);
    assert(id@ =~= decimal(dev as nat) + decimal(rdev as nat) + decimal(ino as nat));
    id
}

/// The identity of a disk without a name: from its device id, or all zeroes without one.
pub fn build_disk_image_id(device_id: Option<&str>) -> (r: Vec<u8>)
    ensures
        r@ == match device_id {
            None => padded_id(Seq::empty()),
            Some(id) => padded_id(vstd::utf8::encode_utf8(id@)),
        },
{
    match device_id {
        None => {
            let empty: Vec<u8> = Vec::new();
            pad_id(empty.as_slice())
        },
        Some(id) => pad_id(id.as_bytes()),
    }
}

impl DiskProperties {
    pub closed spec fn spec_nsectors(self) -> u64 {
        self.nsectors
    }

    pub closed spec fn spec_image_id(self) -> Seq<u8> {
        self.image_id@
    }

    pub closed spec fn spec_cache_type(self) -> CacheType {
        self.cache_type
    }

    /// The properties of an image of `disk_size` bytes. A last part that fills no sector is not
    /// visible to the guest.
    pub fn new(disk_size: u64, disk_image_id: Vec<u8>, cache_type: CacheType) -> (r: DiskProperties)
        ensures
            r.spec_nsectors() == disk_size / SECTOR_SIZE,
            r.spec_image_id() == disk_image_id@,
            r.spec_cache_type() == cache_type,
    {
        DiskProperties { cache_type, nsectors: disk_size / SECTOR_SIZE, image_id: disk_image_id }
    }

    /// Sectors of the disk.
    pub fn nsectors(&self) -> (r: u64)
        ensures
            r == self.spec_nsectors(),
    {
        self.nsectors
    }

    /// Identity of the disk.
    pub fn image_id(&self) -> (r: &[u8])
        ensures
            r@ == self.spec_image_id(),
    {
        self.image_id.as_slice()
    }

    /// What the host does with flush requests.
    pub fn cache_type(&self) -> (r: CacheType)
        ensures
            r == self.spec_cache_type(),
    {
        self.cache_type
    }

    /// Whether giving the disk up flushes it first.
    pub fn flushes_on_drop(&self) -> (r: bool)
        ensures
            r == (self.spec_cache_type() == CacheType::Writeback),
    {
        self.cache_type == CacheType::Writeback
    }
}

/// The fields of the configuration space that are not zero.
#[derive(Clone, Copy, Debug, PartialEq, Eq, Structural)]
pub struct VirtioBlkConfig {
    /// Sectors of the disk.
    pub capacity: u64,
    /// Segments in one request.
    pub seg_max: u32,
    pub max_discard_sectors: u32,
    pub max_discard_seg: u32,
    pub discard_sector_alignment: u32,
    pub max_write_zeroes_sectors: u32,
    pub max_write_zeroes_seg: u32,
    pub write_zeroes_may_unmap: u8,
}

impl VirtioBlkConfig {
    /// The configuration space: each field at its place, zeroes everywhere else.
    pub open spec fn bytes(self) -> Seq<u8> {
        let zeroes = Seq::new(BLOCK_CONFIG_BYTES as nat, |i: int| 0u8);
        let s = with_le_u64(zeroes, 0, self.capacity as int);
        let s = with_le_u32(s, 12, self.seg_max as int);
        let s = with_le_u32(s, 36, self.max_discard_sectors as int);
        let s = with_le_u32(s, 40, self.max_discard_seg as int);
        let s = with_le_u32(s, 44, self.discard_sector_alignment as int);
        let s = with_le_u32(s, 48, self.max_write_zeroes_sectors as int);
        let s = with_le_u32(s, 52, self.max_write_zeroes_seg as int);
        s.update(56, self.write_zeroes_may_unmap)
    }

    /// The configuration space.
    pub fn to_bytes(&self) -> (r: Vec<u8>)
        ensures
            r@ == self.bytes(),
            r@.len() == BLOCK_CONFIG_BYTES,
    {
        let mut bytes: Vec<u8> = vec![0u8; BLOCK_CONFIG_BYTES];
        assert(bytes@ =~= Seq::new(BLOCK_CONFIG_BYTES as nat, |i: int| 0u8));
        {
            let slice = bytes.as_mut_slice();
            put_le_u64(slice, 0, self.capacity);
            put_le_u32(slice, 12, self.seg_max);
            put_le_u32(slice, 36, self.max_discard_sectors);
            put_le_u32(slice, 40, self.max_discard_seg);
            put_le_u32(slice, 44, self.discard_sector_alignment);
            put_le_u32(slice, 48, self.max_write_zeroes_sectors);
            put_le_u32(slice, 52, self.max_write_zeroes_seg);
            slice[56] = self.write_zeroes_may_unmap;
        }
        bytes
    }
}

/// The guest reads back the capacity that the disk has and the limits that were set.
pub proof fn config_shows_its_fields(config: VirtioBlkConfig)
    ensures
        config.bytes().len() == BLOCK_CONFIG_BYTES,
        le_u64(config.bytes(), 0) == config.capacity,
        le_u32(config.bytes(), 12) == config.seg_max,
        le_u32(config.bytes(), 36) == config.max_discard_sectors,
        le_u32(config.bytes(), 40) == config.max_discard_seg,
        le_u32(config.bytes(), 44) == config.discard_sector_alignment,
        le_u32(config.bytes(), 48) == config.max_write_zeroes_sectors,
        le_u32(config.bytes(), 52) == config.max_write_zeroes_seg,
        config.bytes()[56] == config.write_zeroes_may_unmap,
{
    let s0 = Seq::new(BLOCK_CONFIG_BYTES as nat, |i: int| 0u8);
    let s1 = with_le_u64(s0, 0, config.capacity as int);
    let s2 = with_le_u32(s1, 12, config.seg_max as int);
    let s3 = with_le_u32(s2, 36, config.max_discard_sectors as int);
    let s4 = with_le_u32(s3, 40, config.max_discard_seg as int);
    let s5 = with_le_u32(s4, 44, config.discard_sector_alignment as int);
    let s6 = with_le_u32(s5, 48, config.max_write_zeroes_sectors as int);
    let s7 = with_le_u32(s6, 52, config.max_write_zeroes_seg as int);
    le_u64_read_after_write(s0, 0, config.capacity as int);
    le_u32_read_after_write(s1, 12, config.seg_max as int);
    le_u32_read_after_write(s2, 36, config.max_discard_sectors as int);
    le_u32_read_after_write(s3, 40, config.max_discard_seg as int);
    le_u32_read_after_write(s4, 44, config.discard_sector_alignment as int);
    le_u32_read_after_write(s5, 48, config.max_write_zeroes_sectors as int);
    le_u32_read_after_write(s6, 52, config.max_write_zeroes_seg as int);
}

/// Features that a disk offers.
pub open spec fn block_features(sync_mode: SyncMode, read_only: bool) -> u64 {
    let flush = if sync_mode == SyncMode::Off {
        0
    } else {
        BLOCK_FEATURE_FLUSH
    };
    let ro = if read_only {
        BLOCK_FEATURE_RO
    } else {
        0
    };
    (BLOCK_BASE_FEATURES + flush + ro) as u64
}

/// Whether a disk's writes are paced by a writeback window: a writable raw image that goes through
/// the page cache and whose flushes count.
pub open spec fn paced(
    format: ImageType,
    read_only: bool,
    direct_io: bool,
    cache_type: CacheType,
    sync_mode: SyncMode,
) -> bool {
    format == ImageType::Raw && !read_only && !direct_io && cache_type == CacheType::Writeback
        && sync_mode != SyncMode::Off
}

/// How a disk image is to be opened.
#[derive(Clone, Copy, Debug, PartialEq, Eq, Structural)]
pub struct OpenPlan {
    /// The image is opened for writing.
    pub write: bool,
    /// The page cache is bypassed.
    pub direct: bool,
    /// The hardware need not be told to sync, where the host can tell the two apart.
    pub relaxed_sync: bool,
    /// Writes are paced by a writeback window, and the image is opened through its descriptor.
    pub paced: bool,
}

/// How to open a disk image. A VMDK image that is to be written to is refused.
pub fn plan_open(
    format: ImageType,
    read_only: bool,
    direct_io: bool,
    cache_type: CacheType,
    sync_mode: SyncMode,
) -> (r: Result<OpenPlan, BlockError>)
    ensures
        r is Err <==> format == ImageType::Vmdk && !read_only,
        r matches Ok(plan) ==> plan == (OpenPlan {
            write: !read_only,
            direct: direct_io,
            relaxed_sync: sync_mode == SyncMode::Relaxed,
            paced: paced(format, read_only, direct_io, cache_type, sync_mode),
        }),
{
    if format == ImageType::Vmdk && !read_only {
        return Err(BlockError::WritableVmdk);
    }
    let paced: bool = format == ImageType::Raw && !read_only && !direct_io && cache_type
        == CacheType::Writeback && sync_mode != SyncMode::Off;
    Ok(
        OpenPlan {
            write: !read_only,
            direct: direct_io,
            relaxed_sync: sync_mode == SyncMode::Relaxed,
            paced,
        },
    )
}

/// The path under which an image is opened: through its descriptor where its writes are paced.
pub fn storage_path(path: &str, paced: bool, descriptor: u32) -> (r: String)
    ensures
        r@ == if paced {
            "/proc/self/fd/"@ + decimal(descriptor as nat)
        } else {
            path@
        },
{
    if paced {
        let mut link = "/proc/self/fd/".to_owned();
        push_decimal(&mut link, descriptor as u64);
        link
    } else {
        path.to_owned()
    }
}

/// A virtio block device.
pub struct Block {
    id: String,
    partuuid: Option<String>,
    cache_type: CacheType,
    disk_image_id: Vec<u8>,
    disk_size: u64,
    disk: Option<DiskProperties>,
    config: VirtioBlkConfig,
    avail_features: u64,
    acked_features: u64,
    active: bool,
    working: bool,
}

/// The configuration of a disk of `disk_size` bytes that discards in units of `discard_align`
/// bytes.
pub open spec fn block_config(disk_size: u64, discard_align: usize) -> VirtioBlkConfig {
    VirtioBlkConfig {
        capacity: (disk_size / SECTOR_SIZE) as u64,
        seg_max: 254,
        max_discard_sectors: u32::MAX,
        max_discard_seg: 1,
        discard_sector_alignment: (discard_align as u32 / 512) as u32,
        max_write_zeroes_sectors: u32::MAX,
        max_write_zeroes_seg: 1,
        write_zeroes_may_unmap: 1,
    }
}

impl Block {
    pub closed spec fn spec_id(self) -> Seq<char> {
        self.id@
    }

    pub closed spec fn spec_partuuid(self) -> Option<String> {
        self.partuuid
    }

    pub closed spec fn spec_config(self) -> VirtioBlkConfig {
        self.config
    }

    pub closed spec fn spec_avail_features(self) -> u64 {
        self.avail_features
    }

    pub closed spec fn spec_acked_features(self) -> u64 {
        self.acked_features
    }

    pub closed spec fn spec_active(self) -> bool {
        self.active
    }

    pub closed spec fn spec_working(self) -> bool {
        self.working
    }

    pub closed spec fn spec_image_id(self) -> Seq<u8> {
        self.disk_image_id@
    }

    pub closed spec fn spec_disk_size(self) -> u64 {
        self.disk_size
    }

    pub closed spec fn spec_cache_type(self) -> CacheType {
        self.cache_type
    }

    /// What stays the same from the making of the device on.
    pub open spec fn same_device(self, other: Block) -> bool {
        &&& self.spec_id() == other.spec_id()
        &&& self.spec_partuuid() == other.spec_partuuid()
        &&& self.spec_config() == other.spec_config()
        &&& self.spec_avail_features() == other.spec_avail_features()
        &&& self.spec_image_id() == other.spec_image_id()
        &&& self.spec_disk_size() == other.spec_disk_size()
        &&& self.spec_cache_type() == other.spec_cache_type()
    }

    /// The disk that is kept for the first activation is the one that the device was made for.
    pub closed spec fn wf(self) -> bool {
        match self.disk {
            None => true,
            Some(disk) => {
                &&& disk.nsectors == self.disk_size / SECTOR_SIZE
                &&& disk.image_id@ == self.disk_image_id@
                &&& disk.cache_type == self.cache_type
            },
        }
    }

    /// A device for an opened image. Its identity is its name where it has one, and else comes
    /// from the numbers of the file behind it.
    pub fn new(
        id: String,
        partuuid: Option<String>,
        cache_type: CacheType,
        disk_image_format: ImageType,
        is_disk_read_only: bool,
        sync_mode: SyncMode,
        disk_size: u64,
        discard_align: usize,
        device_id: Option<&str>,
    ) -> (r: Result<Block, BlockError>)
        ensures
            r is Err <==> disk_image_format == ImageType::Vmdk && !is_disk_read_only,
            r matches Ok(block) ==> {
                &&& block.wf()
                &&& block.spec_id() == id@
                &&& block.spec_partuuid() == partuuid
                &&& block.spec_config() == block_config(disk_size, discard_align)
                &&& block.spec_avail_features() == block_features(sync_mode, is_disk_read_only)
                &&& block.spec_acked_features() == 0
                &&& !block.spec_active()
                &&& !block.spec_working()
                &&& block.spec_disk_size() == disk_size
                &&& block.spec_cache_type() == cache_type
                &&& block.spec_image_id() == if id@.len() == 0 {
                    match device_id {
                        None => padded_id(Seq::empty()),
                        Some(device_id) => padded_id(vstd::utf8::encode_utf8(device_id@)),
                    }
                } else {
                    padded_id(vstd::utf8::encode_utf8(id@))
                }
            },
    {
        match plan_open(disk_image_format, is_disk_read_only, false, cache_type, sync_mode) {
            Err(error) => {
                return Err(error);
            },
            Ok(_) => {},
        }
        let disk_image_id: Vec<u8> = if id.as_str().is_empty() {
            build_disk_image_id(device_id)
        } else {
            pad_id(id.as_str().as_bytes())
        };
        let kept_id: Vec<u8> = copy_bytes(disk_image_id.as_slice());
        let disk = DiskProperties::new(disk_size, kept_id, cache_type);
        let mut avail_features: u64 = BLOCK_BASE_FEATURES;
        if sync_mode != SyncMode::Off {
            avail_features = avail_features + BLOCK_FEATURE_FLUSH;
        }
        if is_disk_read_only {
            avail_features = avail_features + BLOCK_FEATURE_RO;
        }
        let alignment: u32 = #[verifier::truncate]
        (discard_align as u32);
        let config = VirtioBlkConfig {
            capacity: disk.nsectors(),
            seg_max: 254,
            max_discard_sectors: u32::MAX,
            max_discard_seg: 1,
            discard_sector_alignment: alignment / 512,
            max_write_zeroes_sectors: u32::MAX,
            max_write_zeroes_seg: 1,
            write_zeroes_may_unmap: 1,
        };
        Ok(
            Block {
                id,
                partuuid,
                cache_type,
                disk_image_id,
                disk_size,
                disk: Some(disk),
                config,
                avail_features,
                acked_features: 0,
                active: false,
                working: false,
            },
        )
    }

    /// The name of the device.
    pub fn id(&self) -> (r: &String)
        ensures
            r@ == self.spec_id(),
    {
        &self.id
    }

    /// The partition identity of the device.
    pub fn partuuid(&self) -> (r: Option<&String>)
        ensures
            r == match self.spec_partuuid() {
                None => None,
                Some(uuid) => Some(&uuid),
            },
    {
        self.partuuid.as_ref()
    }

    /// Whether the guest may not write.
    pub fn is_read_only(&self) -> (r: bool)
        ensures
            r == (self.spec_avail_features() / BLOCK_FEATURE_RO % 2 == 1),
    {
        self.avail_features / BLOCK_FEATURE_RO % 2 == 1
    }

    /// Features on offer.
    pub fn avail_features(&self) -> (r: u64)
        ensures
            r == self.spec_avail_features(),
    {
        self.avail_features
    }

    /// Features that the guest took.
    pub fn acked_features(&self) -> (r: u64)
        ensures
            r == self.spec_acked_features(),
    {
        self.acked_features
    }

    /// The guest took these features.
    pub fn set_acked_features(&mut self, acked_features: u64)
        requires
            old(self).wf(),
        ensures
            final(self).wf(),
            final(self).same_device(*old(self)),
            final(self).spec_acked_features() == acked_features,
            final(self).spec_active() == old(self).spec_active(),
            final(self).spec_working() == old(self).spec_working(),
    {
        self.acked_features = acked_features;
    }

    /// Copies the part of the configuration space that a guest reads.
    pub fn read_config(&self, offset: u64, data: &mut [u8])
        ensures
            final(data)@ == config_read(self.spec_config().bytes(), offset, old(data)@),
    {
        let bytes: Vec<u8> = self.config.to_bytes();
        read_config_space(bytes.as_slice(), offset, data);
    }

    /// Whether the guest has set the device up.
    pub fn is_activated(&self) -> (r: bool)
        ensures
            r == self.spec_active(),
    {
        self.active
    }

    /// Sets the device up with the queues of the guest, and hands out the disk for its worker. A
    /// device has one worker at a time.
    pub fn activate(&mut self, queue_count: usize) -> (r: Result<DiskProperties, ActivateError>)
        requires
            old(self).wf(),
            !old(self).spec_working(),
        ensures
            final(self).wf(),
            final(self).same_device(*old(self)),
            final(self).spec_acked_features() == old(self).spec_acked_features(),
            r is Err <==> queue_count != NUM_QUEUES,
            r is Err ==> *final(self) == *old(self),
            r matches Ok(disk) ==> {
                &&& final(self).spec_active()
                &&& final(self).spec_working()
                &&& disk.spec_nsectors() == old(self).spec_disk_size() / SECTOR_SIZE
                &&& disk.spec_image_id() == old(self).spec_image_id()
                &&& disk.spec_cache_type() == old(self).spec_cache_type()
            },
    {
        if queue_count != NUM_QUEUES {
            return Err(ActivateError::BadActivate);
        }
        let disk: DiskProperties = match self.disk.take() {
            Some(disk) => disk,
            None => DiskProperties::new(
                self.disk_size,
                copy_bytes(self.disk_image_id.as_slice()),
                self.cache_type,
            ),
        };
        self.active = true;
        self.working = true;
        Ok(disk)
    }

    /// Whether a worker serves the device. It has to be stopped before the device is taken down.
    pub fn is_working(&self) -> (r: bool)
        ensures
            r == self.spec_working(),
    {
        self.working
    }

    /// Takes the device down, which always succeeds.
    pub fn reset(&mut self) -> (r: bool)
        requires
            old(self).wf(),
        ensures
            final(self).wf(),
            final(self).same_device(*old(self)),
            final(self).spec_acked_features() == old(self).spec_acked_features(),
            r,
            !final(self).spec_active(),
            !final(self).spec_working(),
    {
        self.working = false;
        self.active = false;
        true
    }
}

fn copy_bytes(bytes: &[u8]) -> (r: Vec<u8>)
    ensures
        r@ == bytes@,
{
    let mut copy: Vec<u8> = Vec::new();
    let mut i: usize = 0;
    while i < bytes.len()
        invariant
            i <= bytes@.len(),
            copy@ == bytes@.take(i as int),
        decreases bytes@.len() - i,
    {
        copy.push(bytes[i]);
        i = i + 1;
        assert(copy@ =~= bytes@.take(i as int));
    }
    assert(copy@ =~= bytes@);
    copy
}

/// A disk is read-only to the guest exactly where it was made so, and takes flushes unless syncing
/// is off.
pub proof fn read_only_flag_follows_the_setting(sync_mode: SyncMode, read_only: bool)
    ensures
        (block_features(sync_mode, read_only) / BLOCK_FEATURE_RO % 2 == 1) == read_only,
        (block_features(sync_mode, read_only) / BLOCK_FEATURE_FLUSH % 2 == 1) == (sync_mode
            != SyncMode::Off),
{
}

/// The guest sees as many sectors as the image fills, and the rest of the image is less than one.
/// The limits are those of the interface.
pub proof fn device_shows_the_image(
    id: String,
    partuuid: Option<String>,
    cache_type: CacheType,
    format: ImageType,
    read_only: bool,
    sync_mode: SyncMode,
    disk_size: u64,
    discard_align: usize,
    device_id: Option<&str>,
    r: Result<Block, BlockError>,
)
    requires
        call_ensures(
            Block::new,
            (
                id,
                partuuid,
                cache_type,
                format,
                read_only,
                sync_mode,
                disk_size,
                discard_align,
                device_id,
            ),
            r,
        ),
    ensures
        r is Err <==> format is Vmdk && !read_only,
        r is Ok ==> {
            let block = r->Ok_0;
            let config = block.spec_config();
            &&& 0 <= disk_size - config.capacity * 512 < 512
            &&& config.seg_max == 254
            &&& config.max_discard_seg == 1 && config.max_write_zeroes_seg == 1
            &&& config.max_discard_sectors == 0xffff_ffff && config.max_write_zeroes_sectors
                == 0xffff_ffff
            &&& config.write_zeroes_may_unmap == 1
            &&& discard_align <= 0xffff_ffff
                ==> 0 <= discard_align - config.discard_sector_alignment
                * 512 < 512
            &&& block.spec_id() == id@
            &&& block.spec_partuuid() == partuuid
            &&& block.spec_cache_type() == cache_type
            &&& block.spec_image_id().len() == 20
            &&& (block.spec_avail_features() / 0x20 % 2 == 1) == read_only
            &&& (block.spec_avail_features() / 0x200 % 2 == 1) == !(sync_mode is Off)
            &&& block.spec_avail_features() / 0x4 % 2 == 1
            &&& block.spec_avail_features() / 0x2000 % 2 == 1
            &&& block.spec_avail_features() / 0x4000 % 2 == 1
            &&& block.spec_avail_features() / 0x2000_0000 % 2 == 1
            &&& block.spec_avail_features() / 0x1_0000_0000 % 2 == 1
        },
{
}

/// The identity of a disk starts with the bytes of its name, or of its numbers where it has none,
/// as far as they fit, and ends in zeroes.
pub proof fn identity_starts_with_the_name(
    id: String,
    device_id: Option<&str>,
    block: Block,
    disk_size: u64,
    k: int,
)
    requires
        call_ensures(
            Block::new,
            (
                id,
                None,
                CacheType::Writeback,
                ImageType::Raw,
                false,
                SyncMode::Full,
                disk_size,
                512,
                device_id,
            ),
            Ok(block),
        ),
        0 <= k < 20,
    ensures
        ({
            let name = vstd::utf8::encode_utf8(id@);
            let numbers = vstd::utf8::encode_utf8(device_id->Some_0@);
            &&& id@.len() > 0 && k < name.len() ==> block.spec_image_id()[k] == name[k]
            &&& id@.len() > 0 && k >= name.len() ==> block.spec_image_id()[k] == 0
            &&& id@.len() == 0 && device_id is Some && k < numbers.len()
                ==> block.spec_image_id()[k] == numbers[k]
            &&& id@.len() == 0 && device_id is None ==> block.spec_image_id()[k] == 0
        }),
{
}

/// A device that is activated hands the disk that it was made for to its worker.
pub proof fn activation_hands_out_the_disk(
    block: &mut Block,
    queue_count: usize,
    r: Result<DiskProperties, ActivateError>,
)
    requires
        call_ensures(Block::activate, (block, queue_count), r),
    ensures
        r is Ok <==> queue_count == 1,
        r is Ok ==> final(block).spec_active() && final(block).spec_working()
            && 0 <= old(block).spec_disk_size() - r->Ok_0.spec_nsectors() * 512 < 512
            && r->Ok_0.spec_image_id() == old(block).spec_image_id() && r->Ok_0.spec_cache_type()
            == old(block).spec_cache_type(),
        r is Err ==> *final(block) == *old(block),
{
}

/// An image is opened for writing exactly where the guest may write, and only a writable raw image
/// behind the page cache whose flushes count has its writes paced.
pub proof fn images_are_opened_as_set(
    format: ImageType,
    read_only: bool,
    direct_io: bool,
    cache_type: CacheType,
    sync_mode: SyncMode,
    r: Result<OpenPlan, BlockError>,
)
    requires
        call_ensures(plan_open, (format, read_only, direct_io, cache_type, sync_mode), r),
    ensures
        r is Err <==> format is Vmdk && !read_only,
        r is Ok ==> r->Ok_0.write != read_only && r->Ok_0.direct == direct_io
            && r->Ok_0.relaxed_sync == (sync_mode is Relaxed),
        r is Ok && r->Ok_0.paced ==> r->Ok_0.write && !r->Ok_0.direct && format is Raw && cache_type
            is Writeback && !(sync_mode is Off),
        format is Raw && !read_only && !direct_io && cache_type is Writeback && !(sync_mode is Off)
            ==> r is Ok && r->Ok_0.paced,
{
}

/// Each field of the configuration space stands at its place, little-endian, and the places between
/// them are zero.
pub proof fn config_bytes_stand_at_their_places(config: VirtioBlkConfig, r: Vec<u8>)
    requires
        call_ensures(VirtioBlkConfig::to_bytes, (&config,), r),
    ensures
        ({
            let word = |k: int| r@[k] + 256 * r@[k + 1] + 65536 * r@[k + 2] + 16777216 * r@[k + 3];
            &&& r@.len() == 57
            &&& config.capacity == word(0) + 4294967296 * word(4)
            &&& word(8) == 0
            &&& config.seg_max == word(12)
            &&& forall|k: int| 16 <= k < 36 ==> #[trigger] r@[k] == 0
            &&& config.max_discard_sectors == word(36)
            &&& config.max_discard_seg == word(40)
            &&& config.discard_sector_alignment == word(44)
            &&& config.max_write_zeroes_sectors == word(48)
            &&& config.max_write_zeroes_seg == word(52)
            &&& config.write_zeroes_may_unmap == r@[56]
        }),
{
    config_shows_its_fields(config);
    let b = r@;
    let s0 = Seq::new(BLOCK_CONFIG_BYTES as nat, |i: int| 0u8);
    let s1 = with_le_u64(s0, 0, config.capacity as int);
    le_u64_read_after_write(s0, 0, config.capacity as int);
    assert(le_u64(b, 0) == le_u32(b, 0) + 0x1_0000_0000 * le_u32(b, 4));
}

/// The cache of a raw disk of a macOS host is not flushed; every other image's is.
pub proof fn raw_mac_disks_are_not_flushed(path: &str, host: HostOs, r: CacheType)
    requires
        call_ensures(CacheType::auto, (path, host), r),
    ensures
        !(host is Macos) ==> r is Writeback,
        host is Macos && path@.len() >= 10 && path@.take(10) == "/dev/rdisk"@ ==> r is Unsafe,
        r is Unsafe ==> path@.len() >= 10 && path@.take(10) == "/dev/rdisk"@,
{
    reveal_strlit("/dev/rdisk");
    if path@.len() >= 10 {
        assert(path@.take(10) =~= path@.subrange(0, 10));
    }
}

/// A disk is named by the three numbers of its file, one behind the other.
pub proof fn disks_are_named_by_three_numbers(
    dev: u64,
    rdev: u64,
    ino: u64,
    r: String,
    text: &mut String,
    more: &mut String,
    whole: &mut String,
)
    requires
        call_ensures(build_device_id, (dev, rdev, ino), r),
        text@.len() == 0,
        call_ensures(push_decimal, (text, dev), ()),
        more@ == final(text)@,
        call_ensures(push_decimal, (more, rdev), ()),
        whole@ == final(more)@,
        call_ensures(push_decimal, (whole, ino), ()),
    ensures
        r@ == final(whole)@,
{
    assert(r@ =~= final(whole)@);
}

/// A paced image is opened again by its descriptor, and any other by its path.
pub proof fn paced_images_are_opened_by_descriptor(
    path: &str,
    paced: bool,
    descriptor: u32,
    r: String,
    number: &mut String,
)
    requires
        call_ensures(storage_path, (path, paced, descriptor), r),
        number@.len() == 0,
        call_ensures(push_decimal, (number, descriptor as u64), ()),
    ensures
        !paced ==> r@ == path@,
        paced ==> r@ == "/proc/self/fd/"@ + final(number)@,
{
    assert(final(number)@ =~= decimal(descriptor as nat));
}

} // verus!
