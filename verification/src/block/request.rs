//! What one block request asks of the disk, and how its outcome is reported.

use crate::block::device::CacheType;
use crate::bytes::{get_le_u32, get_le_u64, le_u32, le_u64};
use crate::metrics::BlockRequestKind;
use vstd::prelude::*;

verus! {

/// Read sectors.
pub const VIRTIO_BLK_T_IN: u32 = 0;

/// Write sectors.
pub const VIRTIO_BLK_T_OUT: u32 = 1;

/// Make earlier writes durable.
pub const VIRTIO_BLK_T_FLUSH: u32 = 4;

/// Read the identity of the disk.
pub const VIRTIO_BLK_T_GET_ID: u32 = 8;

/// Give sectors back to the host.
pub const VIRTIO_BLK_T_DISCARD: u32 = 11;

/// Fill sectors with zeroes.
pub const VIRTIO_BLK_T_WRITE_ZEROES: u32 = 13;

/// Zeroing may give the sectors back to the host.
pub const VIRTIO_BLK_WRITE_ZEROES_FLAG_UNMAP: u32 = 1;

/// Status of a request that was served.
pub const VIRTIO_BLK_S_OK: u8 = 0;

/// Status of a request that failed.
pub const VIRTIO_BLK_S_IOERR: u8 = 1;

/// Bytes in a sector.
pub const SECTOR_BYTES: u64 = 512;

/// Bytes in a request header, and in a discard segment.
pub const REQUEST_HEADER_BYTES: usize = 16;

/// Bytes in the identity of a disk.
pub const VIRTIO_BLK_ID_BYTES: usize = 20;

/// Why a request was not served.
#[derive(Debug)]
pub enum RequestError {
    Discarding(std::io::Error),
    DiscardingToZero(std::io::Error),
    FlushingToDisk(std::io::Error),
    InvalidDataLength,
    ReadingFromDescriptor(std::io::Error),
    WritingToDescriptor(std::io::Error),
    WritingZeroes(std::io::Error),
    UnknownRequest,
}

/// The fields that every request starts with.
#[derive(Clone, Copy, Debug, PartialEq, Eq, Structural)]
pub struct RequestHeader {
    pub request_type: u32,
    pub reserved: u32,
    pub sector: u64,
}

/// The sectors that a discard or a write-zeroes request names.
#[derive(Clone, Copy, Debug, PartialEq, Eq, Structural)]
pub struct DiscardWriteData {
    pub sector: u64,
    pub num_sectors: u32,
    pub flags: u32,
}

impl RequestHeader {
    /// The header that stands in the first bytes of a request, if they are all there.
    pub fn from_bytes(bytes: &[u8]) -> (r: Option<RequestHeader>)
        ensures
            r is Some <==> bytes@.len() >= REQUEST_HEADER_BYTES,
            r matches Some(header) ==> header.request_type == le_u32(bytes@, 0) && header.reserved
                == le_u32(bytes@, 4) && header.sector == le_u64(bytes@, 8),
    {
        if bytes.len() < REQUEST_HEADER_BYTES {
            None
        } else {
            Some(
                RequestHeader {
                    request_type: get_le_u32(bytes, 0),
                    reserved: get_le_u32(bytes, 4),
                    sector: get_le_u64(bytes, 8),
                },
            )
        }
    }
}

impl DiscardWriteData {
    /// The segment that stands in the first bytes of the data, if they are all there.
    pub fn from_bytes(bytes: &[u8]) -> (r: Option<DiscardWriteData>)
        ensures
            r is Some <==> bytes@.len() >= REQUEST_HEADER_BYTES,
            r matches Some(data) ==> data.sector == le_u64(bytes@, 0) && data.num_sectors == le_u32(
                bytes@,
                8,
            ) && data.flags == le_u32(bytes@, 12),
    {
        if bytes.len() < REQUEST_HEADER_BYTES {
            None
        } else {
            Some(
                DiscardWriteData {
                    sector: get_le_u64(bytes, 0),
                    num_sectors: get_le_u32(bytes, 8),
                    flags: get_le_u32(bytes, 12),
                },
            )
        }
    }
}

/// Where a sector starts on the disk. Refused when that is past the last 64-bit offset.
pub fn sector_offset(sector: u64) -> (r: Result<u64, RequestError>)
    ensures
        r is Ok <==> sector * SECTOR_BYTES <= u64::MAX,
        r matches Ok(offset) ==> offset == sector * SECTOR_BYTES,
        r matches Err(error) ==> error == RequestError::InvalidDataLength,
{
    match sector.checked_mul(SECTOR_BYTES) {
        Some(offset) => Ok(offset),
        None => Err(RequestError::InvalidDataLength),
    }
}

/// Bytes in a number of sectors.
pub fn sector_count_bytes(sectors: u32) -> (r: Result<u64, RequestError>)
    ensures
        r matches Ok(bytes) && bytes == sectors * SECTOR_BYTES,
{
    match (sectors as u64).checked_mul(SECTOR_BYTES) {
        Some(bytes) => Ok(bytes),
        None => Err(RequestError::InvalidDataLength),
    }
}

/// The work that a request asks for.
#[derive(Clone, Copy, Debug, PartialEq, Eq, Structural)]
pub enum RequestPlan {
    /// Fill `len` bytes of the guest from the disk at `offset`.
    Read { len: usize, offset: u64 },
    /// Write `len` bytes of the guest to the disk at `offset`.
    Write { len: usize, offset: u64 },
    /// Flush the disk.
    Flush,
    /// Report success without touching the disk.
    IgnoreFlush,
    /// Write the identity of the disk to the guest.
    WriteId,
    /// Read a discard segment, then ask `plan_segment`.
    ReadSegment,
    /// Give bytes back to the host.
    Discard { offset: u64, bytes: u64 },
    /// Give bytes back to the host so that they read as zeroes.
    DiscardToZero { offset: u64, bytes: u64 },
    /// Write zeroes.
    WriteZeroes { offset: u64, bytes: u64 },
}

/// What a request asks for: `readable` bytes stand behind its header and the guest left room for
/// `writable` bytes, the status among them.
pub open spec fn request_plan(
    header: RequestHeader,
    readable: usize,
    writable: usize,
    cache: CacheType,
) -> Result<RequestPlan, RequestError> {
    let offset = header.sector * SECTOR_BYTES;
    if header.request_type == VIRTIO_BLK_T_IN {
        if writable == 0 || (writable - 1) % 512 != 0 || offset > u64::MAX {
            Err(RequestError::InvalidDataLength)
        } else {
            Ok(RequestPlan::Read { len: (writable - 1) as usize, offset: offset as u64 })
        }
    } else if header.request_type == VIRTIO_BLK_T_OUT {
        if readable % 512 != 0 || offset > u64::MAX {
            Err(RequestError::InvalidDataLength)
        } else {
            Ok(RequestPlan::Write { len: readable, offset: offset as u64 })
        }
    } else if header.request_type == VIRTIO_BLK_T_FLUSH {
        match cache {
            CacheType::Writeback => Ok(RequestPlan::Flush),
            CacheType::Unsafe => Ok(RequestPlan::IgnoreFlush),
        }
    } else if header.request_type == VIRTIO_BLK_T_GET_ID {
        if writable < VIRTIO_BLK_ID_BYTES {
            Err(RequestError::InvalidDataLength)
        } else {
            Ok(RequestPlan::WriteId)
        }
    } else if header.request_type == VIRTIO_BLK_T_DISCARD || header.request_type
        == VIRTIO_BLK_T_WRITE_ZEROES {
        Ok(RequestPlan::ReadSegment)
    } else {
        Err(RequestError::UnknownRequest)
    }
}

/// The work that a request asks for.
pub fn plan_request(
    header: RequestHeader,
    readable: usize,
    writable: usize,
    cache: CacheType,
) -> (r: Result<RequestPlan, RequestError>)
    ensures
        r == request_plan(header, readable, writable, cache),
{
    if header.request_type == VIRTIO_BLK_T_IN {
        if writable == 0 || (writable - 1) % 512 != 0 {
            return Err(RequestError::InvalidDataLength);
        }
        match sector_offset(header.sector) {
            Ok(offset) => Ok(RequestPlan::Read { len: writable - 1, offset }),
            Err(error) => Err(error),
        }
    } else if header.request_type == VIRTIO_BLK_T_OUT {
        if readable % 512 != 0 {
            return Err(RequestError::InvalidDataLength);
        }
        match sector_offset(header.sector) {
            Ok(offset) => Ok(RequestPlan::Write { len: readable, offset }),
            Err(error) => Err(error),
        }
    } else if header.request_type == VIRTIO_BLK_T_FLUSH {
        match cache {
            CacheType::Writeback => Ok(RequestPlan::Flush),
            CacheType::Unsafe => Ok(RequestPlan::IgnoreFlush),
        }
    } else if header.request_type == VIRTIO_BLK_T_GET_ID {
        if writable < VIRTIO_BLK_ID_BYTES {
            Err(RequestError::InvalidDataLength)
        } else {
            Ok(RequestPlan::WriteId)
        }
    } else if header.request_type == VIRTIO_BLK_T_DISCARD || header.request_type
        == VIRTIO_BLK_T_WRITE_ZEROES {
        Ok(RequestPlan::ReadSegment)
    } else {
        Err(RequestError::UnknownRequest)
    }
}

/// The lowest bit of the flags lets zeroing give sectors back.
pub open spec fn unmap_allowed(data: DiscardWriteData) -> bool {
    data.flags % 2 == 1
}

/// What a discard or write-zeroes request asks for, once its segment was read.
pub open spec fn segment_plan(
    header: RequestHeader,
    segment: Result<DiscardWriteData, std::io::Error>,
) -> Result<RequestPlan, RequestError> {
    match segment {
        Err(error) => Err(RequestError::ReadingFromDescriptor(error)),
        Ok(data) => if data.sector * SECTOR_BYTES > u64::MAX {
            Err(RequestError::InvalidDataLength)
        } else {
            let offset = (data.sector * SECTOR_BYTES) as u64;
            let bytes = (data.num_sectors * SECTOR_BYTES) as u64;
            if header.request_type == VIRTIO_BLK_T_DISCARD {
                Ok(RequestPlan::Discard { offset, bytes })
            } else if unmap_allowed(data) {
                Ok(RequestPlan::DiscardToZero { offset, bytes })
            } else {
                Ok(RequestPlan::WriteZeroes { offset, bytes })
            }
        },
    }
}

/// What a discard or write-zeroes request asks for, once its segment was read.
pub fn plan_segment(
    header: RequestHeader,
    segment: Result<DiscardWriteData, std::io::Error>,
) -> (r: Result<RequestPlan, RequestError>)
    requires
        header.request_type == VIRTIO_BLK_T_DISCARD || header.request_type
            == VIRTIO_BLK_T_WRITE_ZEROES,
    ensures
        r == segment_plan(header, segment),
{
    let data: DiscardWriteData = match segment {
        Err(error) => {
            return Err(RequestError::ReadingFromDescriptor(error));
        },
        Ok(data) => data,
    };
    let offset: u64 = match sector_offset(data.sector) {
        Err(error) => {
            return Err(error);
        },
        Ok(offset) => offset,
    };
    let bytes: u64 = match sector_count_bytes(data.num_sectors) {
        Err(error) => {
            return Err(error);
        },
        Ok(bytes) => bytes,
    };
    if header.request_type == VIRTIO_BLK_T_DISCARD {
        Ok(RequestPlan::Discard { offset, bytes })
    } else {
        let flags: u32 = data.flags;
        assert((flags & 1) == flags % 2) by (bit_vector);
        if (data.flags & VIRTIO_BLK_WRITE_ZEROES_FLAG_UNMAP) != 0 {
            Ok(RequestPlan::DiscardToZero { offset, bytes })
        } else {
            Ok(RequestPlan::WriteZeroes { offset, bytes })
        }
    }
}

/// The bytes that a finished request reports, or its error, from what the disk said.
pub open spec fn request_outcome(
    plan: RequestPlan,
    outcome: Result<usize, std::io::Error>,
) -> Result<usize, RequestError> {
    match outcome {
        Ok(len) => match plan {
            RequestPlan::Read { .. } | RequestPlan::Write { .. } => Ok(len),
            RequestPlan::WriteId => Ok(VIRTIO_BLK_ID_BYTES),
            _ => Ok(0),
        },
        Err(error) => match plan {
            RequestPlan::Read { .. } | RequestPlan::WriteId => Err(
                RequestError::WritingToDescriptor(error),
            ),
            RequestPlan::Write { .. } | RequestPlan::ReadSegment => Err(
                RequestError::ReadingFromDescriptor(error),
            ),
            RequestPlan::Flush => Err(RequestError::FlushingToDisk(error)),
            RequestPlan::IgnoreFlush => Ok(0),
            RequestPlan::Discard { .. } => Err(RequestError::Discarding(error)),
            RequestPlan::DiscardToZero { .. } => Err(RequestError::DiscardingToZero(error)),
            RequestPlan::WriteZeroes { .. } => Err(RequestError::WritingZeroes(error)),
        },
    }
}

/// What a request reports once the disk has done its work.
pub fn finish_request(plan: RequestPlan, outcome: Result<usize, std::io::Error>) -> (r: Result<
    usize,
    RequestError,
>)
    ensures
        r == request_outcome(plan, outcome),
{
    match outcome {
        Ok(len) => match plan {
            RequestPlan::Read { .. } | RequestPlan::Write { .. } => Ok(len),
            RequestPlan::WriteId => Ok(VIRTIO_BLK_ID_BYTES),
            _ => Ok(0),
        },
        Err(error) => match plan {
            RequestPlan::Read { .. } | RequestPlan::WriteId => Err(
                RequestError::WritingToDescriptor(error),
            ),
            RequestPlan::Write { .. } | RequestPlan::ReadSegment => Err(
                RequestError::ReadingFromDescriptor(error),
            ),
            RequestPlan::Flush => Err(RequestError::FlushingToDisk(error)),
            RequestPlan::IgnoreFlush => Ok(0),
            RequestPlan::Discard { .. } => Err(RequestError::Discarding(error)),
            RequestPlan::DiscardToZero { .. } => Err(RequestError::DiscardingToZero(error)),
            RequestPlan::WriteZeroes { .. } => Err(RequestError::WritingZeroes(error)),
        },
    }
}

/// The status byte and the length that the guest sees for the outcome of a request.
pub fn completion_of(outcome: &Result<usize, RequestError>) -> (r: (u8, usize))
    ensures
        outcome is Ok ==> r == (VIRTIO_BLK_S_OK, outcome->Ok_0),
        outcome is Err ==> r == (VIRTIO_BLK_S_IOERR, 0usize),
{
    match outcome {
        Ok(len) => (VIRTIO_BLK_S_OK, *len),
        Err(_) => (VIRTIO_BLK_S_IOERR, 0),
    }
}

/// Bytes that the guest read and wrote through a request: those of a read or a write that went
/// well.
pub fn bytes_moved(plan: RequestPlan, outcome: &Result<usize, RequestError>) -> (r: (u64, u64))
    ensures
        r == match *outcome {
            Err(_) => (0u64, 0u64),
            Ok(len) => match plan {
                RequestPlan::Read { .. } => (len as u64, 0u64),
                RequestPlan::Write { .. } => (0u64, len as u64),
                _ => (0u64, 0u64),
            },
        },
{
    match outcome {
        Err(_) => (0, 0),
        Ok(len) => match plan {
            RequestPlan::Read { .. } => (*len as u64, 0),
            RequestPlan::Write { .. } => (0, *len as u64),
            _ => (0, 0),
        },
    }
}

/// Where the status byte goes in what the host may write: behind the data that the request put
/// there.
pub fn status_position(plan: RequestPlan, outcome: &Result<usize, RequestError>) -> (r: usize)
    ensures
        r == match *outcome {
            Err(_) => 0,
            Ok(len) => match plan {
                RequestPlan::Read { .. } | RequestPlan::WriteId => len,
                _ => 0,
            },
        },
{
    match outcome {
        Err(_) => 0,
        Ok(len) => match plan {
            RequestPlan::Read { .. } | RequestPlan::WriteId => *len,
            _ => 0,
        },
    }
}

/// The class under which a request is counted.
pub fn block_request_kind(request_type: u32) -> (r: BlockRequestKind)
    ensures
        request_type == VIRTIO_BLK_T_IN ==> r == BlockRequestKind::Read,
        request_type == VIRTIO_BLK_T_OUT ==> r == BlockRequestKind::Write,
        request_type == VIRTIO_BLK_T_FLUSH ==> r == BlockRequestKind::Flush,
        request_type != VIRTIO_BLK_T_IN && request_type != VIRTIO_BLK_T_OUT && request_type
            != VIRTIO_BLK_T_FLUSH ==> r == BlockRequestKind::Other,
{
    if request_type == VIRTIO_BLK_T_IN {
        BlockRequestKind::Read
    } else if request_type == VIRTIO_BLK_T_OUT {
        BlockRequestKind::Write
    } else if request_type == VIRTIO_BLK_T_FLUSH {
        BlockRequestKind::Flush
    } else {
        BlockRequestKind::Other
    }
}

/// Requests that build one scratch vector for their data.
pub open spec fn has_scratch_vector(request_type: u32) -> bool {
    request_type == VIRTIO_BLK_T_IN || request_type == VIRTIO_BLK_T_OUT || request_type
        == VIRTIO_BLK_T_GET_ID || request_type == VIRTIO_BLK_T_DISCARD || request_type
        == VIRTIO_BLK_T_WRITE_ZEROES
}

/// Scratch vectors that the data of a request takes.
pub fn request_data_scratch_vectors(request_type: u32) -> (r: u64)
    ensures
        r == if has_scratch_vector(request_type) {
            1u64
        } else {
            0u64
        },
{
    if request_type == VIRTIO_BLK_T_IN || request_type == VIRTIO_BLK_T_OUT || request_type
        == VIRTIO_BLK_T_GET_ID || request_type == VIRTIO_BLK_T_DISCARD || request_type
        == VIRTIO_BLK_T_WRITE_ZEROES {
        1
    } else {
        0
    }
}

/// A duration in nanoseconds, capped at the largest 64-bit number.
pub fn duration_ns(nanos: u128) -> (r: u64)
    ensures
        r == if nanos <= u64::MAX {
            nanos as int
        } else {
            u64::MAX as int
        },
{
    if nanos <= u64::MAX as u128 {
        nanos as u64
    } else {
        u64::MAX
    }
}

/// A planned transfer is of whole sectors and starts at one. A read leaves room for the status, and
/// a write takes all that the guest gave.
pub proof fn planned_transfers_are_whole_sectors(
    header: RequestHeader,
    readable: usize,
    writable: usize,
    cache: CacheType,
)
    ensures
        request_plan(header, readable, writable, cache) matches Ok(
            RequestPlan::Read { len, offset },
        ) ==> len % 512 == 0 && len < writable && offset % 512 == 0,
        request_plan(header, readable, writable, cache) matches Ok(
            RequestPlan::Write { len, offset },
        ) ==> len % 512 == 0 && len == readable && offset % 512 == 0,
{
}

/// A read or a write starts at the first byte of the sector that its header names, and takes the
/// room that the guest left, or all that it gave. It is refused only where its data is no whole
/// number of sectors or where the sector starts past the last offset.
pub proof fn transfer_is_of_its_sector(
    header: RequestHeader,
    readable: usize,
    writable: usize,
    cache: CacheType,
    r: Result<RequestPlan, RequestError>,
    data: int,
)
    requires
        call_ensures(plan_request, (header, readable, writable, cache), r),
        header.request_type == 0 && data == writable - 1 || header.request_type == 1 && data
            == readable,
    ensures
        r is Ok <==> data >= 0 && data % 512 == 0 && header.sector * 512 <= u64::MAX,
        header.request_type == 0 && r is Ok ==> r->Ok_0 is Read && r->Ok_0->Read_offset
            == header.sector * 512 && r->Ok_0->Read_len == data,
        header.request_type == 1 && r is Ok ==> r->Ok_0 is Write && r->Ok_0->Write_offset
            == header.sector * 512 && r->Ok_0->Write_len == data,
        r is Err ==> r->Err_0 is InvalidDataLength,
{
}

/// Where on the disk a plan works, if it moves bytes.
pub open spec fn plan_offset(plan: RequestPlan) -> Option<u64> {
    match plan {
        RequestPlan::Read { offset, .. } => Some(offset),
        RequestPlan::Write { offset, .. } => Some(offset),
        RequestPlan::Discard { offset, .. } => Some(offset),
        RequestPlan::DiscardToZero { offset, .. } => Some(offset),
        RequestPlan::WriteZeroes { offset, .. } => Some(offset),
        _ => None,
    }
}

/// Two transfers, whether they read or write, work at offsets that lie as far apart as their
/// sectors: no two sectors share one.
pub proof fn transfers_lie_as_far_apart_as_their_sectors(
    a: RequestHeader,
    b: RequestHeader,
    readable: usize,
    writable: usize,
    cache: CacheType,
    ra: Result<RequestPlan, RequestError>,
    rb: Result<RequestPlan, RequestError>,
)
    requires
        call_ensures(plan_request, (a, readable, writable, cache), ra),
        call_ensures(plan_request, (b, readable, writable, cache), rb),
        a.request_type <= 1,
        b.request_type <= 1,
        ra is Ok,
        rb is Ok,
    ensures
        plan_offset(ra->Ok_0) is Some,
        plan_offset(rb->Ok_0) is Some,
        plan_offset(ra->Ok_0)->Some_0 - plan_offset(rb->Ok_0)->Some_0
            == 512 * (a.sector - b.sector),
        a.sector == 0 ==> plan_offset(ra->Ok_0)->Some_0 == 0,
{
}

/// Requests that are no transfers: a flush reaches the disk unless the cache is unsafe, the identity
/// needs room for itself, a discard and a zeroing have their segment read, and nothing else is
/// known.
pub proof fn other_requests_are_told_apart(
    header: RequestHeader,
    readable: usize,
    writable: usize,
    cache: CacheType,
    r: Result<RequestPlan, RequestError>,
)
    requires
        call_ensures(plan_request, (header, readable, writable, cache), r),
    ensures
        header.request_type == 4 && cache == CacheType::Writeback ==> r is Ok && r->Ok_0 is Flush,
        header.request_type == 4 && cache == CacheType::Unsafe ==> r is Ok
            && r->Ok_0 is IgnoreFlush,
        header.request_type == 8 && writable >= 20 ==> r is Ok && r->Ok_0 is WriteId,
        header.request_type == 8 && writable < 20 ==> r is Err && r->Err_0 is InvalidDataLength,
        header.request_type == 11 || header.request_type == 13 ==> r is Ok
            && r->Ok_0 is ReadSegment,
        header.request_type != 0 && header.request_type != 1 && header.request_type != 4
            && header.request_type != 8 && header.request_type != 11 && header.request_type != 13
            ==> r is Err && r->Err_0 is UnknownRequest,
{
}

/// A discard and a zeroing name the bytes of their segment's sectors; only a zeroing whose flags
/// allow it gives them back to the host.
pub proof fn segments_name_their_sectors(
    header: RequestHeader,
    segment: DiscardWriteData,
    r: Result<RequestPlan, RequestError>,
    half: int,
    unmap: int,
)
    requires
        header.request_type == 11 || header.request_type == 13,
        call_ensures(plan_segment, (header, Ok(segment)), r),
        segment.flags == 2 * half + unmap,
        0 <= unmap < 2,
    ensures
        r is Ok <==> segment.sector * 512 <= u64::MAX,
        r is Err ==> r->Err_0 is InvalidDataLength,
        r is Ok && header.request_type == 11 ==> r->Ok_0 is Discard && r->Ok_0->Discard_offset
            == segment.sector * 512 && r->Ok_0->Discard_bytes == segment.num_sectors * 512,
        r is Ok && header.request_type == 13 && unmap == 1 ==> r->Ok_0 is DiscardToZero
            && r->Ok_0->DiscardToZero_offset == segment.sector * 512 && r->Ok_0->DiscardToZero_bytes
            == segment.num_sectors * 512,
        r is Ok && header.request_type == 13 && unmap == 0 ==> r->Ok_0 is WriteZeroes
            && r->Ok_0->WriteZeroes_offset == segment.sector * 512 && r->Ok_0->WriteZeroes_bytes
            == segment.num_sectors * 512,
{
}

/// The header of a request stands in its first bytes, little-endian: the type, four bytes that say
/// nothing, and the sector. A segment starts with its sector, the number of sectors, and the flags.
pub proof fn headers_stand_in_their_bytes(
    b: &[u8],
    header: Option<RequestHeader>,
    segment: Option<DiscardWriteData>,
)
    requires
        b@.len() >= 16,
        call_ensures(RequestHeader::from_bytes, (b,), header),
        call_ensures(DiscardWriteData::from_bytes, (b,), segment),
    ensures
        header is Some,
        header->Some_0.request_type == b@[0] + 256 * b@[1] + 65536 * b@[2] + 16777216 * b@[3],
        header->Some_0.sector == b@[8] + 256 * b@[9] + 65536 * b@[10] + 16777216 * b@[11]
            + 4294967296 * (b@[12] + 256 * b@[13] + 65536 * b@[14] + 16777216 * b@[15]),
        segment is Some,
        segment->Some_0.sector == b@[0] + 256 * b@[1] + 65536 * b@[2] + 16777216 * b@[3]
            + 4294967296 * (b@[4] + 256 * b@[5] + 65536 * b@[6] + 16777216 * b@[7]),
        segment->Some_0.num_sectors == b@[8] + 256 * b@[9] + 65536 * b@[10] + 16777216 * b@[11],
        segment->Some_0.flags == b@[12] + 256 * b@[13] + 65536 * b@[14] + 16777216 * b@[15],
{
}

/// What the disk did is what the guest is told: a transfer that went well reports the bytes that
/// were moved, counts them in the direction that the guest moved them, and puts the status behind
/// what the guest was given; one that failed reports an error, no bytes, and counts none.
pub proof fn outcome_reaches_the_guest(
    plan: RequestPlan,
    disk: Result<usize, std::io::Error>,
    outcome: Result<usize, RequestError>,
    told: (u8, usize),
    moved: (u64, u64),
    place: usize,
)
    requires
        call_ensures(finish_request, (plan, disk), outcome),
        call_ensures(completion_of, (&outcome,), told),
        call_ensures(bytes_moved, (plan, &outcome), moved),
        call_ensures(status_position, (plan, &outcome), place),
    ensures
        disk is Ok ==> told.0 == 0,
        disk is Err && !(plan is IgnoreFlush) ==> told == (1u8, 0usize) && moved == (0u64, 0u64)
            && place == 0,
        disk is Ok && plan is Read ==> told.1 == disk->Ok_0 && moved.0 == disk->Ok_0 && moved.1 == 0
            && place == disk->Ok_0,
        disk is Ok && plan is Write ==> told.1 == disk->Ok_0 && moved.0 == 0 && moved.1
            == disk->Ok_0 && place == 0,
        disk is Ok && plan is WriteId ==> told.1 == 20 && moved == (0u64, 0u64) && place == 20,
        disk is Ok && !(plan is Read) && !(plan is Write) && !(plan is WriteId) ==> told.1 == 0
            && moved == (0u64, 0u64) && place == 0,
{
}

/// A failure is named after what the request was doing, with the error of the disk.
pub proof fn failures_are_named_after_the_work(
    plan: RequestPlan,
    error: std::io::Error,
    r: Result<usize, RequestError>,
)
    requires
        call_ensures(finish_request, (plan, Err(error)), r),
        !(plan is IgnoreFlush),
    ensures
        r is Err,
        plan is Read || plan is WriteId ==> r->Err_0 == RequestError::WritingToDescriptor(error),
        plan is Write || plan is ReadSegment ==> r->Err_0 == RequestError::ReadingFromDescriptor(
            error,
        ),
        plan is Flush ==> r->Err_0 == RequestError::FlushingToDisk(error),
        plan is Discard ==> r->Err_0 == RequestError::Discarding(error),
        plan is DiscardToZero ==> r->Err_0 == RequestError::DiscardingToZero(error),
        plan is WriteZeroes ==> r->Err_0 == RequestError::WritingZeroes(error),
{
}

/// A sector starts five hundred and twelve times its number into the disk, where a byte of the disk
/// has such a number, and requests are told apart by their type.
pub proof fn sectors_have_a_fixed_size(
    sector: u64,
    offset: Result<u64, RequestError>,
    count: u32,
    bytes: Result<u64, RequestError>,
    request_type: u32,
    kind: BlockRequestKind,
    nanos: u128,
    ns: u64,
)
    requires
        call_ensures(sector_offset, (sector,), offset),
        call_ensures(sector_count_bytes, (count,), bytes),
        call_ensures(block_request_kind, (request_type,), kind),
        call_ensures(duration_ns, (nanos,), ns),
    ensures
        offset is Ok <==> sector < 0x80_0000_0000_0000,
        offset is Ok ==> offset->Ok_0 / 512 == sector && offset->Ok_0 % 512 == 0,
        bytes is Ok && bytes->Ok_0 == 512 * count,
        kind is Read <==> request_type == 0,
        kind is Write <==> request_type == 1,
        kind is Flush <==> request_type == 4,
        nanos <= u64::MAX ==> ns == nanos,
        nanos > u64::MAX ==> ns == u64::MAX,
{
}

} // verus!
