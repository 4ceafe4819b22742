//! Packets of the socket device: a header and, for most of them, data.

use crate::bytes::{
    be_u16, be_u32, bits_of_i32, get_be_u16, get_be_u32, get_le_u16, get_le_u32, get_le_u64,
    i32_to_u32, join_parts, joined, joined_starts_with_the_first, le_u16, le_u16_read_after_write, le_u32,
    le_u32_read_after_write, le_u64, le_u64_read_after_write, put_le_u16, put_le_u32, put_le_u64,
    u32_to_i32, with_le_u16, with_le_u32, with_le_u64,
};
use crate::descriptor::{
    byte_address, chain_len, chain_len_from_the_front, Descriptor, GuestChunk,
};
use crate::guest_memory::{
    all_mapped, guest_regions, in_one_region, slice_at, slice_gave, slice_gave_byte, write_at,
    write_took,
};
use crate::host::HostOs;
use crate::text::utf8_text;
use vm_memory::GuestMemoryMmap;
use vstd::prelude::*;

verus! {

/// Bytes in a packet header.
pub const VSOCK_PKT_HDR_SIZE: usize = 44;

/// Most bytes of data in one packet.
pub const MAX_PKT_BUF_SIZE: usize = 65_536;

/// The address family of local sockets on Linux.
pub const LINUX_AF_UNIX: u16 = 1;

/// The address family of IPv4 on Linux.
pub const LINUX_AF_INET: u16 = 2;

/// The address family of IPv6 on Linux.
pub const LINUX_AF_INET6: u16 = 10;

/// Where `src_cid` stands in the header.
pub const HDROFF_SRC_CID: usize = 0;

/// Where `dst_cid` stands in the header.
pub const HDROFF_DST_CID: usize = 8;

/// Where `src_port` stands in the header.
pub const HDROFF_SRC_PORT: usize = 16;

/// Where `dst_port` stands in the header.
pub const HDROFF_DST_PORT: usize = 20;

/// Where `len` stands in the header.
pub const HDROFF_LEN: usize = 24;

/// Where `type_` stands in the header.
pub const HDROFF_TYPE: usize = 28;

/// Where `op` stands in the header.
pub const HDROFF_OP: usize = 30;

/// Where `flags` stands in the header.
pub const HDROFF_FLAGS: usize = 32;

/// Where `buf_alloc` stands in the header.
pub const HDROFF_BUF_ALLOC: usize = 36;

/// Where `fwd_cnt` stands in the header.
pub const HDROFF_FWD_CNT: usize = 40;

/// The fields of a packet header.
#[derive(Clone, Copy, Debug, PartialEq, Eq, Structural)]
pub struct VsockHeader {
    /// Address of the sender.
    pub src_cid: u64,
    /// Address of the receiver.
    pub dst_cid: u64,
    /// Port of the sender.
    pub src_port: u32,
    /// Port of the receiver.
    pub dst_port: u32,
    /// Bytes of data.
    pub len: u32,
    /// Kind of socket.
    pub type_: u16,
    /// What the packet is for.
    pub op: u16,
    /// Options of the operation.
    pub flags: u32,
    /// Size of the sender's receive buffer.
    pub buf_alloc: u32,
    /// Bytes that the sender has taken out of its receive buffer.
    pub fwd_cnt: u32,
}

/// The fields that header bytes hold.
pub open spec fn header_fields(hdr: Seq<u8>) -> VsockHeader {
    VsockHeader {
        src_cid: le_u64(hdr, HDROFF_SRC_CID as int) as u64,
        dst_cid: le_u64(hdr, HDROFF_DST_CID as int) as u64,
        src_port: le_u32(hdr, HDROFF_SRC_PORT as int) as u32,
        dst_port: le_u32(hdr, HDROFF_DST_PORT as int) as u32,
        len: le_u32(hdr, HDROFF_LEN as int) as u32,
        type_: le_u16(hdr, HDROFF_TYPE as int) as u16,
        op: le_u16(hdr, HDROFF_OP as int) as u16,
        flags: le_u32(hdr, HDROFF_FLAGS as int) as u32,
        buf_alloc: le_u32(hdr, HDROFF_BUF_ALLOC as int) as u32,
        fwd_cnt: le_u32(hdr, HDROFF_FWD_CNT as int) as u32,
    }
}

/// Why a chain of descriptors is not a packet.
#[derive(Clone, Copy, Debug, PartialEq, Eq, Structural)]
pub enum VsockError {
    /// A descriptor that the host has to read is for writing only.
    UnreadableDescriptor,
    /// A descriptor that the host has to write is for reading only.
    UnwritableDescriptor,
    /// The first descriptor has this many bytes, too few for a header.
    HdrDescTooSmall(u32),
    /// The header names this many bytes of data, more than a packet has.
    InvalidPktLen(u32),
    /// There is no descriptor for the data.
    BufDescMissing,
    /// The descriptors hold less data than the header names.
    BufDescTooSmall,
    /// A descriptor names memory that the guest does not have.
    GuestMemoryMmap,
    /// A descriptor reaches past the last guest address.
    GuestMemoryBounds,
}

/// A packet: what stands in guest memory, and where.
pub struct VsockPacket {
    hdr: Vec<u8>,
    hdr_addr: u64,
    buf: Option<Vec<u8>>,
    buf_addr: Option<u64>,
}

/// Bytes in a list of pieces.
pub open spec fn chunks_len(pieces: Seq<GuestChunk>) -> nat
    decreases pieces.len(),
{
    if pieces.len() == 0 {
        0
    } else {
        chunks_len(pieces.drop_last()) + pieces.last().len as nat
    }
}

/// Every piece lies inside one region of guest memory.
pub open spec fn pieces_mapped(regions: Seq<(u64, u64)>, pieces: Seq<GuestChunk>) -> bool {
    forall|i: int|
        0 <= i < pieces.len() ==> in_one_region(
            regions,
            (#[trigger] pieces[i]).addr,
            pieces[i].len as nat,
        )
}

/// The pieces that `left` bytes of data take in a row of descriptors, and whether they are there.
pub open spec fn tx_pieces(descriptors: Seq<Descriptor>, left: nat) -> (
    Seq<GuestChunk>,
    Result<(), VsockError>,
)
    decreases descriptors.len(),
{
    if descriptors.len() == 0 {
        (Seq::empty(), Err(VsockError::BufDescTooSmall))
    } else if descriptors[0].write_only {
        (Seq::empty(), Err(VsockError::UnreadableDescriptor))
    } else {
        let count = if descriptors[0].len < left {
            descriptors[0].len as nat
        } else {
            left
        };
        let piece = GuestChunk { addr: descriptors[0].addr, len: count as usize };
        if count == left {
            (seq![piece], Ok(()))
        } else {
            let (rest, result) = tx_pieces(descriptors.skip(1), (left - count) as nat);
            (seq![piece] + rest, result)
        }
    }
}

/// The data of a packet that the guest sends: one descriptor where it holds all of it, and else as
/// many as it takes.
pub open spec fn tx_data(chain: Seq<Descriptor>, len: u32) -> (
    Seq<GuestChunk>,
    Result<(), VsockError>,
) {
    if len == 0 {
        (Seq::empty(), Ok(()))
    } else if len > MAX_PKT_BUF_SIZE {
        (Seq::empty(), Err(VsockError::InvalidPktLen(len)))
    } else if chain.len() < 2 {
        (Seq::empty(), Err(VsockError::BufDescMissing))
    } else if chain[1].write_only {
        (Seq::empty(), Err(VsockError::UnreadableDescriptor))
    } else if chain[1].len < len {
        tx_pieces(chain.skip(1), len as nat)
    } else {
        (seq![GuestChunk { addr: chain[1].addr, len: chain[1].len as usize }], Ok(()))
    }
}

/// The data of a packet that the guest sends, with the length that its header names.
pub fn plan_tx_data(chain: &[Descriptor], len: u32) -> (r: (
    Vec<GuestChunk>,
    Result<(), VsockError>,
))
    ensures
        (r.0@, r.1) == tx_data(chain@, len),
{
    let mut pieces: Vec<GuestChunk> = Vec::new();
    assert(pieces@ =~= Seq::empty());
    if len == 0 {
        return (pieces, Ok(()));
    }
    if len > MAX_PKT_BUF_SIZE as u32 {
        return (pieces, Err(VsockError::InvalidPktLen(len)));
    }
    if chain.len() < 2 {
        return (pieces, Err(VsockError::BufDescMissing));
    }
    let first: Descriptor = chain[1];
    if first.write_only {
        return (pieces, Err(VsockError::UnreadableDescriptor));
    }
    if first.len >= len {
        pieces.push(GuestChunk { addr: first.addr, len: first.len as usize });
        assert(pieces@ =~= tx_data(chain@, len).0);
        return (pieces, Ok(()));
    }
    let mut left: u32 = len;
    let mut i: usize = 1;
    let ghost whole = tx_pieces(chain@.skip(1), len as nat);
    assert(pieces@ + whole.0 =~= whole.0);
    while i < chain.len()
        invariant
            1 <= i <= chain@.len(),
            0 < left <= len,
            whole == tx_data(chain@, len),
            whole == ({
                let rest = tx_pieces(chain@.skip(i as int), left as nat);
                (pieces@ + rest.0, rest.1)
            }),
        decreases chain@.len() - i,
    {
        let descriptor: Descriptor = chain[i];
        let ghost rest = chain@.skip(i as int);
        assert(rest[0] == descriptor);
        assert(rest.skip(1) =~= chain@.skip(i + 1));
        if descriptor.write_only {
            assert(pieces@ + Seq::<GuestChunk>::empty() =~= pieces@);
            return (pieces, Err(VsockError::UnreadableDescriptor));
        }
        let count: u32 = if descriptor.len < left {
            descriptor.len
        } else {
            left
        };
        let piece = GuestChunk { addr: descriptor.addr, len: count as usize };
        let ghost before = pieces@;
        pieces.push(piece);
        if count == left {
            assert(before + seq![piece] =~= pieces@);
            return (pieces, Ok(()));
        }
        left = left - count;
        i = i + 1;
        proof {
            let tail = tx_pieces(chain@.skip(i as int), left as nat);
            assert(before + (seq![piece] + tail.0) =~= pieces@ + tail.0);
        }
    }
    assert(pieces@ + Seq::<GuestChunk>::empty() =~= pieces@);
    (pieces, Err(VsockError::BufDescTooSmall))
}

/// Data that is gathered has exactly as many bytes as the header names.
pub proof fn gathered_data_has_declared_length(descriptors: Seq<Descriptor>, left: nat)
    requires
        left <= u32::MAX,
        tx_pieces(descriptors, left).1 is Ok,
    ensures
        chunks_len(tx_pieces(descriptors, left).0) == left,
    decreases descriptors.len(),
{
    let count = if descriptors[0].len < left {
        descriptors[0].len as nat
    } else {
        left
    };
    let piece = GuestChunk { addr: descriptors[0].addr, len: count as usize };
    let single = seq![piece];
    assert(single.drop_last() =~= Seq::empty());
    assert(chunks_len(single.drop_last()) == 0);
    assert(chunks_len(single) == count);
    if count < left {
        gathered_data_has_declared_length(descriptors.skip(1), (left - count) as nat);
        lemma_chunks_len_concat(single, tx_pieces(descriptors.skip(1), (left - count) as nat).0);
    }
}

proof fn lemma_chunks_len_concat(a: Seq<GuestChunk>, b: Seq<GuestChunk>)
    ensures
        chunks_len(a + b) == chunks_len(a) + chunks_len(b),
    decreases b.len(),
{
    if b.len() == 0 {
        assert(a + b =~= a);
    } else {
        lemma_chunks_len_concat(a, b.drop_last());
        assert((a + b).drop_last() =~= a + b.drop_last());
    }
}

/// Each part is what guest memory gave for a piece.
pub open spec fn parts_of(
    mem: GuestMemoryMmap,
    pieces: Seq<GuestChunk>,
    parts: Seq<Vec<u8>>,
) -> bool {
    &&& parts.len() == pieces.len()
    &&& forall|i: int|
        0 <= i < pieces.len() ==> (#[trigger] parts[i])@.len() == pieces[i].len && slice_gave(
            mem,
            pieces[i].addr,
            pieces[i].len,
            parts[i]@,
        )
}

/// The data is what guest memory gave for the pieces, one behind the other.
pub open spec fn gathered(mem: GuestMemoryMmap, pieces: Seq<GuestChunk>, data: Seq<u8>) -> bool {
    exists|parts: Seq<Vec<u8>>| #[trigger] parts_of(mem, pieces, parts) && data == joined(parts)
}

/// Reads the pieces of a packet, if all of them are there.
fn read_pieces(mem: &GuestMemoryMmap, pieces: &Vec<GuestChunk>) -> (r: Option<Vec<u8>>)
    ensures
        r is Some <==> pieces_mapped(guest_regions(*mem), pieces@),
        r matches Some(bytes) ==> bytes@.len() == chunks_len(pieces@) && gathered(
            *mem,
            pieces@,
            bytes@,
        ),
{
    let mut parts: Vec<Vec<u8>> = Vec::new();
    let mut i: usize = 0;
    assert(pieces@.take(0) =~= Seq::empty());
    while i < pieces.len()
        invariant
            i <= pieces@.len(),
            parts_of(*mem, pieces@.take(i as int), parts@),
            joined(parts@).len() == chunks_len(pieces@.take(i as int)),
            forall|j: int|
                0 <= j < i ==> in_one_region(
                    guest_regions(*mem),
                    (#[trigger] pieces@[j]).addr,
                    pieces@[j].len as nat,
                ),
        decreases pieces@.len() - i,
    {
        let piece: GuestChunk = pieces[i];
        assert(pieces@.take(i + 1).drop_last() =~= pieces@.take(i as int));
        match slice_at(mem, piece.addr, piece.len) {
            None => {
                assert(!in_one_region(
                    guest_regions(*mem),
                    pieces@[i as int].addr,
                    pieces@[i as int].len as nat,
                ));
                return None;
            },
            Some(part) => {
                let ghost before = parts@;
                parts.push(part);
                assert(parts@.drop_last() =~= before);
            },
        }
        i = i + 1;
    }
    assert(pieces@.take(i as int) =~= pieces@);
    Some(join_parts(&parts))
}

/// Where the data of a packet that the guest sends stands, if one descriptor holds all of it.
pub open spec fn tx_place(chain: Seq<Descriptor>, len: u32) -> Option<u64> {
    if len > 0 && chain[1].len >= len {
        Some(chain[1].addr)
    } else {
        None
    }
}

/// `r` is what a chain comes to that the guest sends, where its header turns out to be `hdr`.
pub open spec fn tx_outcome(
    mem: GuestMemoryMmap,
    chain: Seq<Descriptor>,
    hdr: Seq<u8>,
    r: Result<VsockPacket, VsockError>,
) -> bool {
    let (pieces, planned) = tx_data(chain, header_fields(hdr).len);
    &&& hdr.len() == VSOCK_PKT_HDR_SIZE
    &&& slice_gave(mem, chain[0].addr, VSOCK_PKT_HDR_SIZE, hdr)
    &&& if !pieces_mapped(guest_regions(mem), pieces) {
        r == Err::<VsockPacket, VsockError>(VsockError::GuestMemoryMmap)
    } else {
        match planned {
            Err(error) => r == Err::<VsockPacket, VsockError>(error),
            Ok(()) => r matches Ok(packet) && {
                &&& packet.wf()
                &&& packet.header() == hdr
                &&& packet.buffer() is Some <==> header_fields(hdr).len > 0
                &&& packet.buffer() matches Some(data) ==> data.len() == chunks_len(pieces)
                    && gathered(mem, pieces, data)
                &&& packet.places() == (chain[0].addr, tx_place(chain, header_fields(hdr).len))
            },
        }
    }
}

/// A socket address as it came from the guest.
#[derive(Debug)]
pub enum TsiAddress {
    /// The bytes of a Linux address.
    Raw { bytes: Vec<u8> },
    /// An IPv4 address and a port.
    V4 { addr: [u8; 4], port: u16 },
    /// An IPv6 address and a port.
    V6 { segments: [u16; 8], port: u16, flowinfo: u32, scope_id: u32 },
}

/// A socket is to be made.
#[derive(Clone, Copy, Debug, PartialEq, Eq, Structural)]
pub struct TsiProxyCreate {
    pub peer_port: u32,
    pub family: u16,
    pub _type: u16,
}

/// A socket is to be connected.
#[derive(Debug)]
pub struct TsiConnectReq {
    pub peer_port: u32,
    pub addr: TsiAddress,
}

/// How a connection attempt ended.
#[derive(Clone, Copy, Debug, PartialEq, Eq, Structural)]
pub struct TsiConnectRsp {
    pub result: i32,
}

/// The name of a socket is asked for.
#[derive(Clone, Copy, Debug, PartialEq, Eq, Structural)]
pub struct TsiGetnameReq {
    pub peer_port: u32,
    pub local_port: u32,
    pub peer: u32,
}

/// The name of a socket, as the host writes addresses.
#[derive(Debug)]
pub struct TsiGetnameRsp {
    pub result: i32,
    pub addr_len: u32,
    pub addr: Vec<u8>,
}

/// A datagram goes to this address.
#[derive(Debug)]
pub struct TsiSendtoAddr {
    pub peer_port: u32,
    pub addr: TsiAddress,
}

/// A socket is to listen.
#[derive(Debug)]
pub struct TsiListenReq {
    pub peer_port: u32,
    pub vm_port: u32,
    pub backlog: i32,
    pub addr: TsiAddress,
}

/// How an attempt to listen ended.
#[derive(Clone, Copy, Debug, PartialEq, Eq, Structural)]
pub struct TsiListenRsp {
    pub result: i32,
}

/// A connection is to be accepted.
#[derive(Clone, Copy, Debug, PartialEq, Eq, Structural)]
pub struct TsiAcceptReq {
    pub peer_port: u32,
    pub flags: u32,
}

/// How an attempt to accept ended.
#[derive(Clone, Copy, Debug, PartialEq, Eq, Structural)]
pub struct TsiAcceptRsp {
    pub result: i32,
}

/// A socket is to be given up.
#[derive(Clone, Copy, Debug, PartialEq, Eq, Structural)]
pub struct TsiReleaseReq {
    pub peer_port: u32,
    pub local_port: u32,
}

/// Bytes in the address of an IPv4 socket on Linux.
pub const LINUX_SOCKADDR_IN_BYTES: u32 = 16;

/// Most bytes in a socket address on Linux.
pub const LINUX_SOCKADDR_MAX_BYTES: u32 = 128;

impl Default for TsiGetnameRsp {
    /// A failure, with the unspecified IPv4 address.
    fn default() -> (r: TsiGetnameRsp)
        ensures
            r.result == -1,
            r.addr_len == LINUX_SOCKADDR_IN_BYTES,
            r.addr@ == with_le_u16(
                Seq::new(LINUX_SOCKADDR_IN_BYTES as nat, |i: int| 0u8),
                0,
                LINUX_AF_INET as int,
            ),
    {
        let mut addr: Vec<u8> = vec![0u8; 16];
        assert(addr@ =~= Seq::new(LINUX_SOCKADDR_IN_BYTES as nat, |i: int| 0u8));
        put_le_u16(addr.as_mut_slice(), 0, LINUX_AF_INET);
        TsiGetnameRsp { result: -1, addr_len: LINUX_SOCKADDR_IN_BYTES, addr }
    }
}

/// A length that a Linux address may have, and that the buffer has.
pub open spec fn linux_address_fits(buf: Seq<u8>, addr_len: u32) -> bool {
    2 <= addr_len <= LINUX_SOCKADDR_MAX_BYTES && addr_len <= buf.len()
}

/// The families that a guest may name.
pub open spec fn linux_family(family: int) -> bool {
    family == LINUX_AF_INET || family == LINUX_AF_INET6 || family == LINUX_AF_UNIX
}

/// `r` is the address that a Linux host takes from a buffer.
pub open spec fn linux_address(buf: Seq<u8>, addr_len: u32, r: Option<TsiAddress>) -> bool {
    if linux_address_fits(buf, addr_len) && linux_family(le_u16(buf, 0)) {
        r matches Some(TsiAddress::Raw { bytes }) && bytes@ == buf.take(addr_len as int)
    } else {
        r is None
    }
}

/// The address that a Linux host takes from a buffer. One that reaches past the buffer is refused.
pub fn parse_linux_address(buf: &[u8], addr_len: u32) -> (r: Option<TsiAddress>)
    ensures
        linux_address(buf@, addr_len, r),
{
    if addr_len < 2 || addr_len > LINUX_SOCKADDR_MAX_BYTES || addr_len as usize > buf.len() {
        return None;
    }
    let family: u16 = get_le_u16(buf, 0);
    if family != LINUX_AF_INET && family != LINUX_AF_INET6 && family != LINUX_AF_UNIX {
        return None;
    }
    let mut bytes: Vec<u8> = Vec::new();
    let part = vstd::slice::slice_subrange(buf, 0, addr_len as usize);
    crate::bytes::push_all(&mut bytes, part);
    assert(bytes@ =~= buf@.take(addr_len as int));
    Some(TsiAddress::Raw { bytes })
}

/// Bytes that the address of a family takes on the wire.
pub open spec fn macos_address_len(family: int) -> nat {
    if family == LINUX_AF_INET {
        8
    } else if family == LINUX_AF_INET6 {
        28
    } else {
        2
    }
}

/// `r` is the address that a macOS host takes from a buffer.
pub open spec fn macos_address(buf: Seq<u8>, r: Option<TsiAddress>) -> bool {
    let family = le_u16(buf, 0);
    if family == LINUX_AF_INET {
        r matches Some(TsiAddress::V4 { addr, port }) && {
            &&& port == be_u16(buf, 2)
            &&& addr@ == buf.subrange(4, 8)
        }
    } else if family == LINUX_AF_INET6 {
        r matches Some(TsiAddress::V6 { segments, port, flowinfo, scope_id }) && {
            &&& port == be_u16(buf, 2)
            &&& flowinfo == be_u32(buf, 4)
            &&& scope_id == be_u32(buf, 24)
            &&& forall|i: int| 0 <= i < 8 ==> #[trigger] segments[i] == be_u16(buf, 8 + 2 * i)
        }
    } else {
        r is None
    }
}

/// The address that a macOS host takes from a buffer.
pub fn parse_macos_address(buf: &[u8]) -> (r: Option<TsiAddress>)
    requires
        buf@.len() >= 2,
        buf@.len() >= macos_address_len(le_u16(buf@, 0)),
    ensures
        macos_address(buf@, r),
{
    let family: u16 = get_le_u16(buf, 0);
    if family == LINUX_AF_INET {
        let addr: [u8; 4] = [buf[4], buf[5], buf[6], buf[7]];
        assert(addr@ =~= buf@.subrange(4, 8));
        Some(TsiAddress::V4 { addr, port: get_be_u16(buf, 2) })
    } else if family == LINUX_AF_INET6 {
        let segments: [u16; 8] = [
            get_be_u16(buf, 8),
            get_be_u16(buf, 10),
            get_be_u16(buf, 12),
            get_be_u16(buf, 14),
            get_be_u16(buf, 16),
            get_be_u16(buf, 18),
            get_be_u16(buf, 20),
            get_be_u16(buf, 22),
        ];
        Some(
            TsiAddress::V6 {
                segments,
                port: get_be_u16(buf, 2),
                flowinfo: get_be_u32(buf, 4),
                scope_id: get_be_u32(buf, 24),
            },
        )
    } else {
        None
    }
}

/// A host that can serve sockets of the guest, and a buffer that it can look for an address in.
pub open spec fn address_readable(buf: Seq<u8>, host: HostOs) -> bool {
    match host {
        HostOs::Linux => buf.len() >= 1,
        HostOs::Macos => buf.len() >= 2 && buf.len() >= macos_address_len(le_u16(buf, 0)),
        _ => false,
    }
}

/// `r` is the address that a host takes from a buffer.
pub open spec fn host_address(
    buf: Seq<u8>,
    addr_len: u32,
    host: HostOs,
    r: Option<TsiAddress>,
) -> bool {
    match host {
        HostOs::Linux => linux_address(buf, addr_len, r),
        _ => macos_address(buf, r),
    }
}

fn parse_address(buf: &[u8], addr_len: u32, host: HostOs) -> (r: Option<TsiAddress>)
    requires
        address_readable(buf@, host),
    ensures
        host_address(buf@, addr_len, host, r),
{
    match host {
        HostOs::Linux => parse_linux_address(buf, addr_len),
        _ => parse_macos_address(buf),
    }
}

/// The family that Linux has for the address family of a BSD system.
pub open spec fn linux_family_of_bsd(family: u8) -> u16 {
    if family == 2 {
        LINUX_AF_INET
    } else if family == 30 {
        LINUX_AF_INET6
    } else {
        0
    }
}

/// A buffer with the name of a socket in it.
pub open spec fn with_getname_rsp(
    buf: Seq<u8>,
    result: i32,
    addr_len: u32,
    addr: Seq<u8>,
    host: HostOs,
) -> Seq<u8> {
    let s = with_le_u32(buf, 0, bits_of_i32(result));
    let s = with_le_u32(s, 4, addr_len as int);
    let s = Seq::new(
        s.len(),
        |i: int|
            if 8 <= i < 8 + addr.len() {
                addr[i - 8]
            } else {
                s[i]
            },
    );
    if host == HostOs::Macos {
        with_le_u16(s, 8, linux_family_of_bsd(s[9]) as int)
    } else {
        s
    }
}

fn copy_into(buf: &mut [u8], at: usize, bytes: &[u8])
    requires
        at + bytes@.len() <= old(buf)@.len(),
    ensures
        final(buf)@ == Seq::new(
            old(buf)@.len(),
            |i: int|
                if at <= i < at + bytes@.len() {
                    bytes@[i - at]
                } else {
                    old(buf)@[i]
                },
        ),
{
    let mut i: usize = 0;
    let ghost limit = buf.len();
    while i < bytes.len()
        invariant
            i <= bytes@.len(),
            at + bytes@.len() <= buf@.len(),
            buf@.len() == old(buf)@.len(),
            buf@.len() == limit,
            limit <= usize::MAX,
            forall|j: int| 0 <= j < i ==> #[trigger] buf@[at + j] == bytes@[j],
            forall|j: int|
                0 <= j < buf@.len() && !(at <= j < at + i) ==> #[trigger] buf@[j] == old(buf)@[j],
        decreases bytes@.len() - i,
    {
        let ghost before = buf@;
        buf[at + i] = bytes[i];
        i = i + 1;
        assert forall|j: int| 0 <= j < i implies #[trigger] buf@[at + j] == bytes@[j] by {
            if j < i - 1 {
                assert(before[at + j] == bytes@[j]);
            }
        }
    }
    assert forall|j: int| 0 <= j < buf@.len() implies #[trigger] buf@[j] == if at <= j < at
        + bytes@.len() {
        bytes@[j - at]
    } else {
        old(buf)@[j]
    } by {
        if at <= j < at + bytes@.len() {
            assert(buf@[at + (j - at)] == bytes@[j - at]);
        }
    }
    assert(buf@ =~= Seq::new(
        old(buf)@.len(),
        |i: int|
            if at <= i < at + bytes@.len() {
                bytes@[i - at]
            } else {
                old(buf)@[i]
            },
    ));
}

/// Where the first zero of a path stands, if there is one.
pub open spec fn path_end(buf: Seq<u8>, end: int) -> bool {
    &&& 2 <= end < buf.len()
    &&& buf[end] == 0
    &&& forall|i: int| 2 <= i < end ==> #[trigger] buf[i] != 0
}

impl VsockPacket {
    /// The header has its full length.
    pub closed spec fn wf(self) -> bool {
        self.hdr@.len() == VSOCK_PKT_HDR_SIZE
    }

    /// The bytes of the header.
    pub closed spec fn header(self) -> Seq<u8> {
        self.hdr@
    }

    /// The bytes of the data buffer; packets without data have none.
    pub closed spec fn buffer(self) -> Option<Seq<u8>> {
        match self.buf {
            None => None,
            Some(buf) => Some(buf@),
        }
    }

    /// Bytes in the data buffer.
    pub open spec fn buf_size(self) -> nat {
        match self.buffer() {
            None => 0,
            Some(buf) => buf.len(),
        }
    }

    /// Where the header and the data stand in guest memory.
    pub closed spec fn places(self) -> (u64, Option<u64>) {
        (self.hdr_addr, self.buf_addr)
    }

    /// Everything but the header is the same.
    pub open spec fn same_but_header(self, other: VsockPacket) -> bool {
        self.buffer() == other.buffer() && self.places() == other.places()
    }

    /// Everything but the data is the same.
    pub open spec fn same_but_buffer(self, other: VsockPacket) -> bool {
        &&& self.header() == other.header()
        &&& self.places() == other.places()
        &&& self.buffer() is Some <==> other.buffer() is Some
    }

    /// A packet that the guest sends. The first descriptor holds the header and the ones behind it
    /// the data, which is gathered where it takes more than one.
    pub fn from_tx_virtq_head(mem: &GuestMemoryMmap, chain: &[Descriptor]) -> (r: Result<
        VsockPacket,
        VsockError,
    >)
        requires
            chain@.len() >= 1,
        ensures
            ({
                let regions = guest_regions(*mem);
                let head = chain@[0];
                if head.write_only {
                    r == Err::<VsockPacket, VsockError>(VsockError::UnreadableDescriptor)
                } else if head.len < VSOCK_PKT_HDR_SIZE {
                    r == Err::<VsockPacket, VsockError>(VsockError::HdrDescTooSmall(head.len))
                } else if !in_one_region(regions, head.addr, VSOCK_PKT_HDR_SIZE as nat) {
                    r == Err::<VsockPacket, VsockError>(VsockError::GuestMemoryMmap)
                } else {
                    exists|hdr: Seq<u8>| #[trigger] tx_outcome(*mem, chain@, hdr, r)
                }
            }),
    {
        let head: Descriptor = chain[0];
        if head.write_only {
            return Err(VsockError::UnreadableDescriptor);
        }
        if head.len < VSOCK_PKT_HDR_SIZE as u32 {
            return Err(VsockError::HdrDescTooSmall(head.len));
        }
        let hdr: Vec<u8> = match slice_at(mem, head.addr, VSOCK_PKT_HDR_SIZE) {
            None => {
                return Err(VsockError::GuestMemoryMmap);
            },
            Some(hdr) => hdr,
        };
        let ghost bytes = hdr@;
        let len: u32 = get_le_u32(hdr.as_slice(), HDROFF_LEN);
        let (pieces, planned) = plan_tx_data(chain, len);
        let data: Vec<u8> = match read_pieces(mem, &pieces) {
            None => {
                let r: Result<VsockPacket, VsockError> = Err(VsockError::GuestMemoryMmap);
                assert(tx_outcome(*mem, chain@, bytes, r));
                return r;
            },
            Some(data) => data,
        };
        match planned {
            Err(error) => {
                let r: Result<VsockPacket, VsockError> = Err(error);
                assert(tx_outcome(*mem, chain@, bytes, r));
                return r;
            },
            Ok(()) => {},
        }
        let buf_addr: Option<u64> = if len > 0 && chain[1].len >= len {
            Some(chain[1].addr)
        } else {
            None
        };
        let packet = VsockPacket {
            hdr,
            hdr_addr: head.addr,
            buf: if len == 0 {
                None
            } else {
                Some(data)
            },
            buf_addr,
        };
        let r: Result<VsockPacket, VsockError> = Ok(packet);
        assert(tx_outcome(*mem, chain@, bytes, r));
        r
    }

    /// Where the data of a packet that the guest receives stands: behind the header where there is
    /// one descriptor with room for it, and else in the second one, which has to be writable too.
    pub open spec fn rx_place(chain: Seq<Descriptor>, has_next: bool) -> Result<
        GuestChunk,
        VsockError,
    > {
        let head = chain[0];
        if !has_next && head.len > VSOCK_PKT_HDR_SIZE {
            if head.addr + VSOCK_PKT_HDR_SIZE > u64::MAX {
                Err(VsockError::GuestMemoryBounds)
            } else {
                Ok(
                    GuestChunk {
                        addr: (head.addr + VSOCK_PKT_HDR_SIZE) as u64,
                        len: (head.len - VSOCK_PKT_HDR_SIZE) as usize,
                    },
                )
            }
        } else if chain.len() < 2 {
            Err(VsockError::BufDescMissing)
        } else if !chain[1].write_only {
            Err(VsockError::UnwritableDescriptor)
        } else {
            Ok(GuestChunk { addr: chain[1].addr, len: chain[1].len as usize })
        }
    }

    /// A packet that the guest is to receive. `has_next` tells whether the first descriptor names
    /// a further one.
    pub fn from_rx_virtq_head(mem: &GuestMemoryMmap, chain: &[Descriptor], has_next: bool) -> (r:
        Result<VsockPacket, VsockError>)
        requires
            chain@.len() >= 1,
        ensures
            ({
                let regions = guest_regions(*mem);
                let head = chain@[0];
                let place = Self::rx_place(chain@, has_next);
                if !head.write_only {
                    r == Err::<VsockPacket, VsockError>(VsockError::UnwritableDescriptor)
                } else if head.len < VSOCK_PKT_HDR_SIZE {
                    r == Err::<VsockPacket, VsockError>(VsockError::HdrDescTooSmall(head.len))
                } else if !in_one_region(regions, head.addr, VSOCK_PKT_HDR_SIZE as nat) {
                    r == Err::<VsockPacket, VsockError>(VsockError::GuestMemoryMmap)
                } else {
                    match place {
                        Err(error) => r == Err::<VsockPacket, VsockError>(error),
                        Ok(chunk) => if !in_one_region(regions, chunk.addr, chunk.len as nat) {
                            r == Err::<VsockPacket, VsockError>(VsockError::GuestMemoryMmap)
                        } else {
                            r matches Ok(packet) && {
                                &&& packet.wf()
                                &&& packet.buffer() is Some
                                &&& packet.buf_size() == chunk.len
                                &&& slice_gave(
                                    *mem,
                                    head.addr,
                                    VSOCK_PKT_HDR_SIZE,
                                    packet.header(),
                                )
                                &&& slice_gave(
                                    *mem,
                                    chunk.addr,
                                    chunk.len,
                                    packet.buffer()->Some_0,
                                )
                                &&& packet.places() == (head.addr, Some(chunk.addr))
                            }
                        },
                    }
                }
            }),
    {
        let head: Descriptor = chain[0];
        if !head.write_only {
            return Err(VsockError::UnwritableDescriptor);
        }
        if head.len < VSOCK_PKT_HDR_SIZE as u32 {
            return Err(VsockError::HdrDescTooSmall(head.len));
        }
        let hdr: Vec<u8> = match slice_at(mem, head.addr, VSOCK_PKT_HDR_SIZE) {
            None => {
                return Err(VsockError::GuestMemoryMmap);
            },
            Some(hdr) => hdr,
        };
        let (buf_addr, buf_size): (u64, usize) = if !has_next && head.len
            > VSOCK_PKT_HDR_SIZE as u32 {
            match head.addr.checked_add(VSOCK_PKT_HDR_SIZE as u64) {
                None => {
                    return Err(VsockError::GuestMemoryBounds);
                },
                Some(addr) => (addr, head.len as usize - VSOCK_PKT_HDR_SIZE),
            }
        } else if chain.len() < 2 {
            return Err(VsockError::BufDescMissing);
        } else if !chain[1].write_only {
            return Err(VsockError::UnwritableDescriptor);
        } else {
            (chain[1].addr, chain[1].len as usize)
        };
        match slice_at(mem, buf_addr, buf_size) {
            None => Err(VsockError::GuestMemoryMmap),
            Some(buf) => Ok(
                VsockPacket { hdr, hdr_addr: head.addr, buf: Some(buf), buf_addr: Some(buf_addr) },
            ),
        }
    }

    /// The writes carry the packet to the guest memory that it was made from: the header, and then
    /// the data. Data that was gathered has no one place there, and is not written.
    pub open spec fn carried_by(self, writes: Seq<(u64, &[u8])>) -> bool {
        let (hdr_addr, buf_addr) = self.places();
        &&& writes.len() == if buf_addr is Some && self.buffer() is Some {
            2nat
        } else {
            1nat
        }
        &&& writes[0].0 == hdr_addr
        &&& writes[0].1@ == self.header()
        &&& writes.len() == 2 ==> writes[1].0 == buf_addr->Some_0 && writes[1].1@
            == self.buffer()->Some_0
    }

    /// What is written to the guest memory that the packet was made from, and where.
    pub fn pending_writes(&self) -> (r: Vec<(u64, &[u8])>)
        ensures
            self.carried_by(r@),
    {
        let mut writes: Vec<(u64, &[u8])> = Vec::new();
        writes.push((self.hdr_addr, self.hdr.as_slice()));
        match (&self.buf, self.buf_addr) {
            (Some(buf), Some(addr)) => {
                writes.push((addr, buf.as_slice()));
            },
            _ => {},
        }
        writes
    }

    /// Makes the pending writes, in order. Tells whether all of them could be made. What the guest
    /// makes of the bytes is not stated.
    pub fn write_back(&self, mem: &GuestMemoryMmap) -> (r: bool)
        ensures
            ({
                let regions = guest_regions(*mem);
                let (hdr_addr, buf_addr) = self.places();
                &&& r == (all_mapped(regions, hdr_addr, self.header().len()) && (buf_addr is Some
                    && self.buffer() is Some ==> all_mapped(
                    regions,
                    buf_addr->Some_0,
                    self.buf_size(),
                )))
                &&& r ==> write_took(*mem, hdr_addr, self.header())
                &&& r && buf_addr is Some && self.buffer() is Some ==> write_took(
                    *mem,
                    buf_addr->Some_0,
                    self.buffer()->Some_0,
                )
            }),
    {
        let writes: Vec<(u64, &[u8])> = self.pending_writes();
        let mut i: usize = 0;
        while i < writes.len()
            invariant
                i <= writes@.len(),
                self.carried_by(writes@),
                forall|j: int|
                    0 <= j < i ==> all_mapped(
                        guest_regions(*mem),
                        (#[trigger] writes@[j]).0,
                        writes@[j].1@.len(),
                    ) && write_took(*mem, writes@[j].0, writes@[j].1@),
            decreases writes@.len() - i,
        {
            let (addr, bytes): (u64, &[u8]) = writes[i];
            if !write_at(mem, addr, bytes) {
                assert(i == 0 || i == 1);
                return false;
            }
            i = i + 1;
        }
        assert(write_took(*mem, writes@[0].0, writes@[0].1@));
        assert(writes@.len() == 2 ==> write_took(*mem, writes@[1].0, writes@[1].1@));
        true
    }

    /// The bytes of the header.
    pub fn hdr(&self) -> (r: &[u8])
        ensures
            r@ == self.header(),
    {
        self.hdr.as_slice()
    }

    /// The bytes of the header, to be changed.
    pub fn hdr_mut(&mut self) -> (r: &mut [u8])
        requires
            old(self).wf(),
        ensures
            r@ == old(self).header(),
            final(self).header() == final(r)@,
            final(self).same_but_header(*old(self)),
    {
        self.hdr.as_mut_slice()
    }

    /// The bytes of the data buffer, which may be more than the packet has data.
    pub fn buf(&self) -> (r: Option<&[u8]>)
        ensures
            r is Some <==> self.buffer() is Some,
            r matches Some(buf) ==> self.buffer() == Some(buf@),
    {
        match &self.buf {
            None => None,
            Some(buf) => Some(buf.as_slice()),
        }
    }

    /// The bytes of the data buffer, to be changed.
    pub fn buf_mut(&mut self) -> (r: Option<&mut [u8]>)
        ensures
            r is Some <==> old(self).buffer() is Some,
            r is None ==> *final(self) == *old(self),
            r matches Some(buf) ==> old(self).buffer() == Some(buf@)
                && final(self).buffer() == Some(
                final(buf)@,
            ) && final(self).same_but_buffer(*old(self)),
    {
        if self.buf.is_none() {
            return None;
        }
        match &mut self.buf {
            None => None,
            Some(buf) => Some(buf.as_mut_slice()),
        }
    }

    /// The data of the packet: as many bytes as the header names, if the buffer has them.
    pub fn payload(&self) -> (r: Option<&[u8]>)
        requires
            self.wf(),
        ensures
            ({
                let len = header_fields(self.header()).len as int;
                &&& r is Some <==> len == 0 || (self.buffer() is Some && len <= self.buf_size())
                &&& r matches Some(data) ==> data@ == if len == 0 {
                    Seq::empty()
                } else {
                    self.buffer()->Some_0.take(len)
                }
            }),
    {
        let len: usize = self.len() as usize;
        if len == 0 {
            let data = vstd::slice::slice_subrange(self.hdr.as_slice(), 0, 0);
            assert(data@ =~= Seq::empty());
            return Some(data);
        }
        match &self.buf {
            None => None,
            Some(buf) => {
                if len > buf.len() {
                    return None;
                }
                let data = vstd::slice::slice_subrange(buf.as_slice(), 0, len);
                assert(data@ =~= buf@.take(len as int));
                Some(data)
            },
        }
    }

    /// Address of the sender.
    pub fn src_cid(&self) -> (r: u64)
        requires
            self.wf(),
        ensures
            r == header_fields(self.header()).src_cid,
    {
        get_le_u64(self.hdr.as_slice(), HDROFF_SRC_CID)
    }

    /// Sets `src_cid`.
    pub fn set_src_cid(&mut self, cid: u64) -> (r: &mut Self)
        requires
            old(self).wf(),
        ensures
            r.wf(),
            r.header() == with_le_u64(old(self).header(), HDROFF_SRC_CID as int, cid as int),
            header_fields(r.header())
                == (VsockHeader { src_cid: cid, ..header_fields(old(self).header()) }),
            r.same_but_header(*old(self)),
            *final(self) == *final(r),
    {
        proof {
            header_field_src_cid_is_its_own(self.hdr@, cid);
        }
        put_le_u64(self.hdr.as_mut_slice(), HDROFF_SRC_CID, cid);
        self
    }

    /// Address of the receiver.
    pub fn dst_cid(&self) -> (r: u64)
        requires
            self.wf(),
        ensures
            r == header_fields(self.header()).dst_cid,
    {
        get_le_u64(self.hdr.as_slice(), HDROFF_DST_CID)
    }

    /// Sets `dst_cid`.
    pub fn set_dst_cid(&mut self, cid: u64) -> (r: &mut Self)
        requires
            old(self).wf(),
        ensures
            r.wf(),
            r.header() == with_le_u64(old(self).header(), HDROFF_DST_CID as int, cid as int),
            header_fields(r.header())
                == (VsockHeader { dst_cid: cid, ..header_fields(old(self).header()) }),
            r.same_but_header(*old(self)),
            *final(self) == *final(r),
    {
        proof {
            header_field_dst_cid_is_its_own(self.hdr@, cid);
        }
        put_le_u64(self.hdr.as_mut_slice(), HDROFF_DST_CID, cid);
        self
    }

    /// Port of the sender.
    pub fn src_port(&self) -> (r: u32)
        requires
            self.wf(),
        ensures
            r == header_fields(self.header()).src_port,
    {
        get_le_u32(self.hdr.as_slice(), HDROFF_SRC_PORT)
    }

    /// Sets `src_port`.
    pub fn set_src_port(&mut self, port: u32) -> (r: &mut Self)
        requires
            old(self).wf(),
        ensures
            r.wf(),
            r.header() == with_le_u32(old(self).header(), HDROFF_SRC_PORT as int, port as int),
            header_fields(r.header())
                == (VsockHeader { src_port: port, ..header_fields(old(self).header()) }),
            r.same_but_header(*old(self)),
            *final(self) == *final(r),
    {
        proof {
            header_field_src_port_is_its_own(self.hdr@, port);
        }
        put_le_u32(self.hdr.as_mut_slice(), HDROFF_SRC_PORT, port);
        self
    }

    /// Port of the receiver.
    pub fn dst_port(&self) -> (r: u32)
        requires
            self.wf(),
        ensures
            r == header_fields(self.header()).dst_port,
    {
        get_le_u32(self.hdr.as_slice(), HDROFF_DST_PORT)
    }

    /// Sets `dst_port`.
    pub fn set_dst_port(&mut self, port: u32) -> (r: &mut Self)
        requires
            old(self).wf(),
        ensures
            r.wf(),
            r.header() == with_le_u32(old(self).header(), HDROFF_DST_PORT as int, port as int),
            header_fields(r.header())
                == (VsockHeader { dst_port: port, ..header_fields(old(self).header()) }),
            r.same_but_header(*old(self)),
            *final(self) == *final(r),
    {
        proof {
            header_field_dst_port_is_its_own(self.hdr@, port);
        }
        put_le_u32(self.hdr.as_mut_slice(), HDROFF_DST_PORT, port);
        self
    }

    /// Bytes of data.
    pub fn len(&self) -> (r: u32)
        requires
            self.wf(),
        ensures
            r == header_fields(self.header()).len,
    {
        get_le_u32(self.hdr.as_slice(), HDROFF_LEN)
    }

    /// Sets `len`.
    pub fn set_len(&mut self, len: u32) -> (r: &mut Self)
        requires
            old(self).wf(),
        ensures
            r.wf(),
            r.header() == with_le_u32(old(self).header(), HDROFF_LEN as int, len as int),
            header_fields(r.header())
                == (VsockHeader { len: len, ..header_fields(old(self).header()) }),
            r.same_but_header(*old(self)),
            *final(self) == *final(r),
    {
        proof {
            header_field_len_is_its_own(self.hdr@, len);
        }
        put_le_u32(self.hdr.as_mut_slice(), HDROFF_LEN, len);
        self
    }

    /// Kind of socket.
    pub fn type_(&self) -> (r: u16)
        requires
            self.wf(),
        ensures
            r == header_fields(self.header()).type_,
    {
        get_le_u16(self.hdr.as_slice(), HDROFF_TYPE)
    }

    /// Sets `type_`.
    pub fn set_type(&mut self, type_: u16) -> (r: &mut Self)
        requires
            old(self).wf(),
        ensures
            r.wf(),
            r.header() == with_le_u16(old(self).header(), HDROFF_TYPE as int, type_ as int),
            header_fields(r.header())
                == (VsockHeader { type_: type_, ..header_fields(old(self).header()) }),
            r.same_but_header(*old(self)),
            *final(self) == *final(r),
    {
        proof {
            header_field_type_is_its_own(self.hdr@, type_);
        }
        put_le_u16(self.hdr.as_mut_slice(), HDROFF_TYPE, type_);
        self
    }

    /// What the packet is for.
    pub fn op(&self) -> (r: u16)
        requires
            self.wf(),
        ensures
            r == header_fields(self.header()).op,
    {
        get_le_u16(self.hdr.as_slice(), HDROFF_OP)
    }

    /// Sets `op`.
    pub fn set_op(&mut self, op: u16) -> (r: &mut Self)
        requires
            old(self).wf(),
        ensures
            r.wf(),
            r.header() == with_le_u16(old(self).header(), HDROFF_OP as int, op as int),
            header_fields(r.header())
                == (VsockHeader { op: op, ..header_fields(old(self).header()) }),
            r.same_but_header(*old(self)),
            *final(self) == *final(r),
    {
        proof {
            header_field_op_is_its_own(self.hdr@, op);
        }
        put_le_u16(self.hdr.as_mut_slice(), HDROFF_OP, op);
        self
    }

    /// Options of the operation.
    pub fn flags(&self) -> (r: u32)
        requires
            self.wf(),
        ensures
            r == header_fields(self.header()).flags,
    {
        get_le_u32(self.hdr.as_slice(), HDROFF_FLAGS)
    }

    /// Sets `flags`.
    pub fn set_flags(&mut self, flags: u32) -> (r: &mut Self)
        requires
            old(self).wf(),
        ensures
            r.wf(),
            r.header() == with_le_u32(old(self).header(), HDROFF_FLAGS as int, flags as int),
            header_fields(r.header())
                == (VsockHeader { flags: flags, ..header_fields(old(self).header()) }),
            r.same_but_header(*old(self)),
            *final(self) == *final(r),
    {
        proof {
            header_field_flags_is_its_own(self.hdr@, flags);
        }
        put_le_u32(self.hdr.as_mut_slice(), HDROFF_FLAGS, flags);
        self
    }

    /// Size of the sender's receive buffer.
    pub fn buf_alloc(&self) -> (r: u32)
        requires
            self.wf(),
        ensures
            r == header_fields(self.header()).buf_alloc,
    {
        get_le_u32(self.hdr.as_slice(), HDROFF_BUF_ALLOC)
    }

    /// Sets `buf_alloc`.
    pub fn set_buf_alloc(&mut self, buf_alloc: u32) -> (r: &mut Self)
        requires
            old(self).wf(),
        ensures
            r.wf(),
            r.header() == with_le_u32(old(self).header(), HDROFF_BUF_ALLOC as int, buf_alloc as int),
            header_fields(r.header())
                == (VsockHeader { buf_alloc: buf_alloc, ..header_fields(old(self).header()) }),
            r.same_but_header(*old(self)),
            *final(self) == *final(r),
    {
        proof {
            header_field_buf_alloc_is_its_own(self.hdr@, buf_alloc);
        }
        put_le_u32(self.hdr.as_mut_slice(), HDROFF_BUF_ALLOC, buf_alloc);
        self
    }

    /// Bytes that the sender has taken out of its receive buffer.
    pub fn fwd_cnt(&self) -> (r: u32)
        requires
            self.wf(),
        ensures
            r == header_fields(self.header()).fwd_cnt,
    {
        get_le_u32(self.hdr.as_slice(), HDROFF_FWD_CNT)
    }

    /// Sets `fwd_cnt`.
    pub fn set_fwd_cnt(&mut self, fwd_cnt: u32) -> (r: &mut Self)
        requires
            old(self).wf(),
        ensures
            r.wf(),
            r.header() == with_le_u32(old(self).header(), HDROFF_FWD_CNT as int, fwd_cnt as int),
            header_fields(r.header())
                == (VsockHeader { fwd_cnt: fwd_cnt, ..header_fields(old(self).header()) }),
            r.same_but_header(*old(self)),
            *final(self) == *final(r),
    {
        proof {
            header_field_fwd_cnt_is_its_own(self.hdr@, fwd_cnt);
        }
        put_le_u32(self.hdr.as_mut_slice(), HDROFF_FWD_CNT, fwd_cnt);
        self
    }

    /// Adds a flag to `flags`.
    pub fn set_flag(&mut self, flag: u32) -> (r: &mut Self)
        requires
            old(self).wf(),
        ensures
            r.wf(),
            header_fields(r.header()) == (VsockHeader {
                flags: header_fields(old(self).header()).flags | flag,
                ..header_fields(old(self).header())
            }),
            r.same_but_header(*old(self)),
            *final(self) == *final(r),
    {
        let flags: u32 = self.flags() | flag;
        self.set_flags(flags)
    }

    /// The address family at the start of the data.
    pub fn sa_family(&self) -> (r: Option<u16>)
        ensures
            r is Some <==> self.buf_size() >= 2,
            r matches Some(family) ==> family == le_u16(self.buffer()->Some_0, 0),
    {
        match &self.buf {
            Some(buf) if buf.len() >= 2 => Some(get_le_u16(buf.as_slice(), 0)),
            _ => None,
        }
    }

    /// The port of an IPv4 address at the start of the data.
    pub fn inet_port(&self) -> (r: Option<u16>)
        ensures
            r is Some <==> self.buf_size() >= 4,
            r matches Some(port) ==> port == be_u16(self.buffer()->Some_0, 2),
    {
        match &self.buf {
            Some(buf) if buf.len() >= 4 => Some(get_be_u16(buf.as_slice(), 2)),
            _ => None,
        }
    }

    /// The IPv4 address at the start of the data.
    pub fn inet_addr(&self) -> (r: Option<[u8; 4]>)
        ensures
            r is Some <==> self.buf_size() >= 8,
            r matches Some(addr) ==> addr@ == self.buffer()->Some_0.subrange(4, 8),
    {
        match &self.buf {
            Some(buf) if buf.len() >= 8 => {
                let addr: [u8; 4] = [buf[4], buf[5], buf[6], buf[7]];
                assert(addr@ =~= buf@.subrange(4, 8));
                Some(addr)
            },
            _ => None,
        }
    }

    /// The path of a local address at the start of the data: what stands before the first zero, if
    /// it is text. A path without an end is refused.
    pub fn unix_path(&self) -> (r: Option<&str>)
        ensures
            self.buf_size() < 108 ==> r is None,
            self.buf_size() >= 108 ==> ({
                let buf = self.buffer()->Some_0;
                &&& forall|end: int| #[trigger]
                    path_end(buf, end) ==> (r is Some <==> vstd::utf8::valid_utf8(
                        buf.subrange(2, end),
                    )) && (r matches Some(path) ==> vstd::utf8::encode_utf8(path@) == buf.subrange(
                        2,
                        end,
                    ))
                &&& r is Some ==> exists|end: int| path_end(buf, end)
            }),
    {
        match &self.buf {
            Some(buf) if buf.len() >= 108 => {
                let mut end: usize = 2;
                while end < buf.len()
                    invariant
                        2 <= end <= buf@.len(),
                        buf@.len() >= 108,
                        self.buffer() == Some(buf@),
                        forall|i: int| 2 <= i < end ==> #[trigger] buf@[i] != 0,
                    decreases buf@.len() - end,
                {
                    if buf[end] == 0 {
                        assert(path_end(buf@, end as int));
                        assert forall|other: int| #[trigger] path_end(buf@, other) implies other
                            == end by {
                            if other < end {
                                assert(buf@[other] != 0);
                            } else if other > end {
                                assert(buf@[end as int] != 0);
                            }
                        }
                        let path = vstd::slice::slice_subrange(buf.as_slice(), 2, end);
                        assert(path@ =~= buf@.subrange(2, end as int));
                        return utf8_text(path);
                    }
                    end = end + 1;
                }
                None
            },
            _ => None,
        }
    }

    /// A request to make a socket. Data of six or seven bytes is not one that a guest sends.
    pub fn read_proxy_create(&self) -> (r: Option<TsiProxyCreate>)
        requires
            self.buf_size() != 6,
            self.buf_size() != 7,
        ensures
            r is Some <==> self.buf_size() >= 6,
            r matches Some(request) ==> {
                let buf = self.buffer()->Some_0;
                &&& request.peer_port == le_u32(buf, 0)
                &&& request.family == le_u16(buf, 4)
                &&& request._type == le_u16(buf, 6)
            },
    {
        match &self.buf {
            Some(buf) if buf.len() >= 6 => Some(
                TsiProxyCreate {
                    peer_port: get_le_u32(buf.as_slice(), 0),
                    family: get_le_u16(buf.as_slice(), 4),
                    _type: get_le_u16(buf.as_slice(), 6),
                },
            ),
            _ => None,
        }
    }

    /// Data that is too short to be a request with an address at byte `at`, or long enough for one.
    pub open spec fn request_readable(self, guard: nat, at: int, host: HostOs) -> bool {
        self.buf_size() < guard || (self.buf_size() >= at && address_readable(
            self.buffer()->Some_0.skip(at),
            host,
        ))
    }

    /// A request to connect a socket.
    pub fn read_connect_req(&self, host: HostOs) -> (r: Option<TsiConnectReq>)
        requires
            self.request_readable(4, 8, host),
        ensures
            self.buf_size() < 4 ==> r is None,
            self.buf_size() >= 4 ==> {
                let buf = self.buffer()->Some_0;
                let addr = match r {
                    Some(request) => Some(request.addr),
                    None => None,
                };
                &&& host_address(buf.skip(8), le_u32(buf, 4) as u32, host, addr)
                &&& r matches Some(request) ==> request.peer_port == le_u32(buf, 0)
            },
    {
        match &self.buf {
            Some(buf) if buf.len() >= 4 => {
                let rest = vstd::slice::slice_subrange(buf.as_slice(), 8, buf.len());
                assert(rest@ =~= buf@.skip(8));
                let addr_len: u32 = get_le_u32(buf.as_slice(), 4);
                match parse_address(rest, addr_len, host) {
                    None => None,
                    Some(addr) => Some(
                        TsiConnectReq { peer_port: get_le_u32(buf.as_slice(), 0), addr },
                    ),
                }
            },
            _ => None,
        }
    }

    /// The address that a datagram goes to.
    pub fn read_sendto_addr(&self, host: HostOs) -> (r: Option<TsiSendtoAddr>)
        requires
            self.request_readable(4, 8, host),
        ensures
            self.buf_size() < 4 ==> r is None,
            self.buf_size() >= 4 ==> {
                let buf = self.buffer()->Some_0;
                let addr = match r {
                    Some(request) => Some(request.addr),
                    None => None,
                };
                &&& host_address(buf.skip(8), le_u32(buf, 4) as u32, host, addr)
                &&& r matches Some(request) ==> request.peer_port == le_u32(buf, 0)
            },
    {
        match self.read_connect_req(host) {
            None => None,
            Some(request) => Some(
                TsiSendtoAddr { peer_port: request.peer_port, addr: request.addr },
            ),
        }
    }

    /// A request to listen.
    pub fn read_listen_req(&self, host: HostOs) -> (r: Option<TsiListenReq>)
        requires
            self.request_readable(12, 16, host),
        ensures
            self.buf_size() < 12 ==> r is None,
            self.buf_size() >= 12 ==> {
                let buf = self.buffer()->Some_0;
                let addr = match r {
                    Some(request) => Some(request.addr),
                    None => None,
                };
                &&& host_address(buf.skip(16), le_u32(buf, 12) as u32, host, addr)
                &&& r matches Some(request) ==> request.peer_port == le_u32(buf, 0)
                    && request.vm_port == le_u32(buf, 4) && bits_of_i32(request.backlog) == le_u32(
                    buf,
                    8,
                )
            },
    {
        match &self.buf {
            Some(buf) if buf.len() >= 12 => {
                let rest = vstd::slice::slice_subrange(buf.as_slice(), 16, buf.len());
                assert(rest@ =~= buf@.skip(16));
                let addr_len: u32 = get_le_u32(buf.as_slice(), 12);
                match parse_address(rest, addr_len, host) {
                    None => None,
                    Some(addr) => Some(
                        TsiListenReq {
                            peer_port: get_le_u32(buf.as_slice(), 0),
                            vm_port: get_le_u32(buf.as_slice(), 4),
                            backlog: u32_to_i32(get_le_u32(buf.as_slice(), 8)),
                            addr,
                        },
                    ),
                }
            },
            _ => None,
        }
    }

    /// The data with a result at its start, where it has room for one.
    pub open spec fn with_result(self, result: i32) -> Option<Seq<u8>> {
        if self.buf_size() >= 4 {
            Some(with_le_u32(self.buffer()->Some_0, 0, bits_of_i32(result)))
        } else {
            self.buffer()
        }
    }

    fn write_result(&mut self, result: i32)
        requires
            old(self).wf(),
        ensures
            final(self).wf(),
            final(self).same_but_buffer(*old(self)),
            final(self).buffer() == old(self).with_result(result),
    {
        match &mut self.buf {
            Some(buf) => {
                if buf.len() >= 4 {
                    put_le_u32(buf.as_mut_slice(), 0, i32_to_u32(result));
                }
            },
            None => {},
        }
    }

    /// Answers a request to connect.
    pub fn write_connect_rsp(&mut self, rsp: TsiConnectRsp)
        requires
            old(self).wf(),
        ensures
            final(self).wf(),
            final(self).same_but_buffer(*old(self)),
            final(self).buffer() == old(self).with_result(rsp.result),
    {
        self.write_result(rsp.result);
    }

    /// Answers a request to listen.
    pub fn write_listen_rsp(&mut self, rsp: TsiListenRsp)
        requires
            old(self).wf(),
        ensures
            final(self).wf(),
            final(self).same_but_buffer(*old(self)),
            final(self).buffer() == old(self).with_result(rsp.result),
    {
        self.write_result(rsp.result);
    }

    /// Answers a request to accept.
    pub fn write_accept_rsp(&mut self, rsp: TsiAcceptRsp)
        requires
            old(self).wf(),
        ensures
            final(self).wf(),
            final(self).same_but_buffer(*old(self)),
            final(self).buffer() == old(self).with_result(rsp.result),
    {
        self.write_result(rsp.result);
    }

    /// A request for the name of a socket.
    pub fn read_getname_req(&self) -> (r: Option<TsiGetnameReq>)
        ensures
            r is Some <==> self.buf_size() >= 12,
            r matches Some(request) ==> {
                let buf = self.buffer()->Some_0;
                &&& request.peer_port == le_u32(buf, 0)
                &&& request.local_port == le_u32(buf, 4)
                &&& request.peer == le_u32(buf, 8)
            },
    {
        match &self.buf {
            Some(buf) if buf.len() >= 12 => Some(
                TsiGetnameReq {
                    peer_port: get_le_u32(buf.as_slice(), 0),
                    local_port: get_le_u32(buf.as_slice(), 4),
                    peer: get_le_u32(buf.as_slice(), 8),
                },
            ),
            _ => None,
        }
    }

    /// Answers a request for a name. Data of fewer than 132 bytes is left as it is.
    pub fn write_getname_rsp(&mut self, rsp: TsiGetnameRsp, host: HostOs)
        requires
            old(self).wf(),
            old(self).buf_size() >= 132 ==> 8 + rsp.addr@.len() <= old(self).buf_size(),
        ensures
            final(self).wf(),
            final(self).same_but_buffer(*old(self)),
            final(self).buffer() == if old(self).buf_size() >= 132 {
                Some(
                    with_getname_rsp(
                        old(self).buffer()->Some_0,
                        rsp.result,
                        rsp.addr_len,
                        rsp.addr@,
                        host,
                    ),
                )
            } else {
                old(self).buffer()
            },
    {
        match &mut self.buf {
            Some(buf) => {
                if buf.len() >= 132 {
                    let ghost before = buf@;
                    let slice = buf.as_mut_slice();
                    put_le_u32(slice, 0, i32_to_u32(rsp.result));
                    put_le_u32(slice, 4, rsp.addr_len);
                    copy_into(slice, 8, rsp.addr.as_slice());
                    if host == HostOs::Macos {
                        let family: u16 = if slice[9] == 2 {
                            LINUX_AF_INET
                        } else if slice[9] == 30 {
                            LINUX_AF_INET6
                        } else {
                            0
                        };
                        put_le_u16(slice, 8, family);
                    }
                    assert(slice@ =~= with_getname_rsp(
                        before,
                        rsp.result,
                        rsp.addr_len,
                        rsp.addr@,
                        host,
                    ));
                }
            },
            None => {},
        }
    }

    /// A request to accept a connection.
    pub fn read_accept_req(&self) -> (r: Option<TsiAcceptReq>)
        ensures
            r is Some <==> self.buf_size() >= 8,
            r matches Some(request) ==> {
                let buf = self.buffer()->Some_0;
                &&& request.peer_port == le_u32(buf, 0)
                &&& request.flags == le_u32(buf, 4)
            },
    {
        match &self.buf {
            Some(buf) if buf.len() >= 8 => Some(
                TsiAcceptReq {
                    peer_port: get_le_u32(buf.as_slice(), 0),
                    flags: get_le_u32(buf.as_slice(), 4),
                },
            ),
            _ => None,
        }
    }

    /// A request to give a socket up.
    pub fn read_release_req(&self) -> (r: Option<TsiReleaseReq>)
        ensures
            r is Some <==> self.buf_size() >= 8,
            r matches Some(request) ==> {
                let buf = self.buffer()->Some_0;
                &&& request.peer_port == le_u32(buf, 0)
                &&& request.local_port == le_u32(buf, 4)
            },
    {
        match &self.buf {
            Some(buf) if buf.len() >= 8 => Some(
                TsiReleaseReq {
                    peer_port: get_le_u32(buf.as_slice(), 0),
                    local_port: get_le_u32(buf.as_slice(), 4),
                },
            ),
            _ => None,
        }
    }

    /// Writes the host's time at the start of the data, where it has room for it.
    pub fn write_time_sync(&mut self, time: u64)
        requires
            old(self).wf(),
        ensures
            final(self).wf(),
            final(self).same_but_buffer(*old(self)),
            final(self).buffer() == if old(self).buf_size() >= 8 {
                Some(with_le_u64(old(self).buffer()->Some_0, 0, time as int))
            } else {
                old(self).buffer()
            },
    {
        match &mut self.buf {
            Some(buf) => {
                if buf.len() >= 8 {
                    put_le_u64(buf.as_mut_slice(), 0, time);
                }
            },
            None => {},
        }
    }
}

/// Setting `src_cid` changes that field of a header and no other.
pub proof fn header_field_src_cid_is_its_own(hdr: Seq<u8>, v: u64)
    requires
        hdr.len() == VSOCK_PKT_HDR_SIZE,
    ensures
        header_fields(with_le_u64(hdr, HDROFF_SRC_CID as int, v as int)) == (VsockHeader {
            src_cid: v,
            ..header_fields(hdr)
        }),
        with_le_u64(hdr, HDROFF_SRC_CID as int, v as int).len() == hdr.len(),
{
    le_u64_read_after_write(hdr, HDROFF_SRC_CID as int, v as int);
}

/// Setting `dst_cid` changes that field of a header and no other.
pub proof fn header_field_dst_cid_is_its_own(hdr: Seq<u8>, v: u64)
    requires
        hdr.len() == VSOCK_PKT_HDR_SIZE,
    ensures
        header_fields(with_le_u64(hdr, HDROFF_DST_CID as int, v as int)) == (VsockHeader {
            dst_cid: v,
            ..header_fields(hdr)
        }),
        with_le_u64(hdr, HDROFF_DST_CID as int, v as int).len() == hdr.len(),
{
    le_u64_read_after_write(hdr, HDROFF_DST_CID as int, v as int);
}

/// Setting `src_port` changes that field of a header and no other.
pub proof fn header_field_src_port_is_its_own(hdr: Seq<u8>, v: u32)
    requires
        hdr.len() == VSOCK_PKT_HDR_SIZE,
    ensures
        header_fields(with_le_u32(hdr, HDROFF_SRC_PORT as int, v as int)) == (VsockHeader {
            src_port: v,
            ..header_fields(hdr)
        }),
        with_le_u32(hdr, HDROFF_SRC_PORT as int, v as int).len() == hdr.len(),
{
    le_u32_read_after_write(hdr, HDROFF_SRC_PORT as int, v as int);
}

/// Setting `dst_port` changes that field of a header and no other.
pub proof fn header_field_dst_port_is_its_own(hdr: Seq<u8>, v: u32)
    requires
        hdr.len() == VSOCK_PKT_HDR_SIZE,
    ensures
        header_fields(with_le_u32(hdr, HDROFF_DST_PORT as int, v as int)) == (VsockHeader {
            dst_port: v,
            ..header_fields(hdr)
        }),
        with_le_u32(hdr, HDROFF_DST_PORT as int, v as int).len() == hdr.len(),
{
    le_u32_read_after_write(hdr, HDROFF_DST_PORT as int, v as int);
}

/// Setting `len` changes that field of a header and no other.
pub proof fn header_field_len_is_its_own(hdr: Seq<u8>, v: u32)
    requires
        hdr.len() == VSOCK_PKT_HDR_SIZE,
    ensures
        header_fields(with_le_u32(hdr, HDROFF_LEN as int, v as int)) == (VsockHeader {
            len: v,
            ..header_fields(hdr)
        }),
        with_le_u32(hdr, HDROFF_LEN as int, v as int).len() == hdr.len(),
{
    le_u32_read_after_write(hdr, HDROFF_LEN as int, v as int);
}

/// Setting `type_` changes that field of a header and no other.
pub proof fn header_field_type_is_its_own(hdr: Seq<u8>, v: u16)
    requires
        hdr.len() == VSOCK_PKT_HDR_SIZE,
    ensures
        header_fields(with_le_u16(hdr, HDROFF_TYPE as int, v as int)) == (VsockHeader {
            type_: v,
            ..header_fields(hdr)
        }),
        with_le_u16(hdr, HDROFF_TYPE as int, v as int).len() == hdr.len(),
{
    le_u16_read_after_write(hdr, HDROFF_TYPE as int, v as int);
}

/// Setting `op` changes that field of a header and no other.
pub proof fn header_field_op_is_its_own(hdr: Seq<u8>, v: u16)
    requires
        hdr.len() == VSOCK_PKT_HDR_SIZE,
    ensures
        header_fields(with_le_u16(hdr, HDROFF_OP as int, v as int)) == (VsockHeader {
            op: v,
            ..header_fields(hdr)
        }),
        with_le_u16(hdr, HDROFF_OP as int, v as int).len() == hdr.len(),
{
    le_u16_read_after_write(hdr, HDROFF_OP as int, v as int);
}

/// Setting `flags` changes that field of a header and no other.
pub proof fn header_field_flags_is_its_own(hdr: Seq<u8>, v: u32)
    requires
        hdr.len() == VSOCK_PKT_HDR_SIZE,
    ensures
        header_fields(with_le_u32(hdr, HDROFF_FLAGS as int, v as int)) == (VsockHeader {
            flags: v,
            ..header_fields(hdr)
        }),
        with_le_u32(hdr, HDROFF_FLAGS as int, v as int).len() == hdr.len(),
{
    le_u32_read_after_write(hdr, HDROFF_FLAGS as int, v as int);
}

/// Setting `buf_alloc` changes that field of a header and no other.
pub proof fn header_field_buf_alloc_is_its_own(hdr: Seq<u8>, v: u32)
    requires
        hdr.len() == VSOCK_PKT_HDR_SIZE,
    ensures
        header_fields(with_le_u32(hdr, HDROFF_BUF_ALLOC as int, v as int)) == (VsockHeader {
            buf_alloc: v,
            ..header_fields(hdr)
        }),
        with_le_u32(hdr, HDROFF_BUF_ALLOC as int, v as int).len() == hdr.len(),
{
    le_u32_read_after_write(hdr, HDROFF_BUF_ALLOC as int, v as int);
}

/// Setting `fwd_cnt` changes that field of a header and no other.
pub proof fn header_field_fwd_cnt_is_its_own(hdr: Seq<u8>, v: u32)
    requires
        hdr.len() == VSOCK_PKT_HDR_SIZE,
    ensures
        header_fields(with_le_u32(hdr, HDROFF_FWD_CNT as int, v as int)) == (VsockHeader {
            fwd_cnt: v,
            ..header_fields(hdr)
        }),
        with_le_u32(hdr, HDROFF_FWD_CNT as int, v as int).len() == hdr.len(),
{
    le_u32_read_after_write(hdr, HDROFF_FWD_CNT as int, v as int);
}

proof fn lemma_pieces_follow_the_chain(
    mem: GuestMemoryMmap,
    descriptors: Seq<Descriptor>,
    left: nat,
    parts: Seq<Vec<u8>>,
    k: int,
)
    requires
        left <= u32::MAX,
        tx_pieces(descriptors, left).1 is Ok,
        parts_of(mem, tx_pieces(descriptors, left).0, parts),
        0 <= k < left,
    ensures
        k < joined(parts).len(),
        slice_gave_byte(mem, byte_address(descriptors, k), joined(parts)[k]),
    decreases descriptors.len(),
{
    let (pieces, _) = tx_pieces(descriptors, left);
    let piece = pieces[0];
    let part = parts[0]@;
    joined_starts_with_the_first(parts);
    assert(slice_gave(mem, piece.addr, piece.len, part));
    if k >= descriptors[0].len {
        let rest = descriptors.skip(1);
        let behind = (left - descriptors[0].len) as nat;
        assert(pieces.skip(1) =~= tx_pieces(rest, behind).0);
        assert(parts_of(mem, tx_pieces(rest, behind).0, parts.skip(1))) by {
            assert forall|i: int| 0 <= i < pieces.len() - 1 implies (
            #[trigger] parts.skip(1)[i])@.len() == pieces.skip(1)[i].len && slice_gave(
                mem,
                pieces.skip(1)[i].addr,
                pieces.skip(1)[i].len,
                parts.skip(1)[i]@,
            ) by {
                assert(parts[i + 1]@.len() == pieces[i + 1].len);
            }
        }
        lemma_pieces_follow_the_chain(mem, rest, behind, parts.skip(1), k - descriptors[0].len);
    }
}

/// Every byte of a packet that the guest sends is what guest memory gave for it: the header what it
/// gave at the first descriptor, and the data what it gave at the addresses that the descriptors
/// behind name, one after the other.
pub proof fn sent_packet_is_what_guest_memory_gave(
    mem: &GuestMemoryMmap,
    chain: &[Descriptor],
    r: Result<VsockPacket, VsockError>,
)
    requires
        chain@.len() >= 1,
        call_ensures(VsockPacket::from_tx_virtq_head, (mem, chain), r),
        r is Ok,
    ensures
        ({
            let packet = r->Ok_0;
            let len = header_fields(packet.header()).len;
            &&& packet.header().len() == 44
            &&& forall|k: int|
                0 <= k < 44 ==> slice_gave_byte(*mem, chain@[0].addr + k, #[trigger] packet.header()[k])
            &&& packet.buffer() is Some <==> len > 0
            &&& len > 0 ==> packet.buffer()->Some_0.len() >= len
            &&& forall|k: int|
                0 <= k < len ==> slice_gave_byte(
                    *mem,
                    byte_address(chain@.skip(1), k),
                    #[trigger] packet.buffer()->Some_0[k],
                )
        }),
{
    let packet = r->Ok_0;
    let hdr = choose|hdr: Seq<u8>| #[trigger] tx_outcome(*mem, chain@, hdr, r);
    assert(packet.header() == hdr);
    let len = header_fields(hdr).len;
    assert forall|k: int| 0 <= k < 44 implies slice_gave_byte(
        *mem,
        chain@[0].addr + k,
        #[trigger] packet.header()[k],
    ) by {
        assert(slice_gave(*mem, chain@[0].addr, VSOCK_PKT_HDR_SIZE, hdr));
    }
    if len > 0 {
        let (pieces, _) = tx_data(chain@, len);
        let data = packet.buffer()->Some_0;
        let parts = choose|parts: Seq<Vec<u8>>| #[trigger]
            parts_of(*mem, pieces, parts) && data == joined(parts);
        let behind = chain@.skip(1);
        assert(behind[0] == chain@[1]);
        assert forall|k: int| 0 <= k < len implies k < data.len() && slice_gave_byte(
            *mem,
            byte_address(behind, k),
            #[trigger] data[k],
        ) by {
            if chain@[1].len < len {
                lemma_pieces_follow_the_chain(*mem, behind, len as nat, parts, k);
            } else {
                joined_starts_with_the_first(parts);
                assert(slice_gave(*mem, pieces[0].addr, pieces[0].len, parts[0]@));
                assert(data[k] == parts[0]@[k]);
            }
        }
        assert(slice_gave_byte(*mem, byte_address(behind, len - 1), data[len - 1]));
    }
}

/// The data of a packet is there exactly where it is not longer than a packet may be and the
/// descriptors behind the header, all of them readable, hold that much.
pub proof fn readable_chain_gives_its_data(
    chain: &[Descriptor],
    len: u32,
    r: (Vec<GuestChunk>, Result<(), VsockError>),
)
    requires
        call_ensures(plan_tx_data, (chain, len), r),
        forall|i: int| 1 <= i < chain@.len() ==> !(#[trigger] chain@[i]).write_only,
    ensures
        len == 0 ==> r.1 is Ok && r.0@.len() == 0,
        len > 65536 ==> r.1 == Err::<(), VsockError>(VsockError::InvalidPktLen(len)),
        0 < len <= 65536 && chain@.len() < 2 ==> r.1 == Err::<(), VsockError>(
            VsockError::BufDescMissing,
        ),
        0 < len <= 65536 && chain@.len() >= 2 ==> r.1 == if chain_len(chain@.skip(1)) >= len {
            Ok::<(), VsockError>(())
        } else {
            Err::<(), VsockError>(VsockError::BufDescTooSmall)
        },
{
    if 0 < len <= 65536 && chain@.len() >= 2 {
        let behind = chain@.skip(1);
        chain_len_from_the_front(behind);
        assert(behind[0] == chain@[1]);
        assert forall|i: int| 0 <= i < behind.len() implies !(#[trigger] behind[i]).write_only by {
            assert(behind[i] == chain@[i + 1]);
        }
        lemma_readable_pieces(behind, len as nat);
    }
}

proof fn lemma_readable_pieces(descriptors: Seq<Descriptor>, left: nat)
    requires
        left > 0,
        forall|i: int| 0 <= i < descriptors.len() ==> !(#[trigger] descriptors[i]).write_only,
    ensures
        tx_pieces(descriptors, left).1 == if chain_len(descriptors) >= left {
            Ok::<(), VsockError>(())
        } else {
            Err::<(), VsockError>(VsockError::BufDescTooSmall)
        },
    decreases descriptors.len(),
{
    if descriptors.len() > 0 {
        chain_len_from_the_front(descriptors);
        assert(!descriptors[0].write_only);
        if descriptors[0].len < left {
            let rest = descriptors.skip(1);
            assert forall|i: int| 0 <= i < rest.len() implies !(#[trigger] rest[i]).write_only by {
                assert(rest[i] == descriptors[i + 1]);
            }
            lemma_readable_pieces(rest, (left - descriptors[0].len) as nat);
        }
    }
}

/// What is forwarded of a packet is the data that its header names, from the first byte on.
pub proof fn payload_is_the_start_of_the_data(packet: VsockPacket, r: Option<&[u8]>)
    requires
        packet.wf(),
        packet.buffer() is Some,
        call_ensures(VsockPacket::payload, (&packet,), r),
        header_fields(packet.header()).len <= packet.buffer()->Some_0.len(),
    ensures
        r is Some,
        r->Some_0@.len() == header_fields(packet.header()).len,
        forall|k: int|
            0 <= k < r->Some_0@.len() ==> #[trigger] r->Some_0@[k] == packet.buffer()->Some_0[k],
{
}

/// The fields of a header stand in its bytes, little-endian and one behind the other.
pub proof fn header_fields_stand_in_order(hdr: Seq<u8>)
    requires
        hdr.len() == 44,
    ensures
        ({
            let word = |k: int| hdr[k] + 256 * hdr[k + 1] + 65536 * hdr[k + 2] + 16777216 * hdr[k + 3];
            let fields = header_fields(hdr);
            &&& fields.src_cid == word(0) + 4294967296 * word(4)
            &&& fields.dst_cid == word(8) + 4294967296 * word(12)
            &&& fields.src_port == word(16)
            &&& fields.dst_port == word(20)
            &&& fields.len == word(24)
            &&& fields.type_ == hdr[28] + 256 * hdr[29]
            &&& fields.op == hdr[30] + 256 * hdr[31]
            &&& fields.flags == word(32)
            &&& fields.buf_alloc == word(36)
            &&& fields.fwd_cnt == word(40)
        }),
{
}

/// A packet that the guest receives starts as what guest memory gave: the header at the first
/// descriptor, and the data behind the header where the descriptor stands alone and has room, and
/// else at the second one.
pub proof fn received_packet_is_what_guest_memory_gave(
    mem: &GuestMemoryMmap,
    chain: &[Descriptor],
    has_next: bool,
    r: Result<VsockPacket, VsockError>,
)
    requires
        chain@.len() >= 1,
        call_ensures(VsockPacket::from_rx_virtq_head, (mem, chain, has_next), r),
        r is Ok,
    ensures
        ({
            let packet = r->Ok_0;
            let alone = !has_next && chain@[0].len > 44;
            let start = if alone {
                chain@[0].addr + 44
            } else {
                chain@[1].addr as int
            };
            let size = if alone {
                chain@[0].len - 44
            } else {
                chain@[1].len as int
            };
            &&& chain@[0].write_only
            &&& alone || chain@[1].write_only
            &&& packet.header().len() == 44
            &&& packet.buffer()->Some_0.len() == size
            &&& packet.places() == (chain@[0].addr, Some(start as u64))
            &&& forall|k: int|
                0 <= k < 44 ==> slice_gave_byte(*mem, chain@[0].addr + k, #[trigger] packet.header()[k])
            &&& forall|k: int|
                0 <= k < size ==> slice_gave_byte(
                    *mem,
                    start + k,
                    #[trigger] packet.buffer()->Some_0[k],
                )
        }),
{
    let packet = r->Ok_0;
    let chunk = VsockPacket::rx_place(chain@, has_next)->Ok_0;
    assert(slice_gave(*mem, chain@[0].addr, VSOCK_PKT_HDR_SIZE, packet.header()));
    assert(slice_gave(*mem, chunk.addr, chunk.len, packet.buffer()->Some_0));
}

/// The little-endian word at a place of a buffer.
pub open spec fn word_at(b: Seq<u8>, k: int) -> int {
    b[k] + 256 * b[k + 1] + 65536 * b[k + 2] + 16777216 * b[k + 3]
}

/// Requests stand in the data of a packet, little-endian, one field behind the other, and are there
/// exactly where the data is long enough.
pub proof fn requests_stand_in_the_data(
    packet: VsockPacket,
    b: Seq<u8>,
    create: Option<TsiProxyCreate>,
    name: Option<TsiGetnameReq>,
    accept: Option<TsiAcceptReq>,
    release: Option<TsiReleaseReq>,
)
    requires
        packet.buffer() == Some(b),
        b.len() != 6,
        b.len() != 7,
        call_ensures(VsockPacket::read_proxy_create, (&packet,), create),
        call_ensures(VsockPacket::read_getname_req, (&packet,), name),
        call_ensures(VsockPacket::read_accept_req, (&packet,), accept),
        call_ensures(VsockPacket::read_release_req, (&packet,), release),
    ensures
        create is Some <==> b.len() >= 8,
        create is Some ==> create->Some_0.peer_port == word_at(b, 0)
            && create->Some_0.family == b[4]
            + 256 * b[5] && create->Some_0._type == b[6] + 256 * b[7],
        name is Some <==> b.len() >= 12,
        name is Some ==> name->Some_0.peer_port == word_at(b, 0) && name->Some_0.local_port
            == word_at(b, 4) && name->Some_0.peer == word_at(b, 8),
        accept is Some <==> b.len() >= 8,
        accept is Some ==> accept->Some_0.peer_port == word_at(b, 0) && accept->Some_0.flags
            == word_at(b, 4),
        release is Some <==> b.len() >= 8,
        release is Some ==> release->Some_0.peer_port == word_at(b, 0)
            && release->Some_0.local_port == word_at(b, 4),
{
}

/// A request to connect names the guest's port, the length of an address, and the address: a Linux
/// host takes it as it stands where its length is in order and its family is known.
pub proof fn linux_connects_to_the_named_address(
    packet: VsockPacket,
    b: Seq<u8>,
    r: Option<TsiConnectReq>,
    n: int,
)
    requires
        packet.buffer() == Some(b),
        b.len() >= 10,
        n == word_at(b, 4),
        call_ensures(VsockPacket::read_connect_req, (&packet, HostOs::Linux), r),
    ensures
        r is Some <==> 2 <= n <= 128 && 8 + n <= b.len() && b[9] == 0 && (b[8] == 1 || b[8] == 2
            || b[8] == 10),
        r is Some ==> r->Some_0.peer_port == word_at(b, 0) && r->Some_0.addr is Raw
            && r->Some_0.addr->bytes@ == b.subrange(8, 8 + n),
{
    let rest = b.skip(8);
    assert(le_u16(rest, 0) == b[8] + 256 * b[9]);
    if r is Some {
        assert(rest.take(n) =~= b.subrange(8, 8 + n));
    }
}

/// A request to listen names the guest's port, the port of the machine, the backlog, and the
/// address, of which the same holds.
pub proof fn linux_listens_on_the_named_address(
    packet: VsockPacket,
    b: Seq<u8>,
    r: Option<TsiListenReq>,
    n: int,
)
    requires
        packet.buffer() == Some(b),
        b.len() >= 18,
        n == word_at(b, 12),
        call_ensures(VsockPacket::read_listen_req, (&packet, HostOs::Linux), r),
    ensures
        r is Some <==> 2 <= n <= 128 && 16 + n <= b.len() && b[17] == 0 && (b[16] == 1 || b[16] == 2
            || b[16] == 10),
        r is Some ==> r->Some_0.peer_port == word_at(b, 0) && r->Some_0.vm_port == word_at(b, 4)
            && r->Some_0.addr is Raw && r->Some_0.addr->bytes@ == b.subrange(16, 16 + n),
        r is Some && r->Some_0.backlog >= 0 ==> r->Some_0.backlog == word_at(b, 8),
        r is Some && r->Some_0.backlog < 0 ==> r->Some_0.backlog + 4294967296 == word_at(b, 8),
{
    let rest = b.skip(16);
    assert(le_u16(rest, 0) == b[16] + 256 * b[17]);
    if r is Some {
        assert(rest.take(n) =~= b.subrange(16, 16 + n));
    }
}

/// A macOS host reads port and address out of the bytes, in network order.
pub proof fn macos_reads_the_address_out(b: &[u8], r: Option<TsiAddress>)
    requires
        b@.len() >= 28,
        call_ensures(parse_macos_address, (b,), r),
    ensures
        b@[0] == 2 && b@[1] == 0 ==> r is Some && r->Some_0 is V4
            && r->Some_0->V4_port == 256 * b@[2]
            + b@[3] && r->Some_0->addr@ == seq![b@[4], b@[5], b@[6], b@[7]],
        b@[0] == 10 && b@[1] == 0 ==> r is Some && r->Some_0 is V6 && r->Some_0->V6_port == 256
            * b@[2] + b@[3] && r->Some_0->flowinfo == 16777216 * b@[4] + 65536 * b@[5] + 256 * b@[6]
            + b@[7] && r->Some_0->scope_id == 16777216 * b@[24] + 65536 * b@[25] + 256 * b@[26]
            + b@[27] && forall|i: int|
            0 <= i < 8 ==> #[trigger] r->Some_0->segments@[i]
                == 256 * b@[8 + 2 * i] + b@[9 + 2 * i],
        b@[0] != 2 && b@[0] != 10 ==> r is None,
        b@[1] != 0 ==> r is None,
{
    if b@[0] == 2 && b@[1] == 0 {
        assert(b@.subrange(4, 8) =~= seq![b@[4], b@[5], b@[6], b@[7]]);
    }
}

/// An answer stands at the start of the data, as a little-endian number of two's complement, and
/// nothing behind it changes.
pub proof fn answers_stand_at_the_start(
    connect: &mut VsockPacket,
    rsp: TsiConnectRsp,
    sync: &mut VsockPacket,
    time: u64,
    b: Seq<u8>,
)
    requires
        connect.wf(),
        sync.wf(),
        connect.buffer() == Some(b),
        sync.buffer() == Some(b),
        b.len() >= 8,
        call_ensures(VsockPacket::write_connect_rsp, (connect, rsp), ()),
        call_ensures(VsockPacket::write_time_sync, (sync, time), ()),
    ensures
        ({
            let answered = final(connect).buffer()->Some_0;
            let timed = final(sync).buffer()->Some_0;
            &&& answered.len() == b.len() && timed.len() == b.len()
            &&& word_at(answered, 0) == if rsp.result >= 0 {
                rsp.result as int
            } else {
                rsp.result + 4294967296
            }
            &&& forall|k: int| 4 <= k < b.len() ==> #[trigger] answered[k] == b[k]
            &&& word_at(timed, 0) + 4294967296 * word_at(timed, 4) == time
            &&& forall|k: int| 8 <= k < b.len() ==> #[trigger] timed[k] == b[k]
        }),
        final(connect).header() == old(connect).header(),
        final(sync).header() == old(sync).header(),
{
    le_u32_read_after_write(b, 0, bits_of_i32(rsp.result));
    le_u64_read_after_write(b, 0, time as int);
    let timed = final(sync).buffer()->Some_0;
    assert(le_u64(timed, 0) == le_u32(timed, 0) + 0x1_0000_0000 * le_u32(timed, 4));
}

/// The name of a socket is answered with the result, the length of the address, and the address
/// itself.
pub proof fn names_are_answered_with_the_address(
    packet: &mut VsockPacket,
    rsp: TsiGetnameRsp,
    b: Seq<u8>,
)
    requires
        packet.wf(),
        packet.buffer() == Some(b),
        b.len() >= 132,
        8 + rsp.addr@.len() <= b.len(),
        call_ensures(VsockPacket::write_getname_rsp, (packet, rsp, HostOs::Linux), ()),
    ensures
        ({
            let after = final(packet).buffer()->Some_0;
            &&& after.len() == b.len()
            &&& word_at(after, 0) == if rsp.result >= 0 {
                rsp.result as int
            } else {
                rsp.result + 4294967296
            }
            &&& word_at(after, 4) == rsp.addr_len
            &&& forall|k: int|
                0 <= k < rsp.addr@.len() ==> #[trigger] after[8 + k] == rsp.addr@[k]
            &&& forall|k: int|
                8 + rsp.addr@.len() <= k < b.len() ==> #[trigger] after[k] == b[k]
        }),
{
    let s1 = with_le_u32(b, 0, bits_of_i32(rsp.result));
    let s2 = with_le_u32(s1, 4, rsp.addr_len as int);
    le_u32_read_after_write(b, 0, bits_of_i32(rsp.result));
    le_u32_read_after_write(s1, 4, rsp.addr_len as int);
    let after = final(packet).buffer()->Some_0;
    assert forall|k: int| 0 <= k < 8 implies #[trigger] after[k] == s2[k] by {}
    assert(le_u32(after, 0) == le_u32(s2, 0));
    assert(le_u32(s2, 0) == le_u32(s1, 0));
    assert(le_u32(after, 4) == le_u32(s2, 4));
}

/// The port and the address of an IPv4 address in the data are in network order.
pub proof fn inet_address_is_in_network_order(
    packet: VsockPacket,
    b: Seq<u8>,
    family: Option<u16>,
    port: Option<u16>,
    addr: Option<[u8; 4]>,
)
    requires
        packet.buffer() == Some(b),
        b.len() >= 8,
        call_ensures(VsockPacket::sa_family, (&packet,), family),
        call_ensures(VsockPacket::inet_port, (&packet,), port),
        call_ensures(VsockPacket::inet_addr, (&packet,), addr),
    ensures
        family == Some((b[0] + 256 * b[1]) as u16),
        port == Some((256 * b[2] + b[3]) as u16),
        addr is Some,
        addr->Some_0@[0] == b[4] && addr->Some_0@[1] == b[5] && addr->Some_0@[2] == b[6]
            && addr->Some_0@[3] == b[7],
{
}

/// The path of a local address is what stands behind its family, up to the first zero.
pub proof fn local_paths_end_at_the_first_zero(packet: VsockPacket, r: Option<&str>, data: Seq<u8>, end: int)
    requires
        call_ensures(VsockPacket::unix_path, (&packet,), r),
        packet.buffer() == Some(data),
        packet.buf_size() == data.len(),
        108 <= data.len(),
        2 <= end < data.len(),
        data[end] == 0,
        forall|i: int| 2 <= i < end ==> #[trigger] data[i] != 0,
    ensures
        r is Some <==> vstd::utf8::valid_utf8(data.subrange(2, end)),
        r is Some ==> vstd::utf8::encode_utf8(r->Some_0@) == data.subrange(2, end),
{
    assert(path_end(data, end));
}

} // verus!
