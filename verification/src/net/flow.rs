//! The receive queue of a frame, chosen by the flow that it belongs to.

use crate::bytes::{be_u16, get_be_u16};
use vstd::prelude::*;

verus! {

/// The hash of no bytes.
pub const FNV_OFFSET: u64 = 0xcbf2_9ce4_8422_2325;

/// What the hash is multiplied by for every byte.
pub const FNV_PRIME: u64 = 0x100_0000_01b3;

/// A hash with one more byte.
pub open spec fn fnv_step(hash: u64, byte: u8) -> u64 {
    (((hash ^ (byte as u64)) as int * FNV_PRIME as int) % 0x1_0000_0000_0000_0000) as u64
}

/// A hash with more bytes.
pub open spec fn fnv(hash: u64, bytes: Seq<u8>) -> u64
    decreases bytes.len(),
{
    if bytes.len() == 0 {
        hash
    } else {
        fnv_step(fnv(hash, bytes.drop_last()), bytes.last())
    }
}

proof fn lemma_fnv_concat(hash: u64, a: Seq<u8>, b: Seq<u8>)
    ensures
        fnv(fnv(hash, a), b) == fnv(hash, a + b),
    decreases b.len(),
{
    if b.len() == 0 {
        assert(a + b =~= a);
    } else {
        lemma_fnv_concat(hash, a, b.drop_last());
        assert((a + b).drop_last() =~= a + b.drop_last());
    }
}

/// Adds the bytes from `start` up to `end` to a hash.
fn hash_range(hash: u64, frame: &[u8], start: usize, end: usize) -> (r: u64)
    requires
        start <= end <= frame@.len(),
    ensures
        r == fnv(hash, frame@.subrange(start as int, end as int)),
{
    let mut h: u64 = hash;
    let mut i: usize = start;
    assert(frame@.subrange(start as int, start as int) =~= Seq::<u8>::empty());
    while i < end
        invariant
            start <= i <= end <= frame@.len(),
            h == fnv(hash, frame@.subrange(start as int, i as int)),
        decreases end - i,
    {
        let mixed: u64 = h ^ (frame[i] as u64);
        h = mixed.wrapping_mul(FNV_PRIME);
        assert(frame@.subrange(start as int, i + 1).drop_last() =~= frame@.subrange(
            start as int,
            i as int,
        ));
        i = i + 1;
    }
    h
}

fn hash_byte(hash: u64, byte: u8) -> (r: u64)
    ensures
        r == fnv(hash, seq![byte]),
{
    assert(seq![byte].drop_last() =~= Seq::<u8>::empty());
    assert(fnv(hash, seq![byte].drop_last()) == hash);
    let mixed: u64 = hash ^ (byte as u64);
    mixed.wrapping_mul(FNV_PRIME)
}

/// A VLAN tag follows.
pub open spec fn is_vlan(ethertype: int) -> bool {
    ethertype == 0x8100 || ethertype == 0x88a8
}

/// What stands between the addresses of a frame and its network header: the VLAN tags, where the
/// network header starts, and its type.
pub open spec fn vlan_walk(frame: Seq<u8>, at: int, ethertype: int) -> (Seq<u8>, int, int)
    decreases frame.len() - at,
{
    if is_vlan(ethertype) && at + 4 <= frame.len() {
        let (tags, start, inner) = vlan_walk(frame, at + 4, be_u16(frame, at + 2));
        (frame.subrange(at, at + 2) + tags, start, inner)
    } else {
        (Seq::empty(), at, ethertype)
    }
}

/// The ports of a TCP or UDP header, where it is there.
pub open spec fn port_bytes(frame: Seq<u8>, protocol: u8, at: int) -> Seq<u8> {
    if (protocol == 6 || protocol == 17) && at + 4 <= frame.len() {
        frame.subrange(at, at + 4)
    } else {
        Seq::empty()
    }
}

/// What names a flow in a network header and behind it: addresses, protocol and ports of IPv4 and
/// IPv6, and the type alone of everything else.
pub open spec fn network_key(frame: Seq<u8>, at: int, ethertype: int) -> Seq<u8> {
    if ethertype == 0x0800 && at + 20 <= frame.len() {
        frame.subrange(at + 12, at + 20) + seq![frame[at + 9]] + port_bytes(
            frame,
            frame[at + 9],
            at + frame[at] % 16 * 4,
        )
    } else if ethertype == 0x86dd && at + 40 <= frame.len() {
        frame.subrange(at + 8, at + 40) + seq![frame[at + 6]] + port_bytes(
            frame,
            frame[at + 6],
            at + 40,
        )
    } else {
        seq![(ethertype / 0x100) as u8, (ethertype % 0x100) as u8]
    }
}

/// The bytes that name the flow of a frame. A frame without an Ethernet header names itself.
pub open spec fn flow_key(frame: Seq<u8>) -> Seq<u8> {
    if frame.len() < 14 {
        frame
    } else {
        let (tags, at, ethertype) = vlan_walk(frame, 14, be_u16(frame, 12));
        frame.take(12) + tags + network_key(frame, at, ethertype)
    }
}

/// The queue of a flow.
pub open spec fn flow_queue(key: Seq<u8>, queue_pairs: usize) -> usize {
    if queue_pairs <= 1 {
        0
    } else {
        (fnv(FNV_OFFSET, key) as usize % queue_pairs) as usize
    }
}

fn hash_ports(hash: u64, frame: &[u8], protocol: u8, at: usize, skip: usize) -> (r: u64)
    requires
        at <= frame@.len(),
        skip <= 60,
    ensures
        r == fnv(hash, port_bytes(frame@, protocol, at + skip)),
{
    if (protocol == 6 || protocol == 17) && frame.len() - at >= skip + 4 {
        hash_range(hash, frame, at + skip, at + skip + 4)
    } else {
        hash
    }
}

fn hash_network(hash: u64, frame: &[u8], at: usize, ethertype: u16) -> (r: u64)
    requires
        at <= frame@.len(),
    ensures
        r == fnv(hash, network_key(frame@, at as int, ethertype as int)),
{
    if ethertype == 0x0800 && frame.len() - at >= 20 {
        let protocol: u8 = frame[at + 9];
        let first: u8 = frame[at];
        assert(first & 0x0f == first % 16) by (bit_vector);
        let addresses: u64 = hash_range(hash, frame, at + 12, at + 20);
        let with_protocol: u64 = hash_byte(addresses, protocol);
        let header: usize = (first & 0x0f) as usize * 4;
        proof {
            let a = frame@.subrange(at + 12, at + 20);
            let ports = port_bytes(frame@, protocol, at + header);
            lemma_fnv_concat(hash, a, seq![protocol]);
            lemma_fnv_concat(hash, a + seq![protocol], ports);
        }
        hash_ports(with_protocol, frame, protocol, at, header)
    } else if ethertype == 0x86dd && frame.len() - at >= 40 {
        let protocol: u8 = frame[at + 6];
        let addresses: u64 = hash_range(hash, frame, at + 8, at + 40);
        let with_protocol: u64 = hash_byte(addresses, protocol);
        proof {
            let a = frame@.subrange(at + 8, at + 40);
            let ports = port_bytes(frame@, protocol, at + 40);
            lemma_fnv_concat(hash, a, seq![protocol]);
            lemma_fnv_concat(hash, a + seq![protocol], ports);
        }
        hash_ports(with_protocol, frame, protocol, at, 40)
    } else {
        let high: u8 = (ethertype / 0x100) as u8;
        let low: u8 = (ethertype % 0x100) as u8;
        proof {
            lemma_fnv_concat(hash, seq![high], seq![low]);
            assert(seq![high] + seq![low] =~= seq![high, low]);
        }
        hash_byte(hash_byte(hash, high), low)
    }
}

/// The receive queue of an Ethernet frame. Frames of one flow share a queue, so they are never
/// reordered.
pub fn flow_queue_index(frame: &[u8], queue_pairs: usize) -> (r: usize)
    ensures
        r == flow_queue(flow_key(frame@), queue_pairs),
        r < queue_pairs || r == 0,
{
    if queue_pairs <= 1 {
        return 0;
    }
    let hash: u64 = if frame.len() < 14 {
        assert(frame@.subrange(0, frame@.len() as int) =~= frame@);
        hash_range(FNV_OFFSET, frame, 0, frame.len())
    } else {
        let mut h: u64 = hash_range(FNV_OFFSET, frame, 0, 12);
        let mut at: usize = 14;
        let mut ethertype: u16 = get_be_u16(frame, 12);
        let ghost mut seen: Seq<u8> = frame@.take(12);
        let ghost walk = vlan_walk(frame@, 14, be_u16(frame@, 12));
        assert(frame@.subrange(0, 12) =~= frame@.take(12));
        assert(frame@.take(12) + walk.0 =~= seen + walk.0);
        while (ethertype == 0x8100 || ethertype == 0x88a8) && frame.len() - at >= 4
            invariant
                14 <= at <= frame@.len(),
                h == fnv(FNV_OFFSET, seen),
                walk == vlan_walk(frame@, 14, be_u16(frame@, 12)),
                ({
                    let rest = vlan_walk(frame@, at as int, ethertype as int);
                    &&& rest.1 == walk.1
                    &&& rest.2 == walk.2
                    &&& seen + rest.0 == frame@.take(12) + walk.0
                }),
            decreases frame@.len() - at,
        {
            proof {
                let tag = frame@.subrange(at as int, at + 2);
                let rest = vlan_walk(frame@, at + 4, be_u16(frame@, at + 2));
                lemma_fnv_concat(FNV_OFFSET, seen, tag);
                assert((seen + tag) + rest.0 =~= seen + (tag + rest.0));
                seen = seen + tag;
            }
            h = hash_range(h, frame, at, at + 2);
            ethertype = get_be_u16(frame, at + 2);
            at = at + 4;
        }
        proof {
            assert(seen + Seq::<u8>::empty() =~= seen);
            lemma_fnv_concat(
                FNV_OFFSET,
                seen,
                network_key(frame@, at as int, ethertype as int),
            );
        }
        hash_network(h, frame, at, ethertype)
    };
    let folded: usize = #[verifier::truncate]
    (hash as usize);
    folded % queue_pairs
}

/// Frames of one flow share a queue.
pub proof fn one_flow_one_queue(a: Seq<u8>, b: Seq<u8>, queue_pairs: usize)
    requires
        flow_key(a) == flow_key(b),
    ensures
        flow_queue(flow_key(a), queue_pairs) == flow_queue(flow_key(b), queue_pairs),
{
}

/// Two untagged IPv4 frames that agree on their headers up to the ports are of one flow, whatever
/// stands behind the ports, and however long it is.
pub proof fn ipv4_flow_ignores_payload(a: Seq<u8>, b: Seq<u8>, transport: int)
    requires
        a.len() >= 34,
        b.len() >= 34,
        be_u16(a, 12) == 0x0800,
        transport == 14 + a[14] % 16 * 4,
        transport >= 34,
        transport + 4 <= a.len(),
        transport + 4 <= b.len(),
        a.take(transport + 4) == b.take(transport + 4),
    ensures
        flow_key(a) == flow_key(b),
{
    let n = transport + 4;
    assert forall|i: int| 0 <= i < n implies a[i] == b[i] by {
        assert(a.take(n)[i] == b.take(n)[i]);
    }
    assert(a.take(12) =~= b.take(12));
    assert(a.subrange(26, 34) =~= b.subrange(26, 34));
    assert(port_bytes(a, a[23], transport) =~= port_bytes(b, b[23], transport));
}

/// Two untagged IPv4 frames with the same addresses, protocol and ports are of one flow, whatever
/// else stands in their headers and behind them.
pub proof fn ipv4_flow_is_addresses_protocol_and_ports(a: Seq<u8>, b: Seq<u8>)
    requires
        a.len() >= 34,
        b.len() >= 34,
        be_u16(a, 12) == 0x0800,
        be_u16(b, 12) == 0x0800,
        a.take(12) == b.take(12),
        a.subrange(26, 34) == b.subrange(26, 34),
        a[23] == b[23],
        port_bytes(a, a[23], 14 + a[14] % 16 * 4) == port_bytes(b, b[23], 14 + b[14] % 16 * 4),
    ensures
        flow_key(a) == flow_key(b),
{
}

/// Two untagged IPv6 frames with the same addresses, protocol and ports are of one flow, whatever
/// else stands in their headers and behind them.
pub proof fn ipv6_flow_is_addresses_protocol_and_ports(a: Seq<u8>, b: Seq<u8>)
    requires
        a.len() >= 54,
        b.len() >= 54,
        be_u16(a, 12) == 0x86dd,
        be_u16(b, 12) == 0x86dd,
        a.take(12) == b.take(12),
        a.subrange(22, 54) == b.subrange(22, 54),
        a[20] == b[20],
        port_bytes(a, a[20], 54) == port_bytes(b, b[20], 54),
    ensures
        flow_key(a) == flow_key(b),
{
}

/// The sum of the bytes of a sequence.
pub open spec fn byte_sum(bytes: Seq<u8>) -> int
    decreases bytes.len(),
{
    if bytes.len() == 0 {
        0
    } else {
        byte_sum(bytes.drop_last()) + bytes.last()
    }
}

proof fn lemma_byte_sum_concat(a: Seq<u8>, b: Seq<u8>)
    ensures
        byte_sum(a + b) == byte_sum(a) + byte_sum(b),
    decreases b.len(),
{
    if b.len() == 0 {
        assert(a + b =~= a);
    } else {
        lemma_byte_sum_concat(a, b.drop_last());
        assert((a + b).drop_last() =~= a + b.drop_last());
    }
}

proof fn lemma_product_parity(m: int)
    ensures
        (m * 0x100_0000_01b3) % 0x1_0000_0000_0000_0000 % 2 == m % 2,
{
    let product = m * 0x100_0000_01b3;
    vstd::arithmetic::div_mod::lemma_mod_mod(product, 2, 0x8000_0000_0000_0000);
    assert(product == 2 * (m * 0x80_0000_00d9) + m);
    vstd::arithmetic::div_mod::lemma_mod_multiples_vanish(m * 0x80_0000_00d9, m, 2);
}

proof fn lemma_mixed_parity(hash: u64, byte: u64)
    ensures
        (hash ^ byte) as int % 2 == (hash + byte) % 2,
{
    let mixed: u64 = hash ^ byte;
    assert((hash ^ byte) & 1 == (hash & 1) ^ (byte & 1)) by (bit_vector);
    assert(mixed & 1 == mixed % 2) by (bit_vector);
    assert(hash & 1 == hash % 2) by (bit_vector);
    assert(byte & 1 == byte % 2) by (bit_vector);
    assert(0u64 ^ 0u64 == 0 && 0u64 ^ 1u64 == 1 && 1u64 ^ 0u64 == 1 && 1u64 ^ 1u64 == 0)
        by (bit_vector);
}

proof fn lemma_step_parity(hash: u64, byte: u8)
    ensures
        fnv_step(hash, byte) as int % 2 == (hash + byte) % 2,
{
    lemma_mixed_parity(hash, byte as u64);
    lemma_product_parity((hash ^ (byte as u64)) as int);
}

proof fn lemma_fnv_parity(hash: u64, bytes: Seq<u8>)
    ensures
        fnv(hash, bytes) as int % 2 == (hash + byte_sum(bytes)) % 2,
    decreases bytes.len(),
{
    if bytes.len() > 0 {
        lemma_fnv_parity(hash, bytes.drop_last());
        lemma_step_parity(fnv(hash, bytes.drop_last()), bytes.last());
    }
}

/// With two queues, the queue of a flow is told by the sum of the bytes that name it.
pub proof fn two_queues_are_told_by_the_sum(key: Seq<u8>)
    requires
        usize::MAX == u64::MAX,
    ensures
        flow_queue(key, 2) == (1 + byte_sum(key)) % 2,
{
    lemma_fnv_parity(FNV_OFFSET, key);
}

proof fn lemma_key_sum(links: Seq<u8>, addresses: Seq<u8>, protocol: u8, ports: Seq<u8>)
    ensures
        byte_sum(links + (addresses + seq![protocol] + ports)) == byte_sum(links) + byte_sum(
            addresses,
        ) + protocol + byte_sum(ports),
{
    let one = seq![protocol];
    assert(one.drop_last() =~= Seq::<u8>::empty());
    assert(byte_sum(one.drop_last()) == 0);
    lemma_byte_sum_concat(links, addresses + one + ports);
    lemma_byte_sum_concat(addresses + one, ports);
    lemma_byte_sum_concat(addresses, one);
}

/// Every byte of what names a flow counts: with two queues, the queue of an untagged IPv4 frame with
/// ports changes with every odd change of its link addresses, its addresses, its protocol or its
/// ports, and with nothing else.
pub proof fn every_byte_of_an_ipv4_flow_counts(frame: &[u8], r: usize)
    requires
        usize::MAX == u64::MAX,
        call_ensures(flow_queue_index, (frame, 2), r),
        frame@.len() >= 38,
        frame@[12] == 8,
        frame@[13] == 0,
        frame@[14] % 16 == 5,
        frame@[23] == 6 || frame@[23] == 17,
    ensures
        r == (1 + byte_sum(frame@.take(12)) + byte_sum(frame@.subrange(26, 34)) + frame@[23]
            + byte_sum(frame@.subrange(34, 38))) % 2,
{
    let f = frame@;
    lemma_ipv4_key(f);
    lemma_key_sum(f.take(12), f.subrange(26, 34), f[23], f.subrange(34, 38));
    two_queues_are_told_by_the_sum(flow_key(f));
}

/// The same of an untagged IPv6 frame with ports.
pub proof fn every_byte_of_an_ipv6_flow_counts(frame: &[u8], r: usize)
    requires
        usize::MAX == u64::MAX,
        call_ensures(flow_queue_index, (frame, 2), r),
        frame@.len() >= 58,
        frame@[12] == 0x86,
        frame@[13] == 0xdd,
        frame@[20] == 6 || frame@[20] == 17,
    ensures
        r == (1 + byte_sum(frame@.take(12)) + byte_sum(frame@.subrange(22, 54)) + frame@[20]
            + byte_sum(frame@.subrange(54, 58))) % 2,
{
    let f = frame@;
    lemma_ipv6_key(f);
    lemma_key_sum(f.take(12), f.subrange(22, 54), f[20], f.subrange(54, 58));
    two_queues_are_told_by_the_sum(flow_key(f));
}

/// A queue is one of those that there are, a single queue takes everything, and a VLAN tag changes
/// the flow: its two bytes count like any other.
pub proof fn tagged_flows_count_their_tag(frame: &[u8], r: usize, one: usize, many: usize, n: usize)
    requires
        usize::MAX == u64::MAX,
        call_ensures(flow_queue_index, (frame, 1), one),
        call_ensures(flow_queue_index, (frame, n), many),
        call_ensures(flow_queue_index, (frame, 2), r),
        n >= 1,
    ensures
        one == 0,
        many < n,
        frame@.len() >= 42 && frame@[12] == 0x81 && frame@[13] == 0 && frame@[16] == 8 && frame@[17]
            == 0 && frame@[18] % 16 == 5 && frame@[27] == 6 ==> r == (1 + byte_sum(frame@.take(12))
            + byte_sum(frame@.subrange(14, 16)) + byte_sum(frame@.subrange(30, 38)) + 6 + byte_sum(
            frame@.subrange(38, 42),
        )) % 2,
{
    let f = frame@;
    if f.len() >= 42 && f[12] == 0x81 && f[13] == 0 && f[16] == 8 && f[17] == 0 && f[18] % 16 == 5
        && f[27] == 6 {
        lemma_tagged_key(f);
        lemma_key_sum(f.take(12) + f.subrange(14, 16), f.subrange(30, 38), f[27], f.subrange(38, 42));
        lemma_byte_sum_concat(f.take(12), f.subrange(14, 16));
        two_queues_are_told_by_the_sum(flow_key(f));
    }
}

proof fn lemma_ipv4_key(f: Seq<u8>)
    requires
        f.len() >= 38,
        f[12] == 8,
        f[13] == 0,
        f[14] % 16 == 5,
        f[23] == 6 || f[23] == 17,
    ensures
        flow_key(f) == f.take(12) + (f.subrange(26, 34) + seq![f[23]] + f.subrange(34, 38)),
{
    assert(vlan_walk(f, 14, 0x0800) == (Seq::<u8>::empty(), 14int, 0x0800int));
    assert(flow_key(f) =~= f.take(12) + (f.subrange(26, 34) + seq![f[23]] + f.subrange(34, 38)));
}

proof fn lemma_ipv6_key(f: Seq<u8>)
    requires
        f.len() >= 58,
        f[12] == 0x86,
        f[13] == 0xdd,
        f[20] == 6 || f[20] == 17,
    ensures
        flow_key(f) == f.take(12) + (f.subrange(22, 54) + seq![f[20]] + f.subrange(54, 58)),
{
    assert(vlan_walk(f, 14, 0x86dd) == (Seq::<u8>::empty(), 14int, 0x86ddint));
    assert(flow_key(f) =~= f.take(12) + (f.subrange(22, 54) + seq![f[20]] + f.subrange(54, 58)));
}

proof fn lemma_tagged_key(f: Seq<u8>)
    requires
        f.len() >= 42,
        f[12] == 0x81,
        f[13] == 0,
        f[16] == 8,
        f[17] == 0,
        f[18] % 16 == 5,
        f[27] == 6,
    ensures
        flow_key(f) == f.take(12) + f.subrange(14, 16) + (f.subrange(30, 38) + seq![f[27]]
            + f.subrange(38, 42)),
{
    assert(vlan_walk(f, 18, 0x0800) == (Seq::<u8>::empty(), 18int, 0x0800int));
    assert(vlan_walk(f, 14, 0x8100).0 =~= f.subrange(14, 16));
    assert(flow_key(f) =~= f.take(12) + f.subrange(14, 16) + (f.subrange(30, 38) + seq![f[27]]
        + f.subrange(38, 42)));
}

/// The queue of a frame is chosen by the bytes of its flow in order: the link addresses, then the
/// network addresses, the protocol, and the ports where TCP or UDP follows the header. What is
/// neither IPv4 nor IPv6 is told by its type, and what has no link header by all its bytes.
pub proof fn flows_are_told_by_their_bytes_in_order(frame: &[u8], n: usize, r: usize, behind: int)
    requires
        call_ensures(flow_queue_index, (frame, n), r),
        frame@.len() > 14 ==> behind == 14 + 4 * (frame@[14] % 16),
    ensures
        ({
            let f = frame@;
            let ports = f[23] == 6 || f[23] == 17;
            f.len() >= 34 && f[12] == 8 && f[13] == 0 ==> r == flow_queue(
                f.take(12) + (f.subrange(26, 34) + seq![f[23]] + if ports && behind + 4 <= f.len() {
                    f.subrange(behind, behind + 4)
                } else {
                    Seq::empty()
                }),
                n,
            )
        }),
        ({
            let f = frame@;
            let ports = f[20] == 6 || f[20] == 17;
            f.len() >= 54 && f[12] == 0x86 && f[13] == 0xdd ==> r == flow_queue(
                f.take(12) + (f.subrange(22, 54) + seq![f[20]] + if ports && 58 <= f.len() {
                    f.subrange(54, 58)
                } else {
                    Seq::empty()
                }),
                n,
            )
        }),
        frame@.len() >= 14 && !(frame@[12] == 8 && frame@[13] == 0) && !(frame@[12] == 0x86
            && frame@[13] == 0xdd) && !(frame@[12] == 0x81 && frame@[13] == 0) && !(frame@[12]
            == 0x88 && frame@[13] == 0xa8) ==> r == flow_queue(frame@.take(14), n),
        frame@.len() < 14 ==> r == flow_queue(frame@, n),
{
    let f = frame@;
    if f.len() >= 14 {
        let ethertype = be_u16(f, 12);
        if !is_vlan(ethertype) {
            assert(vlan_walk(f, 14, ethertype) == (Seq::<u8>::empty(), 14int, ethertype));
            assert(flow_key(f) =~= f.take(12) + network_key(f, 14, ethertype));
            if !(f[12] == 8 && f[13] == 0) && !(f[12] == 0x86 && f[13] == 0xdd) {
                assert(network_key(f, 14, ethertype) =~= f.subrange(12, 14));
                assert(flow_key(f) =~= f.take(14));
            }
        }
    }
}

/// A VLAN tag counts between the link addresses and what the frame's flow would be without it.
pub proof fn tags_stand_before_the_flow(tagged: &[u8], n: usize, r: usize, plain: Seq<u8>)
    requires
        call_ensures(flow_queue_index, (tagged, n), r),
        tagged@.len() >= 18,
        tagged@[12] == 0x81 && tagged@[13] == 0 || tagged@[12] == 0x88 && tagged@[13] == 0xa8,
        plain == tagged@.take(12) + tagged@.skip(16),
    ensures
        r == flow_queue(tagged@.take(12) + tagged@.subrange(14, 16) + flow_key(plain).skip(12), n),
{
    let f = tagged@;
    let inner = be_u16(f, 16);
    assert(plain[12] == f[16] && plain[13] == f[17]);
    assert(be_u16(plain, 12) == inner);
    lemma_untagged_walk(f, plain, 14, inner);
    let (tags, at, ethertype) = vlan_walk(plain, 14, inner);
    lemma_walk_bounds(plain, 14, inner);
    assert(network_key(f, at + 4, ethertype) =~= network_key(plain, at, ethertype)) by {
        assert forall|i: int| 12 <= i < plain.len() implies plain[i] == f[i + 4] by {}
        if ethertype == 0x0800 && at + 20 <= plain.len() {
            assert(f.subrange(at + 16, at + 24) =~= plain.subrange(at + 12, at + 20));
            let ports = at + plain[at] % 16 * 4;
            if ports + 4 <= plain.len() {
                assert(f.subrange(ports + 4, ports + 8) =~= plain.subrange(ports, ports + 4));
            }
        }
        if ethertype == 0x86dd && at + 40 <= plain.len() {
            assert(f.subrange(at + 12, at + 44) =~= plain.subrange(at + 8, at + 40));
            if at + 44 <= plain.len() {
                assert(f.subrange(at + 44, at + 48) =~= plain.subrange(at + 40, at + 44));
            }
        }
    }
    assert(plain.take(12) =~= f.take(12));
    assert(flow_key(plain).skip(12) =~= tags + network_key(plain, at, ethertype));
    assert(vlan_walk(f, 14, be_u16(f, 12)).0 =~= f.subrange(14, 16) + tags);
    assert(flow_key(f) =~= f.take(12) + f.subrange(14, 16) + flow_key(plain).skip(12));
}

proof fn lemma_walk_bounds(frame: Seq<u8>, at: int, ethertype: int)
    requires
        14 <= at <= frame.len(),
    ensures
        at <= vlan_walk(frame, at, ethertype).1 <= frame.len(),
    decreases frame.len() - at,
{
    if is_vlan(ethertype) && at + 4 <= frame.len() {
        lemma_walk_bounds(frame, at + 4, be_u16(frame, at + 2));
    }
}

proof fn lemma_untagged_walk(f: Seq<u8>, plain: Seq<u8>, at: int, ethertype: int)
    requires
        f.len() >= 18,
        plain == f.take(12) + f.skip(16),
        14 <= at <= plain.len(),
    ensures
        vlan_walk(f, at + 4, ethertype).0 == vlan_walk(plain, at, ethertype).0,
        vlan_walk(f, at + 4, ethertype).1 == vlan_walk(plain, at, ethertype).1 + 4,
        vlan_walk(f, at + 4, ethertype).2 == vlan_walk(plain, at, ethertype).2,
    decreases plain.len() - at,
{
    if is_vlan(ethertype) && at + 4 <= plain.len() {
        assert(plain[at + 2] == f[at + 6] && plain[at + 3] == f[at + 7]);
        assert(be_u16(plain, at + 2) == be_u16(f, at + 6));
        assert(plain.subrange(at, at + 2) =~= f.subrange(at + 4, at + 6));
        lemma_untagged_walk(f, plain, at + 4, be_u16(plain, at + 2));
    }
}

} // verus!
