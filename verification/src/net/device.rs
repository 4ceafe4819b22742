//! The configuration of the network device.

use crate::activation::ActivateError;
use crate::bytes::le_u16;
use crate::config_space::{config_read, read_config_space};
use vstd::prelude::*;

verus! {

/// Pairs of queues that every backend serves.
pub const BASE_QUEUE_PAIRS: u16 = 1;

/// Features that every network device offers: an address, event indices and the current interface.
pub const NET_BASE_FEATURES: u64 = 0x1_2000_0020;

/// Features of a device with several pairs of queues: a control queue, and the pairs.
pub const NET_MULTIQUEUE_FEATURES: u64 = 0x0042_0000;

/// Bytes in the configuration space of the device.
pub const NET_CONFIG_BYTES: usize = 10;

/// Queues of a device with so many pairs: several pairs need a control queue too.
pub open spec fn queue_count(queue_pairs: u16) -> nat {
    if queue_pairs > 1 {
        (queue_pairs * 2 + 1) as nat
    } else {
        (queue_pairs * 2) as nat
    }
}

/// A number that is kept between two others.
pub open spec fn clamped(value: u16, low: u16, high: u16) -> u16 {
    if value < low {
        low
    } else if value > high {
        high
    } else {
        value
    }
}

/// The configuration space: the address, a status of zero and the pairs of queues.
pub open spec fn net_config(mac: Seq<u8>, queue_pairs: u16) -> Seq<u8> {
    mac + seq![0u8, 0u8] + seq![(queue_pairs % 0x100) as u8, (queue_pairs / 0x100) as u8]
}

/// Which of the guest's queues serve for what.
pub struct NetQueues {
    pub rx: Vec<usize>,
    pub tx: Vec<usize>,
    pub control: Option<usize>,
}

/// A virtio network device.
pub struct Net {
    id: String,
    has_backend: bool,
    avail_features: u64,
    acked_features: u64,
    mac: [u8; 6],
    queue_pairs: u16,
    active: bool,
}

/// Features that a device offers.
pub open spec fn net_features(features: u32, backend_features: u64, queue_pairs: u16) -> u64 {
    let base = features as u64 | backend_features | NET_BASE_FEATURES;
    if queue_pairs > 1 {
        base | NET_MULTIQUEUE_FEATURES
    } else {
        base
    }
}

impl Net {
    pub closed spec fn spec_id(self) -> Seq<char> {
        self.id@
    }

    pub closed spec fn spec_has_backend(self) -> bool {
        self.has_backend
    }

    pub closed spec fn spec_avail_features(self) -> u64 {
        self.avail_features
    }

    pub closed spec fn spec_acked_features(self) -> u64 {
        self.acked_features
    }

    pub closed spec fn spec_mac(self) -> Seq<u8> {
        self.mac@
    }

    pub closed spec fn spec_queue_pairs(self) -> u16 {
        self.queue_pairs
    }

    pub closed spec fn spec_active(self) -> bool {
        self.active
    }

    /// What stays the same from the making of the device on.
    pub open spec fn same_device(self, other: Net) -> bool {
        &&& self.spec_id() == other.spec_id()
        &&& self.spec_avail_features() == other.spec_avail_features()
        &&& self.spec_mac() == other.spec_mac()
        &&& self.spec_queue_pairs() == other.spec_queue_pairs()
    }

    /// A device. `custom` holds the features and the pairs of queues of a custom backend; every
    /// other backend has none and one. `pair_limit` is the most pairs that a device may have.
    pub fn new(
        id: String,
        custom: Option<(u64, u16)>,
        mac: [u8; 6],
        features: u32,
        pair_limit: u16,
    ) -> (r: Net)
        requires
            pair_limit >= BASE_QUEUE_PAIRS,
        ensures
            r.spec_id() == id@,
            r.spec_mac() == mac@,
            r.spec_has_backend(),
            !r.spec_active(),
            r.spec_acked_features() == 0,
            r.spec_queue_pairs() == match custom {
                None => BASE_QUEUE_PAIRS,
                Some(backend) => clamped(backend.1, BASE_QUEUE_PAIRS, pair_limit),
            },
            r.spec_avail_features() == net_features(
                features,
                match custom {
                    None => 0,
                    Some(backend) => backend.0,
                },
                r.spec_queue_pairs(),
            ),
    {
        let (backend_features, queue_pairs): (u64, u16) = match custom {
            None => (0, BASE_QUEUE_PAIRS),
            Some((features, pairs)) => (
                features,
                if pairs < BASE_QUEUE_PAIRS {
                    BASE_QUEUE_PAIRS
                } else if pairs > pair_limit {
                    pair_limit
                } else {
                    pairs
                },
            ),
        };
        let mut avail_features: u64 = features as u64 | backend_features | NET_BASE_FEATURES;
        if queue_pairs > 1 {
            avail_features = avail_features | NET_MULTIQUEUE_FEATURES;
        }
        Net {
            id,
            has_backend: true,
            avail_features,
            acked_features: 0,
            mac,
            queue_pairs,
            active: false,
        }
    }

    /// The name of the device.
    pub fn id(&self) -> (r: &str)
        ensures
            r@ == self.spec_id(),
    {
        self.id.as_str()
    }

    /// Features on offer.
    pub fn avail_features(&self) -> (r: u64)
        ensures
            r == self.spec_avail_features(),
    {
        self.avail_features
    }

    /// Features that the guest took.
    pub fn acked_features(&self) -> (r: u64)
        ensures
            r == self.spec_acked_features(),
    {
        self.acked_features
    }

    /// The guest took these features.
    pub fn set_acked_features(&mut self, acked_features: u64)
        ensures
            final(self).same_device(*old(self)),
            final(self).spec_acked_features() == acked_features,
            final(self).spec_has_backend() == old(self).spec_has_backend(),
            final(self).spec_active() == old(self).spec_active(),
    {
        self.acked_features = acked_features;
    }

    /// Queues of the device.
    pub fn queue_count(&self) -> (r: usize)
        ensures
            r == queue_count(self.spec_queue_pairs()),
    {
        if self.queue_pairs > 1 {
            self.queue_pairs as usize * 2 + 1
        } else {
            self.queue_pairs as usize * 2
        }
    }

    /// Copies the part of the configuration space that a guest reads.
    pub fn read_config(&self, offset: u64, data: &mut [u8])
        ensures
            final(data)@ == config_read(
                net_config(self.spec_mac(), self.spec_queue_pairs()),
                offset,
                old(data)@,
            ),
    {
        let mut bytes: Vec<u8> = Vec::new();
        let mut i: usize = 0;
        while i < 6
            invariant
                i <= 6,
                bytes@ == self.mac@.take(i as int),
            decreases 6 - i,
        {
            bytes.push(self.mac[i]);
            i = i + 1;
            assert(bytes@ =~= self.mac@.take(i as int));
        }
        bytes.push(0);
        bytes.push(0);
        bytes.push((self.queue_pairs % 0x100) as u8);
        bytes.push((self.queue_pairs / 0x100) as u8);
        assert(bytes@ =~= net_config(self.mac@, self.queue_pairs));
        read_config_space(bytes.as_slice(), offset, data);
    }

    /// Whether the guest has set the device up.
    pub fn is_activated(&self) -> (r: bool)
        ensures
            r == self.spec_active(),
    {
        self.active
    }

    /// Shares the guest's queues out: receive and transmit queues by turns, the control queue
    /// last. The backend is taken; the device is set up once `worker_started` reports success.
    pub fn activate(&mut self, count: usize) -> (r: Result<NetQueues, ActivateError>)
        ensures
            final(self).same_device(*old(self)),
            final(self).spec_acked_features() == old(self).spec_acked_features(),
            final(self).spec_active() == old(self).spec_active(),
            r is Ok <==> count == queue_count(old(self).spec_queue_pairs())
                && old(self).spec_has_backend(),
            r is Err ==> *final(self) == *old(self),
            r matches Ok(queues) ==> {
                let pairs = old(self).spec_queue_pairs();
                &&& !final(self).spec_has_backend()
                &&& queues.rx@ == Seq::new(pairs as nat, |i: int| (2 * i) as usize)
                &&& queues.tx@ == Seq::new(pairs as nat, |i: int| (2 * i + 1) as usize)
                &&& queues.control == if pairs > 1 {
                    Some((2 * pairs) as usize)
                } else {
                    None
                }
            },
    {
        if count != self.queue_count() {
            return Err(ActivateError::BadActivate);
        }
        if !self.has_backend {
            return Err(ActivateError::BadActivate);
        }
        self.has_backend = false;
        let pairs: usize = self.queue_pairs as usize;
        let mut rx: Vec<usize> = Vec::new();
        let mut tx: Vec<usize> = Vec::new();
        let mut i: usize = 0;
        while i < pairs
            invariant
                i <= pairs <= u16::MAX,
                rx@ == Seq::new(i as nat, |j: int| (2 * j) as usize),
                tx@ == Seq::new(i as nat, |j: int| (2 * j + 1) as usize),
            decreases pairs - i,
        {
            rx.push(2 * i);
            tx.push(2 * i + 1);
            i = i + 1;
            assert(rx@ =~= Seq::new(i as nat, |j: int| (2 * j) as usize));
            assert(tx@ =~= Seq::new(i as nat, |j: int| (2 * j + 1) as usize));
        }
        let control: Option<usize> = if pairs > 1 {
            Some(2 * pairs)
        } else {
            None
        };
        Ok(NetQueues { rx, tx, control })
    }

    /// The worker runs, or its backend could not be reached.
    pub fn worker_started(&mut self, running: bool) -> (r: Result<(), ActivateError>)
        ensures
            final(self).same_device(*old(self)),
            final(self).spec_acked_features() == old(self).spec_acked_features(),
            final(self).spec_has_backend() == old(self).spec_has_backend(),
            r is Ok <==> running,
            final(self).spec_active() == (old(self).spec_active() || running),
    {
        if running {
            self.active = true;
            Ok(())
        } else {
            Err(ActivateError::BadActivate)
        }
    }
}

/// The guest reads the pairs of queues at byte eight.
pub proof fn config_shows_queue_pairs(mac: Seq<u8>, queue_pairs: u16)
    requires
        mac.len() == 6,
    ensures
        net_config(mac, queue_pairs).len() == NET_CONFIG_BYTES,
        net_config(mac, queue_pairs).take(6) == mac,
        le_u16(net_config(mac, queue_pairs), 8) == queue_pairs,
{
    assert(net_config(mac, queue_pairs).take(6) =~= mac);
}

/// A device has as many queue pairs as its backend serves, at least one and at most the limit. A
/// backend of the device's own serves one.
pub proof fn queue_pairs_are_those_of_the_backend(
    id: String,
    custom: Option<(u64, u16)>,
    mac: [u8; 6],
    features: u32,
    limit: u16,
    r: Net,
    k: int,
)
    requires
        limit >= 1,
        call_ensures(Net::new, (id, custom, mac, features, limit), r),
        0 <= k < 6,
    ensures
        1 <= r.spec_queue_pairs() <= limit,
        custom is None ==> r.spec_queue_pairs() == 1,
        custom is Some && 1 <= custom->Some_0.1 <= limit ==> r.spec_queue_pairs()
            == custom->Some_0.1,
        custom is Some && custom->Some_0.1 > limit ==> r.spec_queue_pairs() == limit,
        custom is Some && custom->Some_0.1 == 0 ==> r.spec_queue_pairs() == 1,
        r.spec_id() == id@,
        r.spec_mac()[k] == mac@[k],
        r.spec_acked_features() == 0,
        !r.spec_active(),
{
}

/// A feature is offered where the settings or the backend name it, where every device has it (the
/// address, the modern interface and the event index), and, with several queue pairs, where
/// several queues need it.
pub proof fn offered_features_have_a_reason(
    id: String,
    custom: Option<(u64, u16)>,
    mac: [u8; 6],
    features: u32,
    limit: u16,
    r: Net,
    bit: u64,
)
    requires
        limit >= 1,
        call_ensures(Net::new, (id, custom, mac, features, limit), r),
        bit < 64,
    ensures
        r.spec_avail_features() >> bit & 1 == 1 <==> features as u64 >> bit & 1 == 1 || custom
            is Some && custom->Some_0.0 >> bit & 1 == 1 || bit == 5 || bit == 29 || bit == 32
            || r.spec_queue_pairs() > 1 && (bit == 17 || bit == 22),
{
    let f = features as u64;
    let own: u64 = match custom {
        None => 0,
        Some(backend) => backend.0,
    };
    assert(0u64 >> bit & 1 == 0) by (bit_vector);
    assert((f | own | 0x1_2000_0020u64) >> bit & 1 == 1 <==> f >> bit & 1 == 1 || own >> bit & 1
        == 1 || bit == 5 || bit == 29 || bit == 32) by (bit_vector)
        requires
            bit < 64,
    ;
    assert(((f | own | 0x1_2000_0020u64) | 0x0042_0000u64) >> bit & 1 == 1 <==> f >> bit & 1 == 1
        || own >> bit & 1 == 1 || bit == 5 || bit == 29 || bit == 32 || bit == 17 || bit == 22)
        by (bit_vector)
        requires
            bit < 64,
    ;
}

/// The guest reads the device's address in the first six bytes of the configuration, and the number
/// of its queue pairs in the ninth and tenth.
pub proof fn guest_reads_address_and_pairs(net: Net, offset: u64, data: &mut [u8], k: int)
    requires
        call_ensures(Net::read_config, (&net, offset, data), ()),
        net.spec_mac().len() == 6,
        offset + data@.len() <= u64::MAX,
        0 <= k < data@.len(),
    ensures
        final(data)@.len() == old(data)@.len(),
        offset + k < 6 ==> final(data)@[k] == net.spec_mac()[offset + k],
        6 <= offset + k < 8 ==> final(data)@[k] == 0,
        offset + k == 8 ==> final(data)@[k] == net.spec_queue_pairs() % 256,
        offset + k == 9 ==> final(data)@[k] == net.spec_queue_pairs() / 256,
        offset + k >= 10 ==> final(data)@[k] == old(data)@[k],
{
}

/// The queues of an activated device take turns: each pair is one that receives and the next that
/// sends, from the first queue on, and the control queue of several pairs is the last.
pub proof fn queues_take_turns(net: &mut Net, count: usize, r: Result<NetQueues, ActivateError>, i: int)
    requires
        call_ensures(Net::activate, (net, count), r),
        0 <= i,
    ensures
        r is Ok ==> {
            let queues = r->Ok_0;
            let pairs = old(net).spec_queue_pairs() as nat;
            &&& queues.rx@.len() == pairs && queues.tx@.len() == pairs
            &&& pairs > 0 ==> queues.rx@[0] == 0
            &&& i < pairs && 2 * pairs <= usize::MAX ==> queues.tx@[i] == queues.rx@[i] + 1
            &&& i + 1 < pairs && 2 * pairs <= usize::MAX ==> queues.rx@[i + 1] == queues.tx@[i] + 1
            &&& pairs <= 1 ==> queues.control is None && count == 2 * pairs
            &&& pairs > 1 ==> queues.control == Some(
                (count - 1) as usize,
            ) && queues.control->Some_0 == queues.tx@.last() + 1
        },
        r is Ok ==> old(net).spec_has_backend() && !final(net).spec_has_backend(),
        r is Err ==> *final(net) == *old(net),
{
    if r is Ok {
        let pairs = old(net).spec_queue_pairs() as nat;
        assert(2 * pairs <= 0x2_0000);
        assert(count == pairs * 2 || count == pairs * 2 + 1);
    }
}

/// A device that has a backend is activated by exactly two queues for each pair, and one more
/// where there are several pairs.
pub proof fn right_number_of_queues_activates(
    net: &mut Net,
    count: usize,
    r: Result<NetQueues, ActivateError>,
    n: usize,
)
    requires
        call_ensures(Net::activate, (net, count), r),
        call_ensures(Net::queue_count, (&*old(net),), n),
    ensures
        n == 2 * old(net).spec_queue_pairs() || n == 2 * old(net).spec_queue_pairs() + 1,
        n == 2 * old(net).spec_queue_pairs() + 1 <==> old(net).spec_queue_pairs() > 1,
        old(net).spec_has_backend() ==> (r is Ok <==> count == n),
        !old(net).spec_has_backend() ==> r is Err,
{
}

} // verus!
