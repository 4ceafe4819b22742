//! The configuration space that a virtio device shows to the guest.

use vstd::prelude::*;

verus! {

/// The bytes that a guest sees of a configuration space. Where the read starts past its end, or
/// wraps around, the buffer stays as it was; bytes past the end stay as they were too.
pub open spec fn config_read(config: Seq<u8>, offset: u64, data: Seq<u8>) -> Seq<u8> {
    Seq::new(
        data.len(),
        |i: int|
            if offset + data.len() <= u64::MAX && offset + i < config.len() {
                config[offset + i]
            } else {
                data[i]
            },
    )
}

/// Copies the part of a configuration space that a guest reads.
pub fn read_config_space(config: &[u8], offset: u64, data: &mut [u8])
    ensures
        final(data)@ == config_read(config@, offset, old(data)@),
{
    let len: usize = data.len();
    if offset >= config.len() as u64 {
        assert(data@ =~= config_read(config@, offset, old(data)@));
        return;
    }
    if offset.checked_add(len as u64).is_none() {
        assert(data@ =~= config_read(config@, offset, old(data)@));
        return;
    }
    let start: usize = offset as usize;
    let mut i: usize = 0;
    while i < len && start + i < config.len()
        invariant
            start == offset,
            start < config@.len(),
            len == data@.len(),
            data@.len() == old(data)@.len(),
            offset + len <= u64::MAX,
            i <= len,
            start + i <= config@.len(),
            config@.len() <= usize::MAX,
            forall|j: int| 0 <= j < i ==> #[trigger] data@[j] == config@[start + j],
            forall|j: int| i <= j < len ==> #[trigger] data@[j] == old(data)@[j],
        decreases len - i,
    {
        data[i] = config[start + i];
        i = i + 1;
    }
    assert(data@ =~= config_read(config@, offset, old(data)@));
}

/// A read inside the configuration space gives its bytes.
pub proof fn config_read_inside(config: Seq<u8>, offset: u64, data: Seq<u8>)
    requires
        offset + data.len() <= config.len(),
        config.len() <= u64::MAX,
    ensures
        config_read(config, offset, data) == config.subrange(
            offset as int,
            offset + data.len(),
        ),
{
    assert(config_read(config, offset, data) =~= config.subrange(
        offset as int,
        offset + data.len(),
    ));
}

/// The guest reads the bytes of the configuration space at the place that it names, and what lies
/// behind its end leaves the guest's buffer as it was.
pub proof fn guest_reads_the_bytes_it_names(config: &[u8], offset: u64, data: &mut [u8], k: int)
    requires
        call_ensures(read_config_space, (config, offset, data), ()),
        offset + data@.len() <= u64::MAX,
        0 <= k < data@.len(),
    ensures
        final(data)@.len() == old(data)@.len(),
        offset + k < config@.len() ==> final(data)@[k] == config@[offset + k],
        offset + k >= config@.len() ==> final(data)@[k] == old(data)@[k],
{
}

} // verus!
