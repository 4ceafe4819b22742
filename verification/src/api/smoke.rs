//! The settings of the smoke run, and what it reports of a frame.

use crate::api::builders::DiskImageFormat;
use crate::api::error::{ConfigError, Error};
use crate::bytes::{be_u16, get_be_u16};
use crate::performance::{eq_ignore_ascii_case, same_but_for_case};
use crate::text::{ascii_lower, hex_digit, parse_decimal, parsed_decimal, str_trim, trimmed};
use vstd::prelude::*;

verus! {

pub const DISK_PATH_ENV: &'static str = "KRUN_DISK_PATH";

pub const DISK_FORMAT_ENV: &'static str = "KRUN_DISK_FORMAT";

pub const DISK_READ_ONLY_ENV: &'static str = "KRUN_DISK_READ_ONLY";

pub const DISK_ID_ENV: &'static str = "KRUN_DISK_ID";

pub const DEFAULT_DISK_ID: &'static str = "smoke";

pub const FS_PATH_ENV: &'static str = "KRUN_FS_PATH";

pub const FS_TAG_ENV: &'static str = "KRUN_FS_TAG";

pub const FS_SHM_SIZE_ENV: &'static str = "KRUN_FS_SHM_SIZE";

pub const DEFAULT_FS_TAG: &'static str = "hostshare";

/// The disk of a smoke run.
#[derive(Debug)]
pub struct SmokeDiskConfig {
    pub path: String,
    pub id: String,
    pub format: DiskImageFormat,
    pub read_only: bool,
}

/// The shared directory of a smoke run.
#[derive(Debug)]
pub struct SmokeFsConfig {
    pub path: String,
    pub tag: String,
    pub shm_size: Option<usize>,
}

/// The name of a format.
pub open spec fn name_of_format(format: DiskImageFormat) -> Seq<char> {
    match format {
        DiskImageFormat::Raw => "raw"@,
        DiskImageFormat::Qcow2 => "qcow2"@,
        DiskImageFormat::Vmdk => "vmdk"@,
    }
}

impl SmokeDiskConfig {
    /// The name of the disk's format.
    pub fn format_name(&self) -> (r: &'static str)
        ensures
            r@ == name_of_format(self.format),
    {
        match self.format {
            DiskImageFormat::Raw => "raw",
            DiskImageFormat::Qcow2 => "qcow2",
            DiskImageFormat::Vmdk => "vmdk",
        }
    }
}

/// The setting says this, in whatever case and between white space.
pub open spec fn says(value: Seq<char>, word: Seq<char>) -> bool {
    same_but_for_case(trimmed(value), word)
}

/// The format that a setting names.
pub open spec fn named_format(value: Seq<char>) -> Option<DiskImageFormat> {
    if says(value, "raw"@) {
        Some(DiskImageFormat::Raw)
    } else if says(value, "qcow2"@) {
        Some(DiskImageFormat::Qcow2)
    } else if says(value, "vmdk"@) {
        Some(DiskImageFormat::Vmdk)
    } else {
        None
    }
}

/// A block device's error with this text.
pub open spec fn is_block_error<T>(r: Result<T, Error>, text: Seq<char>) -> bool {
    r matches Err(Error::Config(ConfigError::Block(t))) && t@ == text
}

/// A filesystem's error with this text.
pub open spec fn is_fs_error<T>(r: Result<T, Error>, text: Seq<char>) -> bool {
    r matches Err(Error::Config(ConfigError::Filesystem(t))) && t@ == text
}

/// Reads the format of a disk.
pub fn parse_disk_format(value: &str) -> (r: Result<DiskImageFormat, Error>)
    ensures
        match named_format(value@) {
            Some(format) => r == Ok::<DiskImageFormat, Error>(format),
            None => is_block_error(r, "KRUN_DISK_FORMAT must be raw, qcow2, or vmdk"@),
        },
{
    let word: &str = str_trim(value);
    if eq_ignore_ascii_case(word, "raw") {
        Ok(DiskImageFormat::Raw)
    } else if eq_ignore_ascii_case(word, "qcow2") {
        Ok(DiskImageFormat::Qcow2)
    } else if eq_ignore_ascii_case(word, "vmdk") {
        Ok(DiskImageFormat::Vmdk)
    } else {
        Err(
            Error::Config(
                ConfigError::Block("KRUN_DISK_FORMAT must be raw, qcow2, or vmdk".to_owned()),
            ),
        )
    }
}

/// What a setting says that is either on or off.
pub open spec fn named_bool(value: Seq<char>) -> Option<bool> {
    if says(value, "1"@) || says(value, "true"@) || says(value, "yes"@) || says(value, "on"@) {
        Some(true)
    } else if says(value, "0"@) || says(value, "false"@) || says(value, "no"@) || says(
        value,
        "off"@,
    ) {
        Some(false)
    } else {
        None
    }
}

/// Reads a setting that is either on or off.
pub fn parse_bool_env(name: &str, value: &str) -> (r: Result<bool, Error>)
    ensures
        match named_bool(value@) {
            Some(on) => r == Ok::<bool, Error>(on),
            None => is_block_error(r, name@ + " must be 1/0, true/false, yes/no, or on/off"@),
        },
{
    let word: &str = str_trim(value);
    if eq_ignore_ascii_case(word, "1") || eq_ignore_ascii_case(word, "true")
        || eq_ignore_ascii_case(word, "yes") || eq_ignore_ascii_case(word, "on") {
        return Ok(true);
    }
    if eq_ignore_ascii_case(word, "0") || eq_ignore_ascii_case(word, "false")
        || eq_ignore_ascii_case(word, "no") || eq_ignore_ascii_case(word, "off") {
        return Ok(false);
    }
    let mut text: String = name.to_owned();
    text.append(" must be 1/0, true/false, yes/no, or on/off");
    Err(Error::Config(ConfigError::Block(text)))
}

/// The positive number that a setting names.
pub open spec fn named_size(value: Seq<char>) -> Option<usize> {
    match parsed_decimal(trimmed(value)) {
        Some(n) => if 0 < n <= usize::MAX {
            Some(n as usize)
        } else {
            None
        },
        None => None,
    }
}

/// Reads a setting that is a positive number.
pub fn parse_usize_env(name: &str, value: &str) -> (r: Result<usize, Error>)
    ensures
        match named_size(value@) {
            Some(n) => r == Ok::<usize, Error>(n),
            None => is_fs_error(r, name@ + " must be a positive integer"@),
        },
{
    match parse_decimal(str_trim(value), usize::MAX as u64) {
        Some(n) => {
            if n != 0 {
                return Ok(n as usize);
            }
        },
        None => {},
    }
    let mut text: String = name.to_owned();
    text.append(" must be a positive integer");
    Err(Error::Config(ConfigError::Filesystem(text)))
}

/// Whether the disk is read-only that is described by a format and, perhaps, a setting.
pub open spec fn wanted_read_only(format: DiskImageFormat, read_only: Option<bool>) -> bool {
    match read_only {
        Some(on) => on,
        None => format == DiskImageFormat::Vmdk,
    }
}

/// Puts the disk of a smoke run together from the settings that are there.
pub fn smoke_disk_config_from_lookup(
    path: Option<String>,
    format: Option<String>,
    read_only: Option<String>,
    id: Option<String>,
) -> (r: Result<Option<SmokeDiskConfig>, Error>)
    ensures
        path is None ==> r == Ok::<Option<SmokeDiskConfig>, Error>(None),
        path matches Some(path) ==> match format {
            None => is_block_error(r, "KRUN_DISK_FORMAT must be set when KRUN_DISK_PATH is set"@),
            Some(format) => match named_format(format@) {
                None => is_block_error(r, "KRUN_DISK_FORMAT must be raw, qcow2, or vmdk"@),
                Some(format) => if read_only is Some && named_bool(read_only->Some_0@) is None {
                    is_block_error(
                        r,
                        DISK_READ_ONLY_ENV@ + " must be 1/0, true/false, yes/no, or on/off"@,
                    )
                } else {
                    let wanted = wanted_read_only(
                        format,
                        if read_only is Some {
                            named_bool(read_only->Some_0@)
                        } else {
                            None
                        },
                    );
                    if format == DiskImageFormat::Vmdk && !wanted {
                        is_block_error(
                            r,
                            "KRUN_DISK_READ_ONLY=0 cannot be used with KRUN_DISK_FORMAT=vmdk"@,
                        )
                    } else {
                        &&& r matches Ok(Some(config))
                        &&& config.path == path
                        &&& config.format == format
                        &&& config.read_only == wanted
                        &&& config.id@ == match id {
                            Some(id) => id@,
                            None => DEFAULT_DISK_ID@,
                        }
                    }
                },
            },
        },
{
    match path {
        None => Ok(None),
        Some(path) => {
            let format: DiskImageFormat = match format {
                None => {
                    return Err(
                        Error::Config(
                            ConfigError::Block(
                                "KRUN_DISK_FORMAT must be set when KRUN_DISK_PATH is set".to_owned(),
                            ),
                        ),
                    );
                },
                Some(text) => match parse_disk_format(text.as_str()) {
                    Ok(format) => format,
                    Err(problem) => {
                        return Err(problem);
                    },
                },
            };
            let read_only: bool = match read_only {
                Some(text) => match parse_bool_env(DISK_READ_ONLY_ENV, text.as_str()) {
                    Ok(on) => on,
                    Err(problem) => {
                        return Err(problem);
                    },
                },
                None => format == DiskImageFormat::Vmdk,
            };
            if format == DiskImageFormat::Vmdk && !read_only {
                return Err(
                    Error::Config(
                        ConfigError::Block(
                            "KRUN_DISK_READ_ONLY=0 cannot be used with KRUN_DISK_FORMAT=vmdk".to_owned(),
                        ),
                    ),
                );
            }
            let id: String = match id {
                Some(id) => id,
                None => DEFAULT_DISK_ID.to_owned(),
            };
            Ok(Some(SmokeDiskConfig { path, id, format, read_only }))
        },
    }
}

/// The tag of the shared directory.
pub open spec fn wanted_tag(tag: Option<String>) -> Seq<char> {
    match tag {
        Some(tag) => tag@,
        None => DEFAULT_FS_TAG@,
    }
}

/// Puts the shared directory of a smoke run together from the settings that are there.
pub fn smoke_fs_config_from_lookup(
    path: Option<String>,
    tag: Option<String>,
    shm_size: Option<String>,
) -> (r: Result<Option<SmokeFsConfig>, Error>)
    ensures
        path is None ==> r == Ok::<Option<SmokeFsConfig>, Error>(None),
        path matches Some(path) ==> if trimmed(wanted_tag(tag)).len() == 0 {
            is_fs_error(r, "KRUN_FS_TAG must not be empty"@)
        } else if shm_size is Some && named_size(shm_size->Some_0@) is None {
            is_fs_error(r, FS_SHM_SIZE_ENV@ + " must be a positive integer"@)
        } else {
            &&& r matches Ok(Some(config))
            &&& config.path == path
            &&& config.tag@ == wanted_tag(tag)
            &&& config.shm_size == if shm_size is Some {
                named_size(shm_size->Some_0@)
            } else {
                None
            }
        },
{
    match path {
        None => Ok(None),
        Some(path) => {
            let tag: String = match tag {
                Some(tag) => tag,
                None => DEFAULT_FS_TAG.to_owned(),
            };
            if str_trim(tag.as_str()).unicode_len() == 0 {
                return Err(
                    Error::Config(
                        ConfigError::Filesystem("KRUN_FS_TAG must not be empty".to_owned()),
                    ),
                );
            }
            let shm_size: Option<usize> = match shm_size {
                Some(text) => match parse_usize_env(FS_SHM_SIZE_ENV, text.as_str()) {
                    Ok(n) => Some(n),
                    Err(problem) => {
                        return Err(problem);
                    },
                },
                None => None,
            };
            Ok(Some(SmokeFsConfig { path, tag, shm_size }))
        },
    }
}

/// What is reported of an Ethernet frame.
#[derive(Clone, Copy, Debug)]
pub struct FrameSummary {
    pub len: usize,
    pub dst_mac: [u8; 6],
    pub src_mac: [u8; 6],
    pub ethertype: u16,
}

fn address_at(frame: &[u8], at: usize) -> (r: [u8; 6])
    requires
        at + 6 <= frame@.len(),
    ensures
        r@ == frame@.subrange(at as int, at + 6),
{
    let r: [u8; 6] = [
        frame[at],
        frame[at + 1],
        frame[at + 2],
        frame[at + 3],
        frame[at + 4],
        frame[at + 5],
    ];
    assert(r@ =~= frame@.subrange(at as int, at + 6));
    r
}

/// Summarizes a frame: its addresses and its type, or zeroes where it is too short for them.
pub fn summarize_ethernet_frame(frame: &[u8]) -> (r: FrameSummary)
    ensures
        r.len == frame@.len(),
        frame@.len() >= 14 ==> {
            &&& r.dst_mac@ == frame@.subrange(0, 6)
            &&& r.src_mac@ == frame@.subrange(6, 12)
            &&& r.ethertype == be_u16(frame@, 12)
        },
        frame@.len() < 14 ==> {
            &&& r.dst_mac@ == Seq::new(6, |i: int| 0u8)
            &&& r.src_mac@ == Seq::new(6, |i: int| 0u8)
            &&& r.ethertype == 0
        },
{
    if frame.len() >= 14 {
        FrameSummary {
            len: frame.len(),
            dst_mac: address_at(frame, 0),
            src_mac: address_at(frame, 6),
            ethertype: get_be_u16(frame, 12),
        }
    } else {
        let zero: [u8; 6] = [0, 0, 0, 0, 0, 0];
        assert(zero@ =~= Seq::new(6, |i: int| 0u8));
        FrameSummary { len: frame.len(), dst_mac: zero, src_mac: zero, ethertype: 0 }
    }
}

/// A byte as two hexadecimal digits.
pub open spec fn hex_byte(b: u8) -> Seq<char> {
    seq![hex_digit(b as nat / 16), hex_digit(b as nat % 16)]
}

/// The first bytes of an address, separated by colons.
pub open spec fn mac_text(mac: Seq<u8>) -> Seq<char>
    decreases mac.len(),
{
    if mac.len() == 0 {
        Seq::empty()
    } else if mac.len() == 1 {
        hex_byte(mac[0])
    } else {
        mac_text(mac.drop_last()).push(':') + hex_byte(mac.last())
    }
}

fn digit_char(d: u8) -> (r: char)
    requires
        d < 16,
    ensures
        r == hex_digit(d as nat),
{
    if d < 10 {
        (48u8 + d) as char
    } else {
        (87u8 + d) as char
    }
}

/// Writes an address in hexadecimal.
pub fn format_mac(mac: [u8; 6]) -> (r: String)
    ensures
        r@ == mac_text(mac@),
{
    let mut text: String = String::new();
    let mut i: usize = 0;
    assert(text@ =~= mac_text(mac@.take(0)));
    while i < 6
        invariant
            i <= 6,
            text@ == mac_text(mac@.take(i as int)),
        decreases 6 - i,
    {
        assert(mac@.take(i + 1).drop_last() =~= mac@.take(i as int));
        if i > 0 {
            text.push(':');
        }
        text.push(digit_char(mac[i] / 16));
        text.push(digit_char(mac[i] % 16));
        i = i + 1;
        assert(text@ =~= mac_text(mac@.take(i as int)));
    }
    assert(mac@.take(6) =~= mac@);
    text
}

/// A format is told by its name, whatever the case and the space round it, and the name that a
/// format is shown by tells it again.
pub proof fn formats_are_told_by_their_names(
    config: SmokeDiskConfig,
    name: &'static str,
    value: &str,
    r: Result<DiskImageFormat, Error>,
)
    requires
        call_ensures(SmokeDiskConfig::format_name, (&config,), name),
        call_ensures(parse_disk_format, (value,), r),
    ensures
        same_but_for_case(trimmed(value@), name@) ==> r == Ok::<DiskImageFormat, Error>(
            config.format,
        ),
        r == Ok::<DiskImageFormat, Error>(config.format) ==> same_but_for_case(
            trimmed(value@),
            name@,
        ),
        config.format is Raw ==> name@ == "raw"@,
        config.format is Qcow2 ==> name@ == "qcow2"@,
        config.format is Vmdk ==> name@ == "vmdk"@,
        r is Err ==> r->Err_0 is Config,
{
    lemma_format_names_differ(trimmed(value@));
}

proof fn lemma_format_names_differ(s: Seq<char>)
    ensures
        !(same_but_for_case(s, "raw"@) && same_but_for_case(s, "qcow2"@)),
        !(same_but_for_case(s, "raw"@) && same_but_for_case(s, "vmdk"@)),
        !(same_but_for_case(s, "qcow2"@) && same_but_for_case(s, "vmdk"@)),
{
    reveal_strlit("raw");
    reveal_strlit("qcow2");
    reveal_strlit("vmdk");
}

/// A switch is on or off by one of four words each, whatever the case and the space round it.
pub proof fn switches_take_four_words_each(name: &str, value: &str, r: Result<bool, Error>)
    requires
        call_ensures(parse_bool_env, (name, value), r),
    ensures
        ({
            let word = trimmed(value@);
            &&& same_but_for_case(word, "1"@) || same_but_for_case(word, "true"@)
                || same_but_for_case(word, "yes"@) || same_but_for_case(word, "on"@) <==> r == Ok::<
                bool,
                Error,
            >(true)
            &&& same_but_for_case(word, "0"@) || same_but_for_case(word, "false"@)
                || same_but_for_case(word, "no"@) || same_but_for_case(word, "off"@) <==> r == Ok::<
                bool,
                Error,
            >(false)
        }),
{
    lemma_switch_words_differ(trimmed(value@));
}

proof fn lemma_switch_words_differ(s: Seq<char>)
    ensures
        same_but_for_case(s, "1"@) || same_but_for_case(s, "true"@) || same_but_for_case(s, "yes"@)
            || same_but_for_case(s, "on"@) ==> !(same_but_for_case(s, "0"@) || same_but_for_case(
            s,
            "false"@,
        ) || same_but_for_case(s, "no"@) || same_but_for_case(s, "off"@)),
{
    reveal_strlit("1");
    reveal_strlit("true");
    reveal_strlit("yes");
    reveal_strlit("on");
    reveal_strlit("0");
    reveal_strlit("false");
    reveal_strlit("no");
    reveal_strlit("off");
    let first = ascii_lower(s[0]);
    assert(same_but_for_case(s, "1"@) ==> s.len() == 1 && first == '1');
    assert(same_but_for_case(s, "0"@) ==> s.len() == 1 && first == '0');
    assert(same_but_for_case(s, "on"@) ==> s.len() == 2 && first == 'o');
    assert(same_but_for_case(s, "no"@) ==> s.len() == 2 && first == 'n');
    assert(same_but_for_case(s, "yes"@) ==> s.len() == 3 && first == 'y');
    assert(same_but_for_case(s, "off"@) ==> s.len() == 3 && first == 'o');
}

/// A size is the number that its text names, which is not nothing.
pub proof fn sizes_are_positive_numbers(
    name: &str,
    value: &str,
    r: Result<usize, Error>,
    bare: &str,
    n: Option<u64>,
)
    requires
        call_ensures(parse_usize_env, (name, value), r),
        bare@ == trimmed(value@),
        call_ensures(crate::text::parse_decimal, (bare, u64::MAX), n),
    ensures
        r is Ok ==> n is Some && r->Ok_0 == n->Some_0 && r->Ok_0 > 0,
        n is Some && 0 < n->Some_0 <= usize::MAX ==> r is Ok,
        r is Err ==> r->Err_0 is Config,
{
}

/// A disk is what its settings say: its path, the format that is named, and the given name or the
/// usual one. It is read-only where the settings say so, and a VMDK disk always is.
pub proof fn disk_settings_are_taken(
    path: Option<String>,
    format: Option<String>,
    read_only: Option<String>,
    id: Option<String>,
    r: Result<Option<SmokeDiskConfig>, Error>,
    format_text: &str,
    named: Result<DiskImageFormat, Error>,
    read_only_text: &str,
    switch: Result<bool, Error>,
)
    requires
        call_ensures(smoke_disk_config_from_lookup, (path, format, read_only, id), r),
        format is Some ==> format_text@ == format->Some_0@ && call_ensures(
            parse_disk_format,
            (format_text,),
            named,
        ),
        read_only is Some ==> read_only_text@ == read_only->Some_0@ && call_ensures(
            parse_bool_env,
            (read_only_text, read_only_text),
            switch,
        ),
    ensures
        path is None ==> r == Ok::<Option<SmokeDiskConfig>, Error>(None),
        path is Some ==> (r is Ok <==> format is Some && named is Ok && (read_only is Some
            ==> switch
            is Ok && (named->Ok_0 is Vmdk ==> switch->Ok_0))),
        path is Some && r is Ok ==> r->Ok_0 is Some && {
            let config = r->Ok_0->Some_0;
            &&& config.path@ == path->Some_0@
            &&& config.format == named->Ok_0
            &&& read_only is Some ==> config.read_only == switch->Ok_0
            &&& read_only is None ==> config.read_only == (config.format is Vmdk)
            &&& id is Some ==> config.id@ == id->Some_0@
            &&& id is None ==> config.id@ == "smoke"@
        },
{
}

/// A shared directory is what its settings say: its path, the given tag or the usual one, which
/// has to hold something, and its window where one is given.
pub proof fn directory_settings_are_taken(
    path: Option<String>,
    tag: Option<String>,
    shm_size: Option<String>,
    r: Result<Option<SmokeFsConfig>, Error>,
    size_text: &str,
    size: Result<usize, Error>,
)
    requires
        call_ensures(smoke_fs_config_from_lookup, (path, tag, shm_size), r),
        shm_size is Some ==> size_text@ == shm_size->Some_0@ && call_ensures(
            parse_usize_env,
            (size_text, size_text),
            size,
        ),
    ensures
        path is None ==> r == Ok::<Option<SmokeFsConfig>, Error>(None),
        path is Some && r is Ok ==> r->Ok_0 is Some && {
            let config = r->Ok_0->Some_0;
            &&& config.path@ == path->Some_0@
            &&& tag is Some ==> config.tag@ == tag->Some_0@
            &&& tag is None ==> config.tag@ == "hostshare"@
            &&& trimmed(config.tag@).len() > 0
            &&& shm_size is Some ==> size is Ok && config.shm_size == Some(size->Ok_0)
            &&& shm_size is None ==> config.shm_size is None
        },
        path is Some && tag is Some && trimmed(tag->Some_0@).len() > 0 && (shm_size is Some ==> size
            is Ok) ==> r is Ok,
        path is Some && tag is Some && trimmed(tag->Some_0@).len() == 0 ==> r is Err,
{
}

/// A frame starts with the address that it goes to, the one that it comes from and its type, the
/// high byte first.
pub proof fn frames_start_with_their_addresses(frame: &[u8], r: FrameSummary, k: int)
    requires
        call_ensures(summarize_ethernet_frame, (frame,), r),
        0 <= k < 6,
    ensures
        r.len == frame@.len(),
        frame@.len() >= 14 ==> r.dst_mac@[k] == frame@[k] && r.src_mac@[k] == frame@[6 + k]
            && r.ethertype == 256 * frame@[12] + frame@[13],
        frame@.len() < 14 ==> r.dst_mac@[k] == 0 && r.src_mac@[k] == 0 && r.ethertype == 0,
{
}

/// An address is shown as two digits for each byte, the high one first, with colons between them.
pub proof fn addresses_are_shown_in_pairs(mac: [u8; 6], r: String, k: int)
    requires
        call_ensures(format_mac, (mac,), r),
        0 <= k < 6,
    ensures
        r@.len() == 17,
        r@[3 * k] as int == if mac@[k] / 16 < 10 {
            48 + mac@[k] / 16
        } else {
            87 + mac@[k] / 16
        },
        r@[3 * k + 1] as int == if mac@[k] % 16 < 10 {
            48 + mac@[k] % 16
        } else {
            87 + mac@[k] % 16
        },
        k < 5 ==> r@[3 * k + 2] == ':',
{
    lemma_mac_text(mac@, k);
}

proof fn lemma_mac_text(mac: Seq<u8>, k: int)
    requires
        0 <= k < mac.len(),
    ensures
        mac_text(mac).len() == 3 * mac.len() - 1,
        mac_text(mac)[3 * k] == hex_digit(mac[k] as nat / 16),
        mac_text(mac)[3 * k + 1] == hex_digit(mac[k] as nat % 16),
        k < mac.len() - 1 ==> mac_text(mac)[3 * k + 2] == ':',
    decreases mac.len(),
{
    if mac.len() > 1 {
        let front = mac.drop_last();
        if k < front.len() {
            lemma_mac_text(front, k);
        } else {
            lemma_mac_text(front, front.len() - 1);
        }
    }
}

} // verus!
