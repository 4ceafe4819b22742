//! What the guest is told about files and about errors.

use crate::text::{holds_char, same_text, utf8_text};
use vstd::prelude::*;

verus! {

pub const DT_UNKNOWN: u32 = 0;

pub const DT_DIR: u32 = 4;

pub const DT_REG: u32 = 8;

pub const DT_LNK: u32 = 10;

pub const LINUX_EIO: i32 = 5;

pub const LINUX_EBADF: i32 = 9;

pub const LINUX_EACCES: i32 = 13;

pub const LINUX_EEXIST: i32 = 17;

pub const LINUX_ENOENT: i32 = 2;

pub const LINUX_ENOTDIR: i32 = 20;

pub const LINUX_EISDIR: i32 = 21;

pub const LINUX_EINVAL: i32 = 22;

pub const LINUX_ELOOP: i32 = 40;

pub const LINUX_EOPNOTSUPP: i32 = 95;

pub const LINUX_O_ACCMODE: u32 = 0o3;

pub const LINUX_O_WRONLY: u32 = 0o1;

pub const LINUX_O_RDWR: u32 = 0o2;

pub const LINUX_O_CREAT: u32 = 0o100;

pub const LINUX_O_TRUNC: u32 = 0o1000;

pub const LINUX_O_APPEND: u32 = 0o2000;

pub const LINUX_O_DIRECT: u32 = 0o40000;

pub const S_IFREG: u32 = 0o100000;

pub const S_IFDIR: u32 = 0o040000;

pub const S_IFLNK: u32 = 0o120000;

pub const WINDOWS_TICKS_PER_SECOND: u64 = 10_000_000;

pub const WINDOWS_TO_UNIX_EPOCH_SECONDS: u64 = 11_644_473_600;

pub const FILE_ATTRIBUTE_READONLY: u32 = 1;

pub const ERROR_FILE_NOT_FOUND: i32 = 2;

pub const ERROR_PATH_NOT_FOUND: i32 = 3;

pub const ERROR_ACCESS_DENIED: i32 = 5;

pub const ERROR_INVALID_NAME: i32 = 123;

pub const ERROR_ALREADY_EXISTS: i32 = 183;

/// What a file is.
#[derive(Clone, Copy, Debug, PartialEq, Eq, Structural)]
pub enum FileKind {
    Directory,
    Symlink,
    Regular,
    Other,
}

/// What the host knows of a file. Times are counted in ticks of 100 ns since 1601.
#[derive(Clone, Copy, Debug, PartialEq, Eq, Structural)]
pub struct FileMeta {
    pub kind: FileKind,
    pub size: u64,
    pub last_access_time: u64,
    pub last_write_time: u64,
    pub creation_time: u64,
    pub attributes: u32,
}

/// What the guest is told about a file.
#[derive(Clone, Copy, Debug, PartialEq, Eq, Structural)]
pub struct Stat64 {
    pub st_ino: u64,
    pub st_size: i64,
    pub st_blocks: i64,
    pub st_atime: i64,
    pub st_mtime: i64,
    pub st_ctime: i64,
    pub st_atime_nsec: i64,
    pub st_mtime_nsec: i64,
    pub st_ctime_nsec: i64,
    pub st_mode: u32,
    pub st_nlink: u64,
    pub st_uid: u32,
    pub st_gid: u32,
    pub st_rdev: u64,
    pub st_blksize: i64,
}

/// The blocks of 512 bytes that a size takes.
pub open spec fn blocks_of(size: int) -> int {
    (size + 511) / 512
}

/// The number of blocks that a size takes.
pub fn blocks_for_size(size: u64) -> (r: i64)
    ensures
        r == blocks_of(size as int),
{
    let whole: u64 = size / 512;
    let blocks: u64 = if size % 512 == 0 {
        whole
    } else {
        whole + 1
    };
    blocks as i64
}

/// Seconds and nanoseconds since 1970, or nothing for what lies before.
pub open spec fn unix_time(filetime: int) -> (int, int) {
    if filetime / (WINDOWS_TICKS_PER_SECOND as int) < WINDOWS_TO_UNIX_EPOCH_SECONDS {
        (0, 0)
    } else {
        (
            filetime / WINDOWS_TICKS_PER_SECOND as int - WINDOWS_TO_UNIX_EPOCH_SECONDS,
            filetime % WINDOWS_TICKS_PER_SECOND as int * 100,
        )
    }
}

/// Converts a time of the host to seconds and nanoseconds since 1970.
pub fn filetime_to_unix(filetime: u64) -> (r: (i64, i64))
    ensures
        r.0 == unix_time(filetime as int).0,
        r.1 == unix_time(filetime as int).1,
{
    let seconds: u64 = filetime / WINDOWS_TICKS_PER_SECOND;
    if seconds < WINDOWS_TO_UNIX_EPOCH_SECONDS {
        return (0, 0);
    }
    let unix_seconds: u64 = seconds - WINDOWS_TO_UNIX_EPOCH_SECONDS;
    let nanos: u64 = (filetime % WINDOWS_TICKS_PER_SECOND) * 100;
    (unix_seconds as i64, nanos as i64)
}

/// A time since 1970 names the same instant before and after it is converted.
pub proof fn filetime_keeps_its_instant(filetime: u64)
    requires
        filetime >= WINDOWS_TO_UNIX_EPOCH_SECONDS * WINDOWS_TICKS_PER_SECOND,
    ensures
        (unix_time(filetime as int).0 + WINDOWS_TO_UNIX_EPOCH_SECONDS) * 1_000_000_000 + unix_time(
            filetime as int,
        ).1 == filetime * 100,
        0 <= unix_time(filetime as int).1 < 1_000_000_000,
{
}

/// The bits of a mode that tell what a file is.
pub open spec fn kind_bits(kind: FileKind) -> u32 {
    match kind {
        FileKind::Directory => S_IFDIR,
        FileKind::Symlink => S_IFLNK,
        FileKind::Regular => S_IFREG,
        FileKind::Other => 0,
    }
}

/// The mode of a file: what it is, and that everybody may read and enter it, and write it where
/// it is not read-only.
pub open spec fn mode_of(meta: FileMeta) -> u32 {
    kind_bits(meta.kind) | if meta.attributes & FILE_ATTRIBUTE_READONLY != 0 {
        0o555u32
    } else {
        0o777u32
    }
}

/// The mode of a file.
pub fn mode_from_metadata(meta: &FileMeta) -> (r: u32)
    ensures
        r == mode_of(*meta),
{
    let type_bits: u32 = match meta.kind {
        FileKind::Directory => S_IFDIR,
        FileKind::Symlink => S_IFLNK,
        FileKind::Regular => S_IFREG,
        FileKind::Other => 0,
    };
    if meta.attributes & FILE_ATTRIBUTE_READONLY != 0 {
        type_bits | 0o555
    } else {
        type_bits | 0o777
    }
}

/// The type in a directory entry.
pub open spec fn entry_type(kind: FileKind) -> u32 {
    match kind {
        FileKind::Directory => DT_DIR,
        FileKind::Symlink => DT_LNK,
        FileKind::Regular => DT_REG,
        FileKind::Other => DT_UNKNOWN,
    }
}

/// The type in a directory entry.
pub fn dirent_type(kind: FileKind) -> (r: u32)
    ensures
        r == entry_type(kind),
{
    match kind {
        FileKind::Directory => DT_DIR,
        FileKind::Symlink => DT_LNK,
        FileKind::Regular => DT_REG,
        FileKind::Other => DT_UNKNOWN,
    }
}

/// What the guest is told about a file of the host.
pub open spec fn stat_of(meta: FileMeta, inode: u64) -> Stat64 {
    Stat64 {
        st_ino: inode,
        st_size: meta.size as i64,
        st_blocks: blocks_of(meta.size as int) as i64,
        st_atime: unix_time(meta.last_access_time as int).0 as i64,
        st_mtime: unix_time(meta.last_write_time as int).0 as i64,
        st_ctime: unix_time(meta.creation_time as int).0 as i64,
        st_atime_nsec: unix_time(meta.last_access_time as int).1 as i64,
        st_mtime_nsec: unix_time(meta.last_write_time as int).1 as i64,
        st_ctime_nsec: unix_time(meta.creation_time as int).1 as i64,
        st_mode: mode_of(meta),
        st_nlink: 1,
        st_uid: 0,
        st_gid: 0,
        st_rdev: 0,
        st_blksize: 4096,
    }
}

/// What the guest is told about a file of the host.
pub fn stat_from_metadata(meta: &FileMeta, inode: u64) -> (r: Stat64)
    ensures
        r == stat_of(*meta, inode),
{
    let (atime, atime_nsec) = filetime_to_unix(meta.last_access_time);
    let (mtime, mtime_nsec) = filetime_to_unix(meta.last_write_time);
    let (ctime, ctime_nsec) = filetime_to_unix(meta.creation_time);
    Stat64 {
        st_ino: inode,
        st_size: #[verifier::truncate] (meta.size as i64),
        st_blocks: blocks_for_size(meta.size),
        st_atime: atime,
        st_mtime: mtime,
        st_ctime: ctime,
        st_atime_nsec: atime_nsec,
        st_mtime_nsec: mtime_nsec,
        st_ctime_nsec: ctime_nsec,
        st_mode: mode_from_metadata(meta),
        st_nlink: 1,
        st_uid: 0,
        st_gid: 0,
        st_rdev: 0,
        st_blksize: 4096,
    }
}

/// What the guest is told about the built-in init program.
pub open spec fn init_stat_of(inode: u64, len: usize) -> Stat64 {
    Stat64 {
        st_ino: inode,
        st_size: len as i64,
        st_blocks: blocks_of(len as int) as i64,
        st_atime: 0,
        st_mtime: 0,
        st_ctime: 0,
        st_atime_nsec: 0,
        st_mtime_nsec: 0,
        st_ctime_nsec: 0,
        st_mode: S_IFREG | 0o755,
        st_nlink: 1,
        st_uid: 0,
        st_gid: 0,
        st_rdev: 0,
        st_blksize: 4096,
    }
}

/// What the guest is told about the built-in init program.
pub fn init_stat(inode: u64, len: usize) -> (r: Stat64)
    ensures
        r == init_stat_of(inode, len),
{
    Stat64 {
        st_ino: inode,
        st_size: #[verifier::truncate] (len as i64),
        st_blocks: blocks_for_size(len as u64),
        st_atime: 0,
        st_mtime: 0,
        st_ctime: 0,
        st_atime_nsec: 0,
        st_mtime_nsec: 0,
        st_ctime_nsec: 0,
        st_mode: S_IFREG | 0o755,
        st_nlink: 1,
        st_uid: 0,
        st_gid: 0,
        st_rdev: 0,
        st_blksize: 4096,
    }
}

/// The flags ask for more than to read.
pub open spec fn asks_to_write(flags: u32) -> bool {
    ||| flags & LINUX_O_ACCMODE == LINUX_O_WRONLY
    ||| flags & LINUX_O_ACCMODE == LINUX_O_RDWR
    ||| flags & LINUX_O_CREAT != 0
    ||| flags & LINUX_O_TRUNC != 0
    ||| flags & LINUX_O_APPEND != 0
    ||| flags & LINUX_O_DIRECT != 0
}

/// Refuses what is not a plain open for reading.
pub fn validate_read_only_open(flags: u32) -> (r: Result<(), i32>)
    ensures
        r == if asks_to_write(flags) {
            Err::<(), i32>(LINUX_EOPNOTSUPP)
        } else {
            Ok::<(), i32>(())
        },
{
    let accmode: u32 = flags & LINUX_O_ACCMODE;
    if accmode == LINUX_O_WRONLY || accmode == LINUX_O_RDWR {
        return Err(LINUX_EOPNOTSUPP);
    }
    if flags & LINUX_O_CREAT != 0 || flags & LINUX_O_TRUNC != 0 || flags & LINUX_O_APPEND != 0
        || flags & LINUX_O_DIRECT != 0 {
        return Err(LINUX_EOPNOTSUPP);
    }
    Ok(())
}

/// A name that stands for one file in a directory.
pub open spec fn is_component(s: Seq<char>) -> bool {
    &&& s.len() > 0
    &&& s != "."@
    &&& s != ".."@
    &&& !s.contains('\\')
    &&& !s.contains('/')
}

/// The name of one file in a directory, out of the bytes that the guest sent.
pub fn cstr_to_component(name: &[u8]) -> (r: Result<&str, i32>)
    ensures
        match r {
            Ok(s) => is_component(s@) && vstd::utf8::encode_utf8(s@) == name@,
            Err(errno) => errno == LINUX_EINVAL && forall|text: Seq<char>|
                is_component(text) ==> #[trigger] vstd::utf8::encode_utf8(text) != name@,
        },
{
    match utf8_text(name) {
        None => {
            assert forall|s: Seq<char>| is_component(s) implies #[trigger] vstd::utf8::encode_utf8(
                s,
            ) != name@ by {
                vstd::utf8::encode_utf8_valid_utf8(s);
            }
            Err(LINUX_EINVAL)
        },
        Some(component) => {
            if component.unicode_len() == 0 || same_text(component, ".") || same_text(
                component,
                "..",
            ) || holds_char(component, '\\') || holds_char(component, '/') {
                assert forall|s: Seq<char>|
                    is_component(s) implies #[trigger] vstd::utf8::encode_utf8(s) != name@ by {
                    vstd::utf8::encode_utf8_decode_utf8(s);
                    vstd::utf8::encode_utf8_decode_utf8(component@);
                }
                Err(LINUX_EINVAL)
            } else {
                Ok(component)
            }
        },
    }
}

/// How the host classes an error.
#[derive(Clone, Copy, Debug, PartialEq, Eq, Structural)]
pub enum HostErrorKind {
    NotFound,
    PermissionDenied,
    AlreadyExists,
    InvalidInput,
    Other,
}

/// The error of the guest that stands for one of the host: by its code, else by its class.
pub open spec fn errno_of(code: Option<i32>, kind: HostErrorKind) -> i32 {
    if code == Some(ERROR_FILE_NOT_FOUND) || code == Some(ERROR_PATH_NOT_FOUND) {
        LINUX_ENOENT
    } else if code == Some(ERROR_ACCESS_DENIED) {
        LINUX_EACCES
    } else if code == Some(ERROR_ALREADY_EXISTS) {
        LINUX_EEXIST
    } else if code == Some(ERROR_INVALID_NAME) {
        LINUX_EINVAL
    } else {
        match kind {
            HostErrorKind::NotFound => LINUX_ENOENT,
            HostErrorKind::PermissionDenied => LINUX_EACCES,
            HostErrorKind::AlreadyExists => LINUX_EEXIST,
            HostErrorKind::InvalidInput => LINUX_EINVAL,
            HostErrorKind::Other => LINUX_EIO,
        }
    }
}

/// The error of the guest that stands for one of the host.
pub fn host_error(code: Option<i32>, kind: HostErrorKind) -> (r: i32)
    ensures
        r == errno_of(code, kind),
{
    match code {
        Some(code) => {
            if code == ERROR_FILE_NOT_FOUND || code == ERROR_PATH_NOT_FOUND {
                return LINUX_ENOENT;
            }
            if code == ERROR_ACCESS_DENIED {
                return LINUX_EACCES;
            }
            if code == ERROR_ALREADY_EXISTS {
                return LINUX_EEXIST;
            }
            if code == ERROR_INVALID_NAME {
                return LINUX_EINVAL;
            }
        },
        None => {},
    }
    match kind {
        HostErrorKind::NotFound => LINUX_ENOENT,
        HostErrorKind::PermissionDenied => LINUX_EACCES,
        HostErrorKind::AlreadyExists => LINUX_EEXIST,
        HostErrorKind::InvalidInput => LINUX_EINVAL,
        HostErrorKind::Other => LINUX_EIO,
    }
}

/// The blocks of a file hold all of it, and one block fewer does not.
pub proof fn blocks_just_hold_the_size(size: u64, r: i64)
    requires
        call_ensures(blocks_for_size, (size,), r),
    ensures
        size <= 512 * r < size + 512,
{
}

/// Counted in steps of a hundred nanoseconds, the file's time and the seconds and nanoseconds that
/// the guest sees lie as far apart as the two epochs. A time before the guest's epoch is its start.
pub proof fn guest_sees_the_same_instant(filetime: u64, r: (i64, i64))
    requires
        call_ensures(filetime_to_unix, (filetime,), r),
    ensures
        filetime < 116_444_736_000_000_000 ==> r.0 == 0 && r.1 == 0,
        filetime >= 116_444_736_000_000_000 ==> filetime - 116_444_736_000_000_000 == r.0
            * 10_000_000 + r.1 / 100,
        r.1 % 100 == 0,
        0 <= r.1 < 1_000_000_000,
{
}

/// The type of a file in its mode is the type that its directory lists, and only a read-only file
/// may not be written.
pub proof fn mode_tells_the_listed_type(meta: FileMeta, r: u32, listed: u32)
    requires
        call_ensures(mode_from_metadata, (&meta,), r),
        call_ensures(dirent_type, (meta.kind,), listed),
    ensures
        r / 0o10000 == listed,
        meta.kind is Directory ==> listed == 4,
        meta.kind is Regular ==> listed == 8,
        meta.kind is Symlink ==> listed == 10,
        meta.kind is Other ==> listed == 0,
        meta.attributes % 2 == 1 ==> r % 0o10000 == 0o555,
        meta.attributes % 2 == 0 ==> r % 0o10000 == 0o777,
{
    let a = meta.attributes;
    assert((a & 1u32 != 0) == (a % 2 == 1)) by (bit_vector);
    assert(0o040000u32 | 0o555u32 == 0o040555u32 && 0o040000u32 | 0o777u32 == 0o040777u32
        && 0o120000u32 | 0o555u32 == 0o120555u32 && 0o120000u32 | 0o777u32 == 0o120777u32
        && 0o100000u32 | 0o555u32 == 0o100555u32 && 0o100000u32 | 0o777u32 == 0o100777u32
        && 0u32 | 0o555u32 == 0o555u32 && 0u32 | 0o777u32 == 0o777u32) by (bit_vector);
}

/// What the guest sees of a file is its number, size, blocks and mode, and each of its times.
pub proof fn attributes_are_those_of_the_file(
    meta: FileMeta,
    inode: u64,
    r: Stat64,
    blocks: i64,
    mode: u32,
    read: (i64, i64),
    written: (i64, i64),
    created: (i64, i64),
)
    requires
        call_ensures(stat_from_metadata, (&meta, inode), r),
        call_ensures(blocks_for_size, (meta.size,), blocks),
        call_ensures(mode_from_metadata, (&meta,), mode),
        call_ensures(filetime_to_unix, (meta.last_access_time,), read),
        call_ensures(filetime_to_unix, (meta.last_write_time,), written),
        call_ensures(filetime_to_unix, (meta.creation_time,), created),
    ensures
        r.st_ino == inode,
        meta.size <= i64::MAX ==> r.st_size == meta.size,
        r.st_blocks == blocks,
        r.st_mode == mode,
        (r.st_atime, r.st_atime_nsec) == read,
        (r.st_mtime, r.st_mtime_nsec) == written,
        (r.st_ctime, r.st_ctime_nsec) == created,
        r.st_nlink == 1,
        r.st_uid == 0 && r.st_gid == 0 && r.st_rdev == 0,
        r.st_blksize == 4096,
{
}

/// The built-in program is a regular file that anyone may run, as long as it is, and of no date.
pub proof fn built_in_program_can_be_run(inode: u64, len: usize, r: Stat64, blocks: i64)
    requires
        call_ensures(init_stat, (inode, len), r),
        call_ensures(blocks_for_size, (len as u64,), blocks),
    ensures
        r.st_ino == inode,
        len <= i64::MAX ==> r.st_size == len,
        r.st_blocks == blocks,
        r.st_mode == 0o100755,
        r.st_atime == 0 && r.st_mtime == 0 && r.st_ctime == 0,
        r.st_atime_nsec == 0 && r.st_mtime_nsec == 0 && r.st_ctime_nsec == 0,
        r.st_nlink == 1,
        r.st_uid == 0 && r.st_gid == 0 && r.st_rdev == 0,
        r.st_blksize == 4096,
{
    assert(0o100000u32 | 0o755u32 == 0o100755u32) by (bit_vector);
}

/// Only an open that writes nothing, makes nothing and goes through the page cache is accepted.
pub proof fn only_plain_reads_are_accepted(flags: u32, r: Result<(), i32>)
    requires
        call_ensures(validate_read_only_open, (flags,), r),
    ensures
        r is Ok <==> (flags % 4 == 0 || flags % 4 == 3) && flags / 0o100 % 2 == 0 && flags / 0o1000
            % 2 == 0 && flags / 0o2000 % 2 == 0 && flags / 0o40000 % 2 == 0,
        r is Err ==> r->Err_0 == 95,
{
    assert(flags & 3u32 == flags % 4 && (flags & 0o100u32 != 0) == (flags / 0o100 % 2 == 1) && (
    flags & 0o1000u32 != 0) == (flags / 0o1000 % 2 == 1) && (flags & 0o2000u32 != 0) == (flags
        / 0o2000 % 2 == 1) && (flags & 0o40000u32 != 0) == (flags / 0o40000 % 2 == 1))
        by (bit_vector);
}

/// The number of the host's error decides what the guest is told, and where it says nothing the
/// error's kind does.
pub proof fn host_errors_are_told_by_number_first(
    code: Option<i32>,
    kind: HostErrorKind,
    r: i32,
    by_kind: i32,
)
    requires
        call_ensures(host_error, (code, kind), r),
        call_ensures(host_error, (None, kind), by_kind),
    ensures
        code == Some(2i32) || code == Some(3i32) ==> r == 2,
        code == Some(5i32) ==> r == 13,
        code == Some(183i32) ==> r == 17,
        code == Some(123i32) ==> r == 22,
        code != Some(2i32) && code != Some(3i32) && code != Some(5i32) && code != Some(183i32)
            && code != Some(123i32) ==> r == by_kind,
        kind is NotFound ==> by_kind == 2,
        kind is PermissionDenied ==> by_kind == 13,
        kind is AlreadyExists ==> by_kind == 17,
        kind is InvalidInput ==> by_kind == 22,
        kind is Other ==> by_kind == 5,
{
}

/// A name is accepted exactly where it is one step down: it holds neither kind of slash, is not
/// empty, and stands neither for its own directory nor for the one above.
pub proof fn accepted_names_lead_one_step_down(name: &[u8], r: Result<&str, i32>, s: Seq<char>)
    requires
        call_ensures(cstr_to_component, (name,), r),
        vstd::utf8::encode_utf8(s) == name@,
        r is Ok ==> r->Ok_0@ == s,
    ensures
        r is Ok <==> s.len() > 0 && !(s.len() == 1 && s[0] == '.') && !(s.len() == 2 && s[0] == '.'
            && s[1] == '.') && (forall|i: int|
            0 <= i < s.len() ==> (#[trigger] s[i]) != '/' && s[i] != '\\'),
        r is Err ==> r->Err_0 == 22,
{
    reveal_strlit(".");
    reveal_strlit("..");
    assert((s == "."@) == (s.len() == 1 && s[0] == '.')) by {
        if s.len() == 1 && s[0] == '.' {
            assert(s =~= "."@);
        }
    }
    assert((s == ".."@) == (s.len() == 2 && s[0] == '.' && s[1] == '.')) by {
        if s.len() == 2 && s[0] == '.' && s[1] == '.' {
            assert(s =~= ".."@);
        }
    }
}

} // verus!
