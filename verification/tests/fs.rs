//! Shared directories.

use krun::fs::attributes::{
    blocks_for_size, cstr_to_component, dirent_type, filetime_to_unix, host_error,
    mode_from_metadata, stat_from_metadata, validate_read_only_open, FileKind, FileMeta,
    HostErrorKind, DT_DIR, DT_LNK, LINUX_EACCES, LINUX_EBADF, LINUX_EEXIST, LINUX_EINVAL,
    LINUX_EIO, LINUX_EISDIR, LINUX_ELOOP, LINUX_ENOENT, LINUX_ENOTDIR, LINUX_EOPNOTSUPP, S_IFDIR,
    S_IFREG,
};
use krun::fs::passthrough::{
    entry_taken, same_path, AttributeStep, HandleKind, ListNext, ListStep, LookupStep, OpenStep,
    PassthroughFs, ReadStep, INIT_HANDLE, INIT_INODE, ROOT_ID,
};

fn meta(kind: FileKind, size: u64) -> FileMeta {
    FileMeta {
        kind,
        size,
        last_access_time: 116_444_736_000_000_000,
        last_write_time: 116_444_736_010_000_001,
        creation_time: 0,
        attributes: 0,
    }
}

fn mounted() -> PassthroughFs {
    let mut fs = PassthroughFs::new("/share".to_string(), FileKind::Directory).ok().unwrap();
    fs.insert_root(&meta(FileKind::Directory, 0));
    fs
}

#[test]
fn file_is_looked_up_opened_and_released() {
    let mut fs = mounted();
    assert!(fs.has_free_inode() && fs.has_free_handle());
    match fs.lookup(ROOT_ID, b"hello.txt", 0) {
        LookupStep::Child { parent, name } => assert_eq!((parent, name), ("/share", "hello.txt")),
        _ => panic!("expected a child of the root"),
    }
    let file = meta(FileKind::Regular, 21);
    let entry = fs.looked_up("/share/hello.txt".to_string(), &file);
    assert_eq!(entry.attr.st_size, 21);
    assert_eq!(entry.attr.st_mode & 0o170000, S_IFREG);
    assert_eq!(fs.looked_up("/share/hello.txt".to_string(), &file).inode, entry.inode);

    match fs.open(entry.inode, 0) {
        OpenStep::Ask(path) => assert_eq!(path, "/share/hello.txt"),
        _ => panic!("expected the host to be asked"),
    }
    assert_eq!(PassthroughFs::can_open(FileKind::Regular), Ok(()));
    let handle = fs.opened(entry.inode, HandleKind::File);
    assert_eq!(fs.read(entry.inode, handle, 5, 6, 0), ReadStep::File);
    assert!(matches!(
        fs.readdir(entry.inode, handle, 4096),
        ListStep::Fail(errno) if errno == LINUX_ENOTDIR
    ));
    assert_eq!(fs.release(entry.inode + 1, handle), Err(LINUX_EBADF));
    assert_eq!(fs.release(entry.inode, handle), Ok(()));
    assert_eq!(fs.release(entry.inode, handle), Err(LINUX_EBADF));
}

#[test]
fn directory_lists_its_children() {
    let mut fs = mounted();
    assert!(matches!(fs.opendir(ROOT_ID, 0), OpenStep::Ask("/share")));
    assert_eq!(PassthroughFs::can_opendir(FileKind::Directory), Ok(()));
    let handle = fs.opened(ROOT_ID, HandleKind::Directory("/share".to_string()));
    assert!(matches!(fs.readdir(ROOT_ID, handle, 0), ListStep::Done));
    assert!(matches!(fs.readdir(ROOT_ID, handle, 4096), ListStep::Fill("/share")));
    for (name, kind) in [
        (".", FileKind::Directory),
        ("alpha.txt", FileKind::Regular),
        ("nested", FileKind::Directory),
    ] {
        fs.fill_entry(handle, name.to_string(), format!("/share/{name}"), kind);
    }
    fs.filled(handle);
    assert!(matches!(fs.readdir(ROOT_ID, handle, 4096), ListStep::Ready));
    let first = fs.get_entry(handle, 0).unwrap();
    assert_eq!((first.name.as_str(), first.offset), ("alpha.txt", 1));
    let second = fs.get_entry(handle, 1).unwrap();
    assert_eq!((second.name.as_str(), second.type_), ("nested", DT_DIR));
    assert!(fs.get_entry(handle, 2).is_none());
    assert_eq!(fs.read(ROOT_ID, handle, 1, 0, 0), ReadStep::Fail(LINUX_EISDIR));
    assert_eq!(fs.releasedir(ROOT_ID, handle), Ok(()));
    assert_eq!(entry_taken(Ok(0)), ListNext::Done);
    assert_eq!(entry_taken(Ok(32)), ListNext::More);
    assert_eq!(entry_taken(Err(7)), ListNext::Fail(7));
}

#[test]
fn init_program_is_built_in() {
    let mut fs = mounted();
    match fs.lookup(ROOT_ID, b"init.krun", 1000) {
        LookupStep::Found(entry) => {
            assert_eq!(entry.inode, INIT_INODE);
            assert_eq!(entry.attr.st_size, 1000);
            assert_eq!(entry.attr.st_blocks, 2);
            assert_eq!(entry.attr.st_mode, S_IFREG | 0o755);
        }
        _ => panic!("expected the built-in program"),
    }
    assert!(matches!(fs.open(INIT_INODE, 1), OpenStep::Opened(INIT_HANDLE)));
    assert_eq!(
        fs.read(INIT_INODE, INIT_HANDLE, 100, 950, 1000),
        ReadStep::Init { start: 950, len: 50 }
    );
    assert!(matches!(
        fs.read(INIT_INODE, INIT_HANDLE, 100, 1000, 1000),
        ReadStep::Init { len: 0, .. }
    ));
    assert_eq!(fs.release(INIT_INODE, INIT_HANDLE), Ok(()));
    assert_eq!(fs.releasedir(INIT_INODE, INIT_HANDLE), Err(LINUX_EBADF));
    fs.forget(INIT_INODE, 1);
    assert!(matches!(fs.getattr(INIT_INODE, 5), AttributeStep::Known(_)));
}

#[test]
fn forgotten_files_are_unknown() {
    let mut fs = mounted();
    let file = meta(FileKind::Regular, 1);
    let a = fs.looked_up("/share/a".to_string(), &file).inode;
    let b = fs.looked_up("/share/b".to_string(), &file).inode;
    fs.looked_up("/share/a".to_string(), &file);
    fs.forget(a, 1);
    assert_eq!(fs.path_of(a), Ok("/share/a"));
    fs.batch_forget(&vec![(a, 1), (b, 9), (INIT_INODE, 1)]);
    assert_eq!(fs.path_of(a), Err(LINUX_EBADF));
    assert_eq!(fs.path_of(b), Err(LINUX_EBADF));
    fs.forget(ROOT_ID, 100);
    assert_eq!(fs.path_of(ROOT_ID), Ok("/share"));
    assert_ne!(fs.looked_up("/share/a".to_string(), &file).inode, a);
    fs.destroy();
    assert_eq!(fs.path_of(ROOT_ID), Err(LINUX_EBADF));
    assert_eq!(fs.root(), "/share");
}

#[test]
fn only_directories_are_shared() {
    assert_eq!(
        PassthroughFs::new("/file".to_string(), FileKind::Regular).err(),
        Some(LINUX_ENOTDIR)
    );
    let fs = mounted();
    assert!(matches!(fs.open(77, 0), OpenStep::Fail(errno) if errno == LINUX_EBADF));
    assert!(matches!(fs.open(ROOT_ID, 1), OpenStep::Fail(errno) if errno == LINUX_EOPNOTSUPP));
    assert!(matches!(fs.opendir(77, 2), OpenStep::Fail(errno) if errno == LINUX_EOPNOTSUPP));
    assert!(matches!(fs.getattr(77, 0), AttributeStep::Fail(errno) if errno == LINUX_EBADF));
    assert_eq!(PassthroughFs::can_open(FileKind::Symlink), Err(LINUX_ELOOP));
    assert_eq!(PassthroughFs::can_open(FileKind::Directory), Err(LINUX_EISDIR));
    assert_eq!(PassthroughFs::can_opendir(FileKind::Other), Err(LINUX_ENOTDIR));
}

#[test]
fn names_are_single_components() {
    assert_eq!(cstr_to_component(b"a.txt"), Ok("a.txt"));
    for bad in [&b""[..], b".", b"..", b"a/b", b"a\\b", &[0xff, 0xfe]] {
        assert_eq!(cstr_to_component(bad), Err(LINUX_EINVAL));
    }
    let fs = mounted();
    assert!(matches!(fs.lookup(77, b"..", 0), LookupStep::Fail(errno) if errno == LINUX_EINVAL));
    assert!(matches!(fs.lookup(77, b"a", 0), LookupStep::Fail(errno) if errno == LINUX_EBADF));
}

#[test]
fn attributes_of_files() {
    let stat = stat_from_metadata(&meta(FileKind::Directory, 513), 9);
    assert_eq!(stat.st_ino, 9);
    assert_eq!(stat.st_blocks, 2);
    assert_eq!((stat.st_atime, stat.st_atime_nsec), (0, 0));
    assert_eq!((stat.st_mtime, stat.st_mtime_nsec), (1, 100));
    assert_eq!(stat.st_mode, S_IFDIR | 0o777);
    assert_eq!(blocks_for_size(0), 0);
    assert_eq!(blocks_for_size(u64::MAX), 1 << 55);
    assert_eq!(filetime_to_unix(116_444_735_999_999_999), (0, 0));
    let mut readonly = meta(FileKind::Regular, 0);
    readonly.attributes = 1;
    assert_eq!(mode_from_metadata(&readonly), S_IFREG | 0o555);
    assert_eq!(dirent_type(FileKind::Symlink), DT_LNK);
}

#[test]
fn files_can_only_be_read() {
    assert_eq!(validate_read_only_open(0), Ok(()));
    for flags in [0o1, 0o2, 0o100, 0o1000, 0o2000, 0o40000] {
        assert_eq!(validate_read_only_open(flags), Err(LINUX_EOPNOTSUPP));
    }
}

#[test]
fn host_errors_are_translated() {
    assert_eq!(host_error(Some(2), HostErrorKind::Other), LINUX_ENOENT);
    assert_eq!(host_error(Some(3), HostErrorKind::Other), LINUX_ENOENT);
    assert_eq!(host_error(Some(5), HostErrorKind::Other), LINUX_EACCES);
    assert_eq!(host_error(Some(183), HostErrorKind::Other), LINUX_EEXIST);
    assert_eq!(host_error(Some(123), HostErrorKind::Other), LINUX_EINVAL);
    assert_eq!(host_error(Some(1), HostErrorKind::NotFound), LINUX_ENOENT);
    assert_eq!(host_error(None, HostErrorKind::PermissionDenied), LINUX_EACCES);
    assert_eq!(host_error(None, HostErrorKind::AlreadyExists), LINUX_EEXIST);
    assert_eq!(host_error(None, HostErrorKind::InvalidInput), LINUX_EINVAL);
    assert_eq!(host_error(None, HostErrorKind::Other), LINUX_EIO);
}

#[test]
fn drives_are_the_same_in_either_case() {
    assert!(same_path("C:", "c:"));
    assert!(same_path("c:notes", "C:notes"));
    assert!(!same_path("c:notes", "C:Notes"));
    assert!(!same_path("C:", "D:"));
    assert!(!same_path("cx", "C:"));
    assert!(!same_path("/a", "/A"));
    assert!(same_path("", ""));
    let mut fs = mounted();
    let upper = fs.looked_up("C:".to_string(), &meta(FileKind::Regular, 0)).inode;
    let lower = fs.looked_up("c:".to_string(), &meta(FileKind::Regular, 0)).inode;
    assert_eq!(upper, lower);
    assert_eq!(fs.path_of(lower), Ok("C:"));
    let other = fs.looked_up("/share/C:".to_string(), &meta(FileKind::Regular, 0)).inode;
    assert_ne!(fs.looked_up("/share/c:".to_string(), &meta(FileKind::Regular, 0)).inode, other);
}
