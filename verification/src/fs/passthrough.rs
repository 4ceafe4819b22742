//! Which files the guest knows, and which it has open.

use crate::fs::attributes::{
    FileKind, FileMeta, LINUX_EBADF, LINUX_EINVAL, LINUX_EISDIR, LINUX_ELOOP, LINUX_ENOTDIR,
    Stat64, asks_to_write, cstr_to_component, dirent_type, entry_type, init_stat, init_stat_of,
    is_component, stat_from_metadata, stat_of, validate_read_only_open,
};
use crate::text::{ascii_lower, lower, same_text};
use std::collections::BTreeMap;
use vstd::prelude::*;

verus! {

broadcast use vstd::std_specs::btree::group_btree_axioms;

/// The inode of the root directory.
pub const ROOT_ID: u64 = 1;

/// The inode of the built-in init program.
pub const INIT_INODE: u64 = 2;

/// The handle of the built-in init program.
pub const INIT_HANDLE: u64 = 0;

/// How long, in seconds, the guest may keep what it was told about a file.
pub const CACHE_SECONDS: u64 = 5;

/// Configuration of a shared directory.
#[derive(Clone, Debug)]
pub struct Config {
    pub root_dir: String,
    pub allow_root_dir_delete: bool,
    pub export_fsid: u64,
}

impl Default for Config {
    fn default() -> (r: Config)
        ensures
            r.root_dir@.len() == 0,
            !r.allow_root_dir_delete,
            r.export_fsid == 0,
    {
        Config { root_dir: String::new(), allow_root_dir_delete: false, export_fsid: 0 }
    }
}

/// A file that the guest knows.
#[derive(Debug)]
struct InodeData {
    path: String,
    refcount: u64,
}

/// Where a file stands that the guest knows.
#[derive(Debug)]
struct PathEntry {
    path: String,
    inode: u64,
}

/// What is open.
#[derive(Debug)]
pub enum HandleKind {
    /// A file, which its owner keeps under the handle.
    File,
    /// A directory at a path.
    Directory(String),
}

/// One entry of a directory.
#[derive(Debug)]
pub struct CachedDirEntry {
    pub ino: u64,
    pub offset: u64,
    pub type_: u32,
    pub name: String,
}

/// Something that the guest has open.
#[derive(Debug)]
pub struct HandleData {
    pub inode: u64,
    pub kind: HandleKind,
    /// The entries that were read of a directory.
    pub entries: Vec<CachedDirEntry>,
    /// Every entry was read.
    pub ready: bool,
}

/// What the guest learns of a file that it looks up.
#[derive(Clone, Copy, Debug, PartialEq, Eq, Structural)]
pub struct Entry {
    pub inode: u64,
    pub generation: u64,
    pub attr: Stat64,
    pub attr_flags: u32,
    pub attr_timeout: u64,
    pub entry_timeout: u64,
}

/// The files that the guest knows: path and lookup count by inode.
pub type NodesSpec = Map<u64, (Seq<char>, u64)>;

/// A path starts with a drive: a letter and a colon.
pub open spec fn names_drive(path: Seq<char>) -> bool {
    path.len() >= 2 && ('A' <= path[0] <= 'Z' || 'a' <= path[0] <= 'z') && path[1] == ':'
}

/// What tells paths apart. The case of a drive's letter does not.
pub open spec fn path_key(path: Seq<char>) -> Seq<char> {
    if names_drive(path) {
        path.update(0, ascii_lower(path[0]))
    } else {
        path
    }
}

/// Whether two paths lead to the same place.
pub fn same_path(a: &str, b: &str) -> (r: bool)
    ensures
        r == (path_key(a@) == path_key(b@)),
{
    let len: usize = a.unicode_len();
    if len != b.unicode_len() {
        assert(path_key(a@).len() == a@.len());
        assert(path_key(b@).len() == b@.len());
        return false;
    }
    if len == 0 {
        assert(a@ =~= b@);
        return true;
    }
    let (x, y): (char, char) = (a.get_char(0), b.get_char(0));
    let drives: bool = len >= 2 && a.get_char(1) == ':' && lower(x) == lower(y) && 'a' <= lower(x)
        && lower(x) <= 'z';
    if x != y && !drives {
        assert(path_key(a@)[0] != path_key(b@)[0] || path_key(a@)[1] != path_key(b@)[1]);
        return false;
    }
    let mut i: usize = 1;
    while i < len
        invariant
            1 <= i <= len,
            len == a@.len(),
            len == b@.len(),
            forall|j: int| 1 <= j < i ==> #[trigger] a@[j] == b@[j],
        decreases len - i,
    {
        if a.get_char(i) != b.get_char(i) {
            assert(path_key(a@)[i as int] != path_key(b@)[i as int]);
            return false;
        }
        i = i + 1;
    }
    assert(path_key(a@) =~= path_key(b@));
    true
}

/// The inode is that of a file at exactly this path.
pub open spec fn stands_at(nodes: NodesSpec, inode: u64, path: Seq<char>) -> bool {
    nodes.contains_key(inode) && nodes[inode].0 == path
}

/// The inode stands for the path.
pub open spec fn stands_for(nodes: NodesSpec, inode: u64, path: Seq<char>) -> bool {
    nodes.contains_key(inode) && path_key(nodes[inode].0) == path_key(path)
}

/// The path has an inode.
pub open spec fn is_known(nodes: NodesSpec, path: Seq<char>) -> bool {
    exists|inode: u64| stands_for(nodes, inode, path)
}

/// What the guest knows once it was told the inode of a path: a known path keeps its inode and is
/// counted, a new one gets the next inode.
pub open spec fn interned(
    before: NodesSpec,
    next: u64,
    path: Seq<char>,
    count: u64,
    after: NodesSpec,
    inode: u64,
) -> bool {
    if is_known(before, path) {
        &&& stands_for(before, inode, path)
        &&& after == before.insert(
            inode,
            (before[inode].0, ((before[inode].1 + count) % 0x1_0000_0000_0000_0000) as u64),
        )
    } else {
        &&& inode == next
        &&& after == before.insert(inode, (path, count))
    }
}

/// What the guest knows once it has dropped so many lookups of an inode. A file without lookups is
/// forgotten, except for the root.
pub open spec fn forgotten(nodes: NodesSpec, inode: u64, count: u64) -> NodesSpec {
    if !nodes.contains_key(inode) {
        nodes
    } else {
        let left: u64 = if nodes[inode].1 > count {
            (nodes[inode].1 - count) as u64
        } else {
            0
        };
        if left == 0 && inode != ROOT_ID {
            nodes.remove(inode)
        } else {
            nodes.insert(inode, (nodes[inode].0, left))
        }
    }
}

/// What the guest knows once it has dropped lookups of several inodes. The built-in program stays.
pub open spec fn all_forgotten(nodes: NodesSpec, requests: Seq<(u64, u64)>) -> NodesSpec
    decreases requests.len(),
{
    if requests.len() == 0 {
        nodes
    } else {
        let before = all_forgotten(nodes, requests.drop_last());
        if requests.last().0 == INIT_INODE {
            before
        } else {
            forgotten(before, requests.last().0, requests.last().1)
        }
    }
}

/// No two inodes stand for one path, and all are the root's or were given out since.
pub open spec fn nodes_wf(nodes: NodesSpec, next: u64) -> bool {
    &&& forall|a: u64, b: u64|
        #[trigger] nodes.contains_key(a) && #[trigger] nodes.contains_key(b) && path_key(
            nodes[a].0,
        ) == path_key(nodes[b].0) ==> a == b
    &&& forall|a: u64|
        #[trigger] nodes.contains_key(a) ==> a == ROOT_ID || INIT_INODE < a < next
    &&& INIT_INODE < next
}

/// The shared directory.
#[derive(Debug)]
pub struct PassthroughFs {
    by_inode: BTreeMap<u64, InodeData>,
    by_path: Vec<PathEntry>,
    next_inode: u64,
    handles: BTreeMap<u64, HandleData>,
    next_handle: u64,
    root: String,
}

spec fn node_views(by_inode: Map<u64, InodeData>) -> NodesSpec {
    by_inode.map_values(|data: InodeData| (data.path@, data.refcount))
}

spec fn paths_match(by_path: Seq<PathEntry>, by_inode: Map<u64, InodeData>) -> bool {
    &&& forall|i: int|
        0 <= i < by_path.len() ==> by_inode.contains_key((#[trigger] by_path[i]).inode)
            && by_inode[by_path[i].inode].path@ == by_path[i].path@
    &&& forall|n: u64|
        #[trigger] by_inode.contains_key(n) ==> exists|i: int|
            0 <= i < by_path.len() && (#[trigger] by_path[i]).inode == n
    &&& forall|i: int, j: int|
        0 <= i < j < by_path.len() ==> (#[trigger] by_path[i]).inode != (
        #[trigger] by_path[j]).inode
}

impl PassthroughFs {
    /// The files that the guest knows.
    pub closed spec fn nodes(self) -> NodesSpec {
        node_views(self.by_inode@)
    }

    /// The inode of the next file that the guest gets to know.
    pub closed spec fn spec_next_inode(self) -> u64 {
        self.next_inode
    }

    /// What the guest has open.
    pub closed spec fn open_handles(self) -> Map<u64, HandleData> {
        self.handles@
    }

    /// The handle of what is opened next.
    pub closed spec fn spec_next_handle(self) -> u64 {
        self.next_handle
    }

    /// The path of the shared directory.
    pub closed spec fn spec_root(self) -> Seq<char> {
        self.root@
    }

    /// The table is consistent, and open handles were given out.
    pub closed spec fn wf(self) -> bool {
        &&& paths_match(self.by_path@, self.by_inode@)
        &&& nodes_wf(self.nodes(), self.next_inode)
        &&& forall|h: u64|
            #[trigger] self.handles@.contains_key(h) ==> INIT_HANDLE < h < self.next_handle
        &&& INIT_HANDLE < self.next_handle
    }

    /// Only the files that the guest knows may differ.
    pub open spec fn same_handles(self, other: PassthroughFs) -> bool {
        &&& self.open_handles() == other.open_handles()
        &&& self.spec_next_handle() == other.spec_next_handle()
        &&& self.spec_root() == other.spec_root()
    }

    /// Only what is open may differ.
    pub open spec fn same_nodes(self, other: PassthroughFs) -> bool {
        &&& self.nodes() == other.nodes()
        &&& self.spec_next_inode() == other.spec_next_inode()
        &&& self.spec_root() == other.spec_root()
    }

    /// Shares the directory at a path, which has to be one.
    pub fn new(root: String, kind: FileKind) -> (r: Result<PassthroughFs, i32>)
        ensures
            match r {
                Ok(fs) => {
                    &&& kind == FileKind::Directory
                    &&& fs.wf()
                    &&& fs.nodes() == Map::<u64, (Seq<char>, u64)>::empty()
                    &&& fs.open_handles() == Map::<u64, HandleData>::empty()
                    &&& fs.spec_next_inode() == INIT_INODE + 1
                    &&& fs.spec_next_handle() == INIT_HANDLE + 1
                    &&& fs.spec_root() == root@
                },
                Err(errno) => kind != FileKind::Directory && errno == LINUX_ENOTDIR,
            },
    {
        if kind != FileKind::Directory {
            return Err(LINUX_ENOTDIR);
        }
        let fs: PassthroughFs = PassthroughFs {
            by_inode: BTreeMap::new(),
            by_path: Vec::new(),
            next_inode: INIT_INODE + 1,
            handles: BTreeMap::new(),
            next_handle: INIT_HANDLE + 1,
            root,
        };
        assert(fs.nodes() =~= Map::empty());
        Ok(fs)
    }

    /// The path of the shared directory.
    pub fn root(&self) -> (r: &str)
        ensures
            r@ == self.spec_root(),
    {
        self.root.as_str()
    }

    /// Whether the guest can get to know another file: its number is not the last one.
    pub fn has_free_inode(&self) -> (r: bool)
        ensures
            r == (self.spec_next_inode() < u64::MAX),
    {
        self.next_inode < u64::MAX
    }

    /// Whether the guest can open something else: its handle is not the last one.
    pub fn has_free_handle(&self) -> (r: bool)
        ensures
            r == (self.spec_next_handle() < u64::MAX),
    {
        self.next_handle < u64::MAX
    }

    /// The path of a file that the guest knows.
    pub fn path_of(&self, inode: u64) -> (r: Result<&str, i32>)
        requires
            self.wf(),
        ensures
            match r {
                Ok(path) => stands_at(self.nodes(), inode, path@),
                Err(errno) => !self.nodes().contains_key(inode) && errno == LINUX_EBADF,
            },
    {
        match self.by_inode.get(&inode) {
            Some(data) => Ok(data.path.as_str()),
            None => Err(LINUX_EBADF),
        }
    }

    fn find_path(&self, path: &str) -> (r: Option<u64>)
        requires
            self.wf(),
        ensures
            match r {
                Some(inode) => stands_for(self.nodes(), inode, path@),
                None => !is_known(self.nodes(), path@),
            },
    {
        let mut i: usize = 0;
        while i < self.by_path.len()
            invariant
                i <= self.by_path@.len(),
                self.wf(),
                forall|j: int|
                    0 <= j < i ==> path_key((#[trigger] self.by_path@[j]).path@) != path_key(path@),
            decreases self.by_path@.len() - i,
        {
            if same_path(self.by_path[i].path.as_str(), path) {
                return Some(self.by_path[i].inode);
            }
            i = i + 1;
        }
        proof {
            if is_known(self.nodes(), path@) {
                let n = choose|n: u64| stands_for(self.nodes(), n, path@);
                assert(self.by_inode@.contains_key(n));
                let j = choose|j: int|
                    0 <= j < self.by_path@.len() && (#[trigger] self.by_path@[j]).inode == n;
                assert(path_key(self.by_path@[j].path@) == path_key(path@));
            }
        }
        None
    }

    /// The inode of a path, which is looked up so many times.
    pub fn intern_path(&mut self, path: String, lookup_count: u64) -> (r: u64)
        requires
            old(self).wf(),
            old(self).spec_next_inode() < u64::MAX,
        ensures
            final(self).wf(),
            interned(
                old(self).nodes(),
                old(self).spec_next_inode(),
                path@,
                lookup_count,
                final(self).nodes(),
                r,
            ),
            final(self).spec_next_inode() == old(self).spec_next_inode() + if is_known(
                old(self).nodes(),
                path@,
            ) {
                0int
            } else {
                1int
            },
            final(self).same_handles(*old(self)),
    {
        match self.find_path(path.as_str()) {
            Some(inode) => {
                match self.by_inode.remove(&inode) {
                    Some(data) => {
                        let refcount: u64 = data.refcount.wrapping_add(lookup_count);
                        self.by_inode.insert(inode, InodeData { path: data.path, refcount });
                    },
                    None => {
                        assert(false);
                    },
                }
                assert(self.nodes() =~= old(self).nodes().insert(
                    inode,
                    (
                        old(self).nodes()[inode].0,
                        ((old(self).nodes()[inode].1 + lookup_count)
                            % 0x1_0000_0000_0000_0000) as u64,
                    ),
                ));
                assert(self.by_inode@.dom() =~= old(self).by_inode@.dom());
                inode
            },
            None => {
                let inode: u64 = self.next_inode;
                self.next_inode = inode + 1;
                let listed: String = path.clone();
                assert(!old(self).nodes().contains_key(inode));
                self.by_inode.insert(inode, InodeData { path, refcount: lookup_count });
                self.by_path.push(PathEntry { path: listed, inode });
                proof {
                    let before = old(self).by_path@;
                    let after = self.by_path@;
                    assert(after[before.len() as int].inode == inode);
                    assert forall|n: u64| #[trigger]
                        self.by_inode@.contains_key(n) implies exists|i: int|
                        0 <= i < after.len() && (#[trigger] after[i]).inode == n by {
                        if n != inode {
                            assert(old(self).by_inode@.contains_key(n));
                            let i = choose|i: int|
                                0 <= i < before.len() && (#[trigger] before[i]).inode == n;
                            assert(after[i].inode == n);
                        }
                    }
                    assert(self.nodes() =~= old(self).nodes().insert(
                        inode,
                        (path@, lookup_count),
                    ));
                    assert forall|a: u64, b: u64|
                        #[trigger] self.nodes().contains_key(a) && #[trigger]
                            self.nodes().contains_key(b) && path_key(self.nodes()[a].0)
                            == path_key(self.nodes()[b].0) implies a == b by {
                        if a == inode && b != inode {
                            assert(stands_for(old(self).nodes(), b, path@));
                        }
                        if b == inode && a != inode {
                            assert(stands_for(old(self).nodes(), a, path@));
                        }
                        if a != inode && b != inode {
                            assert(old(self).nodes().contains_key(a));
                            assert(old(self).nodes().contains_key(b));
                        }
                    }
                }
                inode
            },
        }
    }

    /// The guest mounts the directory: it knows the root, and nothing else.
    pub fn insert_root(&mut self, meta: &FileMeta) -> (r: Stat64)
        requires
            old(self).wf(),
        ensures
            final(self).wf(),
            final(self).nodes() == Map::<u64, (Seq<char>, u64)>::empty().insert(
                ROOT_ID,
                (old(self).spec_root(), 2u64),
            ),
            final(self).spec_next_inode() == old(self).spec_next_inode(),
            final(self).same_handles(*old(self)),
            r == stat_of(*meta, ROOT_ID),
    {
        self.by_inode.clear();
        self.by_path.clear();
        self.by_inode.insert(ROOT_ID, InodeData { path: self.root.clone(), refcount: 2 });
        self.by_path.push(PathEntry { path: self.root.clone(), inode: ROOT_ID });
        assert(self.by_path@[0].inode == ROOT_ID);
        assert(self.nodes() =~= Map::<u64, (Seq<char>, u64)>::empty().insert(
            ROOT_ID,
            (old(self).spec_root(), 2u64),
        ));
        stat_from_metadata(meta, ROOT_ID)
    }

    /// The guest unmounts the directory.
    pub fn destroy(&mut self)
        requires
            old(self).wf(),
        ensures
            final(self).wf(),
            final(self).nodes() == Map::<u64, (Seq<char>, u64)>::empty(),
            final(self).open_handles() == Map::<u64, HandleData>::empty(),
            final(self).spec_next_inode() == old(self).spec_next_inode(),
            final(self).spec_next_handle() == old(self).spec_next_handle(),
            final(self).spec_root() == old(self).spec_root(),
    {
        self.handles.clear();
        self.by_inode.clear();
        self.by_path.clear();
        assert(self.nodes() =~= Map::<u64, (Seq<char>, u64)>::empty());
    }

    fn forget_one(&mut self, inode: u64, count: u64)
        requires
            old(self).wf(),
        ensures
            final(self).wf(),
            final(self).nodes() == forgotten(old(self).nodes(), inode, count),
            final(self).spec_next_inode() == old(self).spec_next_inode(),
            final(self).same_handles(*old(self)),
    {
        match self.by_inode.remove(&inode) {
            None => {
                assert(!old(self).nodes().contains_key(inode));
                assert(self.by_inode@ =~= old(self).by_inode@);
            },
            Some(data) => {
                let left: u64 = if data.refcount > count {
                    data.refcount - count
                } else {
                    0
                };
                if left == 0 && inode != ROOT_ID {
                    let mut i: usize = 0;
                    while i < self.by_path.len() && self.by_path[i].inode != inode
                        invariant
                            i <= self.by_path@.len(),
                            forall|j: int|
                                0 <= j < i ==> (#[trigger] self.by_path@[j]).inode != inode,
                        decreases self.by_path@.len() - i,
                    {
                        i = i + 1;
                    }
                    proof {
                        let listed = choose|j: int|
                            0 <= j < self.by_path@.len() && (#[trigger] self.by_path@[j]).inode
                                == inode;
                        assert(self.by_path@[listed].inode == inode);
                    }
                    let ghost before = self.by_path@;
                    self.by_path.remove(i);
                    proof {
                        let after = self.by_path@;
                        assert forall|n: u64| #[trigger]
                            self.by_inode@.contains_key(n) implies exists|j: int|
                            0 <= j < after.len() && (#[trigger] after[j]).inode == n by {
                            assert(old(self).by_inode@.contains_key(n));
                            let j = choose|j: int|
                                0 <= j < before.len() && (#[trigger] before[j]).inode == n;
                            if j < i {
                                assert(after[j].inode == n);
                            } else {
                                assert(after[j - 1].inode == n);
                            }
                        }
                    }
                } else {
                    self.by_inode.insert(inode, InodeData { path: data.path, refcount: left });
                    assert(self.by_inode@.dom() =~= old(self).by_inode@.dom());
                }
                assert(self.nodes() =~= forgotten(old(self).nodes(), inode, count));
                assert forall|a: u64| #[trigger] self.nodes().contains_key(a) implies old(self).nodes().contains_key(a) && self.nodes()[a].0 == old(self).nodes()[a].0 by {}
            },
        }
    }

    /// The guest drops so many lookups of a file. The built-in program stays.
    pub fn forget(&mut self, inode: u64, count: u64)
        requires
            old(self).wf(),
        ensures
            final(self).wf(),
            final(self).nodes() == if inode == INIT_INODE {
                old(self).nodes()
            } else {
                forgotten(old(self).nodes(), inode, count)
            },
            final(self).spec_next_inode() == old(self).spec_next_inode(),
            final(self).same_handles(*old(self)),
    {
        if inode != INIT_INODE {
            self.forget_one(inode, count);
        }
    }

    /// The guest drops lookups of several files.
    pub fn batch_forget(&mut self, requests: &Vec<(u64, u64)>)
        requires
            old(self).wf(),
        ensures
            final(self).wf(),
            final(self).nodes() == all_forgotten(old(self).nodes(), requests@),
            final(self).spec_next_inode() == old(self).spec_next_inode(),
            final(self).same_handles(*old(self)),
    {
        let mut i: usize = 0;
        while i < requests.len()
            invariant
                i <= requests@.len(),
                self.wf(),
                self.nodes() == all_forgotten(old(self).nodes(), requests@.take(i as int)),
                self.spec_next_inode() == old(self).spec_next_inode(),
                self.same_handles(*old(self)),
            decreases requests@.len() - i,
        {
            assert(requests@.take(i + 1).drop_last() =~= requests@.take(i as int));
            self.forget(requests[i].0, requests[i].1);
            i = i + 1;
        }
        assert(requests@.take(i as int) =~= requests@);
    }
}

/// What is done about a lookup.
#[derive(Debug)]
pub enum LookupStep<'a> {
    /// It is the built-in program.
    Found(Entry),
    /// It is a file of this name in the directory at this path.
    Child { parent: &'a str, name: &'a str },
    /// It cannot be.
    Fail(i32),
}

/// The name under which the guest finds the built-in program in the root directory.
pub open spec fn is_init_name(name: Seq<u8>) -> bool {
    name == seq![105u8, 110, 105, 116, 46, 107, 114, 117, 110]
}

fn names_init(name: &[u8]) -> (r: bool)
    ensures
        r == is_init_name(name@),
{
    let wanted: [u8; 9] = [105, 110, 105, 116, 46, 107, 114, 117, 110];
    let ghost init = seq![105u8, 110, 105, 116, 46, 107, 114, 117, 110];
    assert(wanted@ =~= init);
    if name.len() != 9 {
        return false;
    }
    let mut i: usize = 0;
    while i < 9
        invariant
            i <= 9,
            name@.len() == 9,
            wanted@ == init,
            init.len() == 9,
            init == seq![105u8, 110, 105, 116, 46, 107, 114, 117, 110],
            forall|j: int| 0 <= j < i ==> #[trigger] name@[j] == init[j],
        decreases 9 - i,
    {
        if name[i] != wanted[i] {
            assert(name@[i as int] != init[i as int]);
            return false;
        }
        i = i + 1;
    }
    assert(name@ =~= init);
    true
}

/// An entry for a file with these attributes.
pub open spec fn entry_of(inode: u64, attr: Stat64) -> Entry {
    Entry {
        inode,
        generation: 0,
        attr,
        attr_flags: 0,
        attr_timeout: CACHE_SECONDS,
        entry_timeout: CACHE_SECONDS,
    }
}

/// What is done about a request for a file's attributes.
#[derive(Debug)]
pub enum AttributeStep<'a> {
    /// It is the built-in program.
    Known(Stat64),
    /// The host is asked about the file at this path.
    Ask(&'a str),
    /// The guest does not know the file.
    Fail(i32),
}

/// What is done about a request to open a file.
#[derive(Debug)]
pub enum OpenStep<'a> {
    /// It is the built-in program.
    Opened(u64),
    /// The host is asked what stands at this path.
    Ask(&'a str),
    /// It cannot be opened.
    Fail(i32),
}

/// What is done about a request to read.
#[derive(Clone, Copy, Debug, PartialEq, Eq, Structural)]
pub enum ReadStep {
    /// So many bytes of the built-in program are written, from this place on.
    Init { start: usize, len: usize },
    /// The file under the handle is read.
    File,
    /// It cannot be read.
    Fail(i32),
}

/// What is done about a request to list a directory.
#[derive(Debug)]
pub enum ListStep<'a> {
    /// Nothing fits.
    Done,
    /// The entries of the directory at this path are read first.
    Fill(&'a str),
    /// The entries are there.
    Ready,
    /// It cannot be listed.
    Fail(i32),
}

/// Whether the guest gets more entries of a directory.
#[derive(Clone, Copy, Debug, PartialEq, Eq, Structural)]
pub enum ListNext {
    More,
    Done,
    Fail(i32),
}

/// Whether the guest gets another entry, after one took so much room.
pub fn entry_taken(taken: Result<usize, i32>) -> (r: ListNext)
    ensures
        r == match taken {
            Ok(0) => ListNext::Done,
            Ok(_) => ListNext::More,
            Err(errno) => ListNext::Fail(errno),
        },
{
    match taken {
        Ok(0) => ListNext::Done,
        Ok(_) => ListNext::More,
        Err(errno) => ListNext::Fail(errno),
    }
}

/// An entry that is not shown to the guest.
pub open spec fn is_hidden(name: Seq<char>) -> bool {
    name.len() == 0 || name == "."@ || name == ".."@
}

impl PassthroughFs {
    /// Starts a lookup of a name in a directory. The name is what stands before the terminating
    /// zero byte.
    pub fn lookup<'a>(
        &'a self,
        parent: u64,
        name: &'a [u8],
        init_len: usize,
    ) -> (r: LookupStep<'a>)
        requires
            self.wf(),
        ensures
            match r {
                LookupStep::Found(entry) => parent == ROOT_ID && is_init_name(name@) && entry
                    == entry_of(INIT_INODE, init_stat_of(INIT_INODE, init_len)),
                LookupStep::Child { parent: path, name: component } => {
                    &&& !(parent == ROOT_ID && is_init_name(name@))
                    &&& is_component(component@)
                    &&& vstd::utf8::encode_utf8(component@) == name@
                    &&& stands_at(self.nodes(), parent, path@)
                },
                LookupStep::Fail(errno) => {
                    &&& !(parent == ROOT_ID && is_init_name(name@))
                    &&& errno == LINUX_EINVAL ==> forall|s: Seq<char>|
                        is_component(s) ==> #[trigger] vstd::utf8::encode_utf8(s) != name@
                    &&& errno != LINUX_EINVAL ==> errno == LINUX_EBADF
                        && !self.nodes().contains_key(parent) && exists|s: Seq<char>|
                        is_component(s) && #[trigger] vstd::utf8::encode_utf8(s) == name@
                },
            },
    {
        if parent == ROOT_ID && names_init(name) {
            return LookupStep::Found(
                Entry {
                    inode: INIT_INODE,
                    generation: 0,
                    attr: init_stat(INIT_INODE, init_len),
                    attr_flags: 0,
                    attr_timeout: CACHE_SECONDS,
                    entry_timeout: CACHE_SECONDS,
                },
            );
        }
        match cstr_to_component(name) {
            Err(errno) => LookupStep::Fail(errno),
            Ok(component) => match self.path_of(parent) {
                Err(errno) => LookupStep::Fail(errno),
                Ok(path) => LookupStep::Child { parent: path, name: component },
            },
        }
    }

    /// Completes a lookup: the host has this file at this path.
    pub fn looked_up(&mut self, child: String, meta: &FileMeta) -> (r: Entry)
        requires
            old(self).wf(),
            old(self).spec_next_inode() < u64::MAX,
        ensures
            final(self).wf(),
            interned(
                old(self).nodes(),
                old(self).spec_next_inode(),
                child@,
                1,
                final(self).nodes(),
                r.inode,
            ),
            r == entry_of(r.inode, stat_of(*meta, r.inode)),
            final(self).spec_next_inode() == old(self).spec_next_inode() + if is_known(
                old(self).nodes(),
                child@,
            ) {
                0int
            } else {
                1int
            },
            final(self).same_handles(*old(self)),
    {
        let inode: u64 = self.intern_path(child, 1);
        Entry {
            inode,
            generation: 0,
            attr: stat_from_metadata(meta, inode),
            attr_flags: 0,
            attr_timeout: CACHE_SECONDS,
            entry_timeout: CACHE_SECONDS,
        }
    }

    /// Starts a request for a file's attributes.
    pub fn getattr<'a>(&'a self, inode: u64, init_len: usize) -> (r: AttributeStep<'a>)
        requires
            self.wf(),
        ensures
            match r {
                AttributeStep::Known(stat) => inode == INIT_INODE && stat == init_stat_of(
                    INIT_INODE,
                    init_len,
                ),
                AttributeStep::Ask(path) => inode != INIT_INODE && stands_at(
                    self.nodes(),
                    inode,
                    path@,
                ),
                AttributeStep::Fail(errno) => inode != INIT_INODE && !self.nodes().contains_key(
                    inode,
                ) && errno == LINUX_EBADF,
            },
    {
        if inode == INIT_INODE {
            return AttributeStep::Known(init_stat(INIT_INODE, init_len));
        }
        match self.path_of(inode) {
            Ok(path) => AttributeStep::Ask(path),
            Err(errno) => AttributeStep::Fail(errno),
        }
    }

    /// Starts to open a file. The guest has to know it, and may only read.
    pub fn open<'a>(&'a self, inode: u64, flags: u32) -> (r: OpenStep<'a>)
        requires
            self.wf(),
        ensures
            match r {
                OpenStep::Opened(handle) => inode == INIT_INODE && handle == INIT_HANDLE,
                OpenStep::Ask(path) => inode != INIT_INODE && stands_at(
                    self.nodes(),
                    inode,
                    path@,
                ) && !asks_to_write(flags),
                OpenStep::Fail(errno) => inode != INIT_INODE && errno
                    == if !self.nodes().contains_key(inode) {
                    LINUX_EBADF
                } else {
                    crate::fs::attributes::LINUX_EOPNOTSUPP
                } && (self.nodes().contains_key(inode) ==> asks_to_write(flags)),
            },
    {
        if inode == INIT_INODE {
            return OpenStep::Opened(INIT_HANDLE);
        }
        match self.path_of(inode) {
            Err(errno) => OpenStep::Fail(errno),
            Ok(path) => match validate_read_only_open(flags) {
                Err(errno) => OpenStep::Fail(errno),
                Ok(()) => OpenStep::Ask(path),
            },
        }
    }

    /// Starts to open a directory. The guest may only read, and has to know it.
    pub fn opendir<'a>(&'a self, inode: u64, flags: u32) -> (r: OpenStep<'a>)
        requires
            self.wf(),
        ensures
            match r {
                OpenStep::Opened(handle) => false,
                OpenStep::Ask(path) => stands_at(self.nodes(), inode, path@) && !asks_to_write(
                    flags,
                ),
                OpenStep::Fail(errno) => errno == if asks_to_write(flags) {
                    crate::fs::attributes::LINUX_EOPNOTSUPP
                } else {
                    LINUX_EBADF
                } && (!asks_to_write(flags) ==> !self.nodes().contains_key(inode)),
            },
    {
        match validate_read_only_open(flags) {
            Err(errno) => OpenStep::Fail(errno),
            Ok(()) => match self.path_of(inode) {
                Err(errno) => OpenStep::Fail(errno),
                Ok(path) => OpenStep::Ask(path),
            },
        }
    }

    /// Whether what the host has there can be opened as a file.
    pub fn can_open(kind: FileKind) -> (r: Result<(), i32>)
        ensures
            r == match kind {
                FileKind::Symlink => Err::<(), i32>(LINUX_ELOOP),
                FileKind::Directory => Err::<(), i32>(LINUX_EISDIR),
                _ => Ok::<(), i32>(()),
            },
    {
        match kind {
            FileKind::Symlink => Err(LINUX_ELOOP),
            FileKind::Directory => Err(LINUX_EISDIR),
            _ => Ok(()),
        }
    }

    /// Whether what the host has there can be opened as a directory.
    pub fn can_opendir(kind: FileKind) -> (r: Result<(), i32>)
        ensures
            r == if kind == FileKind::Directory {
                Ok::<(), i32>(())
            } else {
                Err::<(), i32>(LINUX_ENOTDIR)
            },
    {
        if kind == FileKind::Directory {
            Ok(())
        } else {
            Err(LINUX_ENOTDIR)
        }
    }

    /// The host has opened a file or a directory: the guest gets a handle.
    pub fn opened(&mut self, inode: u64, kind: HandleKind) -> (r: u64)
        requires
            old(self).wf(),
            old(self).spec_next_handle() < u64::MAX,
        ensures
            final(self).wf(),
            r == old(self).spec_next_handle(),
            !old(self).open_handles().contains_key(r),
            r != INIT_HANDLE,
            final(self).spec_next_handle() == r + 1,
            final(self).open_handles().contains_key(r),
            final(self).open_handles().remove(r) == old(self).open_handles(),
            final(self).open_handles()[r].inode == inode,
            final(self).open_handles()[r].kind == kind,
            final(self).open_handles()[r].entries@.len() == 0,
            !final(self).open_handles()[r].ready,
            final(self).same_nodes(*old(self)),
    {
        let handle: u64 = self.next_handle;
        self.next_handle = handle + 1;
        self.handles.insert(
            handle,
            HandleData { inode, kind, entries: Vec::new(), ready: false },
        );
        assert(self.handles@.remove(handle) =~= old(self).handles@);
        handle
    }

    /// The guest closes a file or a directory, which it has to name by inode and handle.
    pub fn releasedir(&mut self, inode: u64, handle: u64) -> (r: Result<(), i32>)
        requires
            old(self).wf(),
        ensures
            final(self).wf(),
            r is Ok <==> old(self).open_handles().contains_key(handle)
                && old(self).open_handles()[handle].inode == inode,
            r is Err ==> r == Err::<(), i32>(LINUX_EBADF),
            final(self).open_handles() == if r is Ok {
                old(self).open_handles().remove(handle)
            } else {
                old(self).open_handles()
            },
            final(self).spec_next_handle() == old(self).spec_next_handle(),
            final(self).same_nodes(*old(self)),
    {
        let matches: bool = match self.handles.get(&handle) {
            Some(data) => data.inode == inode,
            None => false,
        };
        if matches {
            self.handles.remove(&handle);
            Ok(())
        } else {
            Err(LINUX_EBADF)
        }
    }

    /// The guest closes a file. The built-in program needs no closing.
    pub fn release(&mut self, inode: u64, handle: u64) -> (r: Result<(), i32>)
        requires
            old(self).wf(),
        ensures
            final(self).wf(),
            r is Ok <==> inode == INIT_INODE && handle == INIT_HANDLE
                || old(self).open_handles().contains_key(handle)
                && old(self).open_handles()[handle].inode == inode,
            r is Err ==> r == Err::<(), i32>(LINUX_EBADF),
            final(self).open_handles() == if r is Ok {
                old(self).open_handles().remove(handle)
            } else {
                old(self).open_handles()
            },
            final(self).spec_next_handle() == old(self).spec_next_handle(),
            final(self).same_nodes(*old(self)),
    {
        if inode == INIT_INODE && handle == INIT_HANDLE {
            assert(!self.handles@.contains_key(handle));
            assert(self.handles@.remove(handle) =~= self.handles@);
            return Ok(());
        }
        self.releasedir(inode, handle)
    }

    /// What is read. The built-in program is read from memory.
    pub fn read(
        &self,
        inode: u64,
        handle: u64,
        size: u32,
        offset: u64,
        init_len: usize,
    ) -> (r: ReadStep)
        requires
            self.wf(),
        ensures
            r == if inode == INIT_INODE {
                if offset > usize::MAX {
                    ReadStep::Fail(LINUX_EINVAL)
                } else if offset >= init_len {
                    ReadStep::Init { start: init_len, len: 0 }
                } else if size as int <= init_len - offset {
                    ReadStep::Init { start: offset as usize, len: size as usize }
                } else {
                    ReadStep::Init { start: offset as usize, len: (init_len - offset) as usize }
                }
            } else if !(self.open_handles().contains_key(handle)
                && self.open_handles()[handle].inode == inode) {
                ReadStep::Fail(LINUX_EBADF)
            } else if self.open_handles()[handle].kind is File {
                ReadStep::File
            } else {
                ReadStep::Fail(LINUX_EISDIR)
            },
    {
        if inode == INIT_INODE {
            if offset > usize::MAX as u64 {
                return ReadStep::Fail(LINUX_EINVAL);
            }
            let off: usize = offset as usize;
            if off >= init_len {
                return ReadStep::Init { start: init_len, len: 0 };
            }
            let rest: usize = init_len - off;
            let len: usize = if size as usize <= rest {
                size as usize
            } else {
                rest
            };
            return ReadStep::Init { start: off, len };
        }
        match self.handles.get(&handle) {
            None => ReadStep::Fail(LINUX_EBADF),
            Some(data) => {
                if data.inode != inode {
                    return ReadStep::Fail(LINUX_EBADF);
                }
                match &data.kind {
                    HandleKind::File => ReadStep::File,
                    HandleKind::Directory(path) => ReadStep::Fail(LINUX_EISDIR),
                }
            },
        }
    }

    /// Starts to list an open directory.
    pub fn readdir<'a>(&'a self, inode: u64, handle: u64, size: u32) -> (r: ListStep<'a>)
        requires
            self.wf(),
        ensures
            match r {
                ListStep::Done => size == 0,
                ListStep::Fill(path) => {
                    &&& size != 0
                    &&& self.open_handles().contains_key(handle)
                    &&& self.open_handles()[handle].inode == inode
                    &&& self.open_handles()[handle].kind matches HandleKind::Directory(p) && p@
                        == path@
                    &&& !self.open_handles()[handle].ready
                },
                ListStep::Ready => {
                    &&& size != 0
                    &&& self.open_handles().contains_key(handle)
                    &&& self.open_handles()[handle].inode == inode
                    &&& self.open_handles()[handle].kind is Directory
                    &&& self.open_handles()[handle].ready
                },
                ListStep::Fail(errno) => {
                    let open = self.open_handles().contains_key(handle)
                        && self.open_handles()[handle].inode == inode;
                    &&& size != 0
                    &&& errno == if open {
                        LINUX_ENOTDIR
                    } else {
                        LINUX_EBADF
                    }
                    &&& open ==> self.open_handles()[handle].kind is File
                },
            },
    {
        if size == 0 {
            return ListStep::Done;
        }
        match self.handles.get(&handle) {
            None => ListStep::Fail(LINUX_EBADF),
            Some(data) => {
                if data.inode != inode {
                    return ListStep::Fail(LINUX_EBADF);
                }
                match &data.kind {
                    HandleKind::File => ListStep::Fail(LINUX_ENOTDIR),
                    HandleKind::Directory(path) => if data.ready {
                        ListStep::Ready
                    } else {
                        ListStep::Fill(path.as_str())
                    },
                }
            },
        }
    }

    /// An entry of an open directory was read. The directory itself and its parent are left out.
    pub fn fill_entry(&mut self, handle: u64, name: String, path: String, kind: FileKind)
        requires
            old(self).wf(),
            old(self).open_handles().contains_key(handle),
            old(self).open_handles()[handle].entries@.len() < u64::MAX,
            old(self).spec_next_inode() < u64::MAX,
        ensures
            final(self).wf(),
            is_hidden(name@) ==> *final(self) == *old(self),
            !is_hidden(name@) ==> {
                let before = old(self).open_handles()[handle];
                let after = final(self).open_handles()[handle];
                let added = after.entries@.last();
                &&& final(self).open_handles().contains_key(handle)
                &&& final(self).open_handles().remove(handle) == old(self).open_handles().remove(
                    handle,
                )
                &&& after == (HandleData { entries: after.entries, ..before })
                &&& after.entries@.len() == before.entries@.len() + 1
                &&& after.entries@.drop_last() == before.entries@
                &&& interned(
                    old(self).nodes(),
                    old(self).spec_next_inode(),
                    path@,
                    0,
                    final(self).nodes(),
                    added.ino,
                )
                &&& added.offset == after.entries@.len()
                &&& added.type_ == entry_type(kind)
                &&& added.name == name
                &&& final(self).spec_next_inode() == old(self).spec_next_inode() + if is_known(
                    old(self).nodes(),
                    path@,
                ) {
                    0int
                } else {
                    1int
                }
            },
            final(self).spec_next_handle() == old(self).spec_next_handle(),
            final(self).spec_root() == old(self).spec_root(),
    {
        if name.as_str().unicode_len() == 0 || same_text(name.as_str(), ".") || same_text(
            name.as_str(),
            "..",
        ) {
            return ;
        }
        let ino: u64 = self.intern_path(path, 0);
        match self.handles.remove(&handle) {
            Some(data) => {
                let mut listed: HandleData = data;
                let offset: u64 = listed.entries.len() as u64 + 1;
                listed.entries.push(
                    CachedDirEntry { ino, offset, type_: dirent_type(kind), name },
                );
                assert(listed.entries@.drop_last() =~= data.entries@);
                self.handles.insert(handle, listed);
                assert(self.handles@.remove(handle) =~= old(self).handles@.remove(handle));
                assert(self.handles@.dom() =~= old(self).handles@.dom());
            },
            None => {
                assert(false);
            },
        }
    }

    /// Every entry of an open directory was read.
    pub fn filled(&mut self, handle: u64)
        requires
            old(self).wf(),
            old(self).open_handles().contains_key(handle),
        ensures
            final(self).wf(),
            final(self).open_handles() == old(self).open_handles().insert(
                handle,
                (HandleData { ready: true, ..old(self).open_handles()[handle] }),
            ),
            final(self).spec_next_handle() == old(self).spec_next_handle(),
            final(self).same_nodes(*old(self)),
    {
        match self.handles.remove(&handle) {
            Some(data) => {
                let mut listed: HandleData = data;
                listed.ready = true;
                self.handles.insert(handle, listed);
                assert(self.handles@ =~= old(self).handles@.insert(
                    handle,
                    (HandleData { ready: true, ..old(self).open_handles()[handle] }),
                ));
            },
            None => {
                assert(false);
            },
        }
    }

    /// The entry of an open directory that stands at a place.
    pub fn get_entry<'a>(&'a self, handle: u64, offset: u64) -> (r: Option<&'a CachedDirEntry>)
        requires
            self.wf(),
            self.open_handles().contains_key(handle),
        ensures
            match r {
                Some(entry) => (offset as usize) < self.open_handles()[handle].entries@.len()
                    && *entry == self.open_handles()[handle].entries@[(offset as usize) as int],
                None => (offset as usize) >= self.open_handles()[handle].entries@.len(),
            },
    {
        match self.handles.get(&handle) {
            Some(data) => {
                let at: usize = #[verifier::truncate] (offset as usize);
                if at < data.entries.len() {
                    Some(&data.entries[at])
                } else {
                    None
                }
            },
            None => {
                assert(false);
                None
            },
        }
    }
}

/// A path that is looked up again keeps its inode.
pub proof fn known_path_keeps_its_inode(
    nodes: NodesSpec,
    next: u64,
    path: Seq<char>,
    first_count: u64,
    first: NodesSpec,
    inode: u64,
    later_next: u64,
    second_count: u64,
    second: NodesSpec,
    again: u64,
)
    requires
        nodes_wf(nodes, next),
        nodes_wf(first, later_next),
        interned(nodes, next, path, first_count, first, inode),
        interned(first, later_next, path, second_count, second, again),
    ensures
        again == inode,
{
    assert(stands_for(first, inode, path));
}

/// A file that is looked up once and then dropped once leaves no trace.
pub proof fn forgotten_lookup_leaves_no_trace(
    nodes: NodesSpec,
    next: u64,
    path: Seq<char>,
    after: NodesSpec,
    inode: u64,
)
    requires
        nodes_wf(nodes, next),
        !is_known(nodes, path),
        interned(nodes, next, path, 1, after, inode),
    ensures
        forgotten(after, inode, 1) == nodes,
{
    assert(!nodes.contains_key(inode));
    assert(forgotten(after, inode, 1) =~= nodes);
}

/// The root is never forgotten.
pub proof fn root_is_never_forgotten(nodes: NodesSpec, inode: u64, count: u64)
    requires
        nodes.contains_key(ROOT_ID),
    ensures
        forgotten(nodes, inode, count).contains_key(ROOT_ID),
        forgotten(nodes, inode, count)[ROOT_ID].0 == nodes[ROOT_ID].0,
{
}

/// Two paths are the same where every character is, but for the case of a drive's letter.
pub proof fn only_the_drive_letter_ignores_case(a: &str, b: &str, r: bool)
    requires
        call_ensures(same_path, (a, b), r),
    ensures
        a@ == b@ ==> r,
        r ==> a@.len() == b@.len(),
        r ==> forall|i: int| 0 < i < a@.len() ==> #[trigger] a@[i] == b@[i],
        r && a@ != b@ ==> a@.len() >= 2 && a@[1] == ':' && (a@[0] as u32 + 32 == b@[0] as u32
            || b@[0] as u32 + 32 == a@[0] as u32),
        a@.len() == b@.len() && a@.len() >= 2 && 'A' <= a@[0] <= 'Z'
            && b@[0] as int == a@[0] as int + 32
            && a@[1] == ':' && a@.skip(1) == b@.skip(1) ==> r,
{
    if a@.len() == b@.len() && a@.len() >= 2 && 'A' <= a@[0] <= 'Z'
        && b@[0] as int == a@[0] as int + 32 && a@[1]
        == ':' && a@.skip(1) == b@.skip(1) {
        assert forall|i: int| 0 < i < a@.len() implies #[trigger] a@[i] == b@[i] by {
            assert(a@.skip(1)[i - 1] == b@.skip(1)[i - 1]);
        }
        let (x, y) = (path_key(a@), path_key(b@));
        assert(a@[1] == b@[1]);
        assert(ascii_lower(b@[0]) == b@[0]);
        assert(ascii_lower(a@[0]) as int == b@[0] as int);
        assert(ascii_lower(a@[0]) == b@[0]);
        assert(x[0] == b@[0] && y[0] == b@[0]);
        assert forall|i: int| 0 <= i < x.len() implies #[trigger] x[i] == y[i] by {
            if i > 0 {
                assert(a@[i] == b@[i]);
            }
        }
        assert(x =~= y);
    }
    if r {
        let (x, y) = (path_key(a@), path_key(b@));
        assert(x == y);
        assert(x.len() == y.len());
        assert forall|i: int| 0 < i < a@.len() implies #[trigger] a@[i] == b@[i] by {
            assert(x[i] == y[i]);
        }
        assert(a@.len() > 0 ==> x[0] == y[0]);
        if a@ != b@ {
            if a@.len() == 0 || a@[0] == b@[0] {
                assert(a@ =~= b@);
            }
        }
    }
}

/// A path that the guest looks up stands at one inode, whose count grows by the lookups. No other
/// file is touched, and a path that was not known gets an inode that nothing had.
pub proof fn lookups_are_counted_at_one_inode(
    fs: &mut PassthroughFs,
    path: String,
    count: u64,
    r: u64,
    other: u64,
)
    requires
        fs.wf(),
        fs.spec_next_inode() < u64::MAX,
        call_ensures(PassthroughFs::intern_path, (fs, path, count), r),
        other != r,
    ensures
        final(fs).nodes().contains_key(r),
        old(fs).nodes().contains_key(r) ==> final(fs).nodes()[r].0 == old(fs).nodes()[r].0
            && path_key(old(fs).nodes()[r].0) == path_key(path@) && (old(fs).nodes()[r].1 + count
            <= u64::MAX ==> final(fs).nodes()[r].1 == old(fs).nodes()[r].1 + count),
        !old(fs).nodes().contains_key(r) ==> final(fs).nodes()[r] == (path@, count) && (forall|n:
            u64| #[trigger]
            old(fs).nodes().contains_key(n) ==> n < r && path_key(old(fs).nodes()[n].0) != path_key(
                path@,
            )),
        final(fs).nodes().contains_key(other) == old(fs).nodes().contains_key(other),
        old(fs).nodes().contains_key(other) ==> final(fs).nodes()[other] == old(fs).nodes()[other],
        final(fs).open_handles() == old(fs).open_handles(),
{
    assert forall|n: u64| !old(fs).nodes().contains_key(r)
        && #[trigger] old(fs).nodes().contains_key(n) implies n < r
        && path_key(old(fs).nodes()[n].0) != path_key(
        path@,
    ) by {
        assert(!stands_for(old(fs).nodes(), n, path@));
    }
}

/// A file that the guest has looked up is shown under its own number, which one more lookup holds.
pub proof fn looked_up_file_is_shown_by_its_inode(
    fs: &mut PassthroughFs,
    child: String,
    meta: FileMeta,
    r: Entry,
    shown: Stat64,
)
    requires
        fs.wf(),
        fs.spec_next_inode() < u64::MAX,
        call_ensures(PassthroughFs::looked_up, (fs, child, &meta), r),
        call_ensures(stat_from_metadata, (&meta, r.inode), shown),
    ensures
        r.attr == shown,
        r.generation == 0 && r.attr_flags == 0,
        r.attr_timeout == 5 && r.entry_timeout == 5,
        path_key(final(fs).nodes()[r.inode].0) == path_key(child@),
        old(fs).nodes().contains_key(r.inode) && old(fs).nodes()[r.inode].1 < u64::MAX
            ==> final(fs).nodes()[r.inode].1 == old(fs).nodes()[r.inode].1 + 1,
        !old(fs).nodes().contains_key(r.inode) ==> final(fs).nodes()[r.inode].1 == 1,
{
    assert(is_known(old(fs).nodes(), child@) || !is_known(old(fs).nodes(), child@));
}

/// Dropped lookups are taken off the file's count, which ends at nothing. The file then goes,
/// unless it is the root; the built-in program and every other file stay as they are.
pub proof fn dropped_lookups_are_taken_off(
    fs: &mut PassthroughFs,
    inode: u64,
    count: u64,
    other: u64,
)
    requires
        fs.wf(),
        call_ensures(PassthroughFs::forget, (fs, inode, count), ()),
        other != inode,
    ensures
        inode > 2 && old(fs).nodes().contains_key(inode) ==> (final(fs).nodes().contains_key(inode)
            <==> old(fs).nodes()[inode].1 > count),
        inode != 2 && old(fs).nodes().contains_key(inode) && old(fs).nodes()[inode].1 > count
            ==> final(fs).nodes().contains_key(inode)
                && final(fs).nodes()[inode].0 == old(fs).nodes()[inode].0
                && final(fs).nodes()[inode].1 + count == old(fs).nodes()[inode].1,
        inode == 1 && old(fs).nodes().contains_key(inode) ==> final(fs).nodes().contains_key(inode),
        inode == 2 ==> final(fs).nodes() == old(fs).nodes(),
        final(fs).nodes().contains_key(other) == old(fs).nodes().contains_key(other),
        old(fs).nodes().contains_key(other) ==> final(fs).nodes()[other] == old(fs).nodes()[other],
        !old(fs).nodes().contains_key(inode) ==> !final(fs).nodes().contains_key(inode),
{
}

/// How many lookups of a file a list of requests drops.
pub open spec fn dropped(requests: Seq<(u64, u64)>, inode: u64) -> int
    decreases requests.len(),
{
    if requests.len() == 0 {
        0
    } else {
        dropped(requests.drop_last(), inode) + if requests.last().0 == inode {
            requests.last().1 as int
        } else {
            0
        }
    }
}

/// Dropping lookups of several files at once takes off each file what the requests drop of it.
pub proof fn batches_drop_what_their_requests_do(
    fs: &mut PassthroughFs,
    requests: Vec<(u64, u64)>,
    inode: u64,
)
    requires
        fs.wf(),
        call_ensures(PassthroughFs::batch_forget, (fs, &requests), ()),
        old(fs).nodes().contains_key(inode),
        inode != 2,
    ensures
        old(fs).nodes()[inode].1 > dropped(requests@, inode) ==> final(fs).nodes().contains_key(
            inode,
        ) && final(fs).nodes()[inode].0 == old(fs).nodes()[inode].0 && final(fs).nodes()[inode].1
            + dropped(requests@, inode) == old(fs).nodes()[inode].1,
        inode > 2 && 0 < old(fs).nodes()[inode].1 <= dropped(requests@, inode)
            ==> !final(fs).nodes().contains_key(inode),
        inode == 1 ==> final(fs).nodes().contains_key(inode),
{
    lemma_batch(old(fs).nodes(), requests@, inode);
}

proof fn lemma_batch(nodes: NodesSpec, requests: Seq<(u64, u64)>, inode: u64)
    requires
        nodes.contains_key(inode),
        inode != INIT_INODE,
    ensures
        dropped(requests, inode) >= 0,
        nodes[inode].1 > dropped(requests, inode) ==> all_forgotten(nodes, requests).contains_key(
            inode,
        ) && all_forgotten(nodes, requests)[inode].0 == nodes[inode].0 && all_forgotten(
            nodes,
            requests,
        )[inode].1 + dropped(requests, inode) == nodes[inode].1,
        inode != ROOT_ID && 0 < nodes[inode].1 <= dropped(requests, inode) ==> !all_forgotten(
            nodes,
            requests,
        ).contains_key(inode),
        inode == ROOT_ID ==> all_forgotten(nodes, requests).contains_key(inode),
    decreases requests.len(),
{
    if requests.len() > 0 {
        lemma_batch(nodes, requests.drop_last(), inode);
    }
}

/// The root is mounted at its path as the only file, and unmounting leaves none and nothing open.
pub proof fn mounting_knows_the_root_alone(
    fs: &mut PassthroughFs,
    meta: FileMeta,
    r: Stat64,
    shown: Stat64,
    inode: u64,
)
    requires
        fs.wf(),
        call_ensures(PassthroughFs::insert_root, (fs, &meta), r),
        call_ensures(stat_from_metadata, (&meta, 1), shown),
    ensures
        r == shown,
        final(fs).nodes().contains_key(inode) <==> inode == 1,
        final(fs).nodes()[1].0 == old(fs).spec_root(),
        final(fs).nodes()[1].1 == 2,
{
}

/// Unmounting leaves no file known and nothing open.
pub proof fn unmounting_leaves_nothing(fs: &mut PassthroughFs, inode: u64, handle: u64)
    requires
        fs.wf(),
        call_ensures(PassthroughFs::destroy, (fs,), ()),
    ensures
        !final(fs).nodes().contains_key(inode),
        !final(fs).open_handles().contains_key(handle),
        final(fs).spec_root() == old(fs).spec_root(),
{
}

/// The built-in program is found in the root alone and under one name, and its number, attributes
/// and handle are its own.
pub proof fn built_in_program_stands_in_the_root<'a>(
    fs: PassthroughFs,
    parent: u64,
    name: &'a [u8],
    len: usize,
    r: LookupStep<'a>,
    shown: Stat64,
    asked: AttributeStep<'a>,
    opened: OpenStep<'a>,
)
    requires
        fs.wf(),
        call_ensures(PassthroughFs::lookup, (&fs, parent, name, len), r),
        call_ensures(init_stat, (2, len), shown),
        call_ensures(PassthroughFs::getattr, (&fs, 2, len), asked),
        call_ensures(PassthroughFs::open, (&fs, 2, 0), opened),
    ensures
        r is Found <==> parent == 1 && name@ == seq![
            'i' as u8, 'n' as u8, 'i' as u8, 't' as u8, '.' as u8, 'k' as u8, 'r' as u8, 'u' as u8,
            'n' as u8,
        ],
        r is Found ==> r->Found_0.inode == 2 && r->Found_0.attr == shown && r->Found_0.generation
            == 0 && r->Found_0.attr_flags == 0 && r->Found_0.attr_timeout == 5
            && r->Found_0.entry_timeout == 5,
        asked == AttributeStep::<'a>::Known(shown),
        opened == OpenStep::<'a>::Opened(0),
{
}

/// A name is looked up in the directory that the parent stands for, where it leads one step down
/// and the guest knows the parent.
pub proof fn children_are_looked_up_below_their_parent<'a>(
    fs: PassthroughFs,
    parent: u64,
    name: &'a [u8],
    len: usize,
    r: LookupStep<'a>,
    component: Result<&'a str, i32>,
)
    requires
        fs.wf(),
        call_ensures(PassthroughFs::lookup, (&fs, parent, name, len), r),
        call_ensures(cstr_to_component, (name,), component),
        !(r is Found),
    ensures
        r is Child <==> component is Ok && fs.nodes().contains_key(parent),
        r is Child ==> r->parent@ == fs.nodes()[parent].0 && vstd::utf8::encode_utf8(r->name@)
            == name@,
        r is Fail ==> r->Fail_0 == if component is Err {
            22i32
        } else {
            9
        },
{
    if r is Child {
        assert(is_component(r->name@));
    }
    if component is Ok {
        assert(is_component(component->Ok_0@));
        assert(vstd::utf8::encode_utf8(component->Ok_0@) == name@);
    }
}

/// The host is asked about the path that the inode stands for. An inode that the guest does not
/// know is a bad descriptor, and only opens that read are passed on.
pub proof fn host_is_asked_about_the_path<'a>(
    fs: PassthroughFs,
    inode: u64,
    flags: u32,
    path: Result<&'a str, i32>,
    asked: AttributeStep<'a>,
    file: OpenStep<'a>,
    directory: OpenStep<'a>,
    plain: Result<(), i32>,
)
    requires
        fs.wf(),
        inode != 2,
        call_ensures(PassthroughFs::path_of, (&fs, inode), path),
        call_ensures(PassthroughFs::getattr, (&fs, inode, 0), asked),
        call_ensures(PassthroughFs::open, (&fs, inode, flags), file),
        call_ensures(PassthroughFs::opendir, (&fs, inode, flags), directory),
        call_ensures(validate_read_only_open, (flags,), plain),
    ensures
        path is Ok <==> fs.nodes().contains_key(inode),
        path is Ok ==> path->Ok_0@ == fs.nodes()[inode].0,
        path is Err ==> path->Err_0 == 9,
        path is Ok ==> asked is Ask && asked->Ask_0@ == path->Ok_0@,
        path is Err ==> asked == AttributeStep::<'a>::Fail(9),
        path is Ok && plain is Ok ==> file is Ask && file->Ask_0@ == path->Ok_0@ && directory is Ask
            && directory->Ask_0@ == path->Ok_0@,
        path is Ok && plain is Err ==> file == OpenStep::<'a>::Fail(95) && directory == OpenStep::<
            'a,
        >::Fail(95),
        path is Err ==> file == OpenStep::<'a>::Fail(9),
        path is Err && plain is Ok ==> directory == OpenStep::<'a>::Fail(9),
        path is Err && plain is Err ==> directory == OpenStep::<'a>::Fail(95),
{
}

/// A directory is opened as one, anything else but a link as a file.
pub proof fn only_directories_are_listed(kind: FileKind, file: Result<(), i32>, list: Result<(), i32>)
    requires
        call_ensures(PassthroughFs::can_open, (kind,), file),
        call_ensures(PassthroughFs::can_opendir, (kind,), list),
    ensures
        list is Ok <==> kind is Directory,
        list is Err ==> list->Err_0 == 20,
        file is Ok <==> !(kind is Directory) && !(kind is Symlink),
        kind is Directory ==> file == Err::<(), i32>(21),
        kind is Symlink ==> file == Err::<(), i32>(40),
{
}

/// What is opened gets a handle that nothing has, for the inode alone, and no other handle changes.
pub proof fn handles_are_new(
    fs: &mut PassthroughFs,
    inode: u64,
    kind: HandleKind,
    r: u64,
    other: u64,
)
    requires
        fs.wf(),
        fs.spec_next_handle() < u64::MAX,
        call_ensures(PassthroughFs::opened, (fs, inode, kind), r),
        other != r,
    ensures
        !old(fs).open_handles().contains_key(r),
        r != 0,
        final(fs).open_handles()[r].inode == inode,
        final(fs).open_handles()[r].kind == kind,
        !final(fs).open_handles()[r].ready,
        final(fs).open_handles().contains_key(r),
        final(fs).open_handles().contains_key(other) == old(fs).open_handles().contains_key(other),
        old(fs).open_handles().contains_key(other)
            ==> final(fs).open_handles()[other] == old(fs).open_handles()[other],
        final(fs).nodes() == old(fs).nodes(),
{
    let before = old(fs).open_handles();
    let after = final(fs).open_handles().remove(r);
    assert(after == before);
    assert(after.contains_key(other) == before.contains_key(other));
    if before.contains_key(other) {
        assert(after[other] == before[other]);
    }
}

/// A handle is released by the inode that it was opened for. It is then gone, and the others stay.
pub proof fn released_handles_are_gone(
    fs: &mut PassthroughFs,
    inode: u64,
    handle: u64,
    r: Result<(), i32>,
    other: u64,
)
    requires
        fs.wf(),
        call_ensures(PassthroughFs::release, (fs, inode, handle), r) || inode != 2 && call_ensures(
            PassthroughFs::releasedir,
            (fs, inode, handle),
            r,
        ),
        other != handle,
    ensures
        old(fs).open_handles().contains_key(handle) ==> (r is Ok
            <==> old(fs).open_handles()[handle].inode == inode),
        !old(fs).open_handles().contains_key(handle) ==> (r is Ok <==> inode == 2 && handle == 0),
        r is Err ==> r->Err_0 == 9 && final(fs).open_handles() == old(fs).open_handles(),
        r is Ok ==> !final(fs).open_handles().contains_key(handle),
        final(fs).open_handles().contains_key(other) == old(fs).open_handles().contains_key(other),
        old(fs).open_handles().contains_key(other)
            ==> final(fs).open_handles()[other] == old(fs).open_handles()[other],
        final(fs).nodes() == old(fs).nodes(),
{
}

/// A read of the built-in program starts where it asks to, or at the end, and takes what it asks
/// for, or what is left.
pub proof fn program_is_read_up_to_its_end(
    fs: PassthroughFs,
    handle: u64,
    size: u32,
    offset: u64,
    len: usize,
    r: ReadStep,
)
    requires
        fs.wf(),
        offset <= usize::MAX,
        call_ensures(PassthroughFs::read, (&fs, 2, handle, size, offset, len), r),
    ensures
        r is Init,
        r->start + r->len <= len,
        r->len <= size,
        offset <= len ==> r->start == offset,
        offset > len ==> r->start == len && r->len == 0,
        r->len < size ==> r->start + r->len == len,
{
}

/// A file is read, and a directory listed, through a handle that was opened as one for the inode.
pub proof fn handles_serve_their_own_inode<'a>(
    fs: PassthroughFs,
    inode: u64,
    handle: u64,
    size: u32,
    offset: u64,
    read: ReadStep,
    listed: ListStep<'a>,
    data: HandleData,
)
    requires
        fs.wf(),
        inode != 2,
        size > 0,
        call_ensures(PassthroughFs::read, (&fs, inode, handle, size, offset, 0), read),
        call_ensures(PassthroughFs::readdir, (&fs, inode, handle, size), listed),
        fs.open_handles().contains_key(handle) ==> data == fs.open_handles()[handle],
    ensures
        !fs.open_handles().contains_key(handle) || data.inode != inode ==> read == ReadStep::Fail(9)
            && listed == ListStep::<'a>::Fail(9),
        fs.open_handles().contains_key(handle) && data.inode == inode && data.kind is File ==> read
            is File && listed == ListStep::<'a>::Fail(20),
        fs.open_handles().contains_key(handle) && data.inode == inode && data.kind is Directory
            ==> read == ReadStep::Fail(21) && (if data.ready {
            listed is Ready
        } else {
            listed is Fill && listed->Fill_0@ == data.kind->Directory_0@
        }),
{
}

/// A listed file is added behind the others, with its own name and type, and the place that a
/// listing goes on from. The names of the directory itself and the one above are left out.
pub proof fn listed_entries_stand_in_order(
    fs: &mut PassthroughFs,
    handle: u64,
    name: String,
    path: String,
    kind: FileKind,
    type_: u32,
    i: int,
)
    requires
        fs.wf(),
        fs.open_handles().contains_key(handle),
        fs.open_handles()[handle].entries@.len() < u64::MAX,
        fs.spec_next_inode() < u64::MAX,
        call_ensures(PassthroughFs::fill_entry, (fs, handle, name, path, kind), ()),
        call_ensures(dirent_type, (kind,), type_),
    ensures
        name@.len() == 0 || name@ == seq!['.'] || name@ == seq!['.', '.']
            ==> *final(fs) == *old(fs),
        name@.len() > 0 && name@ != seq!['.'] && name@ != seq!['.', '.'] ==> {
            let before = old(fs).open_handles()[handle].entries@;
            let after = final(fs).open_handles()[handle].entries@;
            &&& after.len() == before.len() + 1
            &&& 0 <= i < before.len() ==> after[i] == before[i]
            &&& after.last().name@ == name@
            &&& after.last().type_ == type_
            &&& after.last().offset == after.len()
            &&& path_key(final(fs).nodes()[after.last().ino].0) == path_key(path@)
        },
{
    reveal_strlit(".");
    reveal_strlit("..");
    assert("."@ =~= seq!['.']);
    assert(".."@ =~= seq!['.', '.']);
    if !is_hidden(name@) {
        let before = old(fs).open_handles()[handle].entries@;
        let after = final(fs).open_handles()[handle].entries@;
        if 0 <= i < before.len() {
            assert(after.drop_last()[i] == before[i]);
        }
    }
}

/// A listing goes on at the entry whose place it names.
pub proof fn listing_goes_on_where_it_stopped<'a>(
    fs: PassthroughFs,
    handle: u64,
    offset: u64,
    r: Option<&'a CachedDirEntry>,
    taken: Result<usize, i32>,
    next: ListNext,
)
    requires
        fs.wf(),
        fs.open_handles().contains_key(handle),
        offset <= usize::MAX,
        call_ensures(PassthroughFs::get_entry, (&fs, handle, offset), r),
        call_ensures(entry_taken, (taken,), next),
    ensures
        r is Some <==> offset < fs.open_handles()[handle].entries@.len(),
        r is Some ==> *r->Some_0 == fs.open_handles()[handle].entries@[offset as int],
        next is More <==> taken is Ok && taken->Ok_0 > 0,
        next is Done <==> taken is Ok && taken->Ok_0 == 0,
        taken is Err ==> next == ListNext::Fail(taken->Err_0),
{
}

/// A filled listing is not filled again, and only that changes.
pub proof fn filled_listing_is_ready(fs: &mut PassthroughFs, handle: u64, other: u64)
    requires
        fs.wf(),
        fs.open_handles().contains_key(handle),
        call_ensures(PassthroughFs::filled, (fs, handle), ()),
        other != handle,
    ensures
        final(fs).open_handles()[handle].ready,
        final(fs).open_handles()[handle].entries == old(fs).open_handles()[handle].entries,
        final(fs).open_handles()[handle].inode == old(fs).open_handles()[handle].inode,
        final(fs).open_handles()[handle].kind == old(fs).open_handles()[handle].kind,
        final(fs).open_handles().contains_key(other) == old(fs).open_handles().contains_key(other),
        old(fs).open_handles().contains_key(other)
            ==> final(fs).open_handles()[other] == old(fs).open_handles()[other],
{
}

} // verus!
