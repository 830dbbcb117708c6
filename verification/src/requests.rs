use vstd::prelude::*;

use crate::node::{spec_file_attr, spec_fuse_kind, FileAttr, FileType, Model, NodeKind, Timespec};

verus! {

/// The error number that `libc` gives to "no such file or directory".
pub open spec fn spec_enoent() -> i32 {
    2
}

/// `libc::ENOENT`. `libc` defines it as 2 on Linux, Android, macOS and the
/// BSDs, the targets on which FUSE runs; the contract holds there only
/// (Haiku, Hurd and WASI give it other values).
#[verifier::external_body]
fn enoent() -> (e: i32)
    ensures
        e == spec_enoent(),
{
    libc::ENOENT
}

/// How long the kernel may cache an entry or attributes: one second.
pub open spec fn spec_ttl() -> Timespec {
    Timespec { sec: 1, nsec: 0 }
}

/// How long the kernel may cache an entry or attributes.
pub fn ttl() -> (r: Timespec)
    ensures
        r == spec_ttl(),
{
    Timespec { sec: 1, nsec: 0 }
}

/// Why a query of the node table gave no row.
#[derive(Clone, Debug)]
pub enum QueryError {
    /// No row matched.
    NotFound,
    /// The database failed; the text describes the failure.
    Failed(String),
}

/// A query of the node table.
#[derive(Clone, Debug)]
pub enum NodeQuery {
    /// The first row whose parent is `parent_inode` and whose name is `name`.
    ChildNamed { parent_inode: i64, name: String },
    /// The first row with this inode.
    ByInode { inode: i64 },
    /// The first row with this inode that is a directory.
    DirectoryByInode { inode: i64 },
    /// All rows whose parent is `parent_inode`, without the first `skip` of them.
    ChildrenOf { parent_inode: i64, skip: i64 },
}

impl NodeQuery {
    /// Whether a row satisfies the query's filter.
    pub open spec fn selects(self, m: Model) -> bool {
        match self {
            NodeQuery::ChildNamed { parent_inode, name } => m.parent_inode == Some(parent_inode)
                && m.name@ == name@,
            NodeQuery::ByInode { inode } => m.inode == inode,
            NodeQuery::DirectoryByInode { inode } => m.inode == inode && m.kind == NodeKind::Directory,
            NodeQuery::ChildrenOf { parent_inode, skip } => m.parent_inode == Some(parent_inode),
        }
    }
}

/// The answer to a lookup request.
#[derive(Clone, Debug)]
pub enum EntryReply {
    Error(i32),
    Entry { ttl: Timespec, attr: FileAttr, generation: u64 },
}

/// The answer to a request for attributes.
#[derive(Clone, Debug)]
pub enum AttrReply {
    Error(i32),
    Attr { ttl: Timespec, attr: FileAttr },
}

/// One entry of a directory listing as FUSE takes it: the entry's inode, the
/// offset of the entry that follows it, its type and its name.
#[derive(Clone, Debug)]
pub struct DirEntry {
    pub ino: u64,
    pub offset: i64,
    pub kind: FileType,
    pub name: String,
}

/// What to do after the directory of a listing was looked up.
#[derive(Clone, Debug)]
pub enum ReaddirStep {
    /// Answer the request with this error number.
    Error(i32),
    /// Load the children of the directory with this query, then list them.
    LoadChildren(NodeQuery),
}

/// The query that a lookup of `name` in the directory `parent` makes.
pub fn lookup_query(parent: u64, name: String) -> (q: NodeQuery)
    ensures
        q == (NodeQuery::ChildNamed { parent_inode: parent as i64, name }),
        forall|m: Model|
            #[trigger] q.selects(m) <==> m.parent_inode == Some(parent as i64) && m.name@ == name@,
{
    NodeQuery::ChildNamed { parent_inode: parent as i64, name }
}

/// The answer to a lookup, from the outcome of its query: the node's
/// attributes, cached for one second with generation 0, where the node was
/// found, and "no such file" on any error.
pub fn lookup_reply(found: Result<Model, QueryError>) -> (r: EntryReply)
    ensures
        match found {
            Ok(m) => r == (EntryReply::Entry {
                ttl: spec_ttl(),
                attr: spec_file_attr(m),
                generation: 0,
            }),
            Err(_) => r == EntryReply::Error(spec_enoent()),
        },
{
    match found {
        Ok(m) => EntryReply::Entry { ttl: ttl(), attr: m.into_file_attr(), generation: 0 },
        Err(_) => EntryReply::Error(enoent()),
    }
}

/// The query that a request for the attributes of `ino` makes.
pub fn getattr_query(ino: u64) -> (q: NodeQuery)
    ensures
        q == (NodeQuery::ByInode { inode: ino as i64 }),
        forall|m: Model| #[trigger] q.selects(m) <==> m.inode == ino as i64,
{
    NodeQuery::ByInode { inode: ino as i64 }
}

/// The answer to a request for attributes, from the outcome of its query: the
/// node's attributes, cached for one second, or "no such file" on any error.
pub fn getattr_reply(found: Result<Model, QueryError>) -> (r: AttrReply)
    ensures
        match found {
            Ok(m) => r == (AttrReply::Attr { ttl: spec_ttl(), attr: spec_file_attr(m) }),
            Err(_) => r == AttrReply::Error(spec_enoent()),
        },
{
    match found {
        Ok(m) => AttrReply::Attr { ttl: ttl(), attr: m.into_file_attr() },
        Err(_) => AttrReply::Error(enoent()),
    }
}

/// The error with which a read is answered: reading contents is not supported.
pub fn read_reply() -> (e: i32)
    ensures
        e == spec_enoent(),
{
    enoent()
}

/// The inode that `..` names in a directory: its parent, or the directory
/// itself where it has none (the root).
pub open spec fn spec_parent_or_self(d: Model) -> i64 {
    match d.parent_inode {
        Some(p) => p,
        None => d.inode,
    }
}

/// How many children the children query skips for a listing that starts at
/// `offset`: the two entries `.` and `..` come first, so `offset - 2`, and
/// never less than 0.
pub open spec fn spec_children_skip(offset: i64) -> i64 {
    if offset - 2 > 0 {
        (offset - 2) as i64
    } else {
        0
    }
}

/// A directory's whole listing, before any offset is applied: `.` for the
/// directory, `..` for its parent (both directories), then each child in the
/// order given, as inode, type and name.
pub open spec fn spec_listing(d: Model, children: Seq<Model>) -> Seq<(i64, FileType, Seq<char>)> {
    seq![(d.inode, FileType::Directory, "."@), (spec_parent_or_self(d), FileType::Directory, ".."@)]
        + children.map_values(|c: Model| (c.inode, spec_fuse_kind(c.kind), c.name@))
}

/// The children that a listing shows for the outcome of the children query:
/// none where the query failed.
pub open spec fn spec_loaded(children: Result<Vec<Model>, QueryError>) -> Seq<Model> {
    match children {
        Ok(v) => v@,
        Err(_) => Seq::empty(),
    }
}

/// What a listing from `offset` gives: the entries of `listing` from position
/// `offset as usize` on (none where that is past the end), each with its
/// inode cast to `u64` and with the offset `position + 1`.
pub open spec fn spec_listed(
    r: Seq<DirEntry>,
    listing: Seq<(i64, FileType, Seq<char>)>,
    offset: i64,
) -> bool {
    let skip = (offset as usize) as int;
    &&& r.len() == (if skip < listing.len() { listing.len() - skip } else { 0 })
    &&& forall|i: int|
        #![trigger r[i]]
        0 <= i < r.len() ==> {
            &&& r[i].ino == listing[skip + i].0 as u64
            &&& r[i].offset == (skip + i + 1) as i64
            &&& r[i].kind == listing[skip + i].1
            &&& r[i].name@ == listing[skip + i].2
        }
}

/// The query that a listing of the directory `ino` starts with.
pub fn readdir_directory_query(ino: u64) -> (q: NodeQuery)
    ensures
        q == (NodeQuery::DirectoryByInode { inode: ino as i64 }),
        forall|m: Model|
            #[trigger] q.selects(m) <==> m.inode == ino as i64 && m.kind == NodeKind::Directory,
{
    NodeQuery::DirectoryByInode { inode: ino as i64 }
}

/// What a listing from `offset` does once its directory was looked up: answer
/// "no such file" on any error, else load the directory's children, skipping
/// those that come before `offset`.
pub fn readdir_after_directory(found: &Result<Model, QueryError>, offset: i64) -> (r: ReaddirStep)
    requires
        found is Ok ==> offset >= i64::MIN + 2,
    ensures
        match found {
            Ok(d) => r == ReaddirStep::LoadChildren(
                NodeQuery::ChildrenOf { parent_inode: d.inode, skip: spec_children_skip(offset) },
            ),
            Err(_) => r == ReaddirStep::Error(spec_enoent()),
        },
        found is Ok ==> (r matches ReaddirStep::LoadChildren(NodeQuery::ChildrenOf { parent_inode, skip })
            && parent_inode == found->Ok_0.inode && skip == (if offset > 2 {
            offset - 2
        } else {
            0
        })),
        found is Err ==> r == ReaddirStep::Error(2),
{
    match found {
        Ok(d) => {
            let back = offset - 2;
            let skip = if back > 0 {
                back
            } else {
                0
            };
            ReaddirStep::LoadChildren(NodeQuery::ChildrenOf { parent_inode: d.inode, skip })
        },
        Err(_) => ReaddirStep::Error(enoent()),
    }
}

/// The entries with which a listing of `directory` from `offset` is answered,
/// given the outcome of its children query.
pub fn readdir_listing(
    directory: &Model,
    children: Result<Vec<Model>, QueryError>,
    offset: i64,
) -> (r: Vec<DirEntry>)
    ensures
        spec_listed(r@, spec_listing(*directory, spec_loaded(children)), offset),
{
    let ghost listing = spec_listing(*directory, spec_loaded(children));
    let parent = match directory.parent_inode {
        Some(p) => p,
        None => directory.inode,
    };
    let mut full: Vec<(i64, FileType, String)> = Vec::new();
    full.push((directory.inode, FileType::Directory, String::from_str(".")));
    full.push((parent, FileType::Directory, String::from_str("..")));
    match children {
        Ok(v) => {
            let n = v.len();
            let mut k: usize = 0;
            while k < n
                invariant
                    n == v@.len(),
                    k <= n,
                    full@.len() == k + 2,
                    listing == spec_listing(*directory, v@),
                    forall|j: int|
                        #![trigger full@[j]]
                        0 <= j < k + 2 ==> {
                            &&& full@[j].0 == listing[j].0
                            &&& full@[j].1 == listing[j].1
                            &&& full@[j].2@ == listing[j].2
                        },
                decreases n - k,
            {
                let c = &v[k];
                let kind = c.get_fuse_kind();
                full.push((c.inode, kind, c.name.clone()));
                k = k + 1;
            }
        },
        Err(_) => {},
    }
    assert(full@.len() == listing.len());
    let skip = offset as usize;
    let mut r: Vec<DirEntry> = Vec::new();
    let mut idx = skip;
    while idx < full.len()
        invariant
            skip == offset as usize,
            full@.len() == listing.len(),
            forall|j: int|
                #![trigger full@[j]]
                0 <= j < listing.len() ==> {
                    &&& full@[j].0 == listing[j].0
                    &&& full@[j].1 == listing[j].1
                    &&& full@[j].2@ == listing[j].2
                },
            skip <= idx,
            idx < listing.len() ==> r@.len() == idx - skip,
            idx >= listing.len() ==> r@.len() == (if skip < listing.len() { listing.len() - skip } else { 0 }),
            forall|i: int|
                #![trigger r@[i]]
                0 <= i < r@.len() ==> {
                    &&& r@[i].ino == listing[skip + i].0 as u64
                    &&& r@[i].offset == (skip + i + 1) as i64
                    &&& r@[i].kind == listing[skip + i].1
                    &&& r@[i].name@ == listing[skip + i].2
                },
        decreases full@.len() - idx,
    {
        let entry = &full[idx];
        r.push(DirEntry {
            ino: entry.0 as u64,
            offset: (idx + 1) as i64,
            kind: entry.1,
            name: entry.2.clone(),
        });
        idx = idx + 1;
    }
    r
}

/// What a lookup reports of a node leads back to it: the inode that the
/// lookup reports, taken as the inode of a request for attributes, makes a
/// query that selects the same node, and that request reports the same
/// attributes, with the same time to cache them.
pub proof fn lemma_lookup_and_getattr_agree(m: Model, e: EntryReply, q: NodeQuery, a: AttrReply)
    requires
        e == (EntryReply::Entry { ttl: spec_ttl(), attr: spec_file_attr(m), generation: 0 }),
        q == (NodeQuery::ByInode { inode: e->Entry_attr.ino as i64 }),
        a == (AttrReply::Attr { ttl: spec_ttl(), attr: spec_file_attr(m) }),
    ensures
        q.selects(m),
        e->Entry_attr == a->Attr_attr,
        e->Entry_ttl == a->Attr_ttl,
{
    let x = m.inode;
    assert(((x as u64) as i64) == x) by (bit_vector);
}

/// Every child that a listing shows can be looked up by its name: where the
/// children of a directory carry distinct names, the lookup of a listed
/// child's name in the directory (the inode that `.` names) selects that
/// child, and, once the table gives back one of the directory's children,
/// that child is the listed one and the lookup reports its inode and type.
pub proof fn lemma_listed_child_can_be_looked_up(
    d: Model,
    children: Seq<Model>,
    listed: Seq<DirEntry>,
    j: int,
    name: String,
    q: NodeQuery,
    found: Model,
    reply: EntryReply,
)
    requires
        forall|k: int| 0 <= k < children.len() ==> (#[trigger] children[k]).parent_inode == Some(d.inode),
        forall|k: int, l: int|
            0 <= k < children.len() && 0 <= l < children.len() && (#[trigger] children[k]).name@
                == (#[trigger] children[l]).name@ ==> k == l,
        spec_listed(listed, spec_listing(d, children), 0),
        2 <= j < listed.len(),
        name@ == listed[j].name@,
        q == (NodeQuery::ChildNamed { parent_inode: listed[0].ino as i64, name }),
        q.selects(found),
        children.contains(found),
        reply == (EntryReply::Entry { ttl: spec_ttl(), attr: spec_file_attr(found), generation: 0 }),
    ensures
        q.selects(children[j - 2]),
        found == children[j - 2],
        reply->Entry_ttl == spec_ttl(),
        reply->Entry_attr.ino == listed[j].ino,
        reply->Entry_attr.kind == listed[j].kind,
{
    assert((0i64 as usize) as int == 0);
    let listing = spec_listing(d, children);
    assert(listed[0].ino == listing[0].0 as u64);
    assert(listing[0].0 == d.inode);
    let x = d.inode;
    assert(((x as u64) as i64) == x) by (bit_vector);
    assert(listed[j].name@ == listing[j].2);
    assert(listing[j] == (children[j - 2].inode, spec_fuse_kind(children[j - 2].kind), children[j - 2].name@));
    let k = choose|k: int| 0 <= k < children.len() && children[k] == found;
    assert(children[k].name@ == children[j - 2].name@);
}

/// A listing resumes where the previous one stopped while the children
/// query skips nothing: for an offset of at most 2, the listing from that
/// offset, made from the children that the query for that offset loads out
/// of `all`, is the listing from 0 (made from all of them) without its first
/// `offset` entries, offsets included.
pub proof fn lemma_readdir_resumes(
    d: Model,
    all: Seq<Model>,
    offset: i64,
    first: Seq<DirEntry>,
    resumed: Seq<DirEntry>,
)
    requires
        0 <= offset <= 2,
        spec_listed(first, spec_listing(d, all), 0),
        spec_listed(resumed, spec_listing(d, all.skip(spec_children_skip(offset) as int)), offset),
    ensures
        spec_children_skip(offset) == 0,
        resumed.len() == first.len() - offset,
        forall|i: int|
            #![trigger resumed[i]]
            0 <= i < resumed.len() ==> {
                &&& resumed[i].ino == first[i + offset].ino
                &&& resumed[i].offset == first[i + offset].offset
                &&& resumed[i].kind == first[i + offset].kind
                &&& resumed[i].name@ == first[i + offset].name@
            },
{
    assert(all.skip(0) =~= all);
    assert((0i64 as usize) as int == 0);
    assert((offset as usize) as int == offset);
    let listing = spec_listing(d, all);
    assert forall|i: int| 0 <= i < resumed.len() implies {
        &&& resumed[i].ino == first[i + offset].ino
        &&& resumed[i].offset == first[i + offset].offset
        &&& resumed[i].kind == first[i + offset].kind
        &&& resumed[i].name@ == first[i + offset].name@
    } by {
        assert(first[i + offset].ino == listing[0 + (i + offset)].0 as u64);
    }
}

/// A lookup or a request for attributes that finds a row reports that row's
/// stored columns, cached for one second.
pub proof fn lemma_replies_report_the_row(m: Model, e: EntryReply, a: AttrReply)
    requires
        e == (EntryReply::Entry { ttl: spec_ttl(), attr: spec_file_attr(m), generation: 0 }),
        a == (AttrReply::Attr { ttl: spec_ttl(), attr: spec_file_attr(m) }),
    ensures
        e->Entry_ttl == (Timespec { sec: 1, nsec: 0 }),
        a->Attr_ttl == (Timespec { sec: 1, nsec: 0 }),
        e->Entry_generation == 0,
        e->Entry_attr.ino == m.inode as u64 && a->Attr_attr.ino == m.inode as u64,
        e->Entry_attr.size == m.size as u64 && a->Attr_attr.size == m.size as u64,
        e->Entry_attr.blocks == m.blocks as u64 && a->Attr_attr.blocks == m.blocks as u64,
        e->Entry_attr.perm == m.perm as u16 && a->Attr_attr.perm == m.perm as u16,
        e->Entry_attr.nlink == m.nlink as u32 && a->Attr_attr.nlink == m.nlink as u32,
        e->Entry_attr.uid == m.uid as u32 && a->Attr_attr.uid == m.uid as u32,
        e->Entry_attr.gid == m.gid as u32 && a->Attr_attr.gid == m.gid as u32,
        e->Entry_attr.rdev == m.rdev as u32 && a->Attr_attr.rdev == m.rdev as u32,
        e->Entry_attr.flags == m.flags as u32 && a->Attr_attr.flags == m.flags as u32,
        e->Entry_attr.mtime.sec == m.mtime.secs && a->Attr_attr.mtime.sec == m.mtime.secs,
        m.kind == NodeKind::Directory ==> e->Entry_attr.kind == FileType::Directory
            && a->Attr_attr.kind == FileType::Directory,
        m.kind == NodeKind::File ==> e->Entry_attr.kind == FileType::RegularFile
            && a->Attr_attr.kind == FileType::RegularFile,
{
    crate::node::lemma_file_attr_is_the_row(m, spec_file_attr(m));
}

/// What a listing holds, position by position: the entry at position `p`
/// of the whole listing is `.` for the directory itself at `p == 0`, `..`
/// at `p == 1` for the directory's parent (the directory itself where it has
/// none), both directories, and the child `p - 2` of those loaded, with its
/// inode, its type and its name, beyond; every entry carries the offset
/// `p + 1`. A listing from `offset` holds the positions from `offset as
/// usize` to the end, so one from 0 holds two entries more than there are
/// children, every child among them.
pub proof fn lemma_listing_holds_dot_entries_then_every_child(
    d: Model,
    children: Seq<Model>,
    offset: i64,
    r: Seq<DirEntry>,
)
    requires
        spec_listed(r, spec_listing(d, children), offset),
    ensures
        ({
            let skip = (offset as usize) as int;
            &&& r.len() == (if skip < children.len() + 2 { children.len() + 2 - skip } else { 0 })
            &&& forall|i: int|
                #![trigger r[i]]
                0 <= i < r.len() ==> {
                    let p = skip + i;
                    &&& r[i].offset == (p + 1) as i64
                    &&& p == 0 ==> r[i].ino == d.inode as u64 && r[i].kind == FileType::Directory
                        && r[i].name@ == seq!['.']
                    &&& p == 1 ==> r[i].ino == (match d.parent_inode {
                        Some(q) => q,
                        None => d.inode,
                    }) as u64 && r[i].kind == FileType::Directory && r[i].name@ == seq!['.', '.']
                    &&& p >= 2 ==> {
                        &&& r[i].ino == children[p - 2].inode as u64
                        &&& r[i].name@ == children[p - 2].name@
                        &&& children[p - 2].kind == NodeKind::File ==> r[i].kind == FileType::RegularFile
                        &&& children[p - 2].kind == NodeKind::Directory ==> r[i].kind == FileType::Directory
                    }
                }
        }),
        offset == 0 ==> r.len() == children.len() + 2,
        offset == 0 ==> forall|k: int|
            0 <= k < children.len() ==> (#[trigger] r[k + 2]).ino == children[k].inode as u64
                && r[k + 2].name@ == children[k].name@,
{
    reveal_strlit(".");
    reveal_strlit("..");
    let skip = (offset as usize) as int;
    let listing = spec_listing(d, children);
    assert(listing.len() == children.len() + 2);
    assert forall|i: int| #![trigger r[i]] 0 <= i < r.len() implies {
        let p = skip + i;
        &&& r[i].offset == (p + 1) as i64
        &&& p == 0 ==> r[i].ino == d.inode as u64 && r[i].kind == FileType::Directory && r[i].name@
            == seq!['.']
        &&& p == 1 ==> r[i].ino == (match d.parent_inode {
            Some(q) => q,
            None => d.inode,
        }) as u64 && r[i].kind == FileType::Directory && r[i].name@ == seq!['.', '.']
        &&& p >= 2 ==> {
            &&& r[i].ino == children[p - 2].inode as u64
            &&& r[i].name@ == children[p - 2].name@
            &&& children[p - 2].kind == NodeKind::File ==> r[i].kind == FileType::RegularFile
            &&& children[p - 2].kind == NodeKind::Directory ==> r[i].kind == FileType::Directory
        }
    } by {
        let p = skip + i;
        if p >= 2 {
            assert(listing[p] == (children[p - 2].inode, spec_fuse_kind(children[p - 2].kind), children[p - 2].name@));
        }
    }
    if offset == 0 {
        assert((0i64 as usize) as int == 0);
        assert forall|k: int| 0 <= k < children.len() implies (#[trigger] r[k + 2]).ino == children[k].inode
            as u64 && r[k + 2].name@ == children[k].name@ by {
            assert(r[k + 2].ino == listing[k + 2].0 as u64);
        }
    }
}

} // verus!
