use vstd::prelude::*;

verus! {

/// A point in time as seconds and sub-second nanoseconds since the Unix epoch
/// (UTC). `nanos` may exceed one second by a leap second.
#[derive(Clone, Copy, Debug, PartialEq, Eq, Structural)]
pub struct DateTimeUtc {
    pub secs: i64,
    pub nanos: u32,
}

impl DateTimeUtc {
    /// The times that chrono holds: fewer nanoseconds than two seconds' worth
    /// (one more second during a leap second).
    pub open spec fn well_formed(self) -> bool {
        self.nanos < 2_000_000_000
    }

    /// Whether this is a time that chrono holds.
    pub fn is_well_formed(&self) -> (r: bool)
        ensures
            r == self.well_formed(),
    {
        self.nanos < 2_000_000_000
    }

    /// Seconds since the Unix epoch.
    pub fn timestamp(&self) -> (r: i64)
        ensures
            r == self.secs,
    {
        self.secs
    }

    /// Nanoseconds past the last whole second.
    pub fn timestamp_subsec_nanos(&self) -> (r: u32)
        ensures
            r == self.nanos,
    {
        self.nanos
    }
}

/// A time as FUSE takes it: seconds and nanoseconds.
#[derive(Clone, Copy, Debug, PartialEq, Eq, Structural)]
pub struct Timespec {
    pub sec: i64,
    pub nsec: i32,
}

/// The kind of a node as the database stores it.
#[derive(Clone, Copy, Debug, PartialEq, Eq, Structural)]
pub enum NodeKind {
    Directory,
    File,
}

/// The kind of a file as FUSE reports it.
#[derive(Clone, Copy, Debug, PartialEq, Eq, Structural)]
pub enum FileType {
    NamedPipe,
    CharDevice,
    BlockDevice,
    Directory,
    RegularFile,
    Symlink,
    Socket,
}

/// The attributes of a file as FUSE reports them.
#[derive(Clone, Copy, Debug, PartialEq, Eq, Structural)]
pub struct FileAttr {
    pub ino: u64,
    pub size: u64,
    pub blocks: u64,
    pub atime: Timespec,
    pub mtime: Timespec,
    pub ctime: Timespec,
    pub crtime: Timespec,
    pub kind: FileType,
    pub perm: u16,
    pub nlink: u32,
    pub uid: u32,
    pub gid: u32,
    pub rdev: u32,
    pub flags: u32,
}

/// One row of the node table: a file or a directory of the filesystem.
#[derive(Clone, Debug)]
pub struct Model {
    pub inode: i64,
    pub parent_inode: Option<i64>,
    pub name: String,
    pub kind: NodeKind,
    pub size: i64,
    pub blocks: i64,
    pub atime: DateTimeUtc,
    pub mtime: DateTimeUtc,
    pub ctime: DateTimeUtc,
    pub crtime: DateTimeUtc,
    pub perm: i16,
    pub nlink: i32,
    pub uid: i32,
    pub gid: i32,
    pub rdev: i32,
    pub flags: i32,
}

/// The FUSE time of a database time: its seconds, and its nanoseconds cast to `i32`.
pub open spec fn spec_timespec(from: DateTimeUtc) -> Timespec {
    Timespec { sec: from.secs, nsec: from.nanos as i32 }
}

/// The FUSE file type of a node kind.
pub open spec fn spec_fuse_kind(kind: NodeKind) -> FileType {
    match kind {
        NodeKind::File => FileType::RegularFile,
        NodeKind::Directory => FileType::Directory,
    }
}

/// The FUSE attributes of a node: each integer field cast to the unsigned type
/// that FUSE uses, each time converted by `spec_timespec`.
pub open spec fn spec_file_attr(m: Model) -> FileAttr {
    FileAttr {
        ino: m.inode as u64,
        size: m.size as u64,
        blocks: m.blocks as u64,
        atime: spec_timespec(m.atime),
        mtime: spec_timespec(m.mtime),
        ctime: spec_timespec(m.ctime),
        crtime: spec_timespec(m.crtime),
        kind: spec_fuse_kind(m.kind),
        perm: m.perm as u16,
        nlink: m.nlink as u32,
        uid: m.uid as u32,
        gid: m.gid as u32,
        rdev: m.rdev as u32,
        flags: m.flags as u32,
    }
}

/// Converts a database time into a FUSE time. The nanoseconds of a time
/// that chrono can hold (below two seconds' worth, a leap second included)
/// stay non-negative and below that bound.
pub fn datetime_into_timespec(from: DateTimeUtc) -> (r: Timespec)
    ensures
        r == spec_timespec(from),
        r.sec == from.secs,
        r.nsec == from.nanos as i32,
        from.well_formed() ==> r.nsec == from.nanos && 0 <= r.nsec < 2_000_000_000,
{
    Timespec { sec: from.timestamp(), nsec: from.timestamp_subsec_nanos() as i32 }
}

/// The FUSE file type of a node kind: a file is a regular file, a directory a directory.
pub fn fuse_kind(kind: NodeKind) -> (r: FileType)
    ensures
        r == spec_fuse_kind(kind),
        kind == NodeKind::File ==> r == FileType::RegularFile,
        kind == NodeKind::Directory ==> r == FileType::Directory,
{
    match kind {
        NodeKind::File => FileType::RegularFile,
        NodeKind::Directory => FileType::Directory,
    }
}

impl Model {
    /// A row whose four times are times that chrono holds.
    pub open spec fn well_formed(self) -> bool {
        &&& self.atime.well_formed()
        &&& self.mtime.well_formed()
        &&& self.ctime.well_formed()
        &&& self.crtime.well_formed()
    }

    /// The FUSE file type of this node.
    pub fn get_fuse_kind(&self) -> (r: FileType)
        ensures
            r == spec_fuse_kind(self.kind),
    {
        fuse_kind(self.kind)
    }

    /// The FUSE attributes of this node.
    pub fn into_file_attr(self) -> (r: FileAttr)
        ensures
            r == spec_file_attr(self),
            r.ino == self.inode as u64,
            r.size == self.size as u64,
            r.blocks == self.blocks as u64,
            r.atime.sec == self.atime.secs && r.atime.nsec == self.atime.nanos as i32,
            r.mtime.sec == self.mtime.secs && r.mtime.nsec == self.mtime.nanos as i32,
            r.ctime.sec == self.ctime.secs && r.ctime.nsec == self.ctime.nanos as i32,
            r.crtime.sec == self.crtime.secs && r.crtime.nsec == self.crtime.nanos as i32,
            self.kind == NodeKind::File ==> r.kind == FileType::RegularFile,
            self.kind == NodeKind::Directory ==> r.kind == FileType::Directory,
            r.perm == self.perm as u16,
            r.nlink == self.nlink as u32,
            r.uid == self.uid as u32,
            r.gid == self.gid as u32,
            r.rdev == self.rdev as u32,
            r.flags == self.flags as u32,
            self.well_formed() ==> {
                &&& 0 <= r.atime.nsec < 2_000_000_000
                &&& 0 <= r.mtime.nsec < 2_000_000_000
                &&& 0 <= r.ctime.nsec < 2_000_000_000
                &&& 0 <= r.crtime.nsec < 2_000_000_000
            },
    {
        let kind = self.get_fuse_kind();
        FileAttr {
            ino: self.inode as u64,
            size: self.size as u64,
            blocks: self.blocks as u64,
            atime: datetime_into_timespec(self.atime),
            mtime: datetime_into_timespec(self.mtime),
            ctime: datetime_into_timespec(self.ctime),
            crtime: datetime_into_timespec(self.crtime),
            kind,
            perm: self.perm as u16,
            nlink: self.nlink as u32,
            uid: self.uid as u32,
            gid: self.gid as u32,
            rdev: self.rdev as u32,
            flags: self.flags as u32,
        }
    }
}

impl From<Model> for FileAttr {
    /// The FUSE attributes of a node (see `Model::into_file_attr`).
    fn from(m: Model) -> (r: FileAttr) {
        m.into_file_attr()
    }
}

impl vstd::std_specs::convert::FromSpecImpl<Model> for FileAttr {
    open spec fn obeys_from_spec() -> bool {
        true
    }

    open spec fn from_spec(m: Model) -> FileAttr {
        spec_file_attr(m)
    }
}

/// The attributes of a node are its stored columns: each integer column
/// cast to the type FUSE uses, each time with its seconds and nanoseconds, a
/// file reported as a regular file and a directory as a directory.
pub proof fn lemma_file_attr_is_the_row(m: Model, r: FileAttr)
    requires
        r == spec_file_attr(m),
    ensures
        r.ino == m.inode as u64,
        r.size == m.size as u64,
        r.blocks == m.blocks as u64,
        r.atime == (Timespec { sec: m.atime.secs, nsec: m.atime.nanos as i32 }),
        r.mtime == (Timespec { sec: m.mtime.secs, nsec: m.mtime.nanos as i32 }),
        r.ctime == (Timespec { sec: m.ctime.secs, nsec: m.ctime.nanos as i32 }),
        r.crtime == (Timespec { sec: m.crtime.secs, nsec: m.crtime.nanos as i32 }),
        m.kind == NodeKind::File ==> r.kind == FileType::RegularFile,
        m.kind == NodeKind::Directory ==> r.kind == FileType::Directory,
        r.perm == m.perm as u16,
        r.nlink == m.nlink as u32,
        r.uid == m.uid as u32,
        r.gid == m.gid as u32,
        r.rdev == m.rdev as u32,
        r.flags == m.flags as u32,
{
}

} // verus!
