use vstd::prelude::*;

verus! {

/// The statement that creates the node table, unless it exists: one row per
/// file or directory, each pointing at its parent directory.
pub const CREATE_NODE_TABLE: &'static str = "
            create table if not exists node (
              inode integer primary key autoincrement not null,
              name varchar not null,

              kind varchar not null,

              size bigint not null,
              blocks bigint not null,
              atime text not null,
              mtime text not null,
              ctime text not null,
              crtime text not null,
              perm smallint not null,
              nlink integer not null,
              uid integer not null,
              gid integer not null,
              rdev integer not null,
              flags integer not null,
              blksize integer not null,

              parent_inode bigint,

              foreign key (parent_inode) references inode(inode)
            );
        ";

/// The statement that drops the node table.
pub const DROP_NODE_TABLE: &'static str = "drop table node";

} // verus!
