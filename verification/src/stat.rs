//! What the host's file system reports of a path.

use vstd::prelude::*;

verus! {

/// The metadata of one file, as plain numbers. Times are seconds since the
/// epoch with the nanoseconds beside them.
#[derive(Clone, Copy, Debug, PartialEq, Eq)]
pub struct FileStat {
    pub ino: u64,
    pub dev: u64,
    pub nlink: u64,
    pub uid: u32,
    pub size: u64,
    pub atime: i64,
    pub atime_nsec: i64,
    pub mtime: i64,
    pub mtime_nsec: i64,
    pub ctime: i64,
    pub ctime_nsec: i64,
    pub blksize: u64,
    pub blocks: u64,
}

} // verus!
