//! Plain data types shared between requests, replies and the filesystem
//! handler: file attributes, file locks, filesystem statistics and forget
//! descriptors, together with their kernel wire encodings.

use crate::wire::{put_u32, put_u64};
use vstd::bytes::{spec_u32_to_le_bytes, spec_u64_to_le_bytes};
use vstd::prelude::*;

verus! {

/// Attributes of an inode, laid out as the kernel's 88-byte attribute
/// record (a trailing padding word is always zero).
#[derive(Clone, Copy, Debug, PartialEq, Eq, Structural)]
pub struct FileAttr {
    pub ino: u64,
    pub size: u64,
    pub blocks: u64,
    pub atime: u64,
    pub mtime: u64,
    pub ctime: u64,
    pub atimensec: u32,
    pub mtimensec: u32,
    pub ctimensec: u32,
    pub mode: u32,
    pub nlink: u32,
    pub uid: u32,
    pub gid: u32,
    pub rdev: u32,
    pub blksize: u32,
}

/// The wire bytes of one attribute record.
pub open spec fn attr_bytes(a: FileAttr) -> Seq<u8> {
    spec_u64_to_le_bytes(a.ino) + spec_u64_to_le_bytes(a.size) + spec_u64_to_le_bytes(a.blocks)
        + spec_u64_to_le_bytes(a.atime) + spec_u64_to_le_bytes(a.mtime) + spec_u64_to_le_bytes(
        a.ctime,
    ) + spec_u32_to_le_bytes(a.atimensec) + spec_u32_to_le_bytes(a.mtimensec)
        + spec_u32_to_le_bytes(a.ctimensec) + spec_u32_to_le_bytes(a.mode) + spec_u32_to_le_bytes(
        a.nlink,
    ) + spec_u32_to_le_bytes(a.uid) + spec_u32_to_le_bytes(a.gid) + spec_u32_to_le_bytes(a.rdev)
        + spec_u32_to_le_bytes(a.blksize) + spec_u32_to_le_bytes(0)
}

impl FileAttr {
    /// An attribute record with every field zero.
    pub fn new() -> (r: Self)
        ensures
            r == (FileAttr {
                ino: 0,
                size: 0,
                blocks: 0,
                atime: 0,
                mtime: 0,
                ctime: 0,
                atimensec: 0,
                mtimensec: 0,
                ctimensec: 0,
                mode: 0,
                nlink: 0,
                uid: 0,
                gid: 0,
                rdev: 0,
                blksize: 0,
            }),
    {
        FileAttr {
            ino: 0,
            size: 0,
            blocks: 0,
            atime: 0,
            mtime: 0,
            ctime: 0,
            atimensec: 0,
            mtimensec: 0,
            ctimensec: 0,
            mode: 0,
            nlink: 0,
            uid: 0,
            gid: 0,
            rdev: 0,
            blksize: 0,
        }
    }
}

impl Default for FileAttr {
    fn default() -> (r: Self)
        ensures
            r == (FileAttr {
                ino: 0,
                size: 0,
                blocks: 0,
                atime: 0,
                mtime: 0,
                ctime: 0,
                atimensec: 0,
                mtimensec: 0,
                ctimensec: 0,
                mode: 0,
                nlink: 0,
                uid: 0,
                gid: 0,
                rdev: 0,
                blksize: 0,
            }),
    {
        FileAttr::new()
    }
}

/// Appends the wire bytes of `a` to `out`.
pub fn put_attr(out: &mut Vec<u8>, a: &FileAttr)
    ensures
        final(out)@ == old(out)@ + attr_bytes(*a),
{
    put_u64(out, a.ino);
    put_u64(out, a.size);
    put_u64(out, a.blocks);
    put_u64(out, a.atime);
    put_u64(out, a.mtime);
    put_u64(out, a.ctime);
    put_u32(out, a.atimensec);
    put_u32(out, a.mtimensec);
    put_u32(out, a.ctimensec);
    put_u32(out, a.mode);
    put_u32(out, a.nlink);
    put_u32(out, a.uid);
    put_u32(out, a.gid);
    put_u32(out, a.rdev);
    put_u32(out, a.blksize);
    put_u32(out, 0);
    proof {
        crate::wire::lemma_le_lens();
        assert(out@ =~= old(out)@ + attr_bytes(*a));
    }
}

/// An attribute record is 88 bytes on the wire.
pub proof fn lemma_attr_bytes_len(a: FileAttr)
    ensures
        attr_bytes(a).len() == 88,
{
    crate::wire::lemma_le_lens();
}

/// A POSIX record lock, as carried in lock requests and replies.
#[derive(Clone, Copy, Debug, PartialEq, Eq, Structural)]
pub struct FileLock {
    pub start: u64,
    pub end: u64,
    pub typ: u32,
    pub pid: u32,
}

/// The wire bytes of one file lock.
pub open spec fn lock_bytes(lk: FileLock) -> Seq<u8> {
    spec_u64_to_le_bytes(lk.start) + spec_u64_to_le_bytes(lk.end) + spec_u32_to_le_bytes(lk.typ)
        + spec_u32_to_le_bytes(lk.pid)
}

/// Appends the wire bytes of `lk` to `out`.
pub fn put_lock(out: &mut Vec<u8>, lk: &FileLock)
    ensures
        final(out)@ == old(out)@ + lock_bytes(*lk),
{
    put_u64(out, lk.start);
    put_u64(out, lk.end);
    put_u32(out, lk.typ);
    put_u32(out, lk.pid);
    proof {
        crate::wire::lemma_le_lens();
        assert(out@ =~= old(out)@ + lock_bytes(*lk));
    }
}

/// A file lock is 24 bytes on the wire.
pub proof fn lemma_lock_bytes_len(lk: FileLock)
    ensures
        lock_bytes(lk).len() == 24,
{
    crate::wire::lemma_le_lens();
}

/// Statistics of a mounted filesystem, laid out as the kernel's 80-byte
/// record (padding and spare words are always zero).
#[derive(Clone, Copy, Debug, PartialEq, Eq, Structural)]
pub struct FsStatistics {
    pub blocks: u64,
    pub bfree: u64,
    pub bavail: u64,
    pub files: u64,
    pub ffree: u64,
    pub bsize: u32,
    pub namelen: u32,
    pub frsize: u32,
}

/// The wire bytes of one statistics record.
pub open spec fn statfs_bytes(st: FsStatistics) -> Seq<u8> {
    spec_u64_to_le_bytes(st.blocks) + spec_u64_to_le_bytes(st.bfree) + spec_u64_to_le_bytes(
        st.bavail,
    ) + spec_u64_to_le_bytes(st.files) + spec_u64_to_le_bytes(st.ffree) + spec_u32_to_le_bytes(
        st.bsize,
    ) + spec_u32_to_le_bytes(st.namelen) + spec_u32_to_le_bytes(st.frsize) + spec_u32_to_le_bytes(0)
        + spec_u32_to_le_bytes(0) + spec_u32_to_le_bytes(0) + spec_u32_to_le_bytes(0)
        + spec_u32_to_le_bytes(0) + spec_u32_to_le_bytes(0) + spec_u32_to_le_bytes(0)
}

/// A statistics record is 80 bytes on the wire.
pub proof fn lemma_statfs_bytes_len(st: FsStatistics)
    ensures
        statfs_bytes(st).len() == 80,
{
    crate::wire::lemma_le_lens();
}

/// Appends the wire bytes of `st` to `out`.
pub fn put_statfs(out: &mut Vec<u8>, st: &FsStatistics)
    ensures
        final(out)@ == old(out)@ + statfs_bytes(*st),
{
    put_u64(out, st.blocks);
    put_u64(out, st.bfree);
    put_u64(out, st.bavail);
    put_u64(out, st.files);
    put_u64(out, st.ffree);
    put_u32(out, st.bsize);
    put_u32(out, st.namelen);
    put_u32(out, st.frsize);
    put_u32(out, 0);
    put_u32(out, 0);
    put_u32(out, 0);
    put_u32(out, 0);
    put_u32(out, 0);
    put_u32(out, 0);
    put_u32(out, 0);
    proof {
        crate::wire::lemma_le_lens();
        assert(out@ =~= old(out)@ + statfs_bytes(*st));
    }
}

/// A forget descriptor: the kernel's statement that `nlookup` references
/// to the inode have been dropped.
#[derive(Clone, Copy, Debug, PartialEq, Eq, Structural)]
pub struct Forget {
    pub ino: u64,
    pub nlookup: u64,
}

impl Forget {
    pub fn new(ino: u64, nlookup: u64) -> (r: Self)
        ensures
            r == (Forget { ino, nlookup }),
    {
        Forget { ino, nlookup }
    }

    /// The inode whose references are dropped.
    pub fn ino(&self) -> (r: u64)
        ensures
            r == self.ino,
    {
        self.ino
    }

    /// How many references are dropped.
    pub fn nlookup(&self) -> (r: u64)
        ensures
            r == self.nlookup,
    {
        self.nlookup
    }
}

} // verus!
