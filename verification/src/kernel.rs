//! Fixed values of the Linux FUSE kernel ABI and of the Linux error-number
//! and file-locking interfaces.
//!
//! These numbers are part of the wire contract between the kernel and a
//! user-space filesystem; they are the same on every supported platform.

use vstd::prelude::*;

verus! {

// Opcodes of inbound requests.
pub const FUSE_LOOKUP: u32 = 1;

pub const FUSE_FORGET: u32 = 2;

pub const FUSE_GETATTR: u32 = 3;

pub const FUSE_SETATTR: u32 = 4;

pub const FUSE_READLINK: u32 = 5;

pub const FUSE_SYMLINK: u32 = 6;

pub const FUSE_MKNOD: u32 = 8;

pub const FUSE_MKDIR: u32 = 9;

pub const FUSE_UNLINK: u32 = 10;

pub const FUSE_RMDIR: u32 = 11;

pub const FUSE_RENAME: u32 = 12;

pub const FUSE_LINK: u32 = 13;

pub const FUSE_OPEN: u32 = 14;

pub const FUSE_READ: u32 = 15;

pub const FUSE_WRITE: u32 = 16;

pub const FUSE_STATFS: u32 = 17;

pub const FUSE_RELEASE: u32 = 18;

pub const FUSE_FSYNC: u32 = 20;

pub const FUSE_SETXATTR: u32 = 21;

pub const FUSE_GETXATTR: u32 = 22;

pub const FUSE_LISTXATTR: u32 = 23;

pub const FUSE_REMOVEXATTR: u32 = 24;

pub const FUSE_FLUSH: u32 = 25;

pub const FUSE_INIT: u32 = 26;

pub const FUSE_OPENDIR: u32 = 27;

pub const FUSE_READDIR: u32 = 28;

pub const FUSE_RELEASEDIR: u32 = 29;

pub const FUSE_FSYNCDIR: u32 = 30;

pub const FUSE_GETLK: u32 = 31;

pub const FUSE_SETLK: u32 = 32;

pub const FUSE_SETLKW: u32 = 33;

pub const FUSE_ACCESS: u32 = 34;

pub const FUSE_CREATE: u32 = 35;

pub const FUSE_INTERRUPT: u32 = 36;

pub const FUSE_BMAP: u32 = 37;

pub const FUSE_DESTROY: u32 = 38;

pub const FUSE_NOTIFY_REPLY: u32 = 41;

pub const FUSE_BATCH_FORGET: u32 = 42;

pub const FUSE_FALLOCATE: u32 = 43;

pub const FUSE_READDIRPLUS: u32 = 44;

pub const FUSE_RENAME2: u32 = 45;

pub const FUSE_COPY_FILE_RANGE: u32 = 47;

// Codes of outbound notifications, carried in the `error` field of a frame
// whose `unique` is zero.
pub const FUSE_NOTIFY_POLL: i32 = 1;

pub const FUSE_NOTIFY_INVAL_INODE: i32 = 2;

pub const FUSE_NOTIFY_INVAL_ENTRY: i32 = 3;

pub const FUSE_NOTIFY_STORE: i32 = 4;

pub const FUSE_NOTIFY_RETRIEVE: i32 = 5;

pub const FUSE_NOTIFY_DELETE: i32 = 6;

// Flags passed back verbatim in Open/Opendir/Create replies.
pub const FOPEN_DIRECT_IO: u32 = 0x01;

pub const FOPEN_KEEP_CACHE: u32 = 0x02;

pub const FOPEN_NONSEEKABLE: u32 = 0x04;

pub const FOPEN_CACHE_DIR: u32 = 0x08;

// Bits of `release_flags` in a Release request.
pub const FUSE_RELEASE_FLUSH: u32 = 0x01;

pub const FUSE_RELEASE_FLOCK_UNLOCK: u32 = 0x02;

// Bit of `lk_flags` in a Setlk request selecting BSD-style locks.
pub const FUSE_LK_FLOCK: u32 = 0x01;

// Bit of `getattr_flags` saying that the file-handle field is meaningful.
pub const FUSE_GETATTR_FH: u32 = 0x01;

// Bits of `read_flags` and `write_flags` saying that the lock-owner field
// is meaningful.
pub const FUSE_READ_LOCKOWNER: u32 = 0x02;

pub const FUSE_WRITE_LOCKOWNER: u32 = 0x02;

// Bits of `valid` in a Setattr request.
pub const FATTR_MODE: u32 = 0x01;

pub const FATTR_UID: u32 = 0x02;

pub const FATTR_GID: u32 = 0x04;

pub const FATTR_SIZE: u32 = 0x08;

pub const FATTR_ATIME: u32 = 0x10;

pub const FATTR_MTIME: u32 = 0x20;

pub const FATTR_FH: u32 = 0x40;

pub const FATTR_LOCKOWNER: u32 = 0x200;

pub const FATTR_CTIME: u32 = 0x400;

// Linux error numbers the protocol engine sends or recognises.
pub const ENOENT: i32 = 2;

pub const EINTR: i32 = 4;

pub const EIO: i32 = 5;

pub const EAGAIN: i32 = 11;

pub const EINVAL: i32 = 22;

pub const ENODEV: i32 = 19;

pub const ERANGE: i32 = 34;

pub const ENOSYS: i32 = 38;

pub const EPROTO: i32 = 71;

// POSIX record-lock types, as found in the `typ` field of a file lock.
pub const F_RDLCK: u32 = 0;

pub const F_WRLCK: u32 = 1;

pub const F_UNLCK: u32 = 2;

// BSD flock operations, delivered for Setlk requests with the FLOCK bit.
pub const LOCK_SH: u32 = 1;

pub const LOCK_EX: u32 = 2;

pub const LOCK_NB: u32 = 4;

pub const LOCK_UN: u32 = 8;

} // verus!
