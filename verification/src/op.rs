//! The typed operations handed to the filesystem handler, and how each is
//! obtained from a decoded request.
//!
//! The variant set is closed: it is fixed by the kernel ABI.  Each variant
//! carries the parsed fields of its request and the typed reply handle
//! that emits the matching reply, consumed on use.

use crate::common::{FileLock, Forget};
use crate::kernel::{
    FUSE_LK_FLOCK, FUSE_RELEASE_FLOCK_UNLOCK, FUSE_RELEASE_FLUSH, F_RDLCK, F_UNLCK, F_WRLCK,
    LOCK_EX, LOCK_NB, LOCK_SH, LOCK_UN,
};
use crate::reply::{
    ReplyAttr, ReplyBmap, ReplyCreate, ReplyData, ReplyEmpty, ReplyEntry, ReplyLk, ReplyOpen,
    ReplyOpendir, ReplyReadlink, ReplyStatfs, ReplyWrite, ReplyXattr,
};
use crate::request::{InHeader, RequestKind};
use vstd::prelude::*;

verus! {

/// One filesystem operation, as delivered to the handler.
#[derive(Debug)]
pub enum Operation {
    Lookup { parent: u64, name: Vec<u8>, reply: ReplyEntry },
    Forget { forgets: Vec<Forget> },
    Getattr { ino: u64, fh: Option<u64>, reply: ReplyAttr },
    Setattr {
        ino: u64,
        fh: Option<u64>,
        mode: Option<u32>,
        uid: Option<u32>,
        gid: Option<u32>,
        size: Option<u64>,
        atime: Option<(u64, u32)>,
        mtime: Option<(u64, u32)>,
        ctime: Option<(u64, u32)>,
        lock_owner: Option<u64>,
        reply: ReplyAttr,
    },
    Readlink { ino: u64, reply: ReplyReadlink },
    Symlink { parent: u64, name: Vec<u8>, link: Vec<u8>, reply: ReplyEntry },
    Mknod { parent: u64, name: Vec<u8>, mode: u32, rdev: u32, umask: Option<u32>, reply: ReplyEntry },
    Mkdir { parent: u64, name: Vec<u8>, mode: u32, umask: Option<u32>, reply: ReplyEntry },
    Unlink { parent: u64, name: Vec<u8>, reply: ReplyEmpty },
    Rmdir { parent: u64, name: Vec<u8>, reply: ReplyEmpty },
    Rename {
        parent: u64,
        name: Vec<u8>,
        newparent: u64,
        newname: Vec<u8>,
        flags: u32,
        reply: ReplyEmpty,
    },
    Link { ino: u64, newparent: u64, newname: Vec<u8>, reply: ReplyEntry },
    Open { ino: u64, flags: u32, reply: ReplyOpen },
    Read { ino: u64, fh: u64, offset: u64, flags: u32, lock_owner: Option<u64>, reply: ReplyData },
    Write {
        ino: u64,
        fh: u64,
        offset: u64,
        data: Vec<u8>,
        flags: u32,
        lock_owner: Option<u64>,
        reply: ReplyWrite,
    },
    Release {
        ino: u64,
        fh: u64,
        flags: u32,
        lock_owner: Option<u64>,
        flush: bool,
        flock_release: bool,
        reply: ReplyEmpty,
    },
    Statfs { ino: u64, reply: ReplyStatfs },
    Fsync { ino: u64, fh: u64, datasync: bool, reply: ReplyEmpty },
    Setxattr { ino: u64, name: Vec<u8>, value: Vec<u8>, flags: u32, reply: ReplyEmpty },
    Getxattr { ino: u64, name: Vec<u8>, size: u32, reply: ReplyXattr },
    Listxattr { ino: u64, size: u32, reply: ReplyXattr },
    Removexattr { ino: u64, name: Vec<u8>, reply: ReplyEmpty },
    Flush { ino: u64, fh: u64, lock_owner: u64, reply: ReplyEmpty },
    Opendir { ino: u64, flags: u32, reply: ReplyOpendir },
    Readdir { ino: u64, fh: u64, offset: u64, plus: bool, reply: ReplyData },
    Releasedir { ino: u64, fh: u64, flags: u32, reply: ReplyEmpty },
    Fsyncdir { ino: u64, fh: u64, datasync: bool, reply: ReplyEmpty },
    Getlk { ino: u64, fh: u64, owner: u64, lk: FileLock, reply: ReplyLk },
    Setlk { ino: u64, fh: u64, owner: u64, lk: FileLock, sleep: bool, reply: ReplyEmpty },
    Flock { ino: u64, fh: u64, owner: u64, op: u32, reply: ReplyEmpty },
    Access { ino: u64, mask: u32, reply: ReplyEmpty },
    Create {
        parent: u64,
        name: Vec<u8>,
        mode: u32,
        umask: Option<u32>,
        open_flags: u32,
        reply: ReplyCreate,
    },
    Bmap { ino: u64, block: u64, blocksize: u32, reply: ReplyBmap },
    Fallocate { ino: u64, fh: u64, offset: u64, length: u64, mode: u32, reply: ReplyEmpty },
    CopyFileRange {
        ino_in: u64,
        fh_in: u64,
        off_in: u64,
        ino_out: u64,
        fh_out: u64,
        off_out: u64,
        len: u64,
        flags: u64,
        reply: ReplyWrite,
    },
}

/// The BSD flock operation delivered for a Setlk request with the FLOCK
/// bit: the lock type translated, with `LOCK_NB` added unless the request
/// may sleep.
pub open spec fn flock_op_of(typ: u32, sleep: bool) -> u32 {
    let base = if typ == F_RDLCK {
        LOCK_SH
    } else if typ == F_WRLCK {
        LOCK_EX
    } else {
        LOCK_UN
    };
    if sleep {
        base
    } else {
        base | LOCK_NB
    }
}

/// Whether a decoded request kind is delivered to the filesystem handler
/// as an operation.  Session-internal kinds are not; neither is a
/// FLOCK-style Setlk whose lock type is invalid (it is answered with EIO).
pub open spec fn op_settable(kind: RequestKind) -> bool {
    match kind {
        RequestKind::Init { .. } => false,
        RequestKind::Destroy => false,
        RequestKind::Interrupt { .. } => false,
        RequestKind::NotifyReply { .. } => false,
        RequestKind::Unknown => false,
        RequestKind::Setlk { fh: _, owner: _, lk, lk_flags, sleep: _ } => {
            lk_flags & FUSE_LK_FLOCK == 0 || lk.typ == F_RDLCK || lk.typ == F_WRLCK || lk.typ
                == F_UNLCK
        },
        _ => true,
    }
}

/// How the operation delivered for a request relates to the decoded
/// request: every parsed field is carried over, the node id comes from the
/// header, and each fresh reply handle starts in its default state.
/// `minor` is the negotiated protocol minor version, which governs how
/// Release flags are read.
pub open spec fn op_ok(minor: u32, header: InHeader, kind: RequestKind, op: Operation) -> bool {
    let ino = header.nodeid;
    match kind {
        RequestKind::Lookup { name } => {
            &&& op matches Operation::Lookup { parent, name: n2, reply }
            &&& parent == ino
            &&& n2@ == name@
            &&& reply.spec_entry_valid() == (0u64, 0u32)
            &&& reply.spec_attr_valid() == (0u64, 0u32)
        },
        RequestKind::Forget { nlookup } => {
            &&& op matches Operation::Forget { forgets }
            &&& forgets@.len() == 1
            &&& forgets@[0] == (Forget { ino, nlookup })
        },
        RequestKind::BatchForget { forgets } => {
            &&& op matches Operation::Forget { forgets: f2 }
            &&& f2@ == forgets@
        },
        RequestKind::Getattr { fh } => {
            &&& op matches Operation::Getattr { ino: i2, fh: f2, reply }
            &&& i2 == ino
            &&& f2 == fh
            &&& reply.spec_attr_valid() == (0u64, 0u32)
        },
        RequestKind::Setattr { mode, uid, gid, size, fh, atime, mtime, ctime, lock_owner } => {
            &&& op matches Operation::Setattr {
                ino: i2,
                fh: f2,
                mode: m2,
                uid: u2,
                gid: g2,
                size: s2,
                atime: a2,
                mtime: mt2,
                ctime: c2,
                lock_owner: lo2,
                reply,
            }
            &&& i2 == ino
            &&& f2 == fh
            &&& m2 == mode
            &&& u2 == uid
            &&& g2 == gid
            &&& s2 == size
            &&& a2 == atime
            &&& mt2 == mtime
            &&& c2 == ctime
            &&& lo2 == lock_owner
            &&& reply.spec_attr_valid() == (0u64, 0u32)
        },
        RequestKind::Readlink => {
            op matches Operation::Readlink { ino: i2, reply: _ } && i2 == ino
        },
        RequestKind::Symlink { name, link } => {
            &&& op matches Operation::Symlink { parent, name: n2, link: l2, reply }
            &&& parent == ino
            &&& n2@ == name@
            &&& l2@ == link@
            &&& reply.spec_entry_valid() == (0u64, 0u32)
            &&& reply.spec_attr_valid() == (0u64, 0u32)
        },
        RequestKind::Mknod { name, mode, rdev, umask } => {
            &&& op matches Operation::Mknod {
                parent,
                name: n2,
                mode: m2,
                rdev: r2,
                umask: um2,
                reply: _,
            }
            &&& parent == ino
            &&& n2@ == name@
            &&& m2 == mode
            &&& r2 == rdev
            &&& um2 == Some(umask)
        },
        RequestKind::Mkdir { name, mode, umask } => {
            &&& op matches Operation::Mkdir { parent, name: n2, mode: m2, umask: um2, reply: _ }
            &&& parent == ino
            &&& n2@ == name@
            &&& m2 == mode
            &&& um2 == Some(umask)
        },
        RequestKind::Unlink { name } => {
            &&& op matches Operation::Unlink { parent, name: n2, reply: _ }
            &&& parent == ino
            &&& n2@ == name@
        },
        RequestKind::Rmdir { name } => {
            &&& op matches Operation::Rmdir { parent, name: n2, reply: _ }
            &&& parent == ino
            &&& n2@ == name@
        },
        RequestKind::Rename { newdir, name, newname } => {
            &&& op matches Operation::Rename {
                parent,
                name: n2,
                newparent,
                newname: nn2,
                flags,
                reply: _,
            }
            &&& parent == ino
            &&& n2@ == name@
            &&& newparent == newdir
            &&& nn2@ == newname@
            &&& flags == 0
        },
        RequestKind::Rename2 { newdir, flags, name, newname } => {
            &&& op matches Operation::Rename {
                parent,
                name: n2,
                newparent,
                newname: nn2,
                flags: fl2,
                reply: _,
            }
            &&& parent == ino
            &&& n2@ == name@
            &&& newparent == newdir
            &&& nn2@ == newname@
            &&& fl2 == flags
        },
        RequestKind::Link { oldnodeid, newname } => {
            &&& op matches Operation::Link { ino: i2, newparent, newname: nn2, reply: _ }
            &&& i2 == oldnodeid
            &&& newparent == ino
            &&& nn2@ == newname@
        },
        RequestKind::Open { flags } => {
            &&& op matches Operation::Open { ino: i2, flags: fl2, reply }
            &&& i2 == ino
            &&& fl2 == flags
            &&& reply.spec_open_flags() == 0
        },
        RequestKind::Read { fh, offset, size, flags, lock_owner } => {
            &&& op matches Operation::Read {
                ino: i2,
                fh: f2,
                offset: o2,
                flags: fl2,
                lock_owner: lo2,
                reply,
            }
            &&& i2 == ino
            &&& f2 == fh
            &&& o2 == offset
            &&& fl2 == flags
            &&& lo2 == lock_owner
            &&& reply.spec_size() == size
        },
        RequestKind::Write { fh, offset, size: _, flags, lock_owner, data } => {
            &&& op matches Operation::Write {
                ino: i2,
                fh: f2,
                offset: o2,
                data: d2,
                flags: fl2,
                lock_owner: lo2,
                reply: _,
            }
            &&& i2 == ino
            &&& f2 == fh
            &&& o2 == offset
            &&& d2@ == data@
            &&& fl2 == flags
            &&& lo2 == lock_owner
        },
        RequestKind::Release { fh, flags, release_flags, lock_owner } => {
            &&& op matches Operation::Release {
                ino: i2,
                fh: f2,
                flags: fl2,
                lock_owner: lo2,
                flush,
                flock_release,
                reply: _,
            }
            &&& i2 == ino
            &&& f2 == fh
            &&& fl2 == flags
            &&& flush == (minor >= 8 && release_flags & FUSE_RELEASE_FLUSH != 0)
            &&& flock_release == (release_flags & FUSE_RELEASE_FLOCK_UNLOCK != 0)
            &&& lo2 == (if minor >= 8 || release_flags & FUSE_RELEASE_FLOCK_UNLOCK != 0 {
                Some(lock_owner)
            } else {
                Option::<u64>::None
            })
        },
        RequestKind::Statfs => {
            op matches Operation::Statfs { ino: i2, reply: _ } && i2 == ino
        },
        RequestKind::Fsync { fh, datasync } => {
            &&& op matches Operation::Fsync { ino: i2, fh: f2, datasync: d2, reply: _ }
            &&& i2 == ino
            &&& f2 == fh
            &&& d2 == datasync
        },
        RequestKind::Setxattr { name, value, flags } => {
            &&& op matches Operation::Setxattr { ino: i2, name: n2, value: v2, flags: fl2, reply: _ }
            &&& i2 == ino
            &&& n2@ == name@
            &&& v2@ == value@
            &&& fl2 == flags
        },
        RequestKind::Getxattr { name, size } => {
            &&& op matches Operation::Getxattr { ino: i2, name: n2, size: s2, reply: _ }
            &&& i2 == ino
            &&& n2@ == name@
            &&& s2 == size
        },
        RequestKind::Listxattr { size } => {
            &&& op matches Operation::Listxattr { ino: i2, size: s2, reply: _ }
            &&& i2 == ino
            &&& s2 == size
        },
        RequestKind::Removexattr { name } => {
            &&& op matches Operation::Removexattr { ino: i2, name: n2, reply: _ }
            &&& i2 == ino
            &&& n2@ == name@
        },
        RequestKind::Flush { fh, lock_owner } => {
            &&& op matches Operation::Flush { ino: i2, fh: f2, lock_owner: lo2, reply: _ }
            &&& i2 == ino
            &&& f2 == fh
            &&& lo2 == lock_owner
        },
        RequestKind::Opendir { flags } => {
            &&& op matches Operation::Opendir { ino: i2, flags: fl2, reply }
            &&& i2 == ino
            &&& fl2 == flags
            &&& reply.spec_open_flags() == 0
        },
        RequestKind::Readdir { fh, offset, size, plus } => {
            &&& op matches Operation::Readdir { ino: i2, fh: f2, offset: o2, plus: p2, reply }
            &&& i2 == ino
            &&& f2 == fh
            &&& o2 == offset
            &&& p2 == plus
            &&& reply.spec_size() == size
        },
        RequestKind::Releasedir { fh, flags } => {
            &&& op matches Operation::Releasedir { ino: i2, fh: f2, flags: fl2, reply: _ }
            &&& i2 == ino
            &&& f2 == fh
            &&& fl2 == flags
        },
        RequestKind::Fsyncdir { fh, datasync } => {
            &&& op matches Operation::Fsyncdir { ino: i2, fh: f2, datasync: d2, reply: _ }
            &&& i2 == ino
            &&& f2 == fh
            &&& d2 == datasync
        },
        RequestKind::Getlk { fh, owner, lk } => {
            &&& op matches Operation::Getlk { ino: i2, fh: f2, owner: o2, lk: l2, reply: _ }
            &&& i2 == ino
            &&& f2 == fh
            &&& o2 == owner
            &&& l2 == lk
        },
        RequestKind::Setlk { fh, owner, lk, lk_flags, sleep } => {
            if lk_flags & FUSE_LK_FLOCK != 0 {
                &&& op matches Operation::Flock { ino: i2, fh: f2, owner: o2, op: fop, reply: _ }
                &&& i2 == ino
                &&& f2 == fh
                &&& o2 == owner
                &&& fop == flock_op_of(lk.typ, sleep)
            } else {
                &&& op matches Operation::Setlk {
                    ino: i2,
                    fh: f2,
                    owner: o2,
                    lk: l2,
                    sleep: s2,
                    reply: _,
                }
                &&& i2 == ino
                &&& f2 == fh
                &&& o2 == owner
                &&& l2 == lk
                &&& s2 == sleep
            }
        },
        RequestKind::Access { mask } => {
            &&& op matches Operation::Access { ino: i2, mask: m2, reply: _ }
            &&& i2 == ino
            &&& m2 == mask
        },
        RequestKind::Create { name, mode, umask, open_flags } => {
            &&& op matches Operation::Create {
                parent,
                name: n2,
                mode: m2,
                umask: um2,
                open_flags: of2,
                reply,
            }
            &&& parent == ino
            &&& n2@ == name@
            &&& m2 == mode
            &&& um2 == Some(umask)
            &&& of2 == open_flags
            &&& reply.spec_entry_valid() == (0u64, 0u32)
            &&& reply.spec_attr_valid() == (0u64, 0u32)
            &&& reply.spec_open_flags() == 0
        },
        RequestKind::Bmap { block, blocksize } => {
            &&& op matches Operation::Bmap { ino: i2, block: b2, blocksize: bs2, reply: _ }
            &&& i2 == ino
            &&& b2 == block
            &&& bs2 == blocksize
        },
        RequestKind::Fallocate { fh, offset, length, mode } => {
            &&& op matches Operation::Fallocate {
                ino: i2,
                fh: f2,
                offset: o2,
                length: l2,
                mode: m2,
                reply: _,
            }
            &&& i2 == ino
            &&& f2 == fh
            &&& o2 == offset
            &&& l2 == length
            &&& m2 == mode
        },
        RequestKind::CopyFileRange { fh_in, off_in, nodeid_out, fh_out, off_out, len, flags } => {
            &&& op matches Operation::CopyFileRange {
                ino_in,
                fh_in: fi2,
                off_in: oi2,
                ino_out,
                fh_out: fo2,
                off_out: oo2,
                len: l2,
                flags: fl2,
                reply: _,
            }
            &&& ino_in == ino
            &&& fi2 == fh_in
            &&& oi2 == off_in
            &&& ino_out == nodeid_out
            &&& fo2 == fh_out
            &&& oo2 == off_out
            &&& l2 == len
            &&& fl2 == flags
        },
        RequestKind::Init { .. } => false,
        RequestKind::Destroy => false,
        RequestKind::Interrupt { .. } => false,
        RequestKind::NotifyReply { .. } => false,
        RequestKind::Unknown => false,
    }
}

} // verus!
