//! Decoding of inbound frames: the fixed 40-byte request header, the
//! opcode-specific argument region, and any trailing payload.
//!
//! The kernel delivers exactly one request per read of the device, so a
//! decoder always sees a whole frame.  Decoding touches plain bytes only;
//! the decoded record owns copies of the variable-length regions.

use crate::common::{FileLock, Forget};
use crate::kernel::{
    FATTR_ATIME, FATTR_CTIME, FATTR_FH, FATTR_GID, FATTR_LOCKOWNER, FATTR_MODE, FATTR_MTIME,
    FATTR_SIZE, FATTR_UID, FUSE_ACCESS, FUSE_BATCH_FORGET, FUSE_BMAP, FUSE_COPY_FILE_RANGE,
    FUSE_CREATE, FUSE_DESTROY, FUSE_FALLOCATE, FUSE_FLUSH, FUSE_FORGET, FUSE_FSYNC, FUSE_FSYNCDIR,
    FUSE_GETATTR, FUSE_GETATTR_FH, FUSE_GETLK, FUSE_GETXATTR, FUSE_INIT, FUSE_INTERRUPT,
    FUSE_LINK, FUSE_LISTXATTR, FUSE_LOOKUP, FUSE_MKDIR, FUSE_MKNOD, FUSE_NOTIFY_REPLY, FUSE_OPEN,
    FUSE_OPENDIR, FUSE_READ, FUSE_READDIR, FUSE_READDIRPLUS, FUSE_READLINK, FUSE_READ_LOCKOWNER,
    FUSE_RELEASE, FUSE_RELEASEDIR, FUSE_REMOVEXATTR, FUSE_RENAME, FUSE_RENAME2, FUSE_RMDIR,
    FUSE_SETATTR, FUSE_SETLK, FUSE_SETLKW, FUSE_SETXATTR, FUSE_STATFS, FUSE_SYMLINK, FUSE_UNLINK,
    FUSE_WRITE, FUSE_WRITE_LOCKOWNER,
};
use crate::wire::{get_u32, get_u64, le32, le64};
use vstd::prelude::*;
use vstd::slice::slice_subrange;

verus! {

/// Why an inbound frame could not be decoded.
#[derive(Clone, Copy, Debug, PartialEq, Eq, Structural)]
pub enum DecodeError {
    /// The buffer ends before the header, argument or payload does.
    Truncated,
    /// A name field is not terminated inside the buffer.
    BadName,
}

/// The fixed header that starts every inbound frame.
#[derive(Clone, Copy, Debug, PartialEq, Eq, Structural)]
pub struct InHeader {
    /// Total length of the frame, header included.
    pub len: u32,
    /// Which operation the kernel requests.
    pub opcode: u32,
    /// The kernel's identifier for this request; replies carry it back.
    pub unique: u64,
    /// The inode the operation acts on.
    pub nodeid: u64,
    /// User id of the calling process.
    pub uid: u32,
    /// Group id of the calling process.
    pub gid: u32,
    /// Process id of the calling process.
    pub pid: u32,
}

/// The header fields as laid out at the start of `b`.
pub open spec fn spec_header(b: Seq<u8>) -> InHeader {
    InHeader {
        len: le32(b, 0),
        opcode: le32(b, 4),
        unique: le64(b, 8),
        nodeid: le64(b, 16),
        uid: le32(b, 24),
        gid: le32(b, 28),
        pid: le32(b, 32),
    }
}

/// Reads the fixed header from the front of `buf`.
fn parse_header(buf: &[u8]) -> (h: InHeader)
    requires
        40 <= buf@.len() <= usize::MAX,
    ensures
        h == spec_header(buf@),
{
    InHeader {
        len: get_u32(buf, 0),
        opcode: get_u32(buf, 4),
        unique: get_u64(buf, 8),
        nodeid: get_u64(buf, 16),
        uid: get_u32(buf, 24),
        gid: get_u32(buf, 28),
        pid: get_u32(buf, 32),
    }
}

/// The decoded argument of one request, one variant per opcode the session
/// understands.  Variable-length regions are owned copies of the frame.
#[derive(Debug)]
pub enum RequestKind {
    Init { major: u32, minor: u32, max_readahead: u32, flags: u32 },
    Destroy,
    Interrupt { unique: u64 },
    Lookup { name: Vec<u8> },
    Forget { nlookup: u64 },
    BatchForget { forgets: Vec<Forget> },
    Getattr { fh: Option<u64> },
    Setattr {
        mode: Option<u32>,
        uid: Option<u32>,
        gid: Option<u32>,
        size: Option<u64>,
        fh: Option<u64>,
        atime: Option<(u64, u32)>,
        mtime: Option<(u64, u32)>,
        ctime: Option<(u64, u32)>,
        lock_owner: Option<u64>,
    },
    Readlink,
    Symlink { name: Vec<u8>, link: Vec<u8> },
    Mknod { name: Vec<u8>, mode: u32, rdev: u32, umask: u32 },
    Mkdir { name: Vec<u8>, mode: u32, umask: u32 },
    Unlink { name: Vec<u8> },
    Rmdir { name: Vec<u8> },
    Rename { newdir: u64, name: Vec<u8>, newname: Vec<u8> },
    Rename2 { newdir: u64, flags: u32, name: Vec<u8>, newname: Vec<u8> },
    Link { oldnodeid: u64, newname: Vec<u8> },
    Open { flags: u32 },
    Read { fh: u64, offset: u64, size: u32, flags: u32, lock_owner: Option<u64> },
    Write { fh: u64, offset: u64, size: u32, flags: u32, lock_owner: Option<u64>, data: Vec<u8> },
    Release { fh: u64, flags: u32, release_flags: u32, lock_owner: u64 },
    Statfs,
    Fsync { fh: u64, datasync: bool },
    Setxattr { name: Vec<u8>, value: Vec<u8>, flags: u32 },
    Getxattr { name: Vec<u8>, size: u32 },
    Listxattr { size: u32 },
    Removexattr { name: Vec<u8> },
    Flush { fh: u64, lock_owner: u64 },
    Opendir { flags: u32 },
    Readdir { fh: u64, offset: u64, size: u32, plus: bool },
    Releasedir { fh: u64, flags: u32 },
    Fsyncdir { fh: u64, datasync: bool },
    Getlk { fh: u64, owner: u64, lk: FileLock },
    Setlk { fh: u64, owner: u64, lk: FileLock, lk_flags: u32, sleep: bool },
    Access { mask: u32 },
    Create { name: Vec<u8>, mode: u32, umask: u32, open_flags: u32 },
    Bmap { block: u64, blocksize: u32 },
    Fallocate { fh: u64, offset: u64, length: u64, mode: u32 },
    CopyFileRange {
        fh_in: u64,
        off_in: u64,
        nodeid_out: u64,
        fh_out: u64,
        off_out: u64,
        len: u64,
        flags: u64,
    },
    NotifyReply { offset: u64, size: u32, data: Vec<u8> },
    Unknown,
}

/// One decoded inbound request.
#[derive(Debug)]
pub struct Request {
    pub header: InHeader,
    pub kind: RequestKind,
}

/// The position of the first zero byte of `s` at or after `i`, or `s.len()`
/// if there is none.
pub open spec fn find_nul(s: Seq<u8>, i: int) -> int
    recommends
        0 <= i <= s.len(),
    decreases s.len() - i,
{
    if i < 0 || i >= s.len() {
        s.len() as int
    } else if s[i] == 0 {
        i
    } else {
        find_nul(s, i + 1)
    }
}

/// Copies the zero-terminated region of `buf` that starts at `start`.
/// Returns the bytes before the terminator and the index just past it.
fn take_nul_str(buf: &[u8], start: usize) -> (r: Result<(Vec<u8>, usize), DecodeError>)
    requires
        start <= buf@.len() <= usize::MAX,
    ensures
        match r {
            Ok((name, end)) => {
                let p = find_nul(buf@, start as int);
                &&& p < buf@.len()
                &&& end == p + 1
                &&& name@ == buf@.subrange(start as int, p)
            },
            Err(e) => e == DecodeError::BadName && find_nul(buf@, start as int) == buf@.len(),
        },
{
    let mut i: usize = start;
    while i < buf.len()
        invariant
            start <= i <= buf@.len() <= usize::MAX,
            find_nul(buf@, start as int) == find_nul(buf@, i as int),
            forall|j: int| start <= j < i ==> buf@[j] != 0,
        decreases buf@.len() - i,
    {
        if *vstd::slice::slice_index_get(buf, i) == 0 {
            let name_slice = slice_subrange(buf, start, i);
            let name = vstd::slice::slice_to_vec(name_slice);
            return Ok((name, i + 1));
        }
        i = i + 1;
    }
    Err(DecodeError::BadName)
}

/// Whether the frame `b` can be decoded, and with which error it is
/// refused otherwise.  A frame is refused only when it ends before its
/// opcode's argument region or payload does, or when a name field is not
/// terminated.
pub open spec fn err_of(b: Seq<u8>) -> Option<DecodeError> {
    let n = b.len() as int;
    if n < 40 {
        Some(DecodeError::Truncated)
    } else {
        let op = spec_header(b).opcode;
        if op == FUSE_INIT {
            if n >= 56 {
                Option::<DecodeError>::None
            } else {
                Some(DecodeError::Truncated)
            }
        } else if op == FUSE_DESTROY || op == FUSE_READLINK || op == FUSE_STATFS {
            Option::<DecodeError>::None
        } else if op == FUSE_INTERRUPT || op == FUSE_FORGET {
            if n >= 48 {
                Option::<DecodeError>::None
            } else {
                Some(DecodeError::Truncated)
            }
        } else if op == FUSE_BATCH_FORGET {
            if n >= 48 && 48 + 16 * (le32(b, 40) as int) <= n {
                Option::<DecodeError>::None
            } else {
                Some(DecodeError::Truncated)
            }
        } else if op == FUSE_GETATTR || op == FUSE_BMAP {
            if n >= 56 {
                Option::<DecodeError>::None
            } else {
                Some(DecodeError::Truncated)
            }
        } else if op == FUSE_SETATTR {
            if n >= 128 {
                Option::<DecodeError>::None
            } else {
                Some(DecodeError::Truncated)
            }
        } else if op == FUSE_LOOKUP || op == FUSE_UNLINK || op == FUSE_RMDIR
            || op == FUSE_REMOVEXATTR {
            if find_nul(b, 40) < n {
                Option::<DecodeError>::None
            } else {
                Some(DecodeError::BadName)
            }
        } else if op == FUSE_SYMLINK {
            let p1 = find_nul(b, 40);
            if p1 < n && find_nul(b, p1 + 1) < n {
                Option::<DecodeError>::None
            } else {
                Some(DecodeError::BadName)
            }
        } else if op == FUSE_MKNOD || op == FUSE_CREATE {
            if n < 56 {
                Some(DecodeError::Truncated)
            } else if find_nul(b, 56) < n {
                Option::<DecodeError>::None
            } else {
                Some(DecodeError::BadName)
            }
        } else if op == FUSE_MKDIR {
            if n < 48 {
                Some(DecodeError::Truncated)
            } else if find_nul(b, 48) < n {
                Option::<DecodeError>::None
            } else {
                Some(DecodeError::BadName)
            }
        } else if op == FUSE_RENAME {
            if n < 48 {
                Some(DecodeError::Truncated)
            } else {
                let p1 = find_nul(b, 48);
                if p1 < n && find_nul(b, p1 + 1) < n {
                    Option::<DecodeError>::None
                } else {
                    Some(DecodeError::BadName)
                }
            }
        } else if op == FUSE_RENAME2 {
            if n < 56 {
                Some(DecodeError::Truncated)
            } else {
                let p1 = find_nul(b, 56);
                if p1 < n && find_nul(b, p1 + 1) < n {
                    Option::<DecodeError>::None
                } else {
                    Some(DecodeError::BadName)
                }
            }
        } else if op == FUSE_LINK {
            if n < 48 {
                Some(DecodeError::Truncated)
            } else if find_nul(b, 48) < n {
                Option::<DecodeError>::None
            } else {
                Some(DecodeError::BadName)
            }
        } else if op == FUSE_OPEN || op == FUSE_OPENDIR || op == FUSE_ACCESS || op
            == FUSE_LISTXATTR {
            if n >= 48 {
                Option::<DecodeError>::None
            } else {
                Some(DecodeError::Truncated)
            }
        } else if op == FUSE_READ || op == FUSE_READDIR || op == FUSE_READDIRPLUS {
            if n >= 80 {
                Option::<DecodeError>::None
            } else {
                Some(DecodeError::Truncated)
            }
        } else if op == FUSE_WRITE || op == FUSE_NOTIFY_REPLY {
            if n >= 80 && 80 + (le32(b, 56) as int) <= n {
                Option::<DecodeError>::None
            } else {
                Some(DecodeError::Truncated)
            }
        } else if op == FUSE_RELEASE || op == FUSE_RELEASEDIR || op == FUSE_FLUSH {
            if n >= 64 {
                Option::<DecodeError>::None
            } else {
                Some(DecodeError::Truncated)
            }
        } else if op == FUSE_FSYNC || op == FUSE_FSYNCDIR {
            if n >= 56 {
                Option::<DecodeError>::None
            } else {
                Some(DecodeError::Truncated)
            }
        } else if op == FUSE_SETXATTR {
            if n < 48 {
                Some(DecodeError::Truncated)
            } else {
                let p = find_nul(b, 48);
                if p == n {
                    Some(DecodeError::BadName)
                } else if p + 1 + (le32(b, 40) as int) <= n {
                    Option::<DecodeError>::None
                } else {
                    Some(DecodeError::Truncated)
                }
            }
        } else if op == FUSE_GETXATTR {
            if n < 48 {
                Some(DecodeError::Truncated)
            } else if find_nul(b, 48) < n {
                Option::<DecodeError>::None
            } else {
                Some(DecodeError::BadName)
            }
        } else if op == FUSE_GETLK || op == FUSE_SETLK || op == FUSE_SETLKW {
            if n >= 88 {
                Option::<DecodeError>::None
            } else {
                Some(DecodeError::Truncated)
            }
        } else if op == FUSE_FALLOCATE {
            if n >= 72 {
                Option::<DecodeError>::None
            } else {
                Some(DecodeError::Truncated)
            }
        } else if op == FUSE_COPY_FILE_RANGE {
            if n >= 96 {
                Option::<DecodeError>::None
            } else {
                Some(DecodeError::Truncated)
            }
        } else {
            Option::<DecodeError>::None
        }
    }
}

/// What a decoded request kind must hold, given the frame it came from:
/// each field equals the value read at its fixed offset, and each name or
/// payload equals its region of the frame.
pub open spec fn kind_ok(b: Seq<u8>, k: RequestKind) -> bool {
    let n = b.len() as int;
    let op = spec_header(b).opcode;
    if op == FUSE_INIT {
        &&& k matches RequestKind::Init { major, minor, max_readahead, flags }
        &&& major == le32(b, 40)
        &&& minor == le32(b, 44)
        &&& max_readahead == le32(b, 48)
        &&& flags == le32(b, 52)
    } else if op == FUSE_DESTROY {
        k matches RequestKind::Destroy
    } else if op == FUSE_READLINK {
        k matches RequestKind::Readlink
    } else if op == FUSE_STATFS {
        k matches RequestKind::Statfs
    } else if op == FUSE_INTERRUPT {
        &&& k matches RequestKind::Interrupt { unique }
        &&& unique == le64(b, 40)
    } else if op == FUSE_FORGET {
        &&& k matches RequestKind::Forget { nlookup }
        &&& nlookup == le64(b, 40)
    } else if op == FUSE_BATCH_FORGET {
        &&& k matches RequestKind::BatchForget { forgets }
        &&& forgets@.len() == le32(b, 40)
        &&& forall|i: int|
            0 <= i < forgets@.len() ==> #[trigger] forgets@[i] == (Forget {
                ino: le64(b, 48 + 16 * i),
                nlookup: le64(b, 56 + 16 * i),
            })
    } else if op == FUSE_GETATTR {
        &&& k matches RequestKind::Getattr { fh }
        &&& fh == (if le32(b, 40) & FUSE_GETATTR_FH != 0 {
            Some(le64(b, 48))
        } else {
            Option::<u64>::None
        })
    } else if op == FUSE_SETATTR {
        let valid = le32(b, 40);
        &&& k matches RequestKind::Setattr {
            mode,
            uid,
            gid,
            size,
            fh,
            atime,
            mtime,
            ctime,
            lock_owner,
        }
        &&& mode == (if valid & FATTR_MODE != 0 {
            Some(le32(b, 108))
        } else {
            Option::<u32>::None
        })
        &&& uid == (if valid & FATTR_UID != 0 {
            Some(le32(b, 116))
        } else {
            Option::<u32>::None
        })
        &&& gid == (if valid & FATTR_GID != 0 {
            Some(le32(b, 120))
        } else {
            Option::<u32>::None
        })
        &&& size == (if valid & FATTR_SIZE != 0 {
            Some(le64(b, 56))
        } else {
            Option::<u64>::None
        })
        &&& fh == (if valid & FATTR_FH != 0 {
            Some(le64(b, 48))
        } else {
            Option::<u64>::None
        })
        &&& atime == (if valid & FATTR_ATIME != 0 {
            Some((le64(b, 72), le32(b, 96)))
        } else {
            Option::<(u64, u32)>::None
        })
        &&& mtime == (if valid & FATTR_MTIME != 0 {
            Some((le64(b, 80), le32(b, 100)))
        } else {
            Option::<(u64, u32)>::None
        })
        &&& ctime == (if valid & FATTR_CTIME != 0 {
            Some((le64(b, 88), le32(b, 104)))
        } else {
            Option::<(u64, u32)>::None
        })
        &&& lock_owner == (if valid & FATTR_LOCKOWNER != 0 {
            Some(le64(b, 64))
        } else {
            Option::<u64>::None
        })
    } else if op == FUSE_LOOKUP {
        &&& k matches RequestKind::Lookup { name }
        &&& name@ == b.subrange(40, find_nul(b, 40))
    } else if op == FUSE_UNLINK {
        &&& k matches RequestKind::Unlink { name }
        &&& name@ == b.subrange(40, find_nul(b, 40))
    } else if op == FUSE_RMDIR {
        &&& k matches RequestKind::Rmdir { name }
        &&& name@ == b.subrange(40, find_nul(b, 40))
    } else if op == FUSE_REMOVEXATTR {
        &&& k matches RequestKind::Removexattr { name }
        &&& name@ == b.subrange(40, find_nul(b, 40))
    } else if op == FUSE_SYMLINK {
        let p1 = find_nul(b, 40);
        &&& k matches RequestKind::Symlink { name, link }
        &&& name@ == b.subrange(40, p1)
        &&& link@ == b.subrange(p1 + 1, find_nul(b, p1 + 1))
    } else if op == FUSE_MKNOD {
        &&& k matches RequestKind::Mknod { name, mode, rdev, umask }
        &&& name@ == b.subrange(56, find_nul(b, 56))
        &&& mode == le32(b, 40)
        &&& rdev == le32(b, 44)
        &&& umask == le32(b, 48)
    } else if op == FUSE_MKDIR {
        &&& k matches RequestKind::Mkdir { name, mode, umask }
        &&& name@ == b.subrange(48, find_nul(b, 48))
        &&& mode == le32(b, 40)
        &&& umask == le32(b, 44)
    } else if op == FUSE_RENAME {
        let p1 = find_nul(b, 48);
        &&& k matches RequestKind::Rename { newdir, name, newname }
        &&& newdir == le64(b, 40)
        &&& name@ == b.subrange(48, p1)
        &&& newname@ == b.subrange(p1 + 1, find_nul(b, p1 + 1))
    } else if op == FUSE_RENAME2 {
        let p1 = find_nul(b, 56);
        &&& k matches RequestKind::Rename2 { newdir, flags, name, newname }
        &&& newdir == le64(b, 40)
        &&& flags == le32(b, 48)
        &&& name@ == b.subrange(56, p1)
        &&& newname@ == b.subrange(p1 + 1, find_nul(b, p1 + 1))
    } else if op == FUSE_LINK {
        &&& k matches RequestKind::Link { oldnodeid, newname }
        &&& oldnodeid == le64(b, 40)
        &&& newname@ == b.subrange(48, find_nul(b, 48))
    } else if op == FUSE_OPEN {
        &&& k matches RequestKind::Open { flags }
        &&& flags == le32(b, 40)
    } else if op == FUSE_OPENDIR {
        &&& k matches RequestKind::Opendir { flags }
        &&& flags == le32(b, 40)
    } else if op == FUSE_READ {
        &&& k matches RequestKind::Read { fh, offset, size, flags, lock_owner }
        &&& fh == le64(b, 40)
        &&& offset == le64(b, 48)
        &&& size == le32(b, 56)
        &&& flags == le32(b, 72)
        &&& lock_owner == (if le32(b, 60) & FUSE_READ_LOCKOWNER != 0 {
            Some(le64(b, 64))
        } else {
            Option::<u64>::None
        })
    } else if op == FUSE_READDIR || op == FUSE_READDIRPLUS {
        &&& k matches RequestKind::Readdir { fh, offset, size, plus }
        &&& fh == le64(b, 40)
        &&& offset == le64(b, 48)
        &&& size == le32(b, 56)
        &&& plus == (op == FUSE_READDIRPLUS)
    } else if op == FUSE_WRITE {
        &&& k matches RequestKind::Write { fh, offset, size, flags, lock_owner, data }
        &&& fh == le64(b, 40)
        &&& offset == le64(b, 48)
        &&& size == le32(b, 56)
        &&& flags == le32(b, 72)
        &&& lock_owner == (if le32(b, 60) & FUSE_WRITE_LOCKOWNER != 0 {
            Some(le64(b, 64))
        } else {
            Option::<u64>::None
        })
        &&& data@ == b.subrange(80, 80 + le32(b, 56) as int)
    } else if op == FUSE_RELEASE {
        &&& k matches RequestKind::Release { fh, flags, release_flags, lock_owner }
        &&& fh == le64(b, 40)
        &&& flags == le32(b, 48)
        &&& release_flags == le32(b, 52)
        &&& lock_owner == le64(b, 56)
    } else if op == FUSE_RELEASEDIR {
        &&& k matches RequestKind::Releasedir { fh, flags }
        &&& fh == le64(b, 40)
        &&& flags == le32(b, 48)
    } else if op == FUSE_FSYNC {
        &&& k matches RequestKind::Fsync { fh, datasync }
        &&& fh == le64(b, 40)
        &&& datasync == (le32(b, 48) & 1 != 0)
    } else if op == FUSE_FSYNCDIR {
        &&& k matches RequestKind::Fsyncdir { fh, datasync }
        &&& fh == le64(b, 40)
        &&& datasync == (le32(b, 48) & 1 != 0)
    } else if op == FUSE_SETXATTR {
        let p = find_nul(b, 48);
        &&& k matches RequestKind::Setxattr { name, value, flags }
        &&& name@ == b.subrange(48, p)
        &&& value@ == b.subrange(p + 1, p + 1 + le32(b, 40) as int)
        &&& flags == le32(b, 44)
    } else if op == FUSE_GETXATTR {
        &&& k matches RequestKind::Getxattr { name, size }
        &&& name@ == b.subrange(48, find_nul(b, 48))
        &&& size == le32(b, 40)
    } else if op == FUSE_LISTXATTR {
        &&& k matches RequestKind::Listxattr { size }
        &&& size == le32(b, 40)
    } else if op == FUSE_FLUSH {
        &&& k matches RequestKind::Flush { fh, lock_owner }
        &&& fh == le64(b, 40)
        &&& lock_owner == le64(b, 56)
    } else if op == FUSE_GETLK {
        &&& k matches RequestKind::Getlk { fh, owner, lk }
        &&& fh == le64(b, 40)
        &&& owner == le64(b, 48)
        &&& lk == (FileLock {
            start: le64(b, 56),
            end: le64(b, 64),
            typ: le32(b, 72),
            pid: le32(b, 76),
        })
    } else if op == FUSE_SETLK || op == FUSE_SETLKW {
        &&& k matches RequestKind::Setlk { fh, owner, lk, lk_flags, sleep }
        &&& fh == le64(b, 40)
        &&& owner == le64(b, 48)
        &&& lk == (FileLock {
            start: le64(b, 56),
            end: le64(b, 64),
            typ: le32(b, 72),
            pid: le32(b, 76),
        })
        &&& lk_flags == le32(b, 80)
        &&& sleep == (op == FUSE_SETLKW)
    } else if op == FUSE_ACCESS {
        &&& k matches RequestKind::Access { mask }
        &&& mask == le32(b, 40)
    } else if op == FUSE_CREATE {
        &&& k matches RequestKind::Create { name, mode, umask, open_flags }
        &&& name@ == b.subrange(56, find_nul(b, 56))
        &&& mode == le32(b, 44)
        &&& umask == le32(b, 48)
        &&& open_flags == le32(b, 40)
    } else if op == FUSE_BMAP {
        &&& k matches RequestKind::Bmap { block, blocksize }
        &&& block == le64(b, 40)
        &&& blocksize == le32(b, 48)
    } else if op == FUSE_FALLOCATE {
        &&& k matches RequestKind::Fallocate { fh, offset, length, mode }
        &&& fh == le64(b, 40)
        &&& offset == le64(b, 48)
        &&& length == le64(b, 56)
        &&& mode == le32(b, 64)
    } else if op == FUSE_COPY_FILE_RANGE {
        &&& k matches RequestKind::CopyFileRange {
            fh_in,
            off_in,
            nodeid_out,
            fh_out,
            off_out,
            len,
            flags,
        }
        &&& fh_in == le64(b, 40)
        &&& off_in == le64(b, 48)
        &&& nodeid_out == le64(b, 56)
        &&& fh_out == le64(b, 64)
        &&& off_out == le64(b, 72)
        &&& len == le64(b, 80)
        &&& flags == le64(b, 88)
    } else if op == FUSE_NOTIFY_REPLY {
        &&& k matches RequestKind::NotifyReply { offset, size, data }
        &&& offset == le64(b, 48)
        &&& size == le32(b, 56)
        &&& data@ == b.subrange(80, 80 + le32(b, 56) as int)
    } else {
        k matches RequestKind::Unknown
    }
}

/// Decodes the opcode-specific argument region of `buf`.
fn parse_kind(buf: &[u8], opcode: u32) -> (r: Result<RequestKind, DecodeError>)
    requires
        40 <= buf@.len() <= usize::MAX,
        opcode == spec_header(buf@).opcode,
    ensures
        match r {
            Ok(k) => err_of(buf@) is None && kind_ok(buf@, k),
            Err(e) => err_of(buf@) == Some(e),
        },
{
    if opcode == FUSE_INIT || opcode == FUSE_DESTROY || opcode == FUSE_READLINK || opcode
        == FUSE_STATFS || opcode == FUSE_INTERRUPT || opcode == FUSE_FORGET || opcode
        == FUSE_BATCH_FORGET || opcode == FUSE_GETATTR {
        parse_kind_core(buf, opcode)
    } else if opcode == FUSE_SETATTR || opcode == FUSE_LOOKUP || opcode == FUSE_UNLINK || opcode
        == FUSE_RMDIR || opcode == FUSE_REMOVEXATTR || opcode == FUSE_SYMLINK || opcode
        == FUSE_MKNOD || opcode == FUSE_MKDIR || opcode == FUSE_RENAME || opcode == FUSE_RENAME2
        || opcode == FUSE_LINK {
        parse_kind_node(buf, opcode)
    } else if opcode == FUSE_OPEN || opcode == FUSE_OPENDIR || opcode == FUSE_READ || opcode
        == FUSE_READDIR || opcode == FUSE_READDIRPLUS || opcode == FUSE_WRITE || opcode
        == FUSE_RELEASE || opcode == FUSE_RELEASEDIR || opcode == FUSE_FSYNC || opcode
        == FUSE_FSYNCDIR {
        parse_kind_file(buf, opcode)
    } else if opcode == FUSE_SETXATTR || opcode == FUSE_GETXATTR || opcode == FUSE_LISTXATTR
        || opcode == FUSE_FLUSH || opcode == FUSE_GETLK || opcode == FUSE_SETLK || opcode
        == FUSE_SETLKW || opcode == FUSE_ACCESS || opcode == FUSE_CREATE || opcode == FUSE_BMAP
        || opcode == FUSE_FALLOCATE || opcode == FUSE_COPY_FILE_RANGE || opcode
        == FUSE_NOTIFY_REPLY {
        parse_kind_aux(buf, opcode)
    } else {
        Ok(RequestKind::Unknown)
    }
}

/// Decodes session-management, forget and attribute-read requests.
#[verifier::rlimit(60)]
fn parse_kind_core(buf: &[u8], opcode: u32) -> (r: Result<RequestKind, DecodeError>)
    requires
        40 <= buf@.len() <= usize::MAX,
        opcode == spec_header(buf@).opcode,
        opcode == FUSE_INIT || opcode == FUSE_DESTROY || opcode == FUSE_READLINK || opcode
            == FUSE_STATFS || opcode == FUSE_INTERRUPT || opcode == FUSE_FORGET || opcode
            == FUSE_BATCH_FORGET || opcode == FUSE_GETATTR,
    ensures
        match r {
            Ok(k) => err_of(buf@) is None && kind_ok(buf@, k),
            Err(e) => err_of(buf@) == Some(e),
        },
{
    let n = buf.len();
    if opcode == FUSE_INIT {
        if n < 56 {
            return Err(DecodeError::Truncated);
        }
        Ok(
            RequestKind::Init {
                major: get_u32(buf, 40),
                minor: get_u32(buf, 44),
                max_readahead: get_u32(buf, 48),
                flags: get_u32(buf, 52),
            },
        )
    } else if opcode == FUSE_DESTROY {
        Ok(RequestKind::Destroy)
    } else if opcode == FUSE_READLINK {
        Ok(RequestKind::Readlink)
    } else if opcode == FUSE_STATFS {
        Ok(RequestKind::Statfs)
    } else if opcode == FUSE_INTERRUPT {
        if n < 48 {
            return Err(DecodeError::Truncated);
        }
        Ok(RequestKind::Interrupt { unique: get_u64(buf, 40) })
    } else if opcode == FUSE_FORGET {
        if n < 48 {
            return Err(DecodeError::Truncated);
        }
        Ok(RequestKind::Forget { nlookup: get_u64(buf, 40) })
    } else if opcode == FUSE_BATCH_FORGET {
        if n < 48 {
            return Err(DecodeError::Truncated);
        }
        let count = get_u32(buf, 40);
        if 48u64 + 16u64 * (count as u64) > n as u64 {
            return Err(DecodeError::Truncated);
        }
        let mut forgets: Vec<Forget> = Vec::new();
        let mut i: usize = 0;
        while i < count as usize
            invariant
                i <= count,
                count == le32(buf@, 40),
                48 + 16 * (count as int) <= buf@.len() <= usize::MAX,
                forgets@.len() == i,
                forall|j: int|
                    0 <= j < i ==> #[trigger] forgets@[j] == (Forget {
                        ino: le64(buf@, 48 + 16 * j),
                        nlookup: le64(buf@, 56 + 16 * j),
                    }),
            decreases count - i,
        {
            let base: usize = 48 + 16 * i;
            let ino = get_u64(buf, base);
            let nlookup = get_u64(buf, base + 8);
            forgets.push(Forget { ino, nlookup });
            i = i + 1;
        }
        Ok(RequestKind::BatchForget { forgets })
    } else if opcode == FUSE_GETATTR {
        if n < 56 {
            return Err(DecodeError::Truncated);
        }
        let getattr_flags = get_u32(buf, 40);
        let fh: Option<u64> = if getattr_flags & FUSE_GETATTR_FH != 0 {
            Some(get_u64(buf, 48))
        } else {
            None
        };
        Ok(RequestKind::Getattr { fh })
    } else {
        proof {
            assert(false);
        }
        Ok(RequestKind::Unknown)
    }
}

/// Decodes requests that address directory entries by name, and Setattr.
#[verifier::rlimit(60)]
fn parse_kind_node(buf: &[u8], opcode: u32) -> (r: Result<RequestKind, DecodeError>)
    requires
        40 <= buf@.len() <= usize::MAX,
        opcode == spec_header(buf@).opcode,
        opcode == FUSE_SETATTR || opcode == FUSE_LOOKUP || opcode == FUSE_UNLINK || opcode
            == FUSE_RMDIR || opcode == FUSE_REMOVEXATTR || opcode == FUSE_SYMLINK || opcode
            == FUSE_MKNOD || opcode == FUSE_MKDIR || opcode == FUSE_RENAME || opcode
            == FUSE_RENAME2 || opcode == FUSE_LINK,
    ensures
        match r {
            Ok(k) => err_of(buf@) is None && kind_ok(buf@, k),
            Err(e) => err_of(buf@) == Some(e),
        },
{
    let n = buf.len();
    if opcode == FUSE_SETATTR {
        if n < 128 {
            return Err(DecodeError::Truncated);
        }
        let valid = get_u32(buf, 40);
        let mode: Option<u32> = if valid & FATTR_MODE != 0 {
            Some(get_u32(buf, 108))
        } else {
            None
        };
        let uid: Option<u32> = if valid & FATTR_UID != 0 {
            Some(get_u32(buf, 116))
        } else {
            None
        };
        let gid: Option<u32> = if valid & FATTR_GID != 0 {
            Some(get_u32(buf, 120))
        } else {
            None
        };
        let size: Option<u64> = if valid & FATTR_SIZE != 0 {
            Some(get_u64(buf, 56))
        } else {
            None
        };
        let fh: Option<u64> = if valid & FATTR_FH != 0 {
            Some(get_u64(buf, 48))
        } else {
            None
        };
        let atime: Option<(u64, u32)> = if valid & FATTR_ATIME != 0 {
            Some((get_u64(buf, 72), get_u32(buf, 96)))
        } else {
            None
        };
        let mtime: Option<(u64, u32)> = if valid & FATTR_MTIME != 0 {
            Some((get_u64(buf, 80), get_u32(buf, 100)))
        } else {
            None
        };
        let ctime: Option<(u64, u32)> = if valid & FATTR_CTIME != 0 {
            Some((get_u64(buf, 88), get_u32(buf, 104)))
        } else {
            None
        };
        let lock_owner: Option<u64> = if valid & FATTR_LOCKOWNER != 0 {
            Some(get_u64(buf, 64))
        } else {
            None
        };
        Ok(RequestKind::Setattr { mode, uid, gid, size, fh, atime, mtime, ctime, lock_owner })
    } else if opcode == FUSE_LOOKUP {
        match take_nul_str(buf, 40) {
            Ok((name, _end)) => Ok(RequestKind::Lookup { name }),
            Err(e) => Err(e),
        }
    } else if opcode == FUSE_UNLINK {
        match take_nul_str(buf, 40) {
            Ok((name, _end)) => Ok(RequestKind::Unlink { name }),
            Err(e) => Err(e),
        }
    } else if opcode == FUSE_RMDIR {
        match take_nul_str(buf, 40) {
            Ok((name, _end)) => Ok(RequestKind::Rmdir { name }),
            Err(e) => Err(e),
        }
    } else if opcode == FUSE_REMOVEXATTR {
        match take_nul_str(buf, 40) {
            Ok((name, _end)) => Ok(RequestKind::Removexattr { name }),
            Err(e) => Err(e),
        }
    } else if opcode == FUSE_SYMLINK {
        let (name, end1) = match take_nul_str(buf, 40) {
            Ok(v) => v,
            Err(e) => return Err(e),
        };
        let (link, _end2) = match take_nul_str(buf, end1) {
            Ok(v) => v,
            Err(e) => return Err(e),
        };
        Ok(RequestKind::Symlink { name, link })
    } else if opcode == FUSE_MKNOD {
        if n < 56 {
            return Err(DecodeError::Truncated);
        }
        let mode = get_u32(buf, 40);
        let rdev = get_u32(buf, 44);
        let umask = get_u32(buf, 48);
        match take_nul_str(buf, 56) {
            Ok((name, _end)) => Ok(RequestKind::Mknod { name, mode, rdev, umask }),
            Err(e) => Err(e),
        }
    } else if opcode == FUSE_MKDIR {
        if n < 48 {
            return Err(DecodeError::Truncated);
        }
        let mode = get_u32(buf, 40);
        let umask = get_u32(buf, 44);
        match take_nul_str(buf, 48) {
            Ok((name, _end)) => Ok(RequestKind::Mkdir { name, mode, umask }),
            Err(e) => Err(e),
        }
    } else if opcode == FUSE_RENAME {
        if n < 48 {
            return Err(DecodeError::Truncated);
        }
        let newdir = get_u64(buf, 40);
        let (name, end1) = match take_nul_str(buf, 48) {
            Ok(v) => v,
            Err(e) => return Err(e),
        };
        let (newname, _end2) = match take_nul_str(buf, end1) {
            Ok(v) => v,
            Err(e) => return Err(e),
        };
        Ok(RequestKind::Rename { newdir, name, newname })
    } else if opcode == FUSE_RENAME2 {
        if n < 56 {
            return Err(DecodeError::Truncated);
        }
        let newdir = get_u64(buf, 40);
        let flags = get_u32(buf, 48);
        let (name, end1) = match take_nul_str(buf, 56) {
            Ok(v) => v,
            Err(e) => return Err(e),
        };
        let (newname, _end2) = match take_nul_str(buf, end1) {
            Ok(v) => v,
            Err(e) => return Err(e),
        };
        Ok(RequestKind::Rename2 { newdir, flags, name, newname })
    } else if opcode == FUSE_LINK {
        if n < 48 {
            return Err(DecodeError::Truncated);
        }
        let oldnodeid = get_u64(buf, 40);
        match take_nul_str(buf, 48) {
            Ok((newname, _end)) => Ok(RequestKind::Link { oldnodeid, newname }),
            Err(e) => Err(e),
        }
    } else {
        proof {
            assert(false);
        }
        Ok(RequestKind::Unknown)
    }
}

/// Decodes requests on open files and directories.
#[verifier::rlimit(60)]
fn parse_kind_file(buf: &[u8], opcode: u32) -> (r: Result<RequestKind, DecodeError>)
    requires
        40 <= buf@.len() <= usize::MAX,
        opcode == spec_header(buf@).opcode,
        opcode == FUSE_OPEN || opcode == FUSE_OPENDIR || opcode == FUSE_READ || opcode
            == FUSE_READDIR || opcode == FUSE_READDIRPLUS || opcode == FUSE_WRITE || opcode
            == FUSE_RELEASE || opcode == FUSE_RELEASEDIR || opcode == FUSE_FSYNC || opcode
            == FUSE_FSYNCDIR,
    ensures
        match r {
            Ok(k) => err_of(buf@) is None && kind_ok(buf@, k),
            Err(e) => err_of(buf@) == Some(e),
        },
{
    let n = buf.len();
    if opcode == FUSE_OPEN {
        if n < 48 {
            return Err(DecodeError::Truncated);
        }
        Ok(RequestKind::Open { flags: get_u32(buf, 40) })
    } else if opcode == FUSE_OPENDIR {
        if n < 48 {
            return Err(DecodeError::Truncated);
        }
        Ok(RequestKind::Opendir { flags: get_u32(buf, 40) })
    } else if opcode == FUSE_READ {
        if n < 80 {
            return Err(DecodeError::Truncated);
        }
        let read_flags = get_u32(buf, 60);
        let lock_owner: Option<u64> = if read_flags & FUSE_READ_LOCKOWNER != 0 {
            Some(get_u64(buf, 64))
        } else {
            None
        };
        Ok(
            RequestKind::Read {
                fh: get_u64(buf, 40),
                offset: get_u64(buf, 48),
                size: get_u32(buf, 56),
                flags: get_u32(buf, 72),
                lock_owner,
            },
        )
    } else if opcode == FUSE_READDIR || opcode == FUSE_READDIRPLUS {
        if n < 80 {
            return Err(DecodeError::Truncated);
        }
        Ok(
            RequestKind::Readdir {
                fh: get_u64(buf, 40),
                offset: get_u64(buf, 48),
                size: get_u32(buf, 56),
                plus: opcode == FUSE_READDIRPLUS,
            },
        )
    } else if opcode == FUSE_WRITE {
        if n < 80 {
            return Err(DecodeError::Truncated);
        }
        let size = get_u32(buf, 56);
        if 80u64 + (size as u64) > n as u64 {
            return Err(DecodeError::Truncated);
        }
        let end: usize = 80 + size as usize;
        let data = vstd::slice::slice_to_vec(slice_subrange(buf, 80, end));
        let write_flags = get_u32(buf, 60);
        let lock_owner: Option<u64> = if write_flags & FUSE_WRITE_LOCKOWNER != 0 {
            Some(get_u64(buf, 64))
        } else {
            None
        };
        Ok(
            RequestKind::Write {
                fh: get_u64(buf, 40),
                offset: get_u64(buf, 48),
                size,
                flags: get_u32(buf, 72),
                lock_owner,
                data,
            },
        )
    } else if opcode == FUSE_RELEASE {
        if n < 64 {
            return Err(DecodeError::Truncated);
        }
        Ok(
            RequestKind::Release {
                fh: get_u64(buf, 40),
                flags: get_u32(buf, 48),
                release_flags: get_u32(buf, 52),
                lock_owner: get_u64(buf, 56),
            },
        )
    } else if opcode == FUSE_RELEASEDIR {
        if n < 64 {
            return Err(DecodeError::Truncated);
        }
        Ok(RequestKind::Releasedir { fh: get_u64(buf, 40), flags: get_u32(buf, 48) })
    } else if opcode == FUSE_FSYNC {
        if n < 56 {
            return Err(DecodeError::Truncated);
        }
        Ok(RequestKind::Fsync { fh: get_u64(buf, 40), datasync: get_u32(buf, 48) & 1 != 0 })
    } else if opcode == FUSE_FSYNCDIR {
        if n < 56 {
            return Err(DecodeError::Truncated);
        }
        Ok(RequestKind::Fsyncdir { fh: get_u64(buf, 40), datasync: get_u32(buf, 48) & 1 != 0 })
    } else {
        proof {
            assert(false);
        }
        Ok(RequestKind::Unknown)
    }
}

/// Decodes extended-attribute, lock and the remaining requests.
#[verifier::rlimit(60)]
fn parse_kind_aux(buf: &[u8], opcode: u32) -> (r: Result<RequestKind, DecodeError>)
    requires
        40 <= buf@.len() <= usize::MAX,
        opcode == spec_header(buf@).opcode,
        opcode == FUSE_SETXATTR || opcode == FUSE_GETXATTR || opcode == FUSE_LISTXATTR || opcode
            == FUSE_FLUSH || opcode == FUSE_GETLK || opcode == FUSE_SETLK || opcode == FUSE_SETLKW
            || opcode == FUSE_ACCESS || opcode == FUSE_CREATE || opcode == FUSE_BMAP || opcode
            == FUSE_FALLOCATE || opcode == FUSE_COPY_FILE_RANGE || opcode == FUSE_NOTIFY_REPLY,
    ensures
        match r {
            Ok(k) => err_of(buf@) is None && kind_ok(buf@, k),
            Err(e) => err_of(buf@) == Some(e),
        },
{
    let n = buf.len();
    if opcode == FUSE_SETXATTR {
        if n < 48 {
            return Err(DecodeError::Truncated);
        }
        let size = get_u32(buf, 40);
        let flags = get_u32(buf, 44);
        let (name, vstart) = match take_nul_str(buf, 48) {
            Ok(v) => v,
            Err(e) => return Err(e),
        };
        if (size as u64) > (n as u64) - (vstart as u64) {
            return Err(DecodeError::Truncated);
        }
        let vend: usize = vstart + size as usize;
        let value = vstd::slice::slice_to_vec(slice_subrange(buf, vstart, vend));
        Ok(RequestKind::Setxattr { name, value, flags })
    } else if opcode == FUSE_GETXATTR {
        if n < 48 {
            return Err(DecodeError::Truncated);
        }
        let size = get_u32(buf, 40);
        match take_nul_str(buf, 48) {
            Ok((name, _end)) => Ok(RequestKind::Getxattr { name, size }),
            Err(e) => Err(e),
        }
    } else if opcode == FUSE_LISTXATTR {
        if n < 48 {
            return Err(DecodeError::Truncated);
        }
        Ok(RequestKind::Listxattr { size: get_u32(buf, 40) })
    } else if opcode == FUSE_FLUSH {
        if n < 64 {
            return Err(DecodeError::Truncated);
        }
        Ok(RequestKind::Flush { fh: get_u64(buf, 40), lock_owner: get_u64(buf, 56) })
    } else if opcode == FUSE_GETLK {
        if n < 88 {
            return Err(DecodeError::Truncated);
        }
        let lk = FileLock {
            start: get_u64(buf, 56),
            end: get_u64(buf, 64),
            typ: get_u32(buf, 72),
            pid: get_u32(buf, 76),
        };
        Ok(RequestKind::Getlk { fh: get_u64(buf, 40), owner: get_u64(buf, 48), lk })
    } else if opcode == FUSE_SETLK || opcode == FUSE_SETLKW {
        if n < 88 {
            return Err(DecodeError::Truncated);
        }
        let lk = FileLock {
            start: get_u64(buf, 56),
            end: get_u64(buf, 64),
            typ: get_u32(buf, 72),
            pid: get_u32(buf, 76),
        };
        Ok(
            RequestKind::Setlk {
                fh: get_u64(buf, 40),
                owner: get_u64(buf, 48),
                lk,
                lk_flags: get_u32(buf, 80),
                sleep: opcode == FUSE_SETLKW,
            },
        )
    } else if opcode == FUSE_ACCESS {
        if n < 48 {
            return Err(DecodeError::Truncated);
        }
        Ok(RequestKind::Access { mask: get_u32(buf, 40) })
    } else if opcode == FUSE_CREATE {
        if n < 56 {
            return Err(DecodeError::Truncated);
        }
        let open_flags = get_u32(buf, 40);
        let mode = get_u32(buf, 44);
        let umask = get_u32(buf, 48);
        match take_nul_str(buf, 56) {
            Ok((name, _end)) => Ok(RequestKind::Create { name, mode, umask, open_flags }),
            Err(e) => Err(e),
        }
    } else if opcode == FUSE_BMAP {
        if n < 56 {
            return Err(DecodeError::Truncated);
        }
        Ok(RequestKind::Bmap { block: get_u64(buf, 40), blocksize: get_u32(buf, 48) })
    } else if opcode == FUSE_FALLOCATE {
        if n < 72 {
            return Err(DecodeError::Truncated);
        }
        Ok(
            RequestKind::Fallocate {
                fh: get_u64(buf, 40),
                offset: get_u64(buf, 48),
                length: get_u64(buf, 56),
                mode: get_u32(buf, 64),
            },
        )
    } else if opcode == FUSE_COPY_FILE_RANGE {
        if n < 96 {
            return Err(DecodeError::Truncated);
        }
        Ok(
            RequestKind::CopyFileRange {
                fh_in: get_u64(buf, 40),
                off_in: get_u64(buf, 48),
                nodeid_out: get_u64(buf, 56),
                fh_out: get_u64(buf, 64),
                off_out: get_u64(buf, 72),
                len: get_u64(buf, 80),
                flags: get_u64(buf, 88),
            },
        )
    } else if opcode == FUSE_NOTIFY_REPLY {
        if n < 80 {
            return Err(DecodeError::Truncated);
        }
        let size = get_u32(buf, 56);
        if 80u64 + (size as u64) > n as u64 {
            return Err(DecodeError::Truncated);
        }
        let end: usize = 80 + size as usize;
        let data = vstd::slice::slice_to_vec(slice_subrange(buf, 80, end));
        Ok(RequestKind::NotifyReply { offset: get_u64(buf, 48), size, data })
    } else {
        proof {
            assert(false);
        }
        Ok(RequestKind::Unknown)
    }
}

impl Request {
    /// Decodes one whole inbound frame.
    ///
    /// Succeeds exactly when the frame is long enough for its opcode's
    /// argument region and payload and every name field is terminated;
    /// then each decoded field holds the value read at its place in the
    /// frame.
    pub fn decode(buf: &[u8]) -> (r: Result<Request, DecodeError>)
        ensures
            match r {
                Ok(req) => err_of(buf@) is None && req.header == spec_header(buf@) && kind_ok(
                    buf@,
                    req.kind,
                ),
                Err(e) => err_of(buf@) == Some(e),
            },
    {
        if buf.len() < 40 {
            return Err(DecodeError::Truncated);
        }
        let header = parse_header(buf);
        match parse_kind(buf, header.opcode) {
            Ok(kind) => Ok(Request { header, kind }),
            Err(e) => Err(e),
        }
    }
}

} // verus!
