//! The session state machine: INIT handshake, request dispatch, interrupt
//! and retrieve correlation, and kernel-directed notifications.

use crate::common::Forget;
use crate::kernel::{
    EIO, ENOSYS, EPROTO, FUSE_LK_FLOCK, FUSE_NOTIFY_DELETE, FUSE_NOTIFY_INVAL_ENTRY,
    FUSE_NOTIFY_INVAL_INODE, FUSE_NOTIFY_POLL, FUSE_NOTIFY_RETRIEVE, FUSE_NOTIFY_STORE,
    FUSE_RELEASE_FLOCK_UNLOCK, FUSE_RELEASE_FLUSH, F_RDLCK, F_UNLCK, F_WRLCK, LOCK_EX, LOCK_NB,
    LOCK_SH, LOCK_UN,
};
use crate::op::{op_ok, op_settable, Operation};
use crate::reply::{
    append_frame, send_msg, ReplyAttr, ReplyBmap, ReplyCreate, ReplyData, ReplyEmpty, ReplyEntry,
    ReplyLk, ReplyOpen, ReplyOpendir, ReplyReadlink, ReplyStatfs, ReplyWrite, ReplyXattr,
    SendError,
};
use crate::request::{InHeader, Request, RequestKind};
use crate::wire::{
    concat_bytes, frame_bytes, lemma_concat_bytes_len, lemma_concat_take_step, lemma_le_lens,
    lemma_total_len_mono, push_bytes, put_i64, put_u16, put_u32, put_u64, total_len, wire_i64,
};
use vstd::bytes::{spec_u16_to_le_bytes, spec_u32_to_le_bytes, spec_u64_to_le_bytes};
use vstd::prelude::*;

verus! {

/// The largest Write payload the session offers the kernel.
pub const MAX_WRITE_SIZE: u32 = 16 * 1024 * 1024;

/// No value occurs twice.
pub open spec fn no_dups(s: Seq<u64>) -> bool {
    forall|i: int, j: int| 0 <= i < j < s.len() ==> s[i] != s[j]
}

/// Whether `x` is in the table.
fn table_contains(v: &Vec<u64>, x: u64) -> (r: bool)
    ensures
        r == v@.contains(x),
{
    let mut i: usize = 0;
    while i < v.len()
        invariant
            i <= v@.len(),
            forall|k: int| 0 <= k < i ==> v@[k] != x,
        decreases v@.len() - i,
    {
        if v[i] == x {
            proof {
                assert(v@.contains(x));
            }
            return true;
        }
        i = i + 1;
    }
    proof {
        assert(!v@.contains(x));
    }
    false
}

/// Adds `x` to the table if it is not there yet.
fn table_insert(v: &mut Vec<u64>, x: u64)
    requires
        no_dups(old(v)@),
    ensures
        no_dups(final(v)@),
        final(v)@.contains(x),
        forall|y: u64| y != x ==> final(v)@.contains(y) == old(v)@.contains(y),
        old(v)@.contains(x) ==> final(v)@ == old(v)@,
        !old(v)@.contains(x) ==> final(v)@ == old(v)@.push(x),
{
    if !table_contains(v, x) {
        v.push(x);
        proof {
            let s0 = old(v)@;
            assert(v@ == s0.push(x));
            assert(v@[v@.len() - 1] == x);
            assert(v@.contains(x));
            assert forall|i: int, j: int| 0 <= i < j < v@.len() implies v@[i] != v@[j] by {
                if j < v@.len() - 1 {
                    assert(v@[i] == s0[i] && v@[j] == s0[j]);
                } else {
                    assert(v@[i] == s0[i] && v@[j] == x);
                    assert(s0[i] != x) by {
                        if s0[i] == x {
                            assert(s0.contains(x));
                        }
                    }
                }
            }
            assert forall|y: u64| y != x implies v@.contains(y) == s0.contains(y) by {
                if s0.contains(y) {
                    let k = choose|k: int| 0 <= k < s0.len() && s0[k] == y;
                    assert(v@[k] == y);
                    assert(v@.contains(y));
                }
                if v@.contains(y) {
                    let k = choose|k: int| 0 <= k < v@.len() && v@[k] == y;
                    assert(k < v@.len() - 1);
                    assert(s0[k] == y);
                    assert(s0.contains(y));
                }
            }
        }
    }
}

/// Removes `x` from the table; says whether it was there.
fn table_remove(v: &mut Vec<u64>, x: u64) -> (r: bool)
    requires
        no_dups(old(v)@),
    ensures
        r == old(v)@.contains(x),
        no_dups(final(v)@),
        !final(v)@.contains(x),
        forall|y: u64| y != x ==> final(v)@.contains(y) == old(v)@.contains(y),
        !old(v)@.contains(x) ==> final(v)@ == old(v)@,
{
    let ghost s0 = v@;
    let mut i: usize = 0;
    while i < v.len()
        invariant
            i <= v@.len(),
            v@ == s0,
            s0 == old(v)@,
            no_dups(s0),
            forall|k: int| 0 <= k < i ==> s0[k] != x,
        decreases v@.len() - i,
    {
        if v[i] == x {
            v.remove(i);
            proof {
                assert(s0.contains(x));
                s0.remove_ensures(i as int);
                assert(v@ == s0.remove(i as int));
                assert(v@.len() == s0.len() - 1);
                assert forall|a: int, b: int| 0 <= a < b < v@.len() implies v@[a] != v@[b] by {
                    s0.remove_ensures(i as int);
                }
                assert forall|k: int| 0 <= k < v@.len() implies v@[k] != x by {
                    s0.remove_ensures(i as int);
                }
                assert(!v@.contains(x));
                assert forall|y: u64| y != x implies v@.contains(y) == s0.contains(y) by {
                    s0.remove_ensures(i as int);
                    if s0.contains(y) {
                        let k = choose|k: int| 0 <= k < s0.len() && s0[k] == y;
                        assert(k != i);
                        if k < i as int {
                            assert(v@[k] == y);
                        } else {
                            assert(v@[k - 1] == y);
                        }
                        assert(v@.contains(y));
                    }
                    if v@.contains(y) {
                        let k = choose|k: int| 0 <= k < v@.len() && v@[k] == y;
                        if k < i as int {
                            assert(s0[k] == y);
                        } else {
                            assert(s0[k + 1] == y);
                        }
                        assert(s0.contains(y));
                    }
                }
            }
            return true;
        }
        i = i + 1;
    }
    proof {
        assert(!s0.contains(x));
    }
    false
}

/// Replies never change which request a context belongs to: its request
/// identifier and the identity of the calling process stay as they were.
pub open spec fn same_source(a: Context, b: Context) -> bool {
    &&& a.spec_unique() == b.spec_unique()
    &&& a.spec_uid() == b.spec_uid()
    &&& a.spec_gid() == b.spec_gid()
    &&& a.spec_pid() == b.spec_pid()
}

/// Per-request context handed to the filesystem handler.
///
/// It carries the identity of the calling process and collects the bytes
/// of the reply frame; the caller writes those bytes to the device in a
/// single operation, so frames from concurrent requests never interleave.
pub struct Context {
    header: InHeader,
    out: Vec<u8>,
}

impl Context {
    /// The request identifier replies must carry.
    pub closed spec fn spec_unique(&self) -> u64 {
        self.header.unique
    }

    /// The user id of the calling process.
    pub closed spec fn spec_uid(&self) -> u32 {
        self.header.uid
    }

    /// The group id of the calling process.
    pub closed spec fn spec_gid(&self) -> u32 {
        self.header.gid
    }

    /// The process id of the calling process.
    pub closed spec fn spec_pid(&self) -> u32 {
        self.header.pid
    }

    /// The reply bytes collected so far.
    pub closed spec fn out_bytes(&self) -> Seq<u8> {
        self.out@
    }

    /// A fresh context for the request that `header` starts.
    pub fn new(header: &InHeader) -> (r: Self)
        ensures
            r.spec_unique() == header.unique,
            r.spec_uid() == header.uid,
            r.spec_gid() == header.gid,
            r.spec_pid() == header.pid,
            r.out_bytes() == Seq::<u8>::empty(),
    {
        let r = Context { header: *header, out: Vec::new() };
        proof {
            assert(r.out_bytes() =~= Seq::<u8>::empty());
        }
        r
    }

    /// Return the user ID of the calling process.
    pub fn uid(&self) -> (r: u32)
        ensures
            r == self.spec_uid(),
    {
        self.header.uid
    }

    /// Return the group ID of the calling process.
    pub fn gid(&self) -> (r: u32)
        ensures
            r == self.spec_gid(),
    {
        self.header.gid
    }

    /// Return the process ID of the calling process.
    pub fn pid(&self) -> (r: u32)
        ensures
            r == self.spec_pid(),
    {
        self.header.pid
    }

    /// The collected reply bytes, to be written to the device whole.
    pub fn output(&self) -> (r: &Vec<u8>)
        ensures
            r@ == self.out_bytes(),
    {
        &self.out
    }

    /// Consumes the context, yielding the reply bytes.
    pub fn into_output(self) -> (r: Vec<u8>)
        ensures
            r@ == self.out_bytes(),
    {
        self.out
    }

    /// Appends one successful reply frame with the given payload.
    pub(crate) fn reply(&mut self, data: &[u8]) -> (r: Result<(), SendError>)
        ensures
            match r {
                Ok(()) => 16 + data@.len() <= u32::MAX && final(self).out_bytes() == old(
                    self).out_bytes() + frame_bytes(old(self).spec_unique(), 0, data@),
                Err(_) => 16 + data@.len() > u32::MAX && final(self).out_bytes() == old(
                    self).out_bytes(),
            },
            final(self).spec_unique() == old(self).spec_unique(),
            final(self).spec_uid() == old(self).spec_uid(),
            final(self).spec_gid() == old(self).spec_gid(),
            final(self).spec_pid() == old(self).spec_pid(),
    {
        let unique = self.header.unique;
        if data.len() as u64 > (u32::MAX as u64) - 16 {
            return Err(SendError::FrameTooLarge);
        }
        let len32: u32 = 16 + (data.len() as u32);
        crate::wire::put_u32(&mut self.out, len32);
        crate::wire::put_i32(&mut self.out, 0);
        crate::wire::put_u64(&mut self.out, unique);
        crate::wire::push_bytes(&mut self.out, data);
        proof {
            crate::wire::lemma_le_lens();
            assert(self.out@ =~= old(self).out@ + frame_bytes(unique, 0, data@));
        }
        Ok(())
    }

    /// Appends one successful reply frame whose payload is the
    /// concatenation of the given chunks.
    pub(crate) fn reply_vectored(&mut self, data: &[&[u8]]) -> (r: Result<(), SendError>)
        ensures
            match r {
                Ok(()) => 16 + crate::wire::total_len(data.deep_view()) <= u32::MAX && final(
                    self).out_bytes() == old(self).out_bytes() + frame_bytes(
                    old(self).spec_unique(),
                    0,
                    crate::wire::concat_bytes(data.deep_view()),
                ),
                Err(_) => 16 + crate::wire::total_len(data.deep_view()) > u32::MAX && final(
                    self).out_bytes() == old(self).out_bytes(),
            },
            final(self).spec_unique() == old(self).spec_unique(),
            final(self).spec_uid() == old(self).spec_uid(),
            final(self).spec_gid() == old(self).spec_gid(),
            final(self).spec_pid() == old(self).spec_pid(),
    {
        let unique = self.header.unique;
        send_msg(&mut self.out, unique, 0, data)
    }

    /// Reply to the kernel with an error code.
    ///
    /// Writes a 16-byte frame whose `error` field is the negated code and
    /// which carries no payload.
    pub fn reply_err(&mut self, error: i32) -> (r: Result<(), SendError>)
        requires
            error != i32::MIN,
        ensures
            r matches Ok(()),
            final(self).out_bytes() == old(self).out_bytes() + frame_bytes(
                old(self).spec_unique(),
                ((0 - error) as i32),
                Seq::<u8>::empty(),
            ),
            final(self).spec_unique() == old(self).spec_unique(),
            final(self).spec_uid() == old(self).spec_uid(),
            final(self).spec_gid() == old(self).spec_gid(),
            final(self).spec_pid() == old(self).spec_pid(),
    {
        let unique = self.header.unique;
        let neg: i32 = -error;
        crate::wire::put_u32(&mut self.out, 16);
        crate::wire::put_i32(&mut self.out, neg);
        crate::wire::put_u64(&mut self.out, unique);
        proof {
            crate::wire::lemma_le_lens();
            assert(self.out@ =~= old(self).out@ + frame_bytes(
                unique,
                ((0 - error) as i32),
                Seq::<u8>::empty(),
            ));
        }
        Ok(())
    }
}

/// The wire bytes of the 64-byte INIT reply record.  Fields the session
/// does not negotiate are zero.
pub open spec fn init_out_bytes(major: u32, minor: u32, max_readahead: u32, max_write: u32) -> Seq<
    u8,
> {
    spec_u32_to_le_bytes(major) + spec_u32_to_le_bytes(minor) + spec_u32_to_le_bytes(max_readahead)
        + spec_u32_to_le_bytes(0)  // flags
     + spec_u16_to_le_bytes(0)  // max_background
     + spec_u16_to_le_bytes(0)  // congestion_threshold
     + spec_u32_to_le_bytes(max_write) + spec_u32_to_le_bytes(0)  // time_gran
     + spec_u16_to_le_bytes(0)  // max_pages
     + spec_u16_to_le_bytes(0)  // padding
     + spec_u32_to_le_bytes(0) + spec_u32_to_le_bytes(0) + spec_u32_to_le_bytes(0)
        + spec_u32_to_le_bytes(0) + spec_u32_to_le_bytes(0) + spec_u32_to_le_bytes(0)
        + spec_u32_to_le_bytes(0) + spec_u32_to_le_bytes(0)
}

/// An INIT reply record is 64 bytes on the wire.
pub proof fn lemma_init_out_bytes_len(major: u32, minor: u32, max_readahead: u32, max_write: u32)
    ensures
        init_out_bytes(major, minor, max_readahead, max_write).len() == 64,
{
    crate::wire::lemma_le_lens();
}

/// Appends the INIT reply record to `out`.
fn put_init_out(out: &mut Vec<u8>, major: u32, minor: u32, max_readahead: u32, max_write: u32)
    ensures
        final(out)@ == old(out)@ + init_out_bytes(major, minor, max_readahead, max_write),
{
    put_u32(out, major);
    put_u32(out, minor);
    put_u32(out, max_readahead);
    put_u32(out, 0);
    put_u16(out, 0);
    put_u16(out, 0);
    put_u32(out, max_write);
    put_u32(out, 0);
    put_u16(out, 0);
    put_u16(out, 0);
    put_u32(out, 0);
    put_u32(out, 0);
    put_u32(out, 0);
    put_u32(out, 0);
    put_u32(out, 0);
    put_u32(out, 0);
    put_u32(out, 0);
    put_u32(out, 0);
    proof {
        crate::wire::lemma_le_lens();
        assert(out@ =~= old(out)@ + init_out_bytes(major, minor, max_readahead, max_write));
    }
}

/// FUSE session driver: the negotiated protocol parameters, the exit flag
/// and the interrupt and retrieve correlation tables.
#[derive(Debug)]
pub struct Session {
    proto_major: u32,
    proto_minor: u32,
    max_readahead: u32,
    exited: bool,
    interrupted: Vec<u64>,
    pending_interrupts: Vec<u64>,
    notify_unique: u64,
    pending_retrieves: Vec<u64>,
}

impl Session {
    /// The protocol major version the kernel announced.
    pub closed spec fn spec_proto_major(&self) -> u32 {
        self.proto_major
    }

    /// The protocol minor version the kernel announced.
    pub closed spec fn spec_proto_minor(&self) -> u32 {
        self.proto_minor
    }

    /// The read-ahead limit the kernel announced.
    pub closed spec fn spec_max_readahead(&self) -> u32 {
        self.max_readahead
    }

    /// Whether the kernel has sent DESTROY.
    pub closed spec fn spec_exited(&self) -> bool {
        self.exited
    }

    /// The request identifiers whose INTERRUPT arrived before they were
    /// dispatched.
    pub closed spec fn interrupted_seq(&self) -> Seq<u64> {
        self.interrupted@
    }

    /// The request identifiers with a registered interrupt listener.
    pub closed spec fn pending_interrupts_seq(&self) -> Seq<u64> {
        self.pending_interrupts@
    }

    /// The retrieve identifiers awaiting a NOTIFY_REPLY.
    pub closed spec fn pending_retrieves_seq(&self) -> Seq<u64> {
        self.pending_retrieves@
    }

    /// The identifier the next retrieve notification will use.
    pub closed spec fn spec_notify_unique(&self) -> u64 {
        self.notify_unique
    }

    /// The identifier the next retrieve notification will draw; lets a
    /// caller check the counter has headroom before asking for one.
    pub fn notify_unique(&self) -> (r: u64)
        ensures
            r == self.spec_notify_unique(),
    {
        self.notify_unique
    }

    /// Whether `u` is marked interrupted.
    pub open spec fn is_interrupted(&self, u: u64) -> bool {
        self.interrupted_seq().contains(u)
    }

    /// Whether `u` has a registered interrupt listener.
    pub open spec fn is_pending_interrupt(&self, u: u64) -> bool {
        self.pending_interrupts_seq().contains(u)
    }

    /// Whether retrieve identifier `u` awaits a NOTIFY_REPLY.
    pub open spec fn is_pending_retrieve(&self, u: u64) -> bool {
        self.pending_retrieves_seq().contains(u)
    }

    /// The session invariant: the correlation tables hold no duplicates,
    /// and every pending retrieve identifier was drawn from the counter.
    pub closed spec fn wf(&self) -> bool {
        &&& no_dups(self.interrupted@)
        &&& no_dups(self.pending_interrupts@)
        &&& no_dups(self.pending_retrieves@)
        &&& forall|i: int|
            0 <= i < self.pending_retrieves@.len() ==> #[trigger] self.pending_retrieves@[i]
                < self.notify_unique
    }
}

/// A pending retrieve identifier is never the one the counter will hand
/// out next: retrieve correlation keys are fresh.
pub proof fn lemma_notify_unique_fresh(s: Session)
    requires
        s.wf(),
    ensures
        !s.is_pending_retrieve(s.spec_notify_unique()),
{
    if s.is_pending_retrieve(s.spec_notify_unique()) {
        let k = choose|k: int|
            0 <= k < s.pending_retrieves_seq().len() && s.pending_retrieves_seq()[k]
                == s.spec_notify_unique();
        assert(s.pending_retrieves_seq()[k] < s.spec_notify_unique());
    }
}

/// What one frame received before the session is up leads to.
#[derive(Debug)]
pub enum InitResult {
    /// The frame was answered; keep reading.
    Continue,
    /// The kernel speaks an unsupported protocol; the EPROTO reply was
    /// written and the session cannot start.
    Refused,
    /// The handshake succeeded; the INIT reply was written.
    Started(Session),
}

/// Session initializer: performs the INIT handshake, one frame at a time.
#[derive(Debug, Default)]
pub struct SessionInitializer {
    _p: (),
}

impl SessionInitializer {
    pub fn new() -> (r: Self) {
        SessionInitializer { _p: () }
    }

    /// Handles one frame received before the session is established and
    /// appends the reply frame to `out`.
    ///
    /// A non-INIT frame is answered with EIO; an INIT with a major
    /// version above 7 with a zeroed INIT record (the kernel then retries
    /// with a 7.x header); an INIT below 7.6 with EPROTO, refusing the
    /// session.  A supported INIT is answered with the negotiated
    /// parameters and `max_write` set to [`MAX_WRITE_SIZE`], and the
    /// session starts.
    pub fn try_init(&self, req: &Request, out: &mut Vec<u8>) -> (r: InitResult)
        ensures
            ({
                let u = req.header.unique;
                match req.kind {
                    RequestKind::Init { major, minor, max_readahead, flags: _ } => {
                        if major > 7 {
                            &&& r matches InitResult::Continue
                            &&& final(out)@ == old(out)@ + frame_bytes(
                                u,
                                0,
                                init_out_bytes(0, 0, 0, 0),
                            )
                        } else if major < 7 || minor < 6 {
                            &&& r matches InitResult::Refused
                            &&& final(out)@ == old(out)@ + frame_bytes(
                                u,
                                ((0 - EPROTO) as i32),
                                Seq::<u8>::empty(),
                            )
                        } else {
                            &&& r matches InitResult::Started(s)
                            &&& s.wf()
                            &&& s.spec_proto_major() == major
                            &&& s.spec_proto_minor() == minor
                            &&& s.spec_max_readahead() == max_readahead
                            &&& !s.spec_exited()
                            &&& s.spec_notify_unique() == 0
                            &&& forall|y: u64| !s.is_interrupted(y)
                            &&& forall|y: u64| !s.is_pending_interrupt(y)
                            &&& forall|y: u64| !s.is_pending_retrieve(y)
                            &&& final(out)@ == old(out)@ + frame_bytes(
                                u,
                                0,
                                init_out_bytes(0, 0, max_readahead, MAX_WRITE_SIZE),
                            )
                        }
                    },
                    _ => {
                        &&& r matches InitResult::Continue
                        &&& final(out)@ == old(out)@ + frame_bytes(
                            u,
                            ((0 - EIO) as i32),
                            Seq::<u8>::empty(),
                        )
                    },
                }
            }),
    {
        let unique = req.header.unique;
        match &req.kind {
            RequestKind::Init { major, minor, max_readahead, flags: _ } => {
                let major: u32 = *major;
                let minor: u32 = *minor;
                let max_readahead: u32 = *max_readahead;
                if major > 7 {
                    let mut p: Vec<u8> = Vec::new();
                    put_init_out(&mut p, 0, 0, 0, 0);
                    proof {
                        lemma_init_out_bytes_len(0, 0, 0, 0);
                    }
                    append_frame(out, unique, 0, p.as_slice());
                    InitResult::Continue
                } else if major < 7 || minor < 6 {
                    let p: Vec<u8> = Vec::new();
                    append_frame(out, unique, -EPROTO, p.as_slice());
                    InitResult::Refused
                } else {
                    let mut p: Vec<u8> = Vec::new();
                    put_init_out(&mut p, 0, 0, max_readahead, MAX_WRITE_SIZE);
                    proof {
                        lemma_init_out_bytes_len(0, 0, max_readahead, MAX_WRITE_SIZE);
                    }
                    append_frame(out, unique, 0, p.as_slice());
                    InitResult::Started(
                        Session {
                            proto_major: major,
                            proto_minor: minor,
                            max_readahead,
                            exited: false,
                            interrupted: Vec::new(),
                            pending_interrupts: Vec::new(),
                            notify_unique: 0,
                            pending_retrieves: Vec::new(),
                        },
                    )
                }
            },
            _ => {
                let p: Vec<u8> = Vec::new();
                append_frame(out, unique, -EIO, p.as_slice());
                InitResult::Continue
            },
        }
    }
}

/// What the caller must do with one dispatched request.
#[derive(Debug)]
pub enum Dispatch {
    /// The request was dropped without a reply: the session has exited,
    /// or the request had already been interrupted.
    Dropped,
    /// The session answered the request itself; the reply frame is in the
    /// returned context.
    Replied,
    /// An INTERRUPT arrived for `unique`; if `signaled`, a listener had
    /// been registered for it and must now be woken.
    Interrupted { unique: u64, signaled: bool },
    /// A NOTIFY_REPLY arrived; if `registered`, the retrieve slot
    /// `unique` must be completed with `offset` and `data`.
    NotifyReply { unique: u64, offset: u64, data: Vec<u8>, registered: bool },
    /// Hand the operation to the filesystem handler; the handler's reply
    /// handle writes into the returned context.
    Invoke(Operation),
}

/// Builds the operation delivered for a decoded request.
#[verifier::rlimit(60)]
fn make_op(minor: u32, header: &InHeader, kind: RequestKind) -> (op: Operation)
    requires
        op_settable(kind),
    ensures
        op_ok(minor, *header, kind, op),
{
    let ino = header.nodeid;
    match kind {
        RequestKind::Lookup { name } => Operation::Lookup {
            parent: ino,
            name,
            reply: ReplyEntry::new(),
        },
        RequestKind::Forget { nlookup } => {
            let mut forgets: Vec<Forget> = Vec::new();
            forgets.push(Forget { ino, nlookup });
            Operation::Forget { forgets }
        },
        RequestKind::BatchForget { forgets } => Operation::Forget { forgets },
        RequestKind::Getattr { fh } => Operation::Getattr { ino, fh, reply: ReplyAttr::new() },
        RequestKind::Setattr { mode, uid, gid, size, fh, atime, mtime, ctime, lock_owner } => {
            Operation::Setattr {
                ino,
                fh,
                mode,
                uid,
                gid,
                size,
                atime,
                mtime,
                ctime,
                lock_owner,
                reply: ReplyAttr::new(),
            }
        },
        RequestKind::Readlink => Operation::Readlink { ino, reply: ReplyReadlink::new() },
        RequestKind::Symlink { name, link } => Operation::Symlink {
            parent: ino,
            name,
            link,
            reply: ReplyEntry::new(),
        },
        RequestKind::Mknod { name, mode, rdev, umask } => Operation::Mknod {
            parent: ino,
            name,
            mode,
            rdev,
            umask: Some(umask),
            reply: ReplyEntry::new(),
        },
        RequestKind::Mkdir { name, mode, umask } => Operation::Mkdir {
            parent: ino,
            name,
            mode,
            umask: Some(umask),
            reply: ReplyEntry::new(),
        },
        RequestKind::Unlink { name } => Operation::Unlink {
            parent: ino,
            name,
            reply: ReplyEmpty::new(),
        },
        RequestKind::Rmdir { name } => Operation::Rmdir {
            parent: ino,
            name,
            reply: ReplyEmpty::new(),
        },
        RequestKind::Rename { newdir, name, newname } => Operation::Rename {
            parent: ino,
            name,
            newparent: newdir,
            newname,
            flags: 0,
            reply: ReplyEmpty::new(),
        },
        RequestKind::Rename2 { newdir, flags, name, newname } => Operation::Rename {
            parent: ino,
            name,
            newparent: newdir,
            newname,
            flags,
            reply: ReplyEmpty::new(),
        },
        RequestKind::Link { oldnodeid, newname } => Operation::Link {
            ino: oldnodeid,
            newparent: ino,
            newname,
            reply: ReplyEntry::new(),
        },
        RequestKind::Open { flags } => Operation::Open { ino, flags, reply: ReplyOpen::new() },
        RequestKind::Read { fh, offset, size, flags, lock_owner } => Operation::Read {
            ino,
            fh,
            offset,
            flags,
            lock_owner,
            reply: ReplyData::new(size),
        },
        RequestKind::Write { fh, offset, size: _, flags, lock_owner, data } => Operation::Write {
            ino,
            fh,
            offset,
            data,
            flags,
            lock_owner,
            reply: ReplyWrite::new(),
        },
        RequestKind::Release { fh, flags, release_flags, lock_owner } => {
            let mut flush = false;
            let mut flock_release = false;
            let mut owner: Option<u64> = None;
            if minor >= 8 {
                flush = release_flags & FUSE_RELEASE_FLUSH != 0;
                owner = Some(lock_owner);
            }
            if release_flags & FUSE_RELEASE_FLOCK_UNLOCK != 0 {
                flock_release = true;
                if owner.is_none() {
                    owner = Some(lock_owner);
                }
            }
            Operation::Release {
                ino,
                fh,
                flags,
                lock_owner: owner,
                flush,
                flock_release,
                reply: ReplyEmpty::new(),
            }
        },
        RequestKind::Statfs => Operation::Statfs { ino, reply: ReplyStatfs::new() },
        RequestKind::Fsync { fh, datasync } => Operation::Fsync {
            ino,
            fh,
            datasync,
            reply: ReplyEmpty::new(),
        },
        RequestKind::Setxattr { name, value, flags } => Operation::Setxattr {
            ino,
            name,
            value,
            flags,
            reply: ReplyEmpty::new(),
        },
        RequestKind::Getxattr { name, size } => Operation::Getxattr {
            ino,
            name,
            size,
            reply: ReplyXattr::new(),
        },
        RequestKind::Listxattr { size } => Operation::Listxattr {
            ino,
            size,
            reply: ReplyXattr::new(),
        },
        RequestKind::Removexattr { name } => Operation::Removexattr {
            ino,
            name,
            reply: ReplyEmpty::new(),
        },
        RequestKind::Flush { fh, lock_owner } => Operation::Flush {
            ino,
            fh,
            lock_owner,
            reply: ReplyEmpty::new(),
        },
        RequestKind::Opendir { flags } => Operation::Opendir {
            ino,
            flags,
            reply: ReplyOpendir::new(),
        },
        RequestKind::Readdir { fh, offset, size, plus } => Operation::Readdir {
            ino,
            fh,
            offset,
            plus,
            reply: ReplyData::new(size),
        },
        RequestKind::Releasedir { fh, flags } => Operation::Releasedir {
            ino,
            fh,
            flags,
            reply: ReplyEmpty::new(),
        },
        RequestKind::Fsyncdir { fh, datasync } => Operation::Fsyncdir {
            ino,
            fh,
            datasync,
            reply: ReplyEmpty::new(),
        },
        RequestKind::Getlk { fh, owner, lk } => Operation::Getlk {
            ino,
            fh,
            owner,
            lk,
            reply: ReplyLk::new(),
        },
        RequestKind::Setlk { fh, owner, lk, lk_flags, sleep } => {
            if lk_flags & FUSE_LK_FLOCK != 0 {
                let base: u32 = if lk.typ == F_RDLCK {
                    LOCK_SH
                } else if lk.typ == F_WRLCK {
                    LOCK_EX
                } else {
                    LOCK_UN
                };
                let flock_op: u32 = if sleep {
                    base
                } else {
                    base | LOCK_NB
                };
                Operation::Flock { ino, fh, owner, op: flock_op, reply: ReplyEmpty::new() }
            } else {
                Operation::Setlk { ino, fh, owner, lk, sleep, reply: ReplyEmpty::new() }
            }
        },
        RequestKind::Access { mask } => Operation::Access { ino, mask, reply: ReplyEmpty::new() },
        RequestKind::Create { name, mode, umask, open_flags } => Operation::Create {
            parent: ino,
            name,
            mode,
            umask: Some(umask),
            open_flags,
            reply: ReplyCreate::new(),
        },
        RequestKind::Bmap { block, blocksize } => Operation::Bmap {
            ino,
            block,
            blocksize,
            reply: ReplyBmap::new(),
        },
        RequestKind::Fallocate { fh, offset, length, mode } => Operation::Fallocate {
            ino,
            fh,
            offset,
            length,
            mode,
            reply: ReplyEmpty::new(),
        },
        RequestKind::CopyFileRange { fh_in, off_in, nodeid_out, fh_out, off_out, len, flags } => {
            Operation::CopyFileRange {
                ino_in: ino,
                fh_in,
                off_in,
                ino_out: nodeid_out,
                fh_out,
                off_out,
                len,
                flags,
                reply: ReplyWrite::new(),
            }
        },
        RequestKind::Init { .. } => {
            proof {
                assert(false);
            }
            Operation::Statfs { ino, reply: ReplyStatfs::new() }
        },
        RequestKind::Destroy => {
            proof {
                assert(false);
            }
            Operation::Statfs { ino, reply: ReplyStatfs::new() }
        },
        RequestKind::Interrupt { .. } => {
            proof {
                assert(false);
            }
            Operation::Statfs { ino, reply: ReplyStatfs::new() }
        },
        RequestKind::NotifyReply { .. } => {
            proof {
                assert(false);
            }
            Operation::Statfs { ino, reply: ReplyStatfs::new() }
        },
        RequestKind::Unknown => {
            proof {
                assert(false);
            }
            Operation::Statfs { ino, reply: ReplyStatfs::new() }
        },
    }
}

impl Session {
    /// Registers an interrupt listener for the request `unique`: a later
    /// INTERRUPT for it will report `signaled`.
    pub fn enable_interrupt(&mut self, unique: u64)
        requires
            old(self).wf(),
        ensures
            final(self).wf(),
            final(self).is_pending_interrupt(unique),
            forall|y: u64|
                y != unique ==> final(self).is_pending_interrupt(y) == old(
                self).is_pending_interrupt(y),
            final(self).interrupted_seq() == old(self).interrupted_seq(),
            final(self).pending_retrieves_seq() == old(self).pending_retrieves_seq(),
            final(self).spec_notify_unique() == old(self).spec_notify_unique(),
            final(self).spec_exited() == old(self).spec_exited(),
            final(self).spec_proto_major() == old(self).spec_proto_major(),
            final(self).spec_proto_minor() == old(self).spec_proto_minor(),
            final(self).spec_max_readahead() == old(self).spec_max_readahead(),
    {
        table_insert(&mut self.pending_interrupts, unique);
    }

    /// Removes a pending interrupt listener, as when its handler finishes
    /// on its own; says whether one was registered.
    pub fn clear_interrupt(&mut self, unique: u64) -> (r: bool)
        requires
            old(self).wf(),
        ensures
            final(self).wf(),
            r == old(self).is_pending_interrupt(unique),
            !final(self).is_pending_interrupt(unique),
            forall|y: u64|
                y != unique ==> final(self).is_pending_interrupt(y) == old(
                self).is_pending_interrupt(y),
            final(self).interrupted_seq() == old(self).interrupted_seq(),
            final(self).pending_retrieves_seq() == old(self).pending_retrieves_seq(),
            final(self).spec_notify_unique() == old(self).spec_notify_unique(),
            final(self).spec_exited() == old(self).spec_exited(),
            final(self).spec_proto_major() == old(self).spec_proto_major(),
            final(self).spec_proto_minor() == old(self).spec_proto_minor(),
            final(self).spec_max_readahead() == old(self).spec_max_readahead(),
    {
        table_remove(&mut self.pending_interrupts, unique)
    }

    /// Handles an arriving INTERRUPT: the target request is marked
    /// interrupted, and a registered listener, if any, is unregistered
    /// and reported for waking.
    fn send_interrupt(&mut self, unique: u64) -> (signaled: bool)
        requires
            old(self).wf(),
        ensures
            final(self).wf(),
            signaled == old(self).is_pending_interrupt(unique),
            final(self).is_interrupted(unique),
            forall|y: u64|
                y != unique ==> final(self).is_interrupted(y) == old(self).is_interrupted(y),
            !final(self).is_pending_interrupt(unique),
            forall|y: u64|
                y != unique ==> final(self).is_pending_interrupt(y) == old(
                self).is_pending_interrupt(y),
            final(self).pending_retrieves_seq() == old(self).pending_retrieves_seq(),
            final(self).spec_notify_unique() == old(self).spec_notify_unique(),
            final(self).spec_exited() == old(self).spec_exited(),
            final(self).spec_proto_major() == old(self).spec_proto_major(),
            final(self).spec_proto_minor() == old(self).spec_proto_minor(),
            final(self).spec_max_readahead() == old(self).spec_max_readahead(),
    {
        let signaled = table_remove(&mut self.pending_interrupts, unique);
        table_insert(&mut self.interrupted, unique);
        signaled
    }

    /// Dispatches one decoded request.
    ///
    /// A request arriving after DESTROY, or one whose INTERRUPT came
    /// first, is dropped without a reply.  INTERRUPT and NOTIFY_REPLY are
    /// correlated with the session's tables and not handed to the
    /// handler.  DESTROY marks the session exited and is answered with an
    /// empty reply; an INIT after start is answered with EIO; an unknown
    /// opcode with ENOSYS; a FLOCK-style Setlk with an invalid lock type
    /// with EIO.  Every other request is delivered as its operation, and
    /// at most one reply frame is placed in the returned context.
    pub fn process(&mut self, req: Request) -> (r: (Dispatch, Context))
        requires
            old(self).wf(),
        ensures
            final(self).wf(),
            r.1.spec_unique() == req.header.unique,
            r.1.spec_uid() == req.header.uid,
            r.1.spec_gid() == req.header.gid,
            r.1.spec_pid() == req.header.pid,
            final(self).spec_proto_major() == old(self).spec_proto_major(),
            final(self).spec_proto_minor() == old(self).spec_proto_minor(),
            final(self).spec_max_readahead() == old(self).spec_max_readahead(),
            ({
                let u = req.header.unique;
                if old(self).spec_exited() {
                    &&& r.0 matches Dispatch::Dropped
                    &&& r.1.out_bytes() == Seq::<u8>::empty()
                    &&& *final(self) == *old(self)
                } else if old(self).is_interrupted(u) {
                    &&& r.0 matches Dispatch::Dropped
                    &&& r.1.out_bytes() == Seq::<u8>::empty()
                    &&& !final(self).is_interrupted(u)
                    &&& forall|y: u64|
                        y != u ==> final(self).is_interrupted(y) == old(self).is_interrupted(y)
                    &&& final(self).pending_interrupts_seq() == old(self).pending_interrupts_seq()
                    &&& final(self).pending_retrieves_seq() == old(self).pending_retrieves_seq()
                    &&& final(self).spec_notify_unique() == old(self).spec_notify_unique()
                    &&& !final(self).spec_exited()
                } else {
                    match req.kind {
                        RequestKind::Init { .. } => {
                            &&& r.0 matches Dispatch::Replied
                            &&& r.1.out_bytes() == frame_bytes(
                                u,
                                ((0 - EIO) as i32),
                                Seq::<u8>::empty(),
                            )
                            &&& *final(self) == *old(self)
                        },
                        RequestKind::Destroy => {
                            &&& r.0 matches Dispatch::Replied
                            &&& r.1.out_bytes() == frame_bytes(u, 0, Seq::<u8>::empty())
                            &&& final(self).spec_exited()
                            &&& final(self).interrupted_seq() == old(self).interrupted_seq()
                            &&& final(self).pending_interrupts_seq() == old(
                                self).pending_interrupts_seq()
                            &&& final(self).pending_retrieves_seq() == old(
                                self).pending_retrieves_seq()
                            &&& final(self).spec_notify_unique() == old(self).spec_notify_unique()
                        },
                        RequestKind::Interrupt { unique } => {
                            &&& r.0 matches Dispatch::Interrupted { unique: u2, signaled }
                            &&& u2 == unique
                            &&& signaled == old(self).is_pending_interrupt(unique)
                            &&& r.1.out_bytes() == Seq::<u8>::empty()
                            &&& final(self).is_interrupted(unique)
                            &&& forall|y: u64|
                                y != unique ==> final(self).is_interrupted(y) == old(
                                self).is_interrupted(y)
                            &&& !final(self).is_pending_interrupt(unique)
                            &&& forall|y: u64|
                                y != unique ==> final(self).is_pending_interrupt(y) == old(
                                self).is_pending_interrupt(y)
                            &&& final(self).pending_retrieves_seq() == old(
                                self).pending_retrieves_seq()
                            &&& final(self).spec_notify_unique() == old(self).spec_notify_unique()
                            &&& !final(self).spec_exited()
                        },
                        RequestKind::NotifyReply { offset, size: _, data } => {
                            &&& r.0 matches Dispatch::NotifyReply {
                                unique: u2,
                                offset: o2,
                                data: d2,
                                registered,
                            }
                            &&& u2 == u
                            &&& o2 == offset
                            &&& d2@ == data@
                            &&& registered == old(self).is_pending_retrieve(u)
                            &&& r.1.out_bytes() == Seq::<u8>::empty()
                            &&& !final(self).is_pending_retrieve(u)
                            &&& forall|y: u64|
                                y != u ==> final(self).is_pending_retrieve(y) == old(
                                self).is_pending_retrieve(y)
                            &&& final(self).interrupted_seq() == old(self).interrupted_seq()
                            &&& final(self).pending_interrupts_seq() == old(
                                self).pending_interrupts_seq()
                            &&& final(self).spec_notify_unique() == old(self).spec_notify_unique()
                            &&& !final(self).spec_exited()
                        },
                        RequestKind::Unknown => {
                            &&& r.0 matches Dispatch::Replied
                            &&& r.1.out_bytes() == frame_bytes(
                                u,
                                ((0 - ENOSYS) as i32),
                                Seq::<u8>::empty(),
                            )
                            &&& *final(self) == *old(self)
                        },
                        RequestKind::Setlk { fh: _, owner: _, lk, lk_flags, sleep: _ } => {
                            if lk_flags & FUSE_LK_FLOCK != 0 && !(lk.typ == F_RDLCK || lk.typ
                                == F_WRLCK || lk.typ == F_UNLCK) {
                                &&& r.0 matches Dispatch::Replied
                                &&& r.1.out_bytes() == frame_bytes(
                                    u,
                                    ((0 - EIO) as i32),
                                    Seq::<u8>::empty(),
                                )
                                &&& *final(self) == *old(self)
                            } else {
                                &&& r.0 matches Dispatch::Invoke(op)
                                &&& op_ok(old(self).spec_proto_minor(), req.header, req.kind, op)
                                &&& r.1.out_bytes() == Seq::<u8>::empty()
                                &&& *final(self) == *old(self)
                            }
                        },
                        _ => {
                            &&& r.0 matches Dispatch::Invoke(op)
                            &&& op_ok(old(self).spec_proto_minor(), req.header, req.kind, op)
                            &&& r.1.out_bytes() == Seq::<u8>::empty()
                            &&& *final(self) == *old(self)
                        },
                    }
                }
            }),
    {
        let Request { header, kind } = req;
        let mut cx = Context::new(&header);
        if self.exited {
            return (Dispatch::Dropped, cx);
        }
        if table_contains(&self.interrupted, header.unique) {
            let _ = table_remove(&mut self.interrupted, header.unique);
            return (Dispatch::Dropped, cx);
        }
        match kind {
            RequestKind::Init { .. } => {
                let _ = cx.reply_err(EIO);
                proof {
                    assert(cx.out_bytes() =~= frame_bytes(
                        header.unique,
                        ((0 - EIO) as i32),
                        Seq::<u8>::empty(),
                    ));
                }
                (Dispatch::Replied, cx)
            },
            RequestKind::Destroy => {
                self.exited = true;
                let p: Vec<u8> = Vec::new();
                let _ = cx.reply(p.as_slice());
                proof {
                    assert(p@ =~= Seq::<u8>::empty());
                    assert(cx.out_bytes() =~= frame_bytes(header.unique, 0, Seq::<u8>::empty()));
                }
                (Dispatch::Replied, cx)
            },
            RequestKind::Interrupt { unique } => {
                let signaled = self.send_interrupt(unique);
                (Dispatch::Interrupted { unique, signaled }, cx)
            },
            RequestKind::NotifyReply { offset, size: _, data } => {
                let registered = table_remove(&mut self.pending_retrieves, header.unique);
                proof {
                    assert forall|i: int|
                        0 <= i < self.pending_retrieves@.len() implies #[trigger] self.pending_retrieves@[i]
                        < self.notify_unique by {
                        let y = self.pending_retrieves@[i];
                        assert(self.pending_retrieves@.contains(y));
                        assert(old(self).pending_retrieves@.contains(y));
                        let j = choose|j: int|
                            0 <= j < old(self).pending_retrieves@.len() && old(
                                self,
                            ).pending_retrieves@[j] == y;
                        assert(old(self).pending_retrieves@[j] < old(self).notify_unique);
                    }
                }
                (Dispatch::NotifyReply { unique: header.unique, offset, data, registered }, cx)
            },
            RequestKind::Unknown => {
                let _ = cx.reply_err(ENOSYS);
                proof {
                    assert(cx.out_bytes() =~= frame_bytes(
                        header.unique,
                        ((0 - ENOSYS) as i32),
                        Seq::<u8>::empty(),
                    ));
                }
                (Dispatch::Replied, cx)
            },
            RequestKind::Setlk { fh, owner, lk, lk_flags, sleep } => {
                if lk_flags & FUSE_LK_FLOCK != 0 && !(lk.typ == F_RDLCK || lk.typ == F_WRLCK
                    || lk.typ == F_UNLCK) {
                    let _ = cx.reply_err(EIO);
                    proof {
                        assert(cx.out_bytes() =~= frame_bytes(
                            header.unique,
                            ((0 - EIO) as i32),
                            Seq::<u8>::empty(),
                        ));
                    }
                    (Dispatch::Replied, cx)
                } else {
                    let op = make_op(
                        self.proto_minor,
                        &header,
                        RequestKind::Setlk { fh, owner, lk, lk_flags, sleep },
                    );
                    (Dispatch::Invoke(op), cx)
                }
            },
            other => {
                let op = make_op(self.proto_minor, &header, other);
                (Dispatch::Invoke(op), cx)
            },
        }
    }
}

/// The payload of an inode-invalidation notification.
pub open spec fn inval_inode_out_bytes(ino: u64, off: i64, len: i64) -> Seq<u8> {
    spec_u64_to_le_bytes(ino) + spec_u64_to_le_bytes(wire_i64(off)) + spec_u64_to_le_bytes(
        wire_i64(len),
    )
}

/// The fixed part of an entry-invalidation notification.
pub open spec fn inval_entry_out_bytes(parent: u64, namelen: u32) -> Seq<u8> {
    spec_u64_to_le_bytes(parent) + spec_u32_to_le_bytes(namelen) + spec_u32_to_le_bytes(0)
}

/// The fixed part of a deletion notification.
pub open spec fn delete_out_bytes(parent: u64, child: u64, namelen: u32) -> Seq<u8> {
    spec_u64_to_le_bytes(parent) + spec_u64_to_le_bytes(child) + spec_u32_to_le_bytes(namelen)
        + spec_u32_to_le_bytes(0)
}

/// The fixed part of a store notification.
pub open spec fn store_out_bytes(ino: u64, offset: u64, size: u32) -> Seq<u8> {
    spec_u64_to_le_bytes(ino) + spec_u64_to_le_bytes(offset) + spec_u32_to_le_bytes(size)
        + spec_u32_to_le_bytes(0)
}

/// The payload of a retrieve notification.
pub open spec fn retrieve_out_bytes(notify_unique: u64, ino: u64, offset: u64, size: u32) -> Seq<
    u8,
> {
    spec_u64_to_le_bytes(notify_unique) + spec_u64_to_le_bytes(ino) + spec_u64_to_le_bytes(offset)
        + spec_u32_to_le_bytes(size) + spec_u32_to_le_bytes(0)
}

/// The payload of a poll-wakeup notification.
pub open spec fn poll_wakeup_out_bytes(kh: u64) -> Seq<u8> {
    spec_u64_to_le_bytes(kh)
}

impl Session {
    /// Notify the inode invalidation to the kernel: appends the
    /// notification frame to `writer`.
    pub fn notify_inval_inode(&self, writer: &mut Vec<u8>, ino: u64, off: i64, len: i64)
        ensures
            final(writer)@ == old(writer)@ + frame_bytes(
                0,
                FUSE_NOTIFY_INVAL_INODE,
                inval_inode_out_bytes(ino, off, len),
            ),
    {
        let mut p: Vec<u8> = Vec::new();
        put_u64(&mut p, ino);
        put_i64(&mut p, off);
        put_i64(&mut p, len);
        proof {
            lemma_le_lens();
            assert(p@ =~= inval_inode_out_bytes(ino, off, len));
        }
        append_frame(writer, 0, FUSE_NOTIFY_INVAL_INODE, p.as_slice());
    }

    /// Notify the invalidation of an entry to the kernel: appends the
    /// notification frame, the entry's name following the fixed part.
    pub fn notify_inval_entry(&self, writer: &mut Vec<u8>, parent: u64, name: &[u8])
        requires
            name@.len() + 32 <= u32::MAX,
        ensures
            final(writer)@ == old(writer)@ + frame_bytes(
                0,
                FUSE_NOTIFY_INVAL_ENTRY,
                inval_entry_out_bytes(parent, name@.len() as u32) + name@,
            ),
    {
        let namelen: u32 = name.len() as u32;
        let mut p: Vec<u8> = Vec::new();
        put_u64(&mut p, parent);
        put_u32(&mut p, namelen);
        put_u32(&mut p, 0);
        push_bytes(&mut p, name);
        proof {
            lemma_le_lens();
            assert(p@ =~= inval_entry_out_bytes(parent, name@.len() as u32) + name@);
        }
        append_frame(writer, 0, FUSE_NOTIFY_INVAL_ENTRY, p.as_slice());
    }

    /// Notify the deletion of an entry to the kernel: appends the
    /// notification frame, the entry's name following the fixed part.
    pub fn notify_delete(&self, writer: &mut Vec<u8>, parent: u64, child: u64, name: &[u8])
        requires
            name@.len() + 40 <= u32::MAX,
        ensures
            final(writer)@ == old(writer)@ + frame_bytes(
                0,
                FUSE_NOTIFY_DELETE,
                delete_out_bytes(parent, child, name@.len() as u32) + name@,
            ),
    {
        let namelen: u32 = name.len() as u32;
        let mut p: Vec<u8> = Vec::new();
        put_u64(&mut p, parent);
        put_u64(&mut p, child);
        put_u32(&mut p, namelen);
        put_u32(&mut p, 0);
        push_bytes(&mut p, name);
        proof {
            lemma_le_lens();
            assert(p@ =~= delete_out_bytes(parent, child, name@.len() as u32) + name@);
        }
        append_frame(writer, 0, FUSE_NOTIFY_DELETE, p.as_slice());
    }

    /// Ask the kernel to replace a range of its cached data: appends the
    /// notification frame, the data chunks following the fixed part.
    pub fn notify_store(&self, writer: &mut Vec<u8>, ino: u64, offset: u64, data: &[&[u8]])
        requires
            total_len(data.deep_view()) + 40 <= u32::MAX,
        ensures
            final(writer)@ == old(writer)@ + frame_bytes(
                0,
                FUSE_NOTIFY_STORE,
                store_out_bytes(ino, offset, (total_len(data.deep_view()) as u32)) + concat_bytes(
                    data.deep_view(),
                ),
            ),
    {
        let ghost d = data.deep_view();
        let mut total: u64 = 0;
        let mut i: usize = 0;
        proof {
            assert(d.take(0) =~= Seq::<Seq<u8>>::empty());
        }
        while i < data.len()
            invariant
                i <= data@.len(),
                d == data.deep_view(),
                d.len() == data@.len(),
                total == total_len(d.take(i as int)),
                total_len(d) + 40 <= u32::MAX,
            decreases data@.len() - i,
        {
            let chunk: &[u8] = data[i];
            proof {
                assert(d[i as int] =~= chunk@);
                lemma_concat_take_step(d, i as int);
                lemma_total_len_mono(d, i as int + 1);
            }
            total = total + (chunk.len() as u64);
            i = i + 1;
        }
        proof {
            assert(d.take(d.len() as int) =~= d);
        }
        let mut p: Vec<u8> = Vec::new();
        put_u64(&mut p, ino);
        put_u64(&mut p, offset);
        put_u32(&mut p, total as u32);
        put_u32(&mut p, 0);
        proof {
            lemma_le_lens();
            assert(p@ =~= store_out_bytes(ino, offset, (total_len(d) as u32)));
        }
        let ghost base = p@;
        let mut j: usize = 0;
        proof {
            assert(d.take(0) =~= Seq::<Seq<u8>>::empty());
            assert(p@ =~= base + concat_bytes(d.take(0)));
        }
        while j < data.len()
            invariant
                j <= data@.len(),
                d == data.deep_view(),
                d.len() == data@.len(),
                p@ == base + concat_bytes(d.take(j as int)),
                base == store_out_bytes(ino, offset, (total_len(d) as u32)),
                base.len() == 24,
                total_len(d) + 40 <= u32::MAX,
            decreases data@.len() - j,
        {
            let chunk: &[u8] = data[j];
            push_bytes(&mut p, chunk);
            proof {
                assert(d[j as int] =~= chunk@);
                lemma_concat_take_step(d, j as int);
                assert(p@ =~= base + concat_bytes(d.take(j as int + 1)));
            }
            j = j + 1;
        }
        proof {
            assert(d.take(d.len() as int) =~= d);
            lemma_concat_bytes_len(d);
        }
        append_frame(writer, 0, FUSE_NOTIFY_STORE, p.as_slice());
    }

    /// Ask the kernel to send back a range of its cached data: registers
    /// a retrieve slot under a fresh identifier drawn from the monotonic
    /// counter, and appends the notification frame.  The kernel's answer
    /// arrives as a NOTIFY_REPLY request carrying that identifier.
    pub fn notify_retrieve(&mut self, writer: &mut Vec<u8>, ino: u64, offset: u64, size: u32) -> (r:
        u64)
        requires
            old(self).wf(),
            old(self).spec_notify_unique() < u64::MAX,
        ensures
            final(self).wf(),
            r == old(self).spec_notify_unique(),
            final(self).spec_notify_unique() == old(self).spec_notify_unique() + 1,
            final(self).is_pending_retrieve(r),
            forall|y: u64|
                y != r ==> final(self).is_pending_retrieve(y) == old(self).is_pending_retrieve(y),
            final(self).interrupted_seq() == old(self).interrupted_seq(),
            final(self).pending_interrupts_seq() == old(self).pending_interrupts_seq(),
            final(self).spec_exited() == old(self).spec_exited(),
            final(self).spec_proto_major() == old(self).spec_proto_major(),
            final(self).spec_proto_minor() == old(self).spec_proto_minor(),
            final(self).spec_max_readahead() == old(self).spec_max_readahead(),
            final(writer)@ == old(writer)@ + frame_bytes(
                0,
                FUSE_NOTIFY_RETRIEVE,
                retrieve_out_bytes(r, ino, offset, size),
            ),
    {
        let u = self.notify_unique;
        proof {
            lemma_notify_unique_fresh(*self);
        }
        self.notify_unique = u + 1;
        table_insert(&mut self.pending_retrieves, u);
        proof {
            assert forall|i: int|
                0 <= i < self.pending_retrieves@.len() implies #[trigger] self.pending_retrieves@[i]
                < self.notify_unique by {
                if i < self.pending_retrieves@.len() - 1 {
                    assert(self.pending_retrieves@[i] == old(self).pending_retrieves@[i]);
                } else {
                    assert(self.pending_retrieves@[i] == u);
                }
            }
        }
        let mut p: Vec<u8> = Vec::new();
        put_u64(&mut p, u);
        put_u64(&mut p, ino);
        put_u64(&mut p, offset);
        put_u32(&mut p, size);
        put_u32(&mut p, 0);
        proof {
            lemma_le_lens();
            assert(p@ =~= retrieve_out_bytes(u, ino, offset, size));
        }
        append_frame(writer, 0, FUSE_NOTIFY_RETRIEVE, p.as_slice());
        u
    }

    /// Notify an I/O readiness event for the poll handle `kh`: appends
    /// the notification frame to `writer`.
    pub fn notify_poll_wakeup(&self, writer: &mut Vec<u8>, kh: u64)
        ensures
            final(writer)@ == old(writer)@ + frame_bytes(
                0,
                FUSE_NOTIFY_POLL,
                poll_wakeup_out_bytes(kh),
            ),
    {
        let mut p: Vec<u8> = Vec::new();
        put_u64(&mut p, kh);
        proof {
            lemma_le_lens();
            assert(p@ =~= poll_wakeup_out_bytes(kh));
        }
        append_frame(writer, 0, FUSE_NOTIFY_POLL, p.as_slice());
    }
}

} // verus!
