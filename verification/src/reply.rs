//! Replies to the kernel.
//!
//! Every operation hands the filesystem handler a typed reply object that
//! is consumed by its single terminal method, so at most one reply frame
//! can be produced per handle.  The terminal methods append one complete
//! frame to the request's [`Context`](crate::session::Context); the caller
//! writes that frame to the device whole.

use crate::common::{attr_bytes, lock_bytes, put_attr, put_lock, put_statfs, statfs_bytes};
use crate::common::{FileAttr, FileLock, FsStatistics};
use crate::kernel::{ERANGE, FOPEN_CACHE_DIR, FOPEN_DIRECT_IO, FOPEN_KEEP_CACHE, FOPEN_NONSEEKABLE};
use crate::session::{same_source, Context};
use crate::wire::{
    concat_bytes, frame_bytes, lemma_concat_bytes_len, lemma_concat_take_step, lemma_le_lens,
    lemma_total_len_mono, put_i32, put_u32, put_u64, push_bytes, total_len, wire_i32,
};
use vstd::bytes::{spec_u32_to_le_bytes, spec_u64_to_le_bytes};
use vstd::prelude::*;

verus! {

/// Why a reply frame could not be produced.
#[derive(Clone, Copy, Debug, PartialEq, Eq, Structural)]
pub enum SendError {
    /// Header and payload together would not fit in the frame's 32-bit
    /// length field.
    FrameTooLarge,
}

/// Appends one frame to `writer`: the 16-byte header `{len, error,
/// unique}` followed by the payload chunks in order.
///
/// Fails, writing nothing, exactly when the frame would exceed the 32-bit
/// length field.
pub fn send_msg(writer: &mut Vec<u8>, unique: u64, error: i32, data: &[&[u8]]) -> (r: Result<
    (),
    SendError,
>)
    ensures
        match r {
            Ok(()) => 16 + total_len(data.deep_view()) <= u32::MAX && final(writer)@ == old(writer)@ + frame_bytes(unique, error, concat_bytes(data.deep_view())),
            Err(_) => 16 + total_len(data.deep_view()) > u32::MAX && final(writer)@ == old(writer)@,
        },
{
    let ghost d = data.deep_view();
    let limit: u64 = (u32::MAX as u64) - 16;
    let mut total: u64 = 0;
    let mut i: usize = 0;
    proof {
        assert(d.take(0) =~= Seq::<Seq<u8>>::empty());
    }
    while i < data.len()
        invariant
            i <= data@.len(),
            d == data.deep_view(),
            d.len() == data@.len(),
            total == total_len(d.take(i as int)),
            total <= limit,
            limit == (u32::MAX as u64) - 16,
        decreases data@.len() - i,
    {
        let chunk: &[u8] = data[i];
        proof {
            assert(d[i as int] =~= chunk@);
            lemma_concat_take_step(d, i as int);
        }
        let l: usize = chunk.len();
        if l as u64 > limit - total {
            proof {
                lemma_total_len_mono(d, i as int + 1);
            }
            return Err(SendError::FrameTooLarge);
        }
        total = total + (l as u64);
        i = i + 1;
    }
    proof {
        assert(d.take(d.len() as int) =~= d);
    }
    let len32: u32 = (16 + total) as u32;
    put_u32(writer, len32);
    put_i32(writer, error);
    put_u64(writer, unique);
    let ghost hdr = spec_u32_to_le_bytes(len32) + spec_u32_to_le_bytes(wire_i32(error))
        + spec_u64_to_le_bytes(unique);
    let mut j: usize = 0;
    proof {
        assert(d.take(0) =~= Seq::<Seq<u8>>::empty());
        assert(writer@ =~= old(writer)@ + hdr + concat_bytes(d.take(0)));
    }
    while j < data.len()
        invariant
            j <= data@.len(),
            d == data.deep_view(),
            d.len() == data@.len(),
            hdr == spec_u32_to_le_bytes(len32) + spec_u32_to_le_bytes(wire_i32(error))
                + spec_u64_to_le_bytes(unique),
            writer@ == old(writer)@ + hdr + concat_bytes(d.take(j as int)),
        decreases data@.len() - j,
    {
        let chunk: &[u8] = data[j];
        push_bytes(writer, chunk);
        proof {
            assert(d[j as int] =~= chunk@);
            lemma_concat_take_step(d, j as int);
            assert(writer@ =~= old(writer)@ + hdr + concat_bytes(d.take(j as int + 1)));
        }
        j = j + 1;
    }
    proof {
        assert(d.take(d.len() as int) =~= d);
        lemma_concat_bytes_len(d);
        lemma_le_lens();
        assert(writer@ =~= old(writer)@ + frame_bytes(unique, error, concat_bytes(d)));
    }
    Ok(())
}

/// Appends one frame whose payload is known to fit the length field.
pub(crate) fn append_frame(out: &mut Vec<u8>, unique: u64, error: i32, payload: &[u8])
    requires
        16 + payload@.len() <= u32::MAX,
    ensures
        final(out)@ == old(out)@ + frame_bytes(unique, error, payload@),
{
    let len32: u32 = 16 + (payload.len() as u32);
    put_u32(out, len32);
    put_i32(out, error);
    put_u64(out, unique);
    push_bytes(out, payload);
    proof {
        lemma_le_lens();
        assert(out@ =~= old(out)@ + frame_bytes(unique, error, payload@));
    }
}

/// The payload of an attribute reply: the validity timeout (seconds,
/// then nanoseconds), a zero word, then the attribute record.
pub open spec fn attr_out_bytes(attr_valid: (u64, u32), a: FileAttr) -> Seq<u8> {
    spec_u64_to_le_bytes(attr_valid.0) + spec_u32_to_le_bytes(attr_valid.1) + spec_u32_to_le_bytes(
        0,
    ) + attr_bytes(a)
}

/// The payload of an entry reply.
pub open spec fn entry_out_bytes(
    generation: u64,
    entry_valid: (u64, u32),
    attr_valid: (u64, u32),
    a: FileAttr,
) -> Seq<u8> {
    spec_u64_to_le_bytes(a.ino) + spec_u64_to_le_bytes(generation) + spec_u64_to_le_bytes(
        entry_valid.0,
    ) + spec_u64_to_le_bytes(attr_valid.0) + spec_u32_to_le_bytes(entry_valid.1)
        + spec_u32_to_le_bytes(attr_valid.1) + attr_bytes(a)
}

/// The payload of an open reply.
pub open spec fn open_out_bytes(fh: u64, open_flags: u32) -> Seq<u8> {
    spec_u64_to_le_bytes(fh) + spec_u32_to_le_bytes(open_flags) + spec_u32_to_le_bytes(0)
}

/// The payload of a write reply.
pub open spec fn write_out_bytes(size: u32) -> Seq<u8> {
    spec_u32_to_le_bytes(size) + spec_u32_to_le_bytes(0)
}

/// The payload of an extended-attribute size reply.
pub open spec fn xattr_out_bytes(size: u32) -> Seq<u8> {
    spec_u32_to_le_bytes(size) + spec_u32_to_le_bytes(0)
}

/// The payload of a block-map reply.
pub open spec fn bmap_out_bytes(block: u64) -> Seq<u8> {
    spec_u64_to_le_bytes(block)
}

/// The payload of a poll reply.
pub open spec fn poll_out_bytes(revents: u32) -> Seq<u8> {
    spec_u32_to_le_bytes(revents) + spec_u32_to_le_bytes(0)
}

/// Reply with an empty output.
#[derive(Debug)]
#[must_use]
pub struct ReplyEmpty {
    _p: (),
}

impl ReplyEmpty {
    pub fn new() -> (r: Self) {
        ReplyEmpty { _p: () }
    }

    /// Replies with an empty payload.
    pub fn ok(self, cx: &mut Context) -> (r: Result<(), SendError>)
        ensures
            r matches Ok(()),
            final(cx).out_bytes() == old(cx).out_bytes() + frame_bytes(
                old(cx).spec_unique(),
                0,
                Seq::<u8>::empty(),
            ),
            same_source(*old(cx), *final(cx)),
    {
        let p: Vec<u8> = Vec::new();
        cx.reply(p.as_slice())
    }
}

/// Reply with arbitrary binary data.
#[derive(Debug)]
#[must_use]
pub struct ReplyData {
    size: u32,
}

impl ReplyData {
    /// The size cap the kernel gave for this reply.
    pub closed spec fn spec_size(&self) -> u32 {
        self.size
    }

    pub fn new(size: u32) -> (r: Self)
        ensures
            r.spec_size() == size,
    {
        ReplyData { size }
    }

    /// Return the maximum size of data provided by the kernel.
    pub fn size(&self) -> (r: u32)
        ensures
            r == self.spec_size(),
    {
        self.size
    }

    /// Reply to the kernel with a data.
    ///
    /// If the data size is larger than the maximum size provided by the
    /// kernel, this method replies with the error number ERANGE instead.
    pub fn data(self, cx: &mut Context, data: &[u8]) -> (r: Result<(), SendError>)
        ensures
            match r {
                Ok(()) => if data@.len() <= self.spec_size() {
                    16 + data@.len() <= u32::MAX && final(cx).out_bytes() == old(cx).out_bytes()
                        + frame_bytes(old(cx).spec_unique(), 0, data@)
                } else {
                    final(cx).out_bytes() == old(cx).out_bytes() + frame_bytes(
                        old(cx).spec_unique(),
                        ((0 - ERANGE) as i32),
                        Seq::<u8>::empty(),
                    )
                },
                Err(_) => data@.len() <= self.spec_size() && 16 + data@.len() > u32::MAX && final(cx).out_bytes() == old(cx).out_bytes(),
            },
            same_source(*old(cx), *final(cx)),
    {
        if data.len() as u64 <= self.size as u64 {
            cx.reply(data)
        } else {
            cx.reply_err(ERANGE)
        }
    }

    /// Reply to the kernel with a *split* data.
    ///
    /// If the total data size is larger than the maximum size provided by
    /// the kernel, this method replies with the error number ERANGE
    /// instead.
    pub fn data_vectored(self, cx: &mut Context, data: &[&[u8]]) -> (r: Result<(), SendError>)
        ensures
            match r {
                Ok(()) => if total_len(data.deep_view()) <= self.spec_size() {
                    16 + total_len(data.deep_view()) <= u32::MAX && final(cx).out_bytes() == old(cx).out_bytes() + frame_bytes(
                        old(cx).spec_unique(),
                        0,
                        concat_bytes(data.deep_view()),
                    )
                } else {
                    final(cx).out_bytes() == old(cx).out_bytes() + frame_bytes(
                        old(cx).spec_unique(),
                        ((0 - ERANGE) as i32),
                        Seq::<u8>::empty(),
                    )
                },
                Err(_) => total_len(data.deep_view()) <= self.spec_size() && 16 + total_len(
                    data.deep_view(),
                ) > u32::MAX && final(cx).out_bytes() == old(cx).out_bytes(),
            },
            same_source(*old(cx), *final(cx)),
    {
        let ghost d = data.deep_view();
        let cap: u64 = self.size as u64;
        let mut total: u64 = 0;
        let mut i: usize = 0;
        proof {
            assert(d.take(0) =~= Seq::<Seq<u8>>::empty());
        }
        while i < data.len()
            invariant
                i <= data@.len(),
                d == data.deep_view(),
                d.len() == data@.len(),
                total == total_len(d.take(i as int)),
                total <= cap,
                cap == self.spec_size() as u64,
                *cx == *old(cx),
            decreases data@.len() - i,
        {
            let chunk: &[u8] = data[i];
            proof {
                assert(d[i as int] =~= chunk@);
                lemma_concat_take_step(d, i as int);
            }
            let l: usize = chunk.len();
            if l as u64 > cap - total {
                proof {
                    lemma_total_len_mono(d, i as int + 1);
                }
                return cx.reply_err(ERANGE);
            }
            total = total + (l as u64);
            i = i + 1;
        }
        proof {
            assert(d.take(d.len() as int) =~= d);
        }
        cx.reply_vectored(data)
    }
}

/// Reply with the inode attributes.
#[derive(Debug)]
#[must_use]
pub struct ReplyAttr {
    attr_valid: (u64, u32),
}

impl ReplyAttr {
    /// The validity timeout set for the attributes.
    pub closed spec fn spec_attr_valid(&self) -> (u64, u32) {
        self.attr_valid
    }

    pub fn new() -> (r: Self)
        ensures
            r.spec_attr_valid() == (0u64, 0u32),
    {
        ReplyAttr { attr_valid: (0, 0) }
    }

    /// Set the validity timeout for attributes.
    pub fn attr_valid(&mut self, secs: u64, nsecs: u32)
        ensures
            final(self).spec_attr_valid() == (secs, nsecs),
    {
        self.attr_valid = (secs, nsecs);
    }

    /// Reply to the kernel with the specified attributes.
    pub fn attr(self, cx: &mut Context, attr: &FileAttr) -> (r: Result<(), SendError>)
        ensures
            r matches Ok(()),
            final(cx).out_bytes() == old(cx).out_bytes() + frame_bytes(
                old(cx).spec_unique(),
                0,
                attr_out_bytes(self.spec_attr_valid(), *attr),
            ),
            same_source(*old(cx), *final(cx)),
    {
        let mut p: Vec<u8> = Vec::new();
        put_u64(&mut p, self.attr_valid.0);
        put_u32(&mut p, self.attr_valid.1);
        put_u32(&mut p, 0);
        put_attr(&mut p, attr);
        proof {
            lemma_le_lens();
            crate::common::lemma_attr_bytes_len(*attr);
            assert(p@ =~= attr_out_bytes(self.attr_valid, *attr));
        }
        cx.reply(p.as_slice())
    }
}

/// Reply with entry params.
#[derive(Debug)]
#[must_use]
pub struct ReplyEntry {
    entry_valid: (u64, u32),
    attr_valid: (u64, u32),
}

impl ReplyEntry {
    /// The validity timeout set for the entry name.
    pub closed spec fn spec_entry_valid(&self) -> (u64, u32) {
        self.entry_valid
    }

    /// The validity timeout set for the attributes.
    pub closed spec fn spec_attr_valid(&self) -> (u64, u32) {
        self.attr_valid
    }

    pub fn new() -> (r: Self)
        ensures
            r.spec_entry_valid() == (0u64, 0u32),
            r.spec_attr_valid() == (0u64, 0u32),
    {
        ReplyEntry { entry_valid: (0, 0), attr_valid: (0, 0) }
    }

    /// Set the validity timeout for inode attributes.
    pub fn attr_valid(&mut self, sec: u64, nsec: u32)
        ensures
            final(self).spec_attr_valid() == (sec, nsec),
            final(self).spec_entry_valid() == old(self).spec_entry_valid(),
    {
        self.attr_valid = (sec, nsec);
    }

    /// Set the validity timeout for the name.
    pub fn entry_valid(&mut self, sec: u64, nsec: u32)
        ensures
            final(self).spec_entry_valid() == (sec, nsec),
            final(self).spec_attr_valid() == old(self).spec_attr_valid(),
    {
        self.entry_valid = (sec, nsec);
    }

    /// Reply to the kernel with the specified entry parameters.
    ///
    /// The parameter `generation` distinguishes the inode from past uses
    /// of the same inode number.
    pub fn entry(self, cx: &mut Context, attr: &FileAttr, generation: u64) -> (r: Result<
        (),
        SendError,
    >)
        ensures
            r matches Ok(()),
            final(cx).out_bytes() == old(cx).out_bytes() + frame_bytes(
                old(cx).spec_unique(),
                0,
                entry_out_bytes(generation, self.spec_entry_valid(), self.spec_attr_valid(), *attr),
            ),
            same_source(*old(cx), *final(cx)),
    {
        let mut p: Vec<u8> = Vec::new();
        put_u64(&mut p, attr.ino);
        put_u64(&mut p, generation);
        put_u64(&mut p, self.entry_valid.0);
        put_u64(&mut p, self.attr_valid.0);
        put_u32(&mut p, self.entry_valid.1);
        put_u32(&mut p, self.attr_valid.1);
        put_attr(&mut p, attr);
        proof {
            lemma_le_lens();
            crate::common::lemma_attr_bytes_len(*attr);
            assert(p@ =~= entry_out_bytes(
                generation,
                self.spec_entry_valid(),
                self.spec_attr_valid(),
                *attr,
            ));
        }
        cx.reply(p.as_slice())
    }
}

/// Reply with the read link value.
#[derive(Debug)]
#[must_use]
pub struct ReplyReadlink {
    _p: (),
}

impl ReplyReadlink {
    pub fn new() -> (r: Self) {
        ReplyReadlink { _p: () }
    }

    /// Reply to the kernel with the specified link value.
    pub fn link(self, cx: &mut Context, value: &[u8]) -> (r: Result<(), SendError>)
        ensures
            match r {
                Ok(()) => 16 + value@.len() <= u32::MAX && final(cx).out_bytes() == old(cx).out_bytes() + frame_bytes(old(cx).spec_unique(), 0, value@),
                Err(_) => 16 + value@.len() > u32::MAX && final(cx).out_bytes() == old(cx).out_bytes(),
            },
            same_source(*old(cx), *final(cx)),
    {
        cx.reply(value)
    }
}

/// Reply with an opened file.
#[derive(Debug)]
#[must_use]
pub struct ReplyOpen {
    open_flags: u32,
}

impl ReplyOpen {
    /// The open flags collected so far.
    pub closed spec fn spec_open_flags(&self) -> u32 {
        self.open_flags
    }

    pub fn new() -> (r: Self)
        ensures
            r.spec_open_flags() == 0,
    {
        ReplyOpen { open_flags: 0 }
    }

    /// Sets or clears one open flag.
    pub fn set_flag(&mut self, flag: u32, enabled: bool)
        ensures
            final(self).spec_open_flags() == (if enabled {
                old(self).spec_open_flags() | flag
            } else {
                old(self).spec_open_flags() & !flag
            }),
    {
        if enabled {
            self.open_flags = self.open_flags | flag;
        } else {
            self.open_flags = self.open_flags & !flag;
        }
    }

    /// Indicates that the direct I/O is used on this file.
    pub fn direct_io(&mut self, enabled: bool)
        ensures
            final(self).spec_open_flags() == (if enabled {
                old(self).spec_open_flags() | FOPEN_DIRECT_IO
            } else {
                old(self).spec_open_flags() & !FOPEN_DIRECT_IO
            }),
    {
        self.set_flag(FOPEN_DIRECT_IO, enabled);
    }

    /// Indicates that the currently cached file data in the kernel need
    /// not be invalidated.
    pub fn keep_cache(&mut self, enabled: bool)
        ensures
            final(self).spec_open_flags() == (if enabled {
                old(self).spec_open_flags() | FOPEN_KEEP_CACHE
            } else {
                old(self).spec_open_flags() & !FOPEN_KEEP_CACHE
            }),
    {
        self.set_flag(FOPEN_KEEP_CACHE, enabled);
    }

    /// Indicates that the opened file is not seekable.
    pub fn nonseekable(&mut self, enabled: bool)
        ensures
            final(self).spec_open_flags() == (if enabled {
                old(self).spec_open_flags() | FOPEN_NONSEEKABLE
            } else {
                old(self).spec_open_flags() & !FOPEN_NONSEEKABLE
            }),
    {
        self.set_flag(FOPEN_NONSEEKABLE, enabled);
    }

    /// Reply to the kernel with the specified file handle and flags.
    pub fn open(self, cx: &mut Context, fh: u64) -> (r: Result<(), SendError>)
        ensures
            r matches Ok(()),
            final(cx).out_bytes() == old(cx).out_bytes() + frame_bytes(
                old(cx).spec_unique(),
                0,
                open_out_bytes(fh, self.spec_open_flags()),
            ),
            same_source(*old(cx), *final(cx)),
    {
        let mut p: Vec<u8> = Vec::new();
        put_u64(&mut p, fh);
        put_u32(&mut p, self.open_flags);
        put_u32(&mut p, 0);
        proof {
            lemma_le_lens();
            assert(p@ =~= open_out_bytes(fh, self.spec_open_flags()));
        }
        cx.reply(p.as_slice())
    }
}

/// Reply with the information about written data.
#[derive(Debug)]
#[must_use]
pub struct ReplyWrite {
    _p: (),
}

impl ReplyWrite {
    pub fn new() -> (r: Self) {
        ReplyWrite { _p: () }
    }

    /// Reply to the kernel with the total length of written data.
    pub fn write(self, cx: &mut Context, size: u32) -> (r: Result<(), SendError>)
        ensures
            r matches Ok(()),
            final(cx).out_bytes() == old(cx).out_bytes() + frame_bytes(
                old(cx).spec_unique(),
                0,
                write_out_bytes(size),
            ),
            same_source(*old(cx), *final(cx)),
    {
        let mut p: Vec<u8> = Vec::new();
        put_u32(&mut p, size);
        put_u32(&mut p, 0);
        proof {
            lemma_le_lens();
            assert(p@ =~= write_out_bytes(size));
        }
        cx.reply(p.as_slice())
    }
}

/// Reply with an opened directory.
#[derive(Debug)]
#[must_use]
pub struct ReplyOpendir {
    open_flags: u32,
}

impl ReplyOpendir {
    /// The open flags collected so far.
    pub closed spec fn spec_open_flags(&self) -> u32 {
        self.open_flags
    }

    pub fn new() -> (r: Self)
        ensures
            r.spec_open_flags() == 0,
    {
        ReplyOpendir { open_flags: 0 }
    }

    /// Sets or clears one open flag.
    pub fn set_flag(&mut self, flag: u32, enabled: bool)
        ensures
            final(self).spec_open_flags() == (if enabled {
                old(self).spec_open_flags() | flag
            } else {
                old(self).spec_open_flags() & !flag
            }),
    {
        if enabled {
            self.open_flags = self.open_flags | flag;
        } else {
            self.open_flags = self.open_flags & !flag;
        }
    }

    /// Enable caching of entries returned by `readdir`.
    pub fn cache_dir(&mut self, enabled: bool)
        ensures
            final(self).spec_open_flags() == (if enabled {
                old(self).spec_open_flags() | FOPEN_CACHE_DIR
            } else {
                old(self).spec_open_flags() & !FOPEN_CACHE_DIR
            }),
    {
        self.set_flag(FOPEN_CACHE_DIR, enabled);
    }

    /// Reply to the kernel with the specified file handle and flags.
    pub fn open(self, cx: &mut Context, fh: u64) -> (r: Result<(), SendError>)
        ensures
            r matches Ok(()),
            final(cx).out_bytes() == old(cx).out_bytes() + frame_bytes(
                old(cx).spec_unique(),
                0,
                open_out_bytes(fh, self.spec_open_flags()),
            ),
            same_source(*old(cx), *final(cx)),
    {
        let mut p: Vec<u8> = Vec::new();
        put_u64(&mut p, fh);
        put_u32(&mut p, self.open_flags);
        put_u32(&mut p, 0);
        proof {
            lemma_le_lens();
            assert(p@ =~= open_out_bytes(fh, self.spec_open_flags()));
        }
        cx.reply(p.as_slice())
    }
}

/// Reply to a request about extended attributes.
#[derive(Debug)]
#[must_use]
pub struct ReplyXattr {
    _p: (),
}

impl ReplyXattr {
    pub fn new() -> (r: Self) {
        ReplyXattr { _p: () }
    }

    /// Reply to the kernel with the specified size value.
    pub fn size(self, cx: &mut Context, size: u32) -> (r: Result<(), SendError>)
        ensures
            r matches Ok(()),
            final(cx).out_bytes() == old(cx).out_bytes() + frame_bytes(
                old(cx).spec_unique(),
                0,
                xattr_out_bytes(size),
            ),
            same_source(*old(cx), *final(cx)),
    {
        let mut p: Vec<u8> = Vec::new();
        put_u32(&mut p, size);
        put_u32(&mut p, 0);
        proof {
            lemma_le_lens();
            assert(p@ =~= xattr_out_bytes(size));
        }
        cx.reply(p.as_slice())
    }

    /// Reply to the kernel with the specified value.
    pub fn value(self, cx: &mut Context, value: &[u8]) -> (r: Result<(), SendError>)
        ensures
            match r {
                Ok(()) => 16 + value@.len() <= u32::MAX && final(cx).out_bytes() == old(cx).out_bytes() + frame_bytes(old(cx).spec_unique(), 0, value@),
                Err(_) => 16 + value@.len() > u32::MAX && final(cx).out_bytes() == old(cx).out_bytes(),
            },
            same_source(*old(cx), *final(cx)),
    {
        cx.reply(value)
    }
}

/// Reply with the filesystem statistics.
#[derive(Debug)]
#[must_use]
pub struct ReplyStatfs {
    _p: (),
}

impl ReplyStatfs {
    pub fn new() -> (r: Self) {
        ReplyStatfs { _p: () }
    }

    /// Reply to the kernel with the specified statistics.
    pub fn stat(self, cx: &mut Context, st: &FsStatistics) -> (r: Result<(), SendError>)
        ensures
            r matches Ok(()),
            final(cx).out_bytes() == old(cx).out_bytes() + frame_bytes(
                old(cx).spec_unique(),
                0,
                statfs_bytes(*st),
            ),
            same_source(*old(cx), *final(cx)),
    {
        let mut p: Vec<u8> = Vec::new();
        put_statfs(&mut p, st);
        proof {
            lemma_le_lens();
            crate::common::lemma_statfs_bytes_len(*st);
            assert(p@ =~= statfs_bytes(*st));
        }
        cx.reply(p.as_slice())
    }
}

/// Reply with a file lock.
#[derive(Debug)]
#[must_use]
pub struct ReplyLk {
    _p: (),
}

impl ReplyLk {
    pub fn new() -> (r: Self) {
        ReplyLk { _p: () }
    }

    /// Reply to the kernel with the specified file lock.
    pub fn lock(self, cx: &mut Context, lk: &FileLock) -> (r: Result<(), SendError>)
        ensures
            r matches Ok(()),
            final(cx).out_bytes() == old(cx).out_bytes() + frame_bytes(
                old(cx).spec_unique(),
                0,
                lock_bytes(*lk),
            ),
            same_source(*old(cx), *final(cx)),
    {
        let mut p: Vec<u8> = Vec::new();
        put_lock(&mut p, lk);
        proof {
            lemma_le_lens();
            crate::common::lemma_lock_bytes_len(*lk);
            assert(p@ =~= lock_bytes(*lk));
        }
        cx.reply(p.as_slice())
    }
}

/// Reply with entry parameters and an opened file at once.
#[derive(Debug)]
#[must_use]
pub struct ReplyCreate {
    entry_valid: (u64, u32),
    attr_valid: (u64, u32),
    open_flags: u32,
}

impl ReplyCreate {
    /// The validity timeout set for the entry name.
    pub closed spec fn spec_entry_valid(&self) -> (u64, u32) {
        self.entry_valid
    }

    /// The validity timeout set for the attributes.
    pub closed spec fn spec_attr_valid(&self) -> (u64, u32) {
        self.attr_valid
    }

    /// The open flags collected so far.
    pub closed spec fn spec_open_flags(&self) -> u32 {
        self.open_flags
    }

    pub fn new() -> (r: Self)
        ensures
            r.spec_entry_valid() == (0u64, 0u32),
            r.spec_attr_valid() == (0u64, 0u32),
            r.spec_open_flags() == 0,
    {
        ReplyCreate { entry_valid: (0, 0), attr_valid: (0, 0), open_flags: 0 }
    }

    /// Set the validity timeout for inode attributes.
    pub fn attr_valid(&mut self, sec: u64, nsec: u32)
        ensures
            final(self).spec_attr_valid() == (sec, nsec),
            final(self).spec_entry_valid() == old(self).spec_entry_valid(),
            final(self).spec_open_flags() == old(self).spec_open_flags(),
    {
        self.attr_valid = (sec, nsec);
    }

    /// Set the validity timeout for the name.
    pub fn entry_valid(&mut self, sec: u64, nsec: u32)
        ensures
            final(self).spec_entry_valid() == (sec, nsec),
            final(self).spec_attr_valid() == old(self).spec_attr_valid(),
            final(self).spec_open_flags() == old(self).spec_open_flags(),
    {
        self.entry_valid = (sec, nsec);
    }

    /// Sets or clears one open flag.
    pub fn set_flag(&mut self, flag: u32, enabled: bool)
        ensures
            final(self).spec_open_flags() == (if enabled {
                old(self).spec_open_flags() | flag
            } else {
                old(self).spec_open_flags() & !flag
            }),
            final(self).spec_entry_valid() == old(self).spec_entry_valid(),
            final(self).spec_attr_valid() == old(self).spec_attr_valid(),
    {
        if enabled {
            self.open_flags = self.open_flags | flag;
        } else {
            self.open_flags = self.open_flags & !flag;
        }
    }

    /// Indicates that the direct I/O is used on this file.
    pub fn direct_io(&mut self, enabled: bool)
        ensures
            final(self).spec_open_flags() == (if enabled {
                old(self).spec_open_flags() | FOPEN_DIRECT_IO
            } else {
                old(self).spec_open_flags() & !FOPEN_DIRECT_IO
            }),
            final(self).spec_entry_valid() == old(self).spec_entry_valid(),
            final(self).spec_attr_valid() == old(self).spec_attr_valid(),
    {
        self.set_flag(FOPEN_DIRECT_IO, enabled);
    }

    /// Indicates that the currently cached file data in the kernel need
    /// not be invalidated.
    pub fn keep_cache(&mut self, enabled: bool)
        ensures
            final(self).spec_open_flags() == (if enabled {
                old(self).spec_open_flags() | FOPEN_KEEP_CACHE
            } else {
                old(self).spec_open_flags() & !FOPEN_KEEP_CACHE
            }),
            final(self).spec_entry_valid() == old(self).spec_entry_valid(),
            final(self).spec_attr_valid() == old(self).spec_attr_valid(),
    {
        self.set_flag(FOPEN_KEEP_CACHE, enabled);
    }

    /// Indicates that the opened file is not seekable.
    pub fn nonseekable(&mut self, enabled: bool)
        ensures
            final(self).spec_open_flags() == (if enabled {
                old(self).spec_open_flags() | FOPEN_NONSEEKABLE
            } else {
                old(self).spec_open_flags() & !FOPEN_NONSEEKABLE
            }),
            final(self).spec_entry_valid() == old(self).spec_entry_valid(),
            final(self).spec_attr_valid() == old(self).spec_attr_valid(),
    {
        self.set_flag(FOPEN_NONSEEKABLE, enabled);
    }

    /// Reply to the kernel with the specified entry parameters and file
    /// handle.
    pub fn create(self, cx: &mut Context, attr: &FileAttr, generation: u64, fh: u64) -> (r: Result<
        (),
        SendError,
    >)
        ensures
            r matches Ok(()),
            final(cx).out_bytes() == old(cx).out_bytes() + frame_bytes(
                old(cx).spec_unique(),
                0,
                entry_out_bytes(generation, self.spec_entry_valid(), self.spec_attr_valid(), *attr)
                    + open_out_bytes(fh, self.spec_open_flags()),
            ),
            same_source(*old(cx), *final(cx)),
    {
        let mut p: Vec<u8> = Vec::new();
        put_u64(&mut p, attr.ino);
        put_u64(&mut p, generation);
        put_u64(&mut p, self.entry_valid.0);
        put_u64(&mut p, self.attr_valid.0);
        put_u32(&mut p, self.entry_valid.1);
        put_u32(&mut p, self.attr_valid.1);
        put_attr(&mut p, attr);
        put_u64(&mut p, fh);
        put_u32(&mut p, self.open_flags);
        put_u32(&mut p, 0);
        proof {
            lemma_le_lens();
            crate::common::lemma_attr_bytes_len(*attr);
            assert(p@ =~= entry_out_bytes(
                generation,
                self.spec_entry_valid(),
                self.spec_attr_valid(),
                *attr,
            ) + open_out_bytes(fh, self.spec_open_flags()));
        }
        cx.reply(p.as_slice())
    }
}

/// Reply with the mapped block index.
#[derive(Debug)]
#[must_use]
pub struct ReplyBmap {
    _p: (),
}

impl ReplyBmap {
    pub fn new() -> (r: Self) {
        ReplyBmap { _p: () }
    }

    /// Reply to the kernel with a mapped block index.
    pub fn block(self, cx: &mut Context, block: u64) -> (r: Result<(), SendError>)
        ensures
            r matches Ok(()),
            final(cx).out_bytes() == old(cx).out_bytes() + frame_bytes(
                old(cx).spec_unique(),
                0,
                bmap_out_bytes(block),
            ),
            same_source(*old(cx), *final(cx)),
    {
        let mut p: Vec<u8> = Vec::new();
        put_u64(&mut p, block);
        proof {
            lemma_le_lens();
            assert(p@ =~= bmap_out_bytes(block));
        }
        cx.reply(p.as_slice())
    }
}

/// Reply with the poll result.
#[derive(Debug)]
#[must_use]
pub struct ReplyPoll {
    _p: (),
}

impl ReplyPoll {
    pub fn new() -> (r: Self) {
        ReplyPoll { _p: () }
    }

    /// Reply to the kernel with a poll event mask.
    pub fn events(self, cx: &mut Context, revents: u32) -> (r: Result<(), SendError>)
        ensures
            r matches Ok(()),
            final(cx).out_bytes() == old(cx).out_bytes() + frame_bytes(
                old(cx).spec_unique(),
                0,
                poll_out_bytes(revents),
            ),
            same_source(*old(cx), *final(cx)),
    {
        let mut p: Vec<u8> = Vec::new();
        put_u32(&mut p, revents);
        put_u32(&mut p, 0);
        proof {
            lemma_le_lens();
            assert(p@ =~= poll_out_bytes(revents));
        }
        cx.reply(p.as_slice())
    }
}

} // verus!
