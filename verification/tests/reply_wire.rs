//! Wire-level checks of the reply encoder: frame framing, error replies,
//! the size cap on data replies, and the per-opcode reply payloads.

use polyfuse::reply::{
    send_msg, ReplyAttr, ReplyBmap, ReplyCreate, ReplyData, ReplyEmpty, ReplyEntry, ReplyLk,
    ReplyOpen, ReplyOpendir, ReplyPoll, ReplyReadlink, ReplyStatfs, ReplyWrite, ReplyXattr,
    SendError,
};
use polyfuse::{Context, FileAttr, FileLock, FsStatistics, InHeader};

fn header(unique: u64) -> InHeader {
    InHeader { len: 0, opcode: 0, unique, nodeid: 1, uid: 11, gid: 22, pid: 33 }
}

fn u32_at(buf: &[u8], off: usize) -> u32 {
    u32::from_le_bytes([buf[off], buf[off + 1], buf[off + 2], buf[off + 3]])
}

fn u64_at(buf: &[u8], off: usize) -> u64 {
    let mut b = [0u8; 8];
    b.copy_from_slice(&buf[off..off + 8]);
    u64::from_le_bytes(b)
}

#[test]
fn send_msg_empty() {
    let mut dest = Vec::<u8>::new();
    send_msg(&mut dest, 42, 4, &[]).unwrap();
    assert_eq!(dest[0..4], [0x10, 0x00, 0x00, 0x00], "header.len");
    assert_eq!(dest[4..8], [0x04, 0x00, 0x00, 0x00], "header.error");
    assert_eq!(
        dest[8..16],
        [0x2a, 0x00, 0x00, 0x00, 0x00, 0x00, 0x00, 0x00],
        "header.unique"
    );
}

#[test]
fn send_msg_single_data() {
    let mut dest = Vec::<u8>::new();
    send_msg(&mut dest, 42, 0, &["hello".as_ref()]).unwrap();
    assert_eq!(dest[0..4], [0x15, 0x00, 0x00, 0x00], "header.len");
    assert_eq!(dest[4..8], [0x00, 0x00, 0x00, 0x00], "header.error");
    assert_eq!(
        dest[8..16],
        [0x2a, 0x00, 0x00, 0x00, 0x00, 0x00, 0x00, 0x00],
        "header.unique"
    );
    assert_eq!(dest[16..], [0x68, 0x65, 0x6c, 0x6c, 0x6f], "payload");
}

#[test]
fn send_msg_chunked_data() {
    let payload: &[&[u8]] = &[
        "hello, ".as_ref(),
        "this ".as_ref(),
        "is a ".as_ref(),
        "message.".as_ref(),
    ];
    let mut dest = Vec::<u8>::new();
    send_msg(&mut dest, 26, 0, payload).unwrap();
    assert_eq!(dest[0..4], [0x29, 0x00, 0x00, 0x00], "header.len");
    assert_eq!(dest[4..8], [0x00, 0x00, 0x00, 0x00], "header.error");
    assert_eq!(
        dest[8..16],
        [0x1a, 0x00, 0x00, 0x00, 0x00, 0x00, 0x00, 0x00],
        "header.unique"
    );
    assert_eq!(dest[16..], *b"hello, this is a message.", "payload");
}

#[test]
fn smoke_debug() {
    let _ = format!("{:?}", ReplyEmpty::new());
    let _ = format!("{:?}", ReplyData::new(42));
    let _ = format!("{:?}", ReplyAttr::new());
    let _ = format!("{:?}", ReplyEntry::new());
    let _ = format!("{:?}", ReplyReadlink::new());
    let _ = format!("{:?}", ReplyOpen::new());
    let _ = format!("{:?}", ReplyWrite::new());
    let _ = format!("{:?}", ReplyOpendir::new());
    let _ = format!("{:?}", ReplyXattr::new());
    let _ = format!("{:?}", ReplyStatfs::new());
    let _ = format!("{:?}", ReplyLk::new());
    let _ = format!("{:?}", ReplyCreate::new());
    let _ = format!("{:?}", ReplyBmap::new());
}

#[test]
fn send_msg_too_long_fails_whole() {
    // Enough references to one megabyte-sized chunk to pass 2^32 bytes.
    let chunk = vec![0u8; 1 << 20];
    let parts = vec![chunk.as_slice(); 4100];
    let mut dest = Vec::<u8>::new();
    let r = send_msg(&mut dest, 7, 0, parts.as_slice());
    assert_eq!(r, Err(SendError::FrameTooLarge));
    assert!(dest.is_empty(), "nothing is written on failure");
}

#[test]
fn reply_err_writes_negated_errno() {
    let mut cx = Context::new(&header(42));
    cx.reply_err(4).unwrap();
    let out = cx.output();
    assert_eq!(out.len(), 16);
    assert_eq!(u32_at(out, 0), 16, "header.len");
    assert_eq!(u32_at(out, 4), (-4i32) as u32, "header.error");
    assert_eq!(u64_at(out, 8), 42, "header.unique");
}

#[test]
fn reply_data_within_cap_sends_data() {
    let mut cx = Context::new(&header(9));
    ReplyData::new(16).data(&mut cx, b"abcdef").unwrap();
    let out = cx.output();
    assert_eq!(u32_at(out, 0), 22);
    assert_eq!(u32_at(out, 4), 0);
    assert_eq!(&out[16..], b"abcdef");
}

#[test]
fn reply_data_over_cap_yields_erange() {
    let mut cx = Context::new(&header(9));
    ReplyData::new(5).data(&mut cx, b"123456").unwrap();
    let out = cx.output();
    assert_eq!(out.len(), 16, "no payload");
    assert_eq!(u32_at(out, 4), (-34i32) as u32, "ERANGE");
}

#[test]
fn reply_data_vectored_over_cap_yields_erange() {
    let mut cx = Context::new(&header(10));
    ReplyData::new(9).data_vectored(&mut cx, &[b"12345", b"67890"]).unwrap();
    let out = cx.output();
    assert_eq!(out.len(), 16);
    assert_eq!(u32_at(out, 4), (-34i32) as u32);

    let mut cx2 = Context::new(&header(10));
    ReplyData::new(10).data_vectored(&mut cx2, &[b"12345", b"67890"]).unwrap();
    let out2 = cx2.output();
    assert_eq!(u32_at(out2, 0), 26);
    assert_eq!(&out2[16..], b"1234567890");
}

#[test]
fn reply_empty_ok_writes_bare_header() {
    let mut cx = Context::new(&header(5));
    ReplyEmpty::new().ok(&mut cx).unwrap();
    let out = cx.output();
    assert_eq!(out.len(), 16);
    assert_eq!(u32_at(out, 0), 16);
    assert_eq!(u32_at(out, 4), 0);
    assert_eq!(u64_at(out, 8), 5);
}

#[test]
fn reply_attr_layout() {
    let mut attr = FileAttr::new();
    attr.ino = 0x1122334455667788;
    attr.size = 4096;
    attr.mode = 0o100644;
    attr.nlink = 1;
    let mut reply = ReplyAttr::new();
    reply.attr_valid(7, 9);
    let mut cx = Context::new(&header(3));
    reply.attr(&mut cx, &attr).unwrap();
    let out = cx.output();
    assert_eq!(out.len(), 16 + 104);
    assert_eq!(u32_at(out, 0), 120, "frame length");
    assert_eq!(u64_at(out, 16), 7, "attr_valid seconds");
    assert_eq!(u32_at(out, 24), 9, "attr_valid nanoseconds");
    assert_eq!(u64_at(out, 32), 0x1122334455667788, "ino");
    assert_eq!(u64_at(out, 40), 4096, "size");
    assert_eq!(u32_at(out, 92), 0o100644, "mode");
    assert_eq!(u32_at(out, 96), 1, "nlink");
}

#[test]
fn reply_entry_layout() {
    let mut attr = FileAttr::new();
    attr.ino = 55;
    let mut reply = ReplyEntry::new();
    reply.entry_valid(2, 3);
    reply.attr_valid(4, 5);
    let mut cx = Context::new(&header(8));
    reply.entry(&mut cx, &attr, 77).unwrap();
    let out = cx.output();
    assert_eq!(out.len(), 16 + 128);
    assert_eq!(u64_at(out, 16), 55, "nodeid mirrors attr.ino");
    assert_eq!(u64_at(out, 24), 77, "generation");
    assert_eq!(u64_at(out, 32), 2, "entry_valid");
    assert_eq!(u64_at(out, 40), 4, "attr_valid");
    assert_eq!(u32_at(out, 48), 3, "entry_valid_nsec");
    assert_eq!(u32_at(out, 52), 5, "attr_valid_nsec");
    assert_eq!(u64_at(out, 56), 55, "attr.ino");
}

#[test]
fn reply_open_flags_layout() {
    let mut reply = ReplyOpen::new();
    reply.direct_io(true);
    reply.keep_cache(true);
    reply.nonseekable(true);
    reply.keep_cache(false);
    let mut cx = Context::new(&header(4));
    reply.open(&mut cx, 0xabcd).unwrap();
    let out = cx.output();
    assert_eq!(out.len(), 32);
    assert_eq!(u64_at(out, 16), 0xabcd, "fh");
    assert_eq!(u32_at(out, 24), 0x01 | 0x04, "open flags");
}

#[test]
fn reply_opendir_cache_dir_flag() {
    let mut reply = ReplyOpendir::new();
    reply.cache_dir(true);
    let mut cx = Context::new(&header(4));
    reply.open(&mut cx, 1).unwrap();
    let out = cx.output();
    assert_eq!(u32_at(out, 24), 0x08, "FOPEN_CACHE_DIR");
}

#[test]
fn reply_write_and_xattr_layout() {
    let mut cx = Context::new(&header(4));
    ReplyWrite::new().write(&mut cx, 513).unwrap();
    let out = cx.output();
    assert_eq!(out.len(), 24);
    assert_eq!(u32_at(out, 16), 513);

    let mut cx2 = Context::new(&header(4));
    ReplyXattr::new().size(&mut cx2, 99).unwrap();
    assert_eq!(u32_at(cx2.output(), 16), 99);

    let mut cx3 = Context::new(&header(4));
    ReplyXattr::new().value(&mut cx3, b"user.x").unwrap();
    assert_eq!(&cx3.output()[16..], b"user.x");
}

#[test]
fn reply_statfs_layout() {
    let st = FsStatistics {
        blocks: 10,
        bfree: 9,
        bavail: 8,
        files: 7,
        ffree: 6,
        bsize: 512,
        namelen: 255,
        frsize: 1024,
    };
    let mut cx = Context::new(&header(4));
    ReplyStatfs::new().stat(&mut cx, &st).unwrap();
    let out = cx.output();
    assert_eq!(out.len(), 16 + 80);
    assert_eq!(u64_at(out, 16), 10);
    assert_eq!(u64_at(out, 48), 6, "ffree");
    assert_eq!(u32_at(out, 56), 512, "bsize");
    assert_eq!(u32_at(out, 60), 255, "namelen");
    assert_eq!(u32_at(out, 64), 1024, "frsize");
}

#[test]
fn reply_lk_bmap_poll_layout() {
    let lk = FileLock { start: 1, end: 2, typ: 1, pid: 44 };
    let mut cx = Context::new(&header(4));
    ReplyLk::new().lock(&mut cx, &lk).unwrap();
    let out = cx.output();
    assert_eq!(out.len(), 16 + 24);
    assert_eq!(u64_at(out, 16), 1);
    assert_eq!(u64_at(out, 24), 2);
    assert_eq!(u32_at(out, 32), 1);
    assert_eq!(u32_at(out, 36), 44);

    let mut cx2 = Context::new(&header(4));
    ReplyBmap::new().block(&mut cx2, 0xdeadbeef).unwrap();
    assert_eq!(u64_at(cx2.output(), 16), 0xdeadbeef);

    let mut cx3 = Context::new(&header(4));
    ReplyPoll::new().events(&mut cx3, 0x5).unwrap();
    assert_eq!(u32_at(cx3.output(), 16), 0x5);
}

#[test]
fn reply_create_layout() {
    let mut attr = FileAttr::new();
    attr.ino = 12;
    let mut reply = ReplyCreate::new();
    reply.entry_valid(1, 2);
    reply.attr_valid(3, 4);
    reply.direct_io(true);
    let mut cx = Context::new(&header(4));
    reply.create(&mut cx, &attr, 9, 0x77).unwrap();
    let out = cx.output();
    assert_eq!(out.len(), 16 + 128 + 16);
    assert_eq!(u64_at(out, 16), 12, "entry nodeid");
    assert_eq!(u64_at(out, 24), 9, "generation");
    assert_eq!(u64_at(out, 16 + 128), 0x77, "fh");
    assert_eq!(u32_at(out, 16 + 136), 0x01, "open flags");
}

#[test]
fn context_exposes_caller_identity() {
    let cx = Context::new(&header(64));
    assert_eq!(cx.uid(), 11);
    assert_eq!(cx.gid(), 22);
    assert_eq!(cx.pid(), 33);
}
