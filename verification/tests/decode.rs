//! Checks of the inbound frame decoder: header fields, per-opcode
//! arguments, names, payloads, and the refusal of malformed frames.

use polyfuse::{DecodeError, Request, RequestKind};

fn frame(opcode: u32, unique: u64, nodeid: u64, rest: &[u8]) -> Vec<u8> {
    let mut b = Vec::new();
    b.extend_from_slice(&(40u32 + rest.len() as u32).to_le_bytes());
    b.extend_from_slice(&opcode.to_le_bytes());
    b.extend_from_slice(&unique.to_le_bytes());
    b.extend_from_slice(&nodeid.to_le_bytes());
    b.extend_from_slice(&7u32.to_le_bytes()); // uid
    b.extend_from_slice(&8u32.to_le_bytes()); // gid
    b.extend_from_slice(&9u32.to_le_bytes()); // pid
    b.extend_from_slice(&0u32.to_le_bytes()); // padding
    b.extend_from_slice(rest);
    b
}

#[test]
fn decode_header_fields() {
    let b = frame(25, 0x0102030405060708, 0x0a0b0c0d0e0f1011, &[0u8; 24]);
    let req = Request::decode(&b).unwrap();
    assert_eq!(req.header.opcode, 25);
    assert_eq!(req.header.unique, 0x0102030405060708);
    assert_eq!(req.header.nodeid, 0x0a0b0c0d0e0f1011);
    assert_eq!(req.header.uid, 7);
    assert_eq!(req.header.gid, 8);
    assert_eq!(req.header.pid, 9);
}

#[test]
fn decode_short_header_is_truncated() {
    let b = frame(1, 1, 1, b"x\0");
    assert_eq!(Request::decode(&b[..39]).unwrap_err(), DecodeError::Truncated);
}

#[test]
fn decode_lookup_name() {
    let b = frame(1, 2, 3, b"hello.txt\0");
    let req = Request::decode(&b).unwrap();
    match req.kind {
        RequestKind::Lookup { name } => assert_eq!(name, b"hello.txt"),
        other => panic!("wrong kind: {:?}", other),
    }
}

#[test]
fn decode_lookup_without_nul_is_bad_name() {
    let b = frame(1, 2, 3, b"hello.txt");
    assert_eq!(Request::decode(&b).unwrap_err(), DecodeError::BadName);
}

#[test]
fn decode_init_args() {
    let mut arg = Vec::new();
    arg.extend_from_slice(&7u32.to_le_bytes());
    arg.extend_from_slice(&31u32.to_le_bytes());
    arg.extend_from_slice(&4096u32.to_le_bytes());
    arg.extend_from_slice(&0x33u32.to_le_bytes());
    let b = frame(26, 1, 0, &arg);
    let req = Request::decode(&b).unwrap();
    match req.kind {
        RequestKind::Init { major, minor, max_readahead, flags } => {
            assert_eq!(major, 7);
            assert_eq!(minor, 31);
            assert_eq!(max_readahead, 4096);
            assert_eq!(flags, 0x33);
        }
        other => panic!("wrong kind: {:?}", other),
    }
}

#[test]
fn decode_read_args() {
    let mut arg = Vec::new();
    arg.extend_from_slice(&0x11u64.to_le_bytes()); // fh
    arg.extend_from_slice(&0x2000u64.to_le_bytes()); // offset
    arg.extend_from_slice(&512u32.to_le_bytes()); // size
    arg.extend_from_slice(&2u32.to_le_bytes()); // read_flags: LOCKOWNER
    arg.extend_from_slice(&0x99u64.to_le_bytes()); // lock_owner
    arg.extend_from_slice(&0x8000u32.to_le_bytes()); // flags
    arg.extend_from_slice(&0u32.to_le_bytes()); // padding
    let b = frame(15, 2, 3, &arg);
    let req = Request::decode(&b).unwrap();
    match req.kind {
        RequestKind::Read { fh, offset, size, flags, lock_owner } => {
            assert_eq!(fh, 0x11);
            assert_eq!(offset, 0x2000);
            assert_eq!(size, 512);
            assert_eq!(flags, 0x8000);
            assert_eq!(lock_owner, Some(0x99));
        }
        other => panic!("wrong kind: {:?}", other),
    }
}

#[test]
fn decode_write_payload() {
    let mut arg = Vec::new();
    arg.extend_from_slice(&1u64.to_le_bytes()); // fh
    arg.extend_from_slice(&0u64.to_le_bytes()); // offset
    arg.extend_from_slice(&5u32.to_le_bytes()); // size
    arg.extend_from_slice(&0u32.to_le_bytes()); // write_flags
    arg.extend_from_slice(&0u64.to_le_bytes()); // lock_owner
    arg.extend_from_slice(&0u32.to_le_bytes()); // flags
    arg.extend_from_slice(&0u32.to_le_bytes()); // padding
    arg.extend_from_slice(b"abcde");
    let b = frame(16, 2, 3, &arg);
    let req = Request::decode(&b).unwrap();
    match req.kind {
        RequestKind::Write { size, lock_owner, data, .. } => {
            assert_eq!(size, 5);
            assert_eq!(lock_owner, None);
            assert_eq!(data, b"abcde");
        }
        other => panic!("wrong kind: {:?}", other),
    }
}

#[test]
fn decode_write_short_payload_is_truncated() {
    let mut arg = Vec::new();
    arg.extend_from_slice(&1u64.to_le_bytes());
    arg.extend_from_slice(&0u64.to_le_bytes());
    arg.extend_from_slice(&6u32.to_le_bytes()); // size says 6
    arg.extend_from_slice(&0u32.to_le_bytes());
    arg.extend_from_slice(&0u64.to_le_bytes());
    arg.extend_from_slice(&0u32.to_le_bytes());
    arg.extend_from_slice(&0u32.to_le_bytes());
    arg.extend_from_slice(b"abcde"); // only 5 bytes follow
    let b = frame(16, 2, 3, &arg);
    assert_eq!(Request::decode(&b).unwrap_err(), DecodeError::Truncated);
}

#[test]
fn decode_batch_forget_entries() {
    let mut arg = Vec::new();
    arg.extend_from_slice(&2u32.to_le_bytes()); // count
    arg.extend_from_slice(&0u32.to_le_bytes()); // dummy
    arg.extend_from_slice(&10u64.to_le_bytes());
    arg.extend_from_slice(&1u64.to_le_bytes());
    arg.extend_from_slice(&20u64.to_le_bytes());
    arg.extend_from_slice(&2u64.to_le_bytes());
    let b = frame(42, 2, 0, &arg);
    let req = Request::decode(&b).unwrap();
    match req.kind {
        RequestKind::BatchForget { forgets } => {
            assert_eq!(forgets.len(), 2);
            assert_eq!(forgets[0].ino(), 10);
            assert_eq!(forgets[0].nlookup(), 1);
            assert_eq!(forgets[1].ino(), 20);
            assert_eq!(forgets[1].nlookup(), 2);
        }
        other => panic!("wrong kind: {:?}", other),
    }
}

#[test]
fn decode_setattr_optional_fields() {
    let mut arg = vec![0u8; 88];
    // valid: FATTR_MODE | FATTR_SIZE | FATTR_MTIME
    arg[0..4].copy_from_slice(&(0x01u32 | 0x08 | 0x20).to_le_bytes());
    arg[16..24].copy_from_slice(&777u64.to_le_bytes()); // size at offset 16
    arg[40..48].copy_from_slice(&111u64.to_le_bytes()); // mtime at offset 40
    arg[60..64].copy_from_slice(&222u32.to_le_bytes()); // mtimensec at offset 60
    arg[68..72].copy_from_slice(&0o640u32.to_le_bytes()); // mode at offset 68
    let b = frame(4, 2, 3, &arg);
    let req = Request::decode(&b).unwrap();
    match req.kind {
        RequestKind::Setattr { mode, uid, gid, size, fh, atime, mtime, ctime, lock_owner } => {
            assert_eq!(mode, Some(0o640));
            assert_eq!(uid, None);
            assert_eq!(gid, None);
            assert_eq!(size, Some(777));
            assert_eq!(fh, None);
            assert_eq!(atime, None);
            assert_eq!(mtime, Some((111, 222)));
            assert_eq!(ctime, None);
            assert_eq!(lock_owner, None);
        }
        other => panic!("wrong kind: {:?}", other),
    }
}

#[test]
fn decode_rename_two_names() {
    let mut arg = Vec::new();
    arg.extend_from_slice(&44u64.to_le_bytes()); // newdir
    arg.extend_from_slice(b"old\0new\0");
    let b = frame(12, 2, 3, &arg);
    let req = Request::decode(&b).unwrap();
    match req.kind {
        RequestKind::Rename { newdir, name, newname } => {
            assert_eq!(newdir, 44);
            assert_eq!(name, b"old");
            assert_eq!(newname, b"new");
        }
        other => panic!("wrong kind: {:?}", other),
    }
}

#[test]
fn decode_setxattr_name_and_value() {
    let mut arg = Vec::new();
    arg.extend_from_slice(&4u32.to_le_bytes()); // size
    arg.extend_from_slice(&1u32.to_le_bytes()); // flags
    arg.extend_from_slice(b"user.k\0wxyz");
    let b = frame(21, 2, 3, &arg);
    let req = Request::decode(&b).unwrap();
    match req.kind {
        RequestKind::Setxattr { name, value, flags } => {
            assert_eq!(name, b"user.k");
            assert_eq!(value, b"wxyz");
            assert_eq!(flags, 1);
        }
        other => panic!("wrong kind: {:?}", other),
    }
}

#[test]
fn decode_unknown_opcode() {
    let b = frame(9999, 2, 3, &[]);
    let req = Request::decode(&b).unwrap();
    assert!(matches!(req.kind, RequestKind::Unknown));
}

#[test]
fn decode_interrupt_target() {
    let b = frame(36, 2, 0, &100u64.to_le_bytes());
    let req = Request::decode(&b).unwrap();
    match req.kind {
        RequestKind::Interrupt { unique } => assert_eq!(unique, 100),
        other => panic!("wrong kind: {:?}", other),
    }
}

#[test]
fn decode_notify_reply_payload() {
    let mut arg = Vec::new();
    arg.extend_from_slice(&0u64.to_le_bytes()); // dummy1
    arg.extend_from_slice(&0x40u64.to_le_bytes()); // offset
    arg.extend_from_slice(&3u32.to_le_bytes()); // size
    arg.extend_from_slice(&0u32.to_le_bytes()); // dummy2
    arg.extend_from_slice(&0u64.to_le_bytes()); // dummy3
    arg.extend_from_slice(&0u64.to_le_bytes()); // dummy4
    arg.extend_from_slice(b"xyz");
    let b = frame(41, 5, 0, &arg);
    let req = Request::decode(&b).unwrap();
    match req.kind {
        RequestKind::NotifyReply { offset, size, data } => {
            assert_eq!(offset, 0x40);
            assert_eq!(size, 3);
            assert_eq!(data, b"xyz");
        }
        other => panic!("wrong kind: {:?}", other),
    }
}
