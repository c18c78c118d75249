//! Session-level checks: the INIT handshake, dispatch of decoded
//! requests, interrupt handling, retrieve correlation, and the
//! notification channel.

use polyfuse::{Dispatch, FileAttr, InitResult, Operation, Request, Session, SessionInitializer};

fn frame(opcode: u32, unique: u64, nodeid: u64, rest: &[u8]) -> Vec<u8> {
    let mut b = Vec::new();
    b.extend_from_slice(&(40u32 + rest.len() as u32).to_le_bytes());
    b.extend_from_slice(&opcode.to_le_bytes());
    b.extend_from_slice(&unique.to_le_bytes());
    b.extend_from_slice(&nodeid.to_le_bytes());
    b.extend_from_slice(&0u32.to_le_bytes());
    b.extend_from_slice(&0u32.to_le_bytes());
    b.extend_from_slice(&0u32.to_le_bytes());
    b.extend_from_slice(&0u32.to_le_bytes());
    b.extend_from_slice(rest);
    b
}

fn init_frame(unique: u64, major: u32, minor: u32, max_readahead: u32) -> Vec<u8> {
    let mut arg = Vec::new();
    arg.extend_from_slice(&major.to_le_bytes());
    arg.extend_from_slice(&minor.to_le_bytes());
    arg.extend_from_slice(&max_readahead.to_le_bytes());
    arg.extend_from_slice(&0u32.to_le_bytes());
    frame(26, unique, 0, &arg)
}

fn start_session() -> Session {
    let req = Request::decode(&init_frame(1, 7, 31, 4096)).unwrap();
    let mut out = Vec::new();
    match SessionInitializer::new().try_init(&req, &mut out) {
        InitResult::Started(s) => s,
        other => panic!("handshake failed: {:?}", other),
    }
}

fn u32_at(buf: &[u8], off: usize) -> u32 {
    u32::from_le_bytes([buf[off], buf[off + 1], buf[off + 2], buf[off + 3]])
}

fn u64_at(buf: &[u8], off: usize) -> u64 {
    let mut b = [0u8; 8];
    b.copy_from_slice(&buf[off..off + 8]);
    u64::from_le_bytes(b)
}

#[test]
fn init_v8_then_v7_31() {
    let init = SessionInitializer::new();
    let mut out = Vec::new();

    // First INIT announces major version 8: answered with a zeroed
    // record, and the handshake continues.
    let req = Request::decode(&init_frame(1, 8, 0, 0)).unwrap();
    match init.try_init(&req, &mut out) {
        InitResult::Continue => {}
        other => panic!("expected Continue: {:?}", other),
    }
    assert_eq!(out.len(), 16 + 64);
    assert_eq!(u32_at(&out, 0), 80, "frame length");
    assert_eq!(u32_at(&out, 4), 0, "success");
    assert!(out[16..].iter().all(|b| *b == 0), "zeroed init record");

    // Second INIT with 7.31: accepted, max_readahead echoed and
    // max_write set to 16 MiB.
    out.clear();
    let req2 = Request::decode(&init_frame(2, 7, 31, 4096)).unwrap();
    match init.try_init(&req2, &mut out) {
        InitResult::Started(_) => {}
        other => panic!("expected Started: {:?}", other),
    }
    assert_eq!(u32_at(&out, 0), 80);
    assert_eq!(u64_at(&out, 8), 2, "unique");
    assert_eq!(u32_at(&out, 16 + 8), 4096, "max_readahead echoed");
    assert_eq!(u32_at(&out, 16 + 20), 0x0100_0000, "max_write");
}

#[test]
fn init_7_5_is_refused_with_eproto() {
    let init = SessionInitializer::new();
    let mut out = Vec::new();
    let req = Request::decode(&init_frame(3, 7, 5, 0)).unwrap();
    match init.try_init(&req, &mut out) {
        InitResult::Refused => {}
        other => panic!("expected Refused: {:?}", other),
    }
    assert_eq!(out.len(), 16);
    assert_eq!(u32_at(&out, 4), (-71i32) as u32, "EPROTO");
}

#[test]
fn non_init_first_frame_gets_eio() {
    let init = SessionInitializer::new();
    let mut out = Vec::new();
    let req = Request::decode(&frame(1, 4, 1, b"x\0")).unwrap();
    match init.try_init(&req, &mut out) {
        InitResult::Continue => {}
        other => panic!("expected Continue: {:?}", other),
    }
    assert_eq!(out.len(), 16);
    assert_eq!(u32_at(&out, 4), (-5i32) as u32, "EIO");
}

#[test]
fn unknown_opcode_is_answered_with_enosys() {
    let mut session = start_session();
    let req = Request::decode(&frame(9999, 50, 1, &[])).unwrap();
    let (d, cx) = session.process(req);
    assert!(matches!(d, Dispatch::Replied));
    let out = cx.into_output();
    assert_eq!(out.len(), 16, "one bare reply frame");
    assert_eq!(u32_at(&out, 0), 16);
    assert_eq!(u32_at(&out, 4), (-38i32) as u32, "ENOSYS");
    assert_eq!(u64_at(&out, 8), 50);
}

#[test]
fn interrupt_before_dispatch_drops_request() {
    let mut session = start_session();

    // INTERRUPT targeting request 100 arrives first; nothing was
    // registered, so there is no listener to signal.
    let intr = Request::decode(&frame(36, 60, 0, &100u64.to_le_bytes())).unwrap();
    let (d, cx) = session.process(intr);
    match d {
        Dispatch::Interrupted { unique, signaled } => {
            assert_eq!(unique, 100);
            assert!(!signaled);
        }
        other => panic!("expected Interrupted: {:?}", other),
    }
    assert!(cx.into_output().is_empty());

    // The request with that unique arrives next: dropped, no reply.
    let lookup = Request::decode(&frame(1, 100, 1, b"name\0")).unwrap();
    let (d2, cx2) = session.process(lookup);
    assert!(matches!(d2, Dispatch::Dropped));
    assert!(cx2.into_output().is_empty(), "no reply is emitted");

    // The mark was consumed: the same unique now dispatches normally.
    let lookup2 = Request::decode(&frame(1, 100, 1, b"name\0")).unwrap();
    let (d3, _cx3) = session.process(lookup2);
    assert!(matches!(d3, Dispatch::Invoke(Operation::Lookup { .. })));
}

#[test]
fn interrupt_signals_registered_listener_once() {
    let mut session = start_session();
    session.enable_interrupt(77);
    let intr = Request::decode(&frame(36, 60, 0, &77u64.to_le_bytes())).unwrap();
    let (d, _cx) = session.process(intr);
    match d {
        Dispatch::Interrupted { unique, signaled } => {
            assert_eq!(unique, 77);
            assert!(signaled, "the registered listener is signaled");
        }
        other => panic!("expected Interrupted: {:?}", other),
    }

    // A repeated INTERRUPT for the same request finds no listener: the
    // signal resolves at most once.
    let intr2 = Request::decode(&frame(36, 61, 0, &77u64.to_le_bytes())).unwrap();
    let (d2, _cx2) = session.process(intr2);
    match d2 {
        Dispatch::Interrupted { signaled, .. } => assert!(!signaled),
        other => panic!("expected Interrupted: {:?}", other),
    }
}

#[test]
fn destroy_marks_exited_and_later_requests_are_dropped() {
    let mut session = start_session();
    let destroy = Request::decode(&frame(38, 70, 0, &[])).unwrap();
    let (d, cx) = session.process(destroy);
    assert!(matches!(d, Dispatch::Replied));
    let out = cx.into_output();
    assert_eq!(out.len(), 16);
    assert_eq!(u32_at(&out, 4), 0, "empty success reply");

    let lookup = Request::decode(&frame(1, 71, 1, b"name\0")).unwrap();
    let (d2, cx2) = session.process(lookup);
    assert!(matches!(d2, Dispatch::Dropped));
    assert!(cx2.into_output().is_empty());
}

#[test]
fn init_after_start_gets_eio() {
    let mut session = start_session();
    let req = Request::decode(&init_frame(5, 7, 31, 0)).unwrap();
    let (d, cx) = session.process(req);
    assert!(matches!(d, Dispatch::Replied));
    assert_eq!(u32_at(&cx.into_output(), 4), (-5i32) as u32, "EIO");
}

#[test]
fn retrieve_round_trip() {
    let mut session = start_session();
    let mut writer = Vec::new();

    // Ask the kernel for 3 bytes at offset 0x40 of inode 7.
    let u0 = session.notify_retrieve(&mut writer, 7, 0x40, 3);
    assert_eq!(u32_at(&writer, 0), 16 + 32, "frame length");
    assert_eq!(u32_at(&writer, 4), 5, "NOTIFY_RETRIEVE code");
    assert_eq!(u64_at(&writer, 8), 0, "notifications carry unique 0");
    assert_eq!(u64_at(&writer, 16), u0, "correlation identifier");
    assert_eq!(u64_at(&writer, 24), 7, "inode");
    assert_eq!(u64_at(&writer, 32), 0x40, "offset");
    assert_eq!(u32_at(&writer, 40), 3, "size");

    // Identifiers are allocated monotonically.
    let mut writer2 = Vec::new();
    let u1 = session.notify_retrieve(&mut writer2, 7, 0, 1);
    assert_eq!(u1, u0 + 1);

    // The kernel answers the first retrieve out of band.
    let mut arg = Vec::new();
    arg.extend_from_slice(&0u64.to_le_bytes());
    arg.extend_from_slice(&0x40u64.to_le_bytes());
    arg.extend_from_slice(&3u32.to_le_bytes());
    arg.extend_from_slice(&0u32.to_le_bytes());
    arg.extend_from_slice(&0u64.to_le_bytes());
    arg.extend_from_slice(&0u64.to_le_bytes());
    arg.extend_from_slice(b"abc");
    let reply = Request::decode(&frame(41, u0, 0, &arg)).unwrap();
    let (d, cx) = session.process(reply);
    match d {
        Dispatch::NotifyReply { unique, offset, data, registered } => {
            assert_eq!(unique, u0);
            assert_eq!(offset, 0x40);
            assert_eq!(data, b"abc");
            assert!(registered, "the slot was pending");
        }
        other => panic!("expected NotifyReply: {:?}", other),
    }
    assert!(cx.into_output().is_empty(), "correlation emits no reply frame");

    // A second answer with the same identifier finds no slot.
    let reply2 = Request::decode(&frame(41, u0, 0, &arg)).unwrap();
    let (d2, _cx2) = session.process(reply2);
    match d2 {
        Dispatch::NotifyReply { registered, .. } => assert!(!registered),
        other => panic!("expected NotifyReply: {:?}", other),
    }
}

#[test]
fn setlk_flock_translation() {
    let mut session = start_session();
    let mut arg = vec![0u8; 48];
    arg[0..8].copy_from_slice(&5u64.to_le_bytes()); // fh
    arg[8..16].copy_from_slice(&6u64.to_le_bytes()); // owner
    arg[32..36].copy_from_slice(&1u32.to_le_bytes()); // typ = F_WRLCK
    arg[40..44].copy_from_slice(&1u32.to_le_bytes()); // lk_flags = FLOCK
    let req = Request::decode(&frame(32, 80, 1, &arg)).unwrap(); // SETLK: no sleep
    let (d, _cx) = session.process(req);
    match d {
        Dispatch::Invoke(Operation::Flock { fh, owner, op, .. }) => {
            assert_eq!(fh, 5);
            assert_eq!(owner, 6);
            assert_eq!(op, 2 | 4, "LOCK_EX | LOCK_NB");
        }
        other => panic!("expected Flock: {:?}", other),
    }

    // SETLKW sleeps, so LOCK_NB is not added.
    let req2 = Request::decode(&frame(33, 81, 1, &arg)).unwrap();
    let (d2, _cx2) = session.process(req2);
    match d2 {
        Dispatch::Invoke(Operation::Flock { op, .. }) => assert_eq!(op, 2, "LOCK_EX"),
        other => panic!("expected Flock: {:?}", other),
    }
}

#[test]
fn setlk_flock_invalid_type_gets_eio() {
    let mut session = start_session();
    let mut arg = vec![0u8; 48];
    arg[32..36].copy_from_slice(&9u32.to_le_bytes()); // invalid lock type
    arg[40..44].copy_from_slice(&1u32.to_le_bytes()); // FLOCK
    let req = Request::decode(&frame(32, 82, 1, &arg)).unwrap();
    let (d, cx) = session.process(req);
    assert!(matches!(d, Dispatch::Replied));
    assert_eq!(u32_at(&cx.into_output(), 4), (-5i32) as u32, "EIO");
}

#[test]
fn setlk_posix_passes_lock_through() {
    let mut session = start_session();
    let mut arg = vec![0u8; 48];
    arg[0..8].copy_from_slice(&5u64.to_le_bytes());
    arg[16..24].copy_from_slice(&100u64.to_le_bytes()); // lk.start
    arg[24..32].copy_from_slice(&200u64.to_le_bytes()); // lk.end
    arg[32..36].copy_from_slice(&0u32.to_le_bytes()); // typ = F_RDLCK
    let req = Request::decode(&frame(33, 83, 1, &arg)).unwrap();
    let (d, _cx) = session.process(req);
    match d {
        Dispatch::Invoke(Operation::Setlk { lk, sleep, .. }) => {
            assert_eq!(lk.start, 100);
            assert_eq!(lk.end, 200);
            assert_eq!(lk.typ, 0);
            assert!(sleep);
        }
        other => panic!("expected Setlk: {:?}", other),
    }
}

#[test]
fn release_flags_on_modern_protocol() {
    let mut session = start_session(); // minor 31 >= 8
    let mut arg = vec![0u8; 24];
    arg[0..8].copy_from_slice(&5u64.to_le_bytes()); // fh
    arg[12..16].copy_from_slice(&(1u32 | 2u32).to_le_bytes()); // FLUSH | FLOCK_UNLOCK
    arg[16..24].copy_from_slice(&0x42u64.to_le_bytes()); // lock_owner
    let req = Request::decode(&frame(18, 84, 1, &arg)).unwrap();
    let (d, _cx) = session.process(req);
    match d {
        Dispatch::Invoke(Operation::Release { flush, flock_release, lock_owner, .. }) => {
            assert!(flush);
            assert!(flock_release);
            assert_eq!(lock_owner, Some(0x42));
        }
        other => panic!("expected Release: {:?}", other),
    }
}

#[test]
fn forget_and_batch_forget_become_one_call() {
    let mut session = start_session();
    let req = Request::decode(&frame(2, 85, 9, &4u64.to_le_bytes())).unwrap();
    let (d, cx) = session.process(req);
    match d {
        Dispatch::Invoke(Operation::Forget { forgets }) => {
            assert_eq!(forgets.len(), 1);
            assert_eq!(forgets[0].ino(), 9);
            assert_eq!(forgets[0].nlookup(), 4);
        }
        other => panic!("expected Forget: {:?}", other),
    }
    assert!(cx.into_output().is_empty(), "forget never replies");
}

#[test]
fn rename2_forwards_flags() {
    let mut session = start_session();
    let mut arg = Vec::new();
    arg.extend_from_slice(&3u64.to_le_bytes()); // newdir
    arg.extend_from_slice(&1u32.to_le_bytes()); // flags (RENAME_NOREPLACE)
    arg.extend_from_slice(&0u32.to_le_bytes()); // padding
    arg.extend_from_slice(b"a\0b\0");
    let req = Request::decode(&frame(45, 86, 2, &arg)).unwrap();
    let (d, _cx) = session.process(req);
    match d {
        Dispatch::Invoke(Operation::Rename { parent, newparent, flags, name, newname, .. }) => {
            assert_eq!(parent, 2);
            assert_eq!(newparent, 3);
            assert_eq!(flags, 1);
            assert_eq!(name, b"a");
            assert_eq!(newname, b"b");
        }
        other => panic!("expected Rename: {:?}", other),
    }
}

#[test]
fn notify_frames_layout() {
    let session = start_session();

    let mut w = Vec::new();
    session.notify_inval_inode(&mut w, 3, -1, -1);
    assert_eq!(u32_at(&w, 0), 16 + 24);
    assert_eq!(u32_at(&w, 4), 2, "INVAL_INODE code");
    assert_eq!(u64_at(&w, 8), 0);
    assert_eq!(u64_at(&w, 16), 3, "ino");
    assert_eq!(u64_at(&w, 24), u64::MAX, "offset -1");
    assert_eq!(u64_at(&w, 32), u64::MAX, "length -1");

    let mut w2 = Vec::new();
    session.notify_inval_entry(&mut w2, 1, b"file");
    assert_eq!(u32_at(&w2, 0), 16 + 16 + 4);
    assert_eq!(u32_at(&w2, 4), 3, "INVAL_ENTRY code");
    assert_eq!(u64_at(&w2, 16), 1, "parent");
    assert_eq!(u32_at(&w2, 24), 4, "name length");
    assert_eq!(&w2[32..], b"file");

    let mut w3 = Vec::new();
    session.notify_delete(&mut w3, 1, 5, b"gone");
    assert_eq!(u32_at(&w3, 4), 6, "DELETE code");
    assert_eq!(u64_at(&w3, 16), 1, "parent");
    assert_eq!(u64_at(&w3, 24), 5, "child");
    assert_eq!(u32_at(&w3, 32), 4, "name length");
    assert_eq!(&w3[40..], b"gone");

    let mut w4 = Vec::new();
    session.notify_store(&mut w4, 8, 0x100, &[b"ab", b"cd"]);
    assert_eq!(u32_at(&w4, 0), 16 + 24 + 4);
    assert_eq!(u32_at(&w4, 4), 4, "STORE code");
    assert_eq!(u64_at(&w4, 16), 8, "ino");
    assert_eq!(u64_at(&w4, 24), 0x100, "offset");
    assert_eq!(u32_at(&w4, 32), 4, "size");
    assert_eq!(&w4[40..], b"abcd");

    let mut w5 = Vec::new();
    session.notify_poll_wakeup(&mut w5, 0x31);
    assert_eq!(u32_at(&w5, 0), 24);
    assert_eq!(u32_at(&w5, 4), 1, "POLL code");
    assert_eq!(u64_at(&w5, 16), 0x31, "kh");
}

#[test]
fn lookup_reply_carries_request_unique() {
    let mut session = start_session();
    let req = Request::decode(&frame(1, 0x1234, 1, b"child\0")).unwrap();
    let (d, mut cx) = session.process(req);
    match d {
        Dispatch::Invoke(Operation::Lookup { parent, name, reply }) => {
            assert_eq!(parent, 1);
            assert_eq!(name, b"child");
            let mut attr = FileAttr::new();
            attr.ino = 33;
            reply.entry(&mut cx, &attr, 0).unwrap();
        }
        other => panic!("expected Lookup: {:?}", other),
    }
    let out = cx.into_output();
    assert_eq!(u32_at(&out, 0), 16 + 128, "one entry reply frame");
    assert_eq!(u32_at(&out, 4), 0, "success");
    assert_eq!(u64_at(&out, 8), 0x1234, "the reply carries the request unique");
}

#[test]
fn clear_interrupt_unregisters_listener() {
    let mut session = start_session();
    session.enable_interrupt(55);
    assert!(session.clear_interrupt(55), "listener was registered");
    assert!(!session.clear_interrupt(55), "already unregistered");

    // A later INTERRUPT finds nothing to signal but still marks the id.
    let intr = Request::decode(&frame(36, 90, 0, &55u64.to_le_bytes())).unwrap();
    let (d, _cx) = session.process(intr);
    match d {
        Dispatch::Interrupted { signaled, .. } => assert!(!signaled),
        other => panic!("expected Interrupted: {:?}", other),
    }
}
