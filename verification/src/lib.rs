//! A user-space filesystem library speaking the Linux FUSE kernel protocol.
//!
//! The library owns the wire protocol: framing of requests and replies,
//! decoding of opcodes into typed operations, the session state machine
//! (INIT handshake, dispatch, interrupt and retrieve correlation), and the
//! kernel notification channel.  Reading from and writing to the FUSE
//! character device is left to the caller, who hands complete frames in and
//! writes complete frames out.

pub mod common;
pub mod kernel;
pub mod op;
pub mod reply;
pub mod request;
pub mod session;
pub mod wire;

pub use common::{FileAttr, FileLock, Forget, FsStatistics};
pub use op::Operation;
pub use request::{DecodeError, InHeader, Request, RequestKind};
pub use session::{Context, Dispatch, InitResult, Session, SessionInitializer, MAX_WRITE_SIZE};
