//! Protocol layer of a flasher stub: fixed-layout command packets, their
//! decoding and validation, per-command semantics including the flash-write
//! and flash-read session state machines, checksum verification, and
//! response packet construction.

pub mod checksum;
pub mod codec;
pub mod dispatch;
pub mod proto;
pub mod readflow;
pub mod session;
