//! Driver core for a register-addressable inertial/AHRS sensor board reached
//! over a synchronous half-duplex byte transport.
//!
//! The crate covers three concerns:
//! - the checksummed binary request/response protocol ([`protocol`],
//!   [`register`]): three-byte request packets, CRC-7 validation of response
//!   frames, and the per-record binding of register address, byte length and
//!   decoder;
//! - the binary decoders ([`serde`], [`registers`]) that turn raw register
//!   bytes into typed records: little-endian integers, fixed-point scalars,
//!   bit-flag sets and clamped enumerations;
//! - the watcher state machine ([`watch`]) that a background worker drives to
//!   poll one record continuously, cache the latest outcome and serve
//!   non-blocking reads.
//!
//! Blocking transports, thread plumbing and host wiring stay outside: callers
//! implement [`protocol::Transport`] for their bus and run the watcher loop
//! themselves, feeding every outcome through [`watch::worker_step`].

pub mod protocol;
pub mod register;
pub mod registers;
pub mod serde;
pub mod serial;
pub mod watch;

pub use protocol::{get_crc, validate_response, Failure, FatalReason, FromBuffer, FromBufferFallible, Packet, Request, Transport};

