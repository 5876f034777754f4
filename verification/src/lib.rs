//! A verified protocol engine for the Linux netlink wire format.
//!
//! The crate covers message framing (a fixed 16-byte header followed by an
//! opaque payload), type-length-value attribute encoding and iteration,
//! incremental request building, a buffered stream decoder that copes with
//! partial reads, and the multi-message dump response protocol with its
//! error and completion sentinels.
//!
//! Header and attribute fields are encoded in the byte order the kernel
//! emits on the platforms this crate targets: least significant byte first.

pub mod align;
pub mod bytes;
pub mod attr;
pub mod builder;
pub mod decoder;
pub mod dump;
pub mod link;
pub mod message;
