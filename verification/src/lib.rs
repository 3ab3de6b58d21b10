//! A self-describing binary codec: a recursive type-length-value (TLV)
//! scheme that turns a positional record into a compact byte buffer and
//! parses arbitrary bytes back into a generic, key-addressed value tree.
//!
//! Every multi-byte field on the wire is little-endian. A 32-bit float is
//! carried and modelled as its IEEE-754 bit pattern (a `u32`); converting
//! between a float and its bits is the caller's concern.

pub mod decode;
pub mod encode;
pub mod laws;
pub mod project;
pub mod tags;
pub mod value;
pub mod wire;
