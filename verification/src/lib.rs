//! Codecs for the proprietary binary "DAT" resource files of a
//! client/server game: event bytecode, zone chunk containers with their
//! keyed XOR obfuscation schemes, and collision-mesh geometry.
//!
//! Every codec is built on a bounds-checked byte cursor and decodes a byte
//! buffer into a self-contained value; the event codec can re-encode that
//! value back to bytes.

#![verifier::loop_isolation(false)]

pub mod byte_walker;
pub mod collision_mesh;
pub mod error;
pub mod event;
pub mod event_model;
pub mod opcode_descriptions;
pub mod zone_data;
pub mod zone_mmb;
pub mod zone_model;

pub use byte_walker::SliceByteWalker;
pub use byte_walker::VecByteWalker;
