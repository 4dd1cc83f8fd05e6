//! Builds a binary glTF asset holding one quad mesh: an interleaved vertex
//! buffer, a 16-bit index list, the records that describe both, and the
//! framed container around them.
//!
//! Every 32-bit float is carried as its IEEE-754 bit pattern in a `u32`, so
//! that the byte layout can be stated and proved over integers.

pub mod wire;
pub mod vertex;
pub mod extent;
pub mod layout;
pub mod builder;
pub mod quad;
pub mod container;
