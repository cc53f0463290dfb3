//! Block header commitments: how the identity of a block header is derived
//! from its fields and from the ordered transactions and output messages it
//! certifies.

pub mod digest;
pub mod encoding;
pub mod header;
pub mod merkle;
pub mod primitives;
