//! Scene record for a GPU compute ray tracer.
//!
//! Every 32-bit float the compute kernel reads is carried here as its
//! IEEE-754 binary32 bit pattern (`u32`), so the record can be built, kept in
//! sync and laid out byte for byte without floating-point arithmetic.

pub mod material;
pub mod protocol;
pub mod vector;
pub mod world;
