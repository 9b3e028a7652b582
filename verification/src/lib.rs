//! Raw sample buffers: relabelling the element type of a byte-backed buffer
//! without touching its bytes, and decoding headerless files of binary32
//! samples, either scalar or interleaved real/imaginary pairs.
//!
//! Samples are carried as their IEEE-754 binary32 bit patterns (`u32`), so
//! that every statement about them is a statement about integers.

pub mod layout;
pub mod buffer;
pub mod samples;
pub mod laws;
