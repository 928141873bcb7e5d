//! Integer sequences over fixed-width and arbitrary-precision integers, with
//! machine-checked contracts.

pub mod sequences;
