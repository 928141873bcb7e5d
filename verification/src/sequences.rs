//! Integer sequences.

pub mod fibonacci;

pub use fibonacci::Fibonacci;
