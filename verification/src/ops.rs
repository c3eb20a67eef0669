//! The instruction families implemented by this core: loads, exclusive-or,
//! and bit-test.

pub mod bit;
pub mod ld;
pub mod xor;
