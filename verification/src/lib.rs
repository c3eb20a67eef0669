//! An 8-bit CPU core in the Sharp-LR35902 / Z80 family: the register file,
//! a fixed-capacity address space, an opcode decoder, and the load,
//! exclusive-or, bit-test, no-operation and halt instruction families,
//! driven one fetch-decode-execute cycle at a time.

pub mod bits;
pub mod cpu;
pub mod decode;
pub mod gameboy;
pub mod memory;
pub mod ops;
