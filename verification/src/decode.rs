//! The instruction decoder: maps an opcode byte to a tagged description of
//! the instruction, following the hardware's bit-field encoding. Bits 3-5 of
//! an opcode select a destination register code, bits 0-2 a source register
//! code; code 6 stands for indirect access through the HL pair.

use crate::cpu::Reg16;
use vstd::prelude::*;

verus! {

/// A decoded instruction. Register codes kept in a variant follow the 3-bit
/// convention (0=B, 1=C, 2=D, 3=E, 4=H, 5=L, 6=HL-indirect, 7=A).
#[derive(Debug, PartialEq, Eq, Structural, Clone, Copy)]
pub enum Instr {
    /// No state change beyond the opcode fetch.
    Nop,
    /// Stops the engine: the running flag becomes false.
    Halt,
    /// 8-bit load between two register codes (either may be HL-indirect).
    LdRR { dest: u8, src: u8 },
    /// Load a register code from an immediate byte.
    LdRN { dest: u8 },
    /// Load a register pair from an immediate word.
    LdPairNn { pair: Reg16 },
    /// Load the stack pointer from an immediate word.
    LdSpNn,
    /// Load the accumulator from memory at a pair's address.
    LdAPair { pair: Reg16 },
    /// Store the accumulator to memory at a pair's address.
    LdPairA { pair: Reg16 },
    /// Load the accumulator from memory at HL, then increment HL.
    LdAHlInc,
    /// Load the accumulator from memory at HL, then decrement HL.
    LdAHlDec,
    /// Store the accumulator to memory at HL, then increment HL.
    LdHlAInc,
    /// Store the accumulator to memory at HL, then decrement HL.
    LdHlADec,
    /// Load the accumulator from memory at an immediate absolute address.
    LdANn,
    /// Store the accumulator to memory at an immediate absolute address.
    LdNnA,
    /// Exclusive-or the accumulator with a register code (6 = HL-indirect).
    XorR { src: u8 },
    /// Exclusive-or the accumulator with an immediate byte.
    XorN,
    /// Not an instruction of this core.
    Undefined,
}

/// The decoding convention itself. Opcode `0x76`, which the generic
/// register-to-register scheme would read as a load from HL-indirect to
/// HL-indirect, is repurposed by the hardware as Halt and must be tested
/// ahead of the generic range.
pub open spec fn spec_decode(op: u8) -> Instr {
    if op == 0x00 {
        Instr::Nop
    } else if op == 0x76 {
        Instr::Halt
    } else if 0x40 <= op && op <= 0x7f {
        Instr::LdRR { dest: (op >> 3) & 7, src: op & 7 }
    } else if op == 0x06 || op == 0x0e || op == 0x16 || op == 0x1e || op == 0x26 || op == 0x2e
        || op == 0x36 || op == 0x3e {
        Instr::LdRN { dest: (op >> 3) & 7 }
    } else if op == 0x01 {
        Instr::LdPairNn { pair: Reg16::BC }
    } else if op == 0x11 {
        Instr::LdPairNn { pair: Reg16::DE }
    } else if op == 0x21 {
        Instr::LdPairNn { pair: Reg16::HL }
    } else if op == 0x31 {
        Instr::LdSpNn
    } else if op == 0x0a {
        Instr::LdAPair { pair: Reg16::BC }
    } else if op == 0x1a {
        Instr::LdAPair { pair: Reg16::DE }
    } else if op == 0x02 {
        Instr::LdPairA { pair: Reg16::BC }
    } else if op == 0x12 {
        Instr::LdPairA { pair: Reg16::DE }
    } else if op == 0x2a {
        Instr::LdAHlInc
    } else if op == 0x3a {
        Instr::LdAHlDec
    } else if op == 0x22 {
        Instr::LdHlAInc
    } else if op == 0x32 {
        Instr::LdHlADec
    } else if op == 0xfa {
        Instr::LdANn
    } else if op == 0xea {
        Instr::LdNnA
    } else if 0xa8 <= op && op <= 0xaf {
        Instr::XorR { src: op & 7 }
    } else if op == 0xee {
        Instr::XorN
    } else {
        Instr::Undefined
    }
}

/// Decodes one opcode byte.
pub fn decode(op: u8) -> (r: Instr)
    ensures
        r == spec_decode(op),
{
    match op {
        0x00 => Instr::Nop,
        0x76 => Instr::Halt,
        0x40..=0x7f => Instr::LdRR { dest: (op >> 3u8) & 7, src: op & 7 },
        0x06 | 0x0e | 0x16 | 0x1e | 0x26 | 0x2e | 0x36 | 0x3e => Instr::LdRN {
            dest: (op >> 3u8) & 7,
        },
        0x01 => Instr::LdPairNn { pair: Reg16::BC },
        0x11 => Instr::LdPairNn { pair: Reg16::DE },
        0x21 => Instr::LdPairNn { pair: Reg16::HL },
        0x31 => Instr::LdSpNn,
        0x0a => Instr::LdAPair { pair: Reg16::BC },
        0x1a => Instr::LdAPair { pair: Reg16::DE },
        0x02 => Instr::LdPairA { pair: Reg16::BC },
        0x12 => Instr::LdPairA { pair: Reg16::DE },
        0x2a => Instr::LdAHlInc,
        0x3a => Instr::LdAHlDec,
        0x22 => Instr::LdHlAInc,
        0x32 => Instr::LdHlADec,
        0xfa => Instr::LdANn,
        0xea => Instr::LdNnA,
        0xa8..=0xaf => Instr::XorR { src: op & 7 },
        0xee => Instr::XorN,
        _ => Instr::Undefined,
    }
}

} // verus!
