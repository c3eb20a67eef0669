//! The bit-test family: bits 3-5 of the opcode select the bit index to
//! test, bits 0-2 the register code. Zero is set exactly when the tested
//! bit is clear, Subtract is cleared, Half-Carry is set, Carry is untouched,
//! and the tested value itself is never mutated.
//!
//! The family lives in a secondary, prefixed opcode space on the hardware;
//! here it is invoked directly rather than through the primary opcode
//! decoder.
//!
//! The register-code convention reserves code 6 for HL-indirect access, but
//! this instruction's behavior does not special-case code 6: it reads the
//! register slot behind that code (the cell otherwise holding the flags),
//! which corresponds to no real hardware register.

use crate::bits::{lemma_code_bounds, lemma_flags_read, spec_flag_h, spec_flag_n, spec_flag_z};
use crate::cpu::Reg8;
use crate::gameboy::{Gameboy, GbSnap};
use vstd::prelude::*;

verus! {

/// Effect of a bit-test opcode on the state just after the opcode fetch:
/// only the flags register changes.
pub open spec fn bit_spec(pre: GbSnap, op: u8) -> GbSnap {
    pre.with_flags((pre.reg8(op & 7) >> ((op >> 3) & 7)) & 1 == 0, false, true)
}

/// A bit test never mutates the tested value and always clears Subtract and
/// sets Half-Carry; Zero is set exactly when the selected bit of the
/// selected cell is clear.
pub proof fn lemma_bit_test(pre: GbSnap, op: u8)
    ensures
        spec_flag_z(bit_spec(pre, op).f) == ((pre.reg8(op & 7) >> ((op >> 3) & 7)) & 1 == 0),
        !spec_flag_n(bit_spec(pre, op).f),
        spec_flag_h(bit_spec(pre, op).f),
        forall|code: u8| code < 8 ==> bit_spec(pre, op).reg8(code) == pre.with_flags(
            (pre.reg8(op & 7) >> ((op >> 3) & 7)) & 1 == 0,
            false,
            true,
        ).reg8(code),
        bit_spec(pre, op).pc == pre.pc,
        bit_spec(pre, op).mem == pre.mem,
        bit_spec(pre, op).running == pre.running,
{
    lemma_flags_read(pre.f, (pre.reg8(op & 7) >> ((op >> 3) & 7)) & 1 == 0, false, true);
}

impl Gameboy {
    /// Tests one bit of the cell selected by the opcode's register code and
    /// sets the flags accordingly.
    pub fn bit(&mut self, opcode: u8)
        ensures
            final(self)@ == bit_spec(old(self)@, opcode),
    {
        proof {
            lemma_code_bounds(opcode);
        }
        let source_register = Reg8::from_u8(opcode & 7);
        let source_value = self.cpu.reg8(source_register);
        let bit = (opcode >> 3u8) & 0x07;

        self.cpu.set_flags((source_value >> bit) & 0x01 == 0, false, true);
    }
}

} // verus!
