//! The exclusive-or family: XOR of the accumulator with a register, with
//! memory at HL, or with an immediate byte. The result lands in the
//! accumulator; Zero is set exactly when the result is zero, Subtract and
//! Half-Carry are cleared, Carry is untouched.

use crate::bits::lemma_code_bounds;
use crate::cpu::{Reg16, Reg8};
use crate::gameboy::{Gameboy, GbSnap};
use crate::memory::GbError;
use vstd::prelude::*;

verus! {

/// The state after exclusive-oring the accumulator with one operand byte.
pub open spec fn xor_apply_spec(pre: GbSnap, v: u8) -> GbSnap {
    pre.with_flags((pre.a ^ v) == 0, false, false).with_a(pre.a ^ v)
}

/// Effect of the whole exclusive-or family, by opcode, on the state just
/// after the opcode fetch. An opcode outside the family changes nothing.
pub open spec fn xor_spec(pre: GbSnap, op: u8) -> (GbSnap, Result<(), GbError>) {
    if op == 0xee {
        if pre.mem_ok(pre.pc) {
            (xor_apply_spec(pre.with_pc((pre.pc + 1) as u16), pre.mem[pre.pc as int]), Ok(()))
        } else {
            (pre, Err(GbError::AddressOutOfRange))
        }
    } else if op == 0xae {
        let addr = pre.hl();
        if pre.mem_ok(addr) {
            (xor_apply_spec(pre, pre.mem[addr as int]), Ok(()))
        } else {
            (pre, Err(GbError::AddressOutOfRange))
        }
    } else if 0xa8 <= op && op <= 0xaf {
        (xor_apply_spec(pre, pre.reg8(op & 7)), Ok(()))
    } else {
        (pre, Ok(()))
    }
}

/// Exclusive-or of the accumulator with itself always yields a zero
/// accumulator with Zero set and Subtract and Half-Carry cleared, from any
/// starting accumulator and flags; no other register, the program counter,
/// the memory and the running flag are untouched.
pub proof fn lemma_xor_a_a(pre: GbSnap)
    ensures
        xor_spec(pre, 0xaf).1 == Ok::<(), GbError>(()),
        xor_spec(pre, 0xaf).0.a == 0,
        crate::bits::spec_flag_z(xor_spec(pre, 0xaf).0.f),
        !crate::bits::spec_flag_n(xor_spec(pre, 0xaf).0.f),
        !crate::bits::spec_flag_h(xor_spec(pre, 0xaf).0.f),
        xor_spec(pre, 0xaf).0 == pre.with_flags(true, false, false).with_a(0),
{
    let a = pre.a;
    assert(a ^ a == 0) by (bit_vector);
    assert(0xafu8 & 7 == 7) by (bit_vector);
    crate::bits::lemma_flags_read(pre.f, true, false, false);
}

impl Gameboy {
    /// Dispatches one opcode of the exclusive-or family (any opcode outside
    /// it changes nothing and succeeds).
    pub fn xor(&mut self, opcode: u8) -> (r: Result<(), GbError>)
        requires
            old(self).wf(),
        ensures
            final(self).wf(),
            (final(self)@, r) == xor_spec(old(self)@, opcode),
    {
        proof {
            lemma_code_bounds(opcode);
        }
        let source_value: u8;
        if opcode == 0xee {
            match self.read_u8_increment_pc() {
                Ok(v) => { source_value = v },
                Err(e) => { return Err(e) },
            }
        } else if opcode == 0xae {
            let addr = self.cpu.reg16(Reg16::HL);
            match self.memory.read_u8(addr) {
                Ok(v) => { source_value = v },
                Err(e) => { return Err(e) },
            }
        } else if 0xa8 <= opcode && opcode <= 0xaf {
            source_value = self.cpu.reg8(Reg8::from_u8(opcode & 7));
        } else {
            return Ok(());
        }
        let value = self.cpu.reg8(Reg8::A) ^ source_value;
        self.cpu.set_flags(value == 0, false, false);
        self.cpu.write_reg8(Reg8::A, value);
        Ok(())
    }
}

} // verus!
