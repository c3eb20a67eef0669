//! The load family: 8-bit loads between register codes (with HL-indirect for
//! code 6), immediate loads, 16-bit immediate loads into a pair or the stack
//! pointer, accumulator loads and stores through a pair's address or an
//! immediate absolute address, and the HL post-increment/post-decrement
//! forms.

use crate::bits::{lemma_code_bounds, spec_pair, spec_word_dec, spec_word_inc};
use crate::cpu::{Reg16, Reg8};
use crate::gameboy::{Gameboy, GbSnap};
use crate::memory::GbError;
use vstd::prelude::*;

verus! {

/// Effect of a register-to-register load. Code 6 on either side means
/// memory at HL; on both sides the encoding collides with Halt, which clears
/// the running flag instead of touching any register or memory.
pub open spec fn ld_r_r_spec(pre: GbSnap, dest: u8, src: u8) -> (GbSnap, Result<(), GbError>) {
    if dest == 6 && src == 6 {
        (pre.with_running(false), Ok(()))
    } else if src == 6 {
        let addr = pre.hl();
        if pre.mem_ok(addr) {
            (pre.with_reg8(dest, pre.mem[addr as int]), Ok(()))
        } else {
            (pre, Err(GbError::AddressOutOfRange))
        }
    } else if dest == 6 {
        let addr = pre.hl();
        if pre.mem_ok(addr) {
            (pre.with_mem(addr as int, pre.reg8(src)), Ok(()))
        } else {
            (pre, Err(GbError::AddressOutOfRange))
        }
    } else {
        (pre.with_reg8(dest, pre.reg8(src)), Ok(()))
    }
}

/// Effect of an immediate 8-bit load: the operand byte is fetched at the
/// program counter (which advances past it), then stored into the
/// destination code (register, or memory at HL for code 6).
pub open spec fn ld_r_n_spec(pre: GbSnap, dest: u8) -> (GbSnap, Result<(), GbError>) {
    if !pre.mem_ok(pre.pc) {
        (pre, Err(GbError::AddressOutOfRange))
    } else {
        let v = pre.mem[pre.pc as int];
        let mid = pre.with_pc((pre.pc + 1) as u16);
        if dest == 6 {
            let addr = mid.hl();
            if mid.mem_ok(addr) {
                (mid.with_mem(addr as int, v), Ok(()))
            } else {
                (mid, Err(GbError::AddressOutOfRange))
            }
        } else {
            (mid.with_reg8(dest, v), Ok(()))
        }
    }
}

/// Effect of a 16-bit immediate load into a register pair: the operand word
/// is fetched at the program counter (which advances past both bytes), then
/// written through the pair's two cells.
pub open spec fn ld_rr_nn_spec(pre: GbSnap, rr: Reg16) -> (GbSnap, Result<(), GbError>) {
    if pre.pc as int + 1 < pre.mem.len() {
        let v = spec_pair(pre.mem[pre.pc as int + 1], pre.mem[pre.pc as int]);
        (pre.with_pc((pre.pc + 2) as u16).with_pair(rr, v), Ok(()))
    } else {
        (pre, Err(GbError::AddressOutOfRange))
    }
}

/// Effect of the 16-bit immediate load into the stack pointer.
pub open spec fn ld_sp_nn_spec(pre: GbSnap) -> (GbSnap, Result<(), GbError>) {
    if pre.pc as int + 1 < pre.mem.len() {
        let v = spec_pair(pre.mem[pre.pc as int + 1], pre.mem[pre.pc as int]);
        (pre.with_pc((pre.pc + 2) as u16).with_sp(v), Ok(()))
    } else {
        (pre, Err(GbError::AddressOutOfRange))
    }
}

/// Effect of loading the accumulator from memory at a pair's address.
pub open spec fn ld_a_rr_spec(pre: GbSnap, rr: Reg16) -> (GbSnap, Result<(), GbError>) {
    let addr = pre.pair(rr);
    if pre.mem_ok(addr) {
        (pre.with_a(pre.mem[addr as int]), Ok(()))
    } else {
        (pre, Err(GbError::AddressOutOfRange))
    }
}

/// Effect of storing the accumulator to memory at a pair's address.
pub open spec fn ld_rr_a_spec(pre: GbSnap, rr: Reg16) -> (GbSnap, Result<(), GbError>) {
    let addr = pre.pair(rr);
    if pre.mem_ok(addr) {
        (pre.with_mem(addr as int, pre.a), Ok(()))
    } else {
        (pre, Err(GbError::AddressOutOfRange))
    }
}

/// Effect of loading the accumulator from memory at HL, then incrementing
/// HL (wrapping at the top of the 16-bit range).
pub open spec fn ld_a_hli_spec(pre: GbSnap) -> (GbSnap, Result<(), GbError>) {
    let addr = pre.hl();
    if pre.mem_ok(addr) {
        (pre.with_a(pre.mem[addr as int]).with_pair(Reg16::HL, spec_word_inc(addr)), Ok(()))
    } else {
        (pre, Err(GbError::AddressOutOfRange))
    }
}

/// Effect of loading the accumulator from memory at HL, then decrementing
/// HL (wrapping at the bottom of the 16-bit range).
pub open spec fn ld_a_hld_spec(pre: GbSnap) -> (GbSnap, Result<(), GbError>) {
    let addr = pre.hl();
    if pre.mem_ok(addr) {
        (pre.with_a(pre.mem[addr as int]).with_pair(Reg16::HL, spec_word_dec(addr)), Ok(()))
    } else {
        (pre, Err(GbError::AddressOutOfRange))
    }
}

/// Effect of storing the accumulator to memory at HL, then incrementing HL.
pub open spec fn ld_hli_a_spec(pre: GbSnap) -> (GbSnap, Result<(), GbError>) {
    let addr = pre.hl();
    if pre.mem_ok(addr) {
        (pre.with_mem(addr as int, pre.a).with_pair(Reg16::HL, spec_word_inc(addr)), Ok(()))
    } else {
        (pre, Err(GbError::AddressOutOfRange))
    }
}

/// Effect of storing the accumulator to memory at HL, then decrementing HL.
pub open spec fn ld_hld_a_spec(pre: GbSnap) -> (GbSnap, Result<(), GbError>) {
    let addr = pre.hl();
    if pre.mem_ok(addr) {
        (pre.with_mem(addr as int, pre.a).with_pair(Reg16::HL, spec_word_dec(addr)), Ok(()))
    } else {
        (pre, Err(GbError::AddressOutOfRange))
    }
}

/// Effect of loading the accumulator from an immediate absolute address:
/// the address word is fetched first (advancing the program counter past
/// it), then the byte at that address is read.
pub open spec fn ld_a_nn_spec(pre: GbSnap) -> (GbSnap, Result<(), GbError>) {
    if pre.pc as int + 1 < pre.mem.len() {
        let addr = spec_pair(pre.mem[pre.pc as int + 1], pre.mem[pre.pc as int]);
        let mid = pre.with_pc((pre.pc + 2) as u16);
        if mid.mem_ok(addr) {
            (mid.with_a(mid.mem[addr as int]), Ok(()))
        } else {
            (mid, Err(GbError::AddressOutOfRange))
        }
    } else {
        (pre, Err(GbError::AddressOutOfRange))
    }
}

/// Effect of storing the accumulator to an immediate absolute address.
pub open spec fn ld_nn_a_spec(pre: GbSnap) -> (GbSnap, Result<(), GbError>) {
    if pre.pc as int + 1 < pre.mem.len() {
        let addr = spec_pair(pre.mem[pre.pc as int + 1], pre.mem[pre.pc as int]);
        let mid = pre.with_pc((pre.pc + 2) as u16);
        if mid.mem_ok(addr) {
            (mid.with_mem(addr as int, mid.a), Ok(()))
        } else {
            (mid, Err(GbError::AddressOutOfRange))
        }
    } else {
        (pre, Err(GbError::AddressOutOfRange))
    }
}

/// Effect of the whole load family, by opcode, on the state just after the
/// opcode fetch. An opcode outside the family changes nothing.
pub open spec fn ld_spec(pre: GbSnap, op: u8) -> (GbSnap, Result<(), GbError>) {
    if 0x40 <= op && op <= 0x7f {
        ld_r_r_spec(pre, (op >> 3) & 7, op & 7)
    } else if op == 0x06 || op == 0x0e || op == 0x16 || op == 0x1e || op == 0x26 || op == 0x2e
        || op == 0x36 || op == 0x3e {
        ld_r_n_spec(pre, (op >> 3) & 7)
    } else if op == 0x0a {
        ld_a_rr_spec(pre, Reg16::BC)
    } else if op == 0x1a {
        ld_a_rr_spec(pre, Reg16::DE)
    } else if op == 0x02 {
        ld_rr_a_spec(pre, Reg16::BC)
    } else if op == 0x12 {
        ld_rr_a_spec(pre, Reg16::DE)
    } else if op == 0x01 {
        ld_rr_nn_spec(pre, Reg16::BC)
    } else if op == 0x11 {
        ld_rr_nn_spec(pre, Reg16::DE)
    } else if op == 0x21 {
        ld_rr_nn_spec(pre, Reg16::HL)
    } else if op == 0x31 {
        ld_sp_nn_spec(pre)
    } else if op == 0x2a {
        ld_a_hli_spec(pre)
    } else if op == 0x3a {
        ld_a_hld_spec(pre)
    } else if op == 0x22 {
        ld_hli_a_spec(pre)
    } else if op == 0x32 {
        ld_hld_a_spec(pre)
    } else if op == 0xfa {
        ld_a_nn_spec(pre)
    } else if op == 0xea {
        ld_nn_a_spec(pre)
    } else {
        (pre, Ok(()))
    }
}

/// In the register-to-register load family every opcode whose two codes name
/// real registers (neither is the HL-indirect code) copies the source cell
/// into the destination cell and leaves the source, all other registers, the
/// program counter, the memory and the running flag unchanged.
pub proof fn lemma_ld_r_r_copies(pre: GbSnap, dest: u8, src: u8)
    requires
        dest < 8,
        src < 8,
        dest != 6,
        src != 6,
        dest != src,
    ensures
        ld_r_r_spec(pre, dest, src).1 == Ok::<(), GbError>(()),
        ld_r_r_spec(pre, dest, src).0.reg8(dest) == pre.reg8(src),
        ld_r_r_spec(pre, dest, src).0.reg8(src) == pre.reg8(src),
        forall|other: u8|
            other < 8 && other != dest ==> ld_r_r_spec(pre, dest, src).0.reg8(other)
                == pre.reg8(other),
        ld_r_r_spec(pre, dest, src).0.pc == pre.pc,
        ld_r_r_spec(pre, dest, src).0.sp == pre.sp,
        ld_r_r_spec(pre, dest, src).0.mem == pre.mem,
        ld_r_r_spec(pre, dest, src).0.running == pre.running,
{
}

impl Gameboy {
    /// Dispatches one opcode of the load family (any opcode outside it
    /// changes nothing and succeeds).
    pub fn ld(&mut self, opcode: u8) -> (r: Result<(), GbError>)
        requires
            old(self).wf(),
        ensures
            final(self).wf(),
            (final(self)@, r) == ld_spec(old(self)@, opcode),
    {
        proof {
            lemma_ld_dispatch_fields(opcode);
        }
        match opcode {
            0x46 | 0x4e | 0x56 | 0x5e | 0x66 | 0x6e | 0x7e => self.ld_r_hl(opcode),
            0x70..=0x75 | 0x77 => self.ld_hl_r(opcode),
            0x40..=0x7f => self.ld_r_r(opcode),
            0x06 | 0x0e | 0x16 | 0x1e | 0x26 | 0x2e | 0x36 | 0x3e => self.ld_r_n(opcode),
            0x0a => self.ld_a_rr(Reg16::BC),
            0x1a => self.ld_a_rr(Reg16::DE),
            0x02 => self.ld_rr_a(Reg16::BC),
            0x12 => self.ld_rr_a(Reg16::DE),
            0x01 => self.ld_rr_nn(Reg16::BC),
            0x11 => self.ld_rr_nn(Reg16::DE),
            0x21 => self.ld_rr_nn(Reg16::HL),
            0x31 => self.ld_sp_nn(),
            0x2a => self.ld_a_hli(),
            0x3a => self.ld_a_hld(),
            0x22 => self.ld_hli_a(),
            0x32 => self.ld_hld_a(),
            0xfa => self.ld_a_nn(),
            0xea => self.ld_nn_a(),
            _ => Ok(()),
        }
    }

    /// Loads the stack pointer from the immediate word at the program
    /// counter.
    fn ld_sp_nn(&mut self) -> (r: Result<(), GbError>)
        requires
            old(self).wf(),
        ensures
            final(self).wf(),
            (final(self)@, r) == ld_sp_nn_spec(old(self)@),
    {
        match self.read_u16_increment_pc() {
            Ok(v) => {
                self.cpu.stack_pointer = v;
                Ok(())
            },
            Err(e) => Err(e),
        }
    }

    /// Loads a register pair from the immediate word at the program counter.
    fn ld_rr_nn(&mut self, rr: Reg16) -> (r: Result<(), GbError>)
        requires
            old(self).wf(),
        ensures
            final(self).wf(),
            (final(self)@, r) == ld_rr_nn_spec(old(self)@, rr),
    {
        match self.read_u16_increment_pc() {
            Ok(imm) => {
                self.cpu.write_reg16(rr, imm);
                Ok(())
            },
            Err(e) => Err(e),
        }
    }

    /// The generic register-to-register load, including both HL-indirect
    /// sides and the Halt collision at code 6 on both sides.
    fn ld_r_r(&mut self, opcode: u8) -> (r: Result<(), GbError>)
        requires
            old(self).wf(),
        ensures
            final(self).wf(),
            (final(self)@, r) == ld_r_r_spec(old(self)@, (opcode >> 3) & 7, opcode & 7),
    {
        proof {
            lemma_code_bounds(opcode);
        }
        let dest = Gameboy::opcode_dest_register(opcode);
        let src = opcode & 0x07;

        if dest == 6 && src == 6 {
            // LD (HL),(HL) is actually Halt, not a load.
            self.halt();
            return Ok(());
        }
        let value = if src == 6 {
            let addr = self.cpu.reg16(Reg16::HL);
            match self.memory.read_u8(addr) {
                Ok(v) => v,
                Err(e) => { return Err(e) },
            }
        } else {
            self.cpu.reg8(Reg8::from_u8(src))
        };
        if dest == 6 {
            let addr = self.cpu.reg16(Reg16::HL);
            match self.memory.write_u8(addr, value) {
                Ok(u) => Ok(u),
                Err(e) => Err(e),
            }
        } else {
            self.cpu.write_reg8(Reg8::from_u8(dest), value);
            Ok(())
        }
    }

    /// Loads the destination code of the opcode from the immediate byte at
    /// the program counter.
    fn ld_r_n(&mut self, opcode: u8) -> (r: Result<(), GbError>)
        requires
            old(self).wf(),
        ensures
            final(self).wf(),
            (final(self)@, r) == ld_r_n_spec(old(self)@, (opcode >> 3) & 7),
    {
        proof {
            lemma_code_bounds(opcode);
        }
        let dest = Gameboy::opcode_dest_register(opcode);
        let imm = match self.read_u8_increment_pc() {
            Ok(v) => v,
            Err(e) => { return Err(e) },
        };
        if dest == 6 {
            let addr = self.cpu.reg16(Reg16::HL);
            match self.memory.write_u8(addr, imm) {
                Ok(u) => Ok(u),
                Err(e) => Err(e),
            }
        } else {
            self.cpu.write_reg8(Reg8::from_u8(dest), imm);
            Ok(())
        }
    }

    /// Loads the destination register of the opcode from memory at HL.
    fn ld_r_hl(&mut self, opcode: u8) -> (r: Result<(), GbError>)
        requires
            old(self).wf(),
            opcode & 7 == 6,
            (opcode >> 3) & 7 != 6,
        ensures
            final(self).wf(),
            (final(self)@, r) == ld_r_r_spec(old(self)@, (opcode >> 3) & 7, opcode & 7),
    {
        proof {
            lemma_code_bounds(opcode);
        }
        let dest = Gameboy::opcode_dest_register(opcode);
        let addr = self.cpu.hl();
        match self.memory.read_u8(addr) {
            Ok(value) => {
                self.cpu.write_reg8(Reg8::from_u8(dest), value);
                Ok(())
            },
            Err(e) => Err(e),
        }
    }

    /// Stores the source register of the opcode to memory at HL.
    fn ld_hl_r(&mut self, opcode: u8) -> (r: Result<(), GbError>)
        requires
            old(self).wf(),
            (opcode >> 3) & 7 == 6,
            opcode & 7 != 6,
        ensures
            final(self).wf(),
            (final(self)@, r) == ld_r_r_spec(old(self)@, (opcode >> 3) & 7, opcode & 7),
    {
        proof {
            lemma_code_bounds(opcode);
        }
        let src = opcode & 0x07;
        let addr = self.cpu.reg16(Reg16::HL);
        let value = self.cpu.reg8(Reg8::from_u8(src));
        match self.memory.write_u8(addr, value) {
            Ok(u) => Ok(u),
            Err(e) => Err(e),
        }
    }

    /// Loads the accumulator from memory at the pair's address.
    fn ld_a_rr(&mut self, rr: Reg16) -> (r: Result<(), GbError>)
        requires
            old(self).wf(),
        ensures
            final(self).wf(),
            (final(self)@, r) == ld_a_rr_spec(old(self)@, rr),
    {
        let addr = self.cpu.reg16(rr);
        match self.memory.read_u8(addr) {
            Ok(value) => {
                self.cpu.write_reg8(Reg8::A, value);
                Ok(())
            },
            Err(e) => Err(e),
        }
    }

    /// Stores the accumulator to memory at the pair's address.
    fn ld_rr_a(&mut self, rr: Reg16) -> (r: Result<(), GbError>)
        requires
            old(self).wf(),
        ensures
            final(self).wf(),
            (final(self)@, r) == ld_rr_a_spec(old(self)@, rr),
    {
        let addr = self.cpu.reg16(rr);
        let value = self.cpu.reg8(Reg8::A);
        match self.memory.write_u8(addr, value) {
            Ok(u) => Ok(u),
            Err(e) => Err(e),
        }
    }

    /// Loads the accumulator from memory at HL, then increments HL.
    fn ld_a_hli(&mut self) -> (r: Result<(), GbError>)
        requires
            old(self).wf(),
        ensures
            final(self).wf(),
            (final(self)@, r) == ld_a_hli_spec(old(self)@),
    {
        let addr = self.cpu.hl();
        match self.memory.read_u8(addr) {
            Ok(value) => {
                self.cpu.write_reg8(Reg8::A, value);
                let next = if addr == 0xffff {
                    0
                } else {
                    addr + 1
                };
                self.cpu.set_hl(next);
                Ok(())
            },
            Err(e) => Err(e),
        }
    }

    /// Loads the accumulator from memory at HL, then decrements HL.
    fn ld_a_hld(&mut self) -> (r: Result<(), GbError>)
        requires
            old(self).wf(),
        ensures
            final(self).wf(),
            (final(self)@, r) == ld_a_hld_spec(old(self)@),
    {
        let addr = self.cpu.hl();
        match self.memory.read_u8(addr) {
            Ok(value) => {
                self.cpu.write_reg8(Reg8::A, value);
                let next = if addr == 0 {
                    0xffff
                } else {
                    addr - 1
                };
                self.cpu.set_hl(next);
                Ok(())
            },
            Err(e) => Err(e),
        }
    }

    /// Stores the accumulator to memory at HL, then increments HL.
    fn ld_hli_a(&mut self) -> (r: Result<(), GbError>)
        requires
            old(self).wf(),
        ensures
            final(self).wf(),
            (final(self)@, r) == ld_hli_a_spec(old(self)@),
    {
        let addr = self.cpu.hl();
        let value = self.cpu.reg8(Reg8::A);
        match self.memory.write_u8(addr, value) {
            Ok(u) => {
                let next = if addr == 0xffff {
                    0
                } else {
                    addr + 1
                };
                self.cpu.set_hl(next);
                Ok(u)
            },
            Err(e) => Err(e),
        }
    }

    /// Stores the accumulator to memory at HL, then decrements HL.
    fn ld_hld_a(&mut self) -> (r: Result<(), GbError>)
        requires
            old(self).wf(),
        ensures
            final(self).wf(),
            (final(self)@, r) == ld_hld_a_spec(old(self)@),
    {
        let addr = self.cpu.hl();
        let value = self.cpu.reg8(Reg8::A);
        match self.memory.write_u8(addr, value) {
            Ok(u) => {
                let next = if addr == 0 {
                    0xffff
                } else {
                    addr - 1
                };
                self.cpu.set_hl(next);
                Ok(u)
            },
            Err(e) => Err(e),
        }
    }

    /// Loads the accumulator from the immediate absolute address.
    fn ld_a_nn(&mut self) -> (r: Result<(), GbError>)
        requires
            old(self).wf(),
        ensures
            final(self).wf(),
            (final(self)@, r) == ld_a_nn_spec(old(self)@),
    {
        let addr = match self.read_u16_increment_pc() {
            Ok(v) => v,
            Err(e) => { return Err(e) },
        };
        match self.memory.read_u8(addr) {
            Ok(value) => {
                self.cpu.write_reg8(Reg8::A, value);
                Ok(())
            },
            Err(e) => Err(e),
        }
    }

    /// Stores the accumulator to the immediate absolute address.
    fn ld_nn_a(&mut self) -> (r: Result<(), GbError>)
        requires
            old(self).wf(),
        ensures
            final(self).wf(),
            (final(self)@, r) == ld_nn_a_spec(old(self)@),
    {
        let addr = match self.read_u16_increment_pc() {
            Ok(v) => v,
            Err(e) => { return Err(e) },
        };
        let value = self.cpu.reg8(Reg8::A);
        match self.memory.write_u8(addr, value) {
            Ok(u) => Ok(u),
            Err(e) => Err(e),
        }
    }
}

/// The register-code fields of the opcodes that the load dispatcher sends to
/// the HL-indirect handlers.
proof fn lemma_ld_dispatch_fields(op: u8)
    ensures
        (op == 0x46 || op == 0x4e || op == 0x56 || op == 0x5e || op == 0x66 || op == 0x6e || op
            == 0x7e) ==> op & 7 == 6 && (op >> 3) & 7 != 6,
        (0x70 <= op && op <= 0x75 || op == 0x77) ==> (op >> 3) & 7 == 6 && op & 7 != 6,
{
    assert((op == 0x46 || op == 0x4e || op == 0x56 || op == 0x5e || op == 0x66 || op == 0x6e || op
        == 0x7e) ==> op & 7 == 6 && (op >> 3) & 7 != 6) by (bit_vector);
    assert((0x70 <= op && op <= 0x75 || op == 0x77) ==> (op >> 3) & 7 == 6 && op & 7 != 6)
        by (bit_vector);
}

} // verus!
