//! The execution engine: owns the register file, the address space and the
//! running flag, and drives the fetch-decode-execute cycle.

use crate::bits::spec_pair;
use crate::cpu::Gbz80;
use crate::decode::{decode, spec_decode, Instr};
use crate::memory::{GbError, GbMemory, MEM_SIZE};
use crate::ops::ld::ld_spec;
use crate::ops::xor::xor_spec;
use vstd::prelude::*;

verus! {

/// What one fetch-decode-execute cycle reported.
#[derive(Debug, PartialEq, Eq, Structural, Clone, Copy)]
pub enum StepEvent {
    /// An implemented instruction ran to completion.
    Executed,
    /// The fetched byte is no instruction of this core: the diagnostic names
    /// the opcode and the address it was fetched from, and nothing beyond
    /// the fetch's own program-counter advance has changed.
    Unimplemented { opcode: u8, address: u16 },
}

/// One whole fetch-decode-execute cycle as a function on the machine state:
/// the result state, and what the cycle reported. A fetch from an invalid
/// program counter fails with nothing changed; afterwards the decoded
/// instruction's own semantics apply to the state with the program counter
/// already advanced past the opcode.
pub open spec fn spec_step(pre: GbSnap) -> (GbSnap, Result<StepEvent, GbError>) {
    if !pre.mem_ok(pre.pc) {
        (pre, Err(GbError::AddressOutOfRange))
    } else {
        let op = pre.mem[pre.pc as int];
        let mid = pre.with_pc((pre.pc + 1) as u16);
        match spec_decode(op) {
            Instr::Nop => (mid, Ok(StepEvent::Executed)),
            Instr::Halt => (mid.with_running(false), Ok(StepEvent::Executed)),
            Instr::Undefined => (
                mid,
                Ok(StepEvent::Unimplemented { opcode: op, address: pre.pc }),
            ),
            Instr::XorR { .. } | Instr::XorN => {
                let (post, r) = xor_spec(mid, op);
                (
                    post,
                    match r {
                        Ok(()) => Ok(StepEvent::Executed),
                        Err(e) => Err(e),
                    },
                )
            },
            _ => {
                let (post, r) = ld_spec(mid, op);
                (
                    post,
                    match r {
                        Ok(()) => Ok(StepEvent::Executed),
                        Err(e) => Err(e),
                    },
                )
            },
        }
    }
}

/// The mathematical state of the whole machine: the register cells, the two
/// 16-bit special registers, the running flag and the contents of the
/// address space. The instruction semantics are stated as functions over
/// this state.
#[verifier::ext_equal]
pub ghost struct GbSnap {
    pub running: bool,
    pub b: u8,
    pub c: u8,
    pub d: u8,
    pub e: u8,
    pub h: u8,
    pub l: u8,
    pub f: u8,
    pub a: u8,
    pub sp: u16,
    pub pc: u16,
    pub mem: Seq<u8>,
}

impl GbSnap {
    /// The cell selected by a 3-bit register code (6 selects the slot that
    /// otherwise holds the flags; the decoder intercepts code 6 before any
    /// load reaches a register).
    pub open spec fn reg8(self, code: u8) -> u8 {
        if code == 0 {
            self.b
        } else if code == 1 {
            self.c
        } else if code == 2 {
            self.d
        } else if code == 3 {
            self.e
        } else if code == 4 {
            self.h
        } else if code == 5 {
            self.l
        } else if code == 6 {
            self.f
        } else {
            self.a
        }
    }

    /// The state with the cell of a 3-bit register code replaced.
    pub open spec fn with_reg8(self, code: u8, v: u8) -> GbSnap {
        if code == 0 {
            GbSnap { b: v, ..self }
        } else if code == 1 {
            GbSnap { c: v, ..self }
        } else if code == 2 {
            GbSnap { d: v, ..self }
        } else if code == 3 {
            GbSnap { e: v, ..self }
        } else if code == 4 {
            GbSnap { h: v, ..self }
        } else if code == 5 {
            GbSnap { l: v, ..self }
        } else if code == 6 {
            GbSnap { f: v, ..self }
        } else {
            GbSnap { a: v, ..self }
        }
    }

    /// The composed value of a register pair.
    pub open spec fn pair(self, r: crate::cpu::Reg16) -> u16 {
        match r {
            crate::cpu::Reg16::BC => spec_pair(self.b, self.c),
            crate::cpu::Reg16::DE => spec_pair(self.d, self.e),
            crate::cpu::Reg16::HL => spec_pair(self.h, self.l),
            crate::cpu::Reg16::AF => spec_pair(self.a, self.f),
        }
    }

    /// The state with a register pair replaced: high byte to the first cell,
    /// low byte to the second.
    pub open spec fn with_pair(self, r: crate::cpu::Reg16, v: u16) -> GbSnap {
        match r {
            crate::cpu::Reg16::BC => GbSnap {
                b: crate::bits::spec_high(v),
                c: crate::bits::spec_low(v),
                ..self
            },
            crate::cpu::Reg16::DE => GbSnap {
                d: crate::bits::spec_high(v),
                e: crate::bits::spec_low(v),
                ..self
            },
            crate::cpu::Reg16::HL => GbSnap {
                h: crate::bits::spec_high(v),
                l: crate::bits::spec_low(v),
                ..self
            },
            crate::cpu::Reg16::AF => GbSnap {
                a: crate::bits::spec_high(v),
                f: crate::bits::spec_low(v),
                ..self
            },
        }
    }

    /// The composed HL pair.
    pub open spec fn hl(self) -> u16 {
        self.pair(crate::cpu::Reg16::HL)
    }

    /// The state with the Zero, Subtract and Half-Carry flags set to the
    /// given booleans; Carry and the unused nibble keep their value.
    pub open spec fn with_flags(self, z: bool, n: bool, h: bool) -> GbSnap {
        GbSnap { f: crate::bits::spec_set_flags(self.f, z, n, h), ..self }
    }

    /// The state with the program counter replaced.
    pub open spec fn with_pc(self, pc: u16) -> GbSnap {
        GbSnap { pc, ..self }
    }

    /// The state with the stack pointer replaced.
    pub open spec fn with_sp(self, sp: u16) -> GbSnap {
        GbSnap { sp, ..self }
    }

    /// The state with the accumulator replaced.
    pub open spec fn with_a(self, a: u8) -> GbSnap {
        GbSnap { a, ..self }
    }

    /// The state with the running flag replaced.
    pub open spec fn with_running(self, running: bool) -> GbSnap {
        GbSnap { running, ..self }
    }

    /// The state with one memory byte replaced.
    pub open spec fn with_mem(self, addr: int, v: u8) -> GbSnap {
        GbSnap { mem: self.mem.update(addr, v), ..self }
    }

    /// Whether an address is inside the address space.
    pub open spec fn mem_ok(self, addr: u16) -> bool {
        (addr as int) < self.mem.len()
    }

    /// Well-formedness: the address space holds exactly `MEM_SIZE` bytes.
    pub open spec fn wf(self) -> bool {
        self.mem.len() == MEM_SIZE
    }
}

/// The execution engine: the register file, the address space, and the
/// running flag that the halt instruction clears.
pub struct Gameboy {
    pub running: bool,
    pub cpu: Gbz80,
    pub memory: GbMemory,
}

impl View for Gameboy {
    type V = GbSnap;

    open spec fn view(&self) -> GbSnap {
        GbSnap {
            running: self.running,
            b: self.cpu.b,
            c: self.cpu.c,
            d: self.cpu.d,
            e: self.cpu.e,
            h: self.cpu.h,
            l: self.cpu.l,
            f: self.cpu.f,
            a: self.cpu.a,
            sp: self.cpu.stack_pointer,
            pc: self.cpu.program_counter,
            mem: self.memory@,
        }
    }
}

impl Gameboy {
    /// Well-formedness of the whole machine.
    pub open spec fn wf(self) -> bool {
        self@.wf()
    }

    /// A fresh machine: running, registers zeroed, memory zeroed.
    pub fn new() -> (r: Gameboy)
        ensures
            r.wf(),
            r@.running == true,
            r@.b == 0 && r@.c == 0 && r@.d == 0 && r@.e == 0,
            r@.h == 0 && r@.l == 0 && r@.f == 0 && r@.a == 0,
            r@.sp == 0 && r@.pc == 0,
            forall|i: int| 0 <= i < MEM_SIZE ==> r@.mem[i] == 0,
    {
        Gameboy { running: true, cpu: Gbz80::new(), memory: GbMemory::new() }
    }

    /// Reads the byte at the program counter and advances the program
    /// counter past it; an out-of-range program counter is an error and
    /// changes nothing.
    pub fn read_u8_increment_pc(&mut self) -> (r: Result<u8, GbError>)
        requires
            old(self).wf(),
        ensures
            final(self).wf(),
            old(self)@.mem_ok(old(self)@.pc) ==> r == Ok::<u8, GbError>(
                old(self)@.mem[old(self)@.pc as int],
            ) && final(self)@ == old(self)@.with_pc((old(self)@.pc + 1) as u16),
            !old(self)@.mem_ok(old(self)@.pc) ==> r == Err::<u8, GbError>(
                GbError::AddressOutOfRange,
            ) && final(self)@ == old(self)@,
    {
        match self.memory.read_u8(self.cpu.program_counter) {
            Ok(v) => {
                self.cpu.program_counter = self.cpu.program_counter + 1;
                Ok(v)
            },
            Err(e) => Err(e),
        }
    }

    /// Reads the little-endian word at the program counter and advances the
    /// program counter past both bytes; fails without change when either
    /// byte is out of range.
    pub fn read_u16_increment_pc(&mut self) -> (r: Result<u16, GbError>)
        requires
            old(self).wf(),
        ensures
            final(self).wf(),
            old(self)@.pc as int + 1 < MEM_SIZE ==> r == Ok::<u16, GbError>(
                spec_pair(
                    old(self)@.mem[old(self)@.pc as int + 1],
                    old(self)@.mem[old(self)@.pc as int],
                ),
            ) && final(self)@ == old(self)@.with_pc((old(self)@.pc + 2) as u16),
            old(self)@.pc as int + 1 >= MEM_SIZE ==> r == Err::<u16, GbError>(
                GbError::AddressOutOfRange,
            ) && final(self)@ == old(self)@,
    {
        match self.memory.read_u16(self.cpu.program_counter) {
            Ok(v) => {
                self.cpu.program_counter = self.cpu.program_counter + 2;
                Ok(v)
            },
            Err(e) => Err(e),
        }
    }

    /// Copies a 16-bit value into the given destination.
    pub fn ld_16_16(&self, source: u16, dest: &mut u16)
        ensures
            *final(dest) == source,
    {
        *dest = source;
    }

    /// Loads the stack pointer from the immediate word that follows an
    /// opcode at the given program counter, then advances that counter past
    /// the three instruction bytes. Fails without change when the operand
    /// addresses fall outside the address space.
    pub fn ld_sp_u16(&mut self, program_counter: &mut u16, stack_pointer: &mut u16) -> (r: Result<
        (),
        GbError,
    >)
        requires
            old(self).wf(),
        ensures
            final(self).wf(),
            final(self)@ == old(self)@,
            *old(program_counter) as int + 2 < MEM_SIZE ==> {
                &&& r == Ok::<(), GbError>(())
                &&& *final(stack_pointer) == spec_pair(
                    old(self)@.mem[*old(program_counter) as int + 2],
                    old(self)@.mem[*old(program_counter) as int + 1],
                )
                &&& *final(program_counter) == *old(program_counter) + 3
            },
            *old(program_counter) as int + 2 >= MEM_SIZE ==> {
                &&& r == Err::<(), GbError>(GbError::AddressOutOfRange)
                &&& *final(stack_pointer) == *old(stack_pointer)
                &&& *final(program_counter) == *old(program_counter)
            },
    {
        if (*program_counter as usize) + 2 >= MEM_SIZE {
            return Err(GbError::AddressOutOfRange);
        }
        match self.memory.read_u16(*program_counter + 1) {
            Ok(v) => {
                self.ld_16_16(v, stack_pointer);
                *program_counter = *program_counter + 3;
                Ok(())
            },
            Err(e) => Err(e),
        }
    }

    /// No operation: nothing changes.
    pub fn nop(&mut self, _opcode: u8)
        ensures
            final(self)@ == old(self)@,
    {
    }

    /// The halt transition: clears the running flag; nothing else changes.
    pub fn halt(&mut self)
        ensures
            final(self)@ == old(self)@.with_running(false),
    {
        self.running = false;
    }

    /// The destination register code of an opcode: bits 3-5.
    pub fn opcode_dest_register(opcode: u8) -> (r: u8)
        ensures
            r == (opcode >> 3) & 0x07,
    {
        (opcode >> 3u8) & 0x07
    }

    /// Performs exactly one fetch-decode-execute cycle: reads the byte at
    /// the program counter, advances the program counter past it, and runs
    /// the decoded instruction. An unimplemented opcode is reported with its
    /// address and leaves all state untouched beyond the fetch's advance; an
    /// out-of-range access fails the cycle with `AddressOutOfRange`.
    pub fn execute_next(&mut self) -> (r: Result<StepEvent, GbError>)
        requires
            old(self).wf(),
        ensures
            final(self).wf(),
            (final(self)@, r) == spec_step(old(self)@),
    {
        let address = self.cpu.program_counter;
        let opcode = match self.read_u8_increment_pc() {
            Ok(b) => b,
            Err(e) => { return Err(e) },
        };
        match decode(opcode) {
            Instr::Nop => {
                self.nop(opcode);
                Ok(StepEvent::Executed)
            },
            Instr::Halt => {
                self.halt();
                Ok(StepEvent::Executed)
            },
            Instr::Undefined => Ok(StepEvent::Unimplemented { opcode, address }),
            Instr::XorR { .. } | Instr::XorN => match self.xor(opcode) {
                Ok(()) => Ok(StepEvent::Executed),
                Err(e) => Err(e),
            },
            _ => match self.ld(opcode) {
                Ok(()) => Ok(StepEvent::Executed),
                Err(e) => Err(e),
            },
        }
    }
}

/// Fetching opcode `0x76` always performs the halt transition: whatever the
/// machine state, the running flag is false afterwards, no memory is read or
/// written beyond the opcode fetch itself, and no register but the program
/// counter (advanced past the opcode) changes.
pub proof fn lemma_halt_transition(pre: GbSnap)
    requires
        pre.mem_ok(pre.pc),
        pre.mem[pre.pc as int] == 0x76,
    ensures
        spec_step(pre).1 == Ok::<StepEvent, GbError>(StepEvent::Executed),
        spec_step(pre).0.running == false,
        spec_step(pre).0.mem == pre.mem,
        spec_step(pre).0 == pre.with_pc((pre.pc + 1) as u16).with_running(false),
{
}

/// Every immediate-load opcode whose destination is a plain register loads
/// that register with the byte that follows the opcode and advances the
/// program counter by exactly two from its pre-fetch value; memory and the
/// running flag are untouched.
pub proof fn lemma_ld_immediate(pre: GbSnap, op: u8)
    requires
        pre.wf(),
        pre.pc as int + 1 < pre.mem.len(),
        op == 0x06 || op == 0x0e || op == 0x16 || op == 0x1e || op == 0x26 || op == 0x2e || op
            == 0x3e,
        pre.mem[pre.pc as int] == op,
    ensures
        spec_step(pre).1 == Ok::<StepEvent, GbError>(StepEvent::Executed),
        spec_step(pre).0.reg8((op >> 3) & 7) == pre.mem[pre.pc as int + 1],
        spec_step(pre).0.pc == pre.pc + 2,
        spec_step(pre).0.mem == pre.mem,
        spec_step(pre).0.running == pre.running,
{
    assert((op == 0x06 || op == 0x0e || op == 0x16 || op == 0x1e || op == 0x26 || op == 0x2e || op
        == 0x3e) ==> (op >> 3) & 7 != 6) by (bit_vector);
}

} // verus!
