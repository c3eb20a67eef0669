//! The register file: eight 8-bit cells, the 16-bit pair views over them,
//! the flags register, the program counter and the stack pointer.

use crate::bits::{
    lemma_pair_shift, lemma_pair_unshift, spec_high, spec_low, spec_pair, spec_set_flags,
};
use vstd::prelude::*;

verus! {

/// One of the eight 8-bit register cells.
#[derive(Debug, PartialEq, Eq, Structural, Clone, Copy)]
pub enum Reg8 {
    B,
    C,
    D,
    E,
    H,
    L,
    F,
    A,
}

/// The register cell selected by a 3-bit register code
/// (0=B, 1=C, 2=D, 3=E, 4=H, 5=L, 6=F, 7=A). Code 6 never denotes a real
/// register in the opcode encoding: the decoder intercepts it as HL-indirect
/// before the register file is reached, so the cell behind it is the slot
/// otherwise holding the flags.
pub open spec fn spec_reg_of_code(code: u8) -> Reg8 {
    if code == 0 {
        Reg8::B
    } else if code == 1 {
        Reg8::C
    } else if code == 2 {
        Reg8::D
    } else if code == 3 {
        Reg8::E
    } else if code == 4 {
        Reg8::H
    } else if code == 5 {
        Reg8::L
    } else if code == 6 {
        Reg8::F
    } else {
        Reg8::A
    }
}

impl Reg8 {
    /// The register cell for a 3-bit register code.
    pub fn from_u8(value: u8) -> (r: Reg8)
        requires
            value < 8,
        ensures
            r == spec_reg_of_code(value),
    {
        match value {
            0 => Reg8::B,
            1 => Reg8::C,
            2 => Reg8::D,
            3 => Reg8::E,
            4 => Reg8::H,
            5 => Reg8::L,
            6 => Reg8::F,
            _ => Reg8::A,
        }
    }
}

/// One of the four 16-bit register-pair views.
#[derive(Debug, PartialEq, Eq, Structural, Clone, Copy)]
pub enum Reg16 {
    BC,
    DE,
    HL,
    AF,
}

/// Writing a 16-bit value to a register pair and reading the pair back
/// returns the identical value, for every pair and every value.
pub proof fn lemma_pair_roundtrip(cpu: Gbz80, r: Reg16, v: u16)
    ensures
        cpu.spec_with_reg16(r, v).spec_reg16(r) == v,
{
    crate::bits::lemma_pair_split_roundtrip(v);
}

/// Writing the two cells of the HL pair individually and reading HL back
/// composes them with H as the high byte and L as the low byte.
pub proof fn lemma_pair_composes(cpu: Gbz80, hi: u8, lo: u8)
    ensures
        cpu.spec_with_reg8(Reg8::H, hi).spec_with_reg8(Reg8::L, lo).spec_reg16(Reg16::HL)
            == spec_pair(hi, lo),
{
}

/// The processor state proper: the eight register cells and the two 16-bit
/// special registers. A register pair is not stored separately; it is always
/// composed from its two cells on demand.
pub struct Gbz80 {
    pub b: u8,
    pub c: u8,
    pub d: u8,
    pub e: u8,
    pub h: u8,
    pub l: u8,
    pub f: u8,
    pub a: u8,
    pub stack_pointer: u16,
    pub program_counter: u16,
}

impl Gbz80 {
    /// The value of one 8-bit cell.
    pub open spec fn spec_reg8(self, reg: Reg8) -> u8 {
        match reg {
            Reg8::B => self.b,
            Reg8::C => self.c,
            Reg8::D => self.d,
            Reg8::E => self.e,
            Reg8::H => self.h,
            Reg8::L => self.l,
            Reg8::F => self.f,
            Reg8::A => self.a,
        }
    }

    /// The register file with one 8-bit cell replaced.
    pub open spec fn spec_with_reg8(self, reg: Reg8, value: u8) -> Gbz80 {
        match reg {
            Reg8::B => Gbz80 { b: value, ..self },
            Reg8::C => Gbz80 { c: value, ..self },
            Reg8::D => Gbz80 { d: value, ..self },
            Reg8::E => Gbz80 { e: value, ..self },
            Reg8::H => Gbz80 { h: value, ..self },
            Reg8::L => Gbz80 { l: value, ..self },
            Reg8::F => Gbz80 { f: value, ..self },
            Reg8::A => Gbz80 { a: value, ..self },
        }
    }

    /// The composed value of one 16-bit pair view.
    pub open spec fn spec_reg16(self, reg: Reg16) -> u16 {
        match reg {
            Reg16::BC => spec_pair(self.b, self.c),
            Reg16::DE => spec_pair(self.d, self.e),
            Reg16::HL => spec_pair(self.h, self.l),
            Reg16::AF => spec_pair(self.a, self.f),
        }
    }

    /// The register file with one 16-bit pair view replaced: the high byte of
    /// the value goes to the first cell of the pair, the low byte to the
    /// second.
    pub open spec fn spec_with_reg16(self, reg: Reg16, value: u16) -> Gbz80 {
        match reg {
            Reg16::BC => Gbz80 { b: spec_high(value), c: spec_low(value), ..self },
            Reg16::DE => Gbz80 { d: spec_high(value), e: spec_low(value), ..self },
            Reg16::HL => Gbz80 { h: spec_high(value), l: spec_low(value), ..self },
            Reg16::AF => Gbz80 { a: spec_high(value), f: spec_low(value), ..self },
        }
    }

    /// The Zero flag bit (bit 7 of the flags register).
    pub const FLAG_Z: u8 = 0x80;

    /// The Subtract flag bit (bit 6 of the flags register).
    pub const FLAG_N: u8 = 0x40;

    /// The Half-Carry flag bit (bit 5 of the flags register).
    pub const FLAG_H: u8 = 0x20;

    /// A zero-initialized register file.
    pub fn new() -> (r: Gbz80)
        ensures
            r == (Gbz80 {
                b: 0u8,
                c: 0u8,
                d: 0u8,
                e: 0u8,
                h: 0u8,
                l: 0u8,
                f: 0u8,
                a: 0u8,
                stack_pointer: 0u16,
                program_counter: 0u16,
            }),
    {
        Gbz80 {
            stack_pointer: 0,
            program_counter: 0,
            a: 0,
            b: 0,
            c: 0,
            d: 0,
            e: 0,
            f: 0,
            h: 0,
            l: 0,
        }
    }

    /// Sets exactly the Zero, Subtract and Half-Carry flags to the given
    /// booleans; the Carry bit and the unused low nibble keep their value,
    /// and no other register changes.
    pub fn set_flags(&mut self, z: bool, n: bool, h: bool)
        ensures
            *final(self) == old(self).spec_with_reg8(
                Reg8::F,
                spec_set_flags(old(self).f, z, n, h),
            ),
    {
        self.set_flag(Self::FLAG_Z, z);
        self.set_flag(Self::FLAG_N, n);
        self.set_flag(Self::FLAG_H, h);
        proof {
            let f0 = old(self).f;
            let f1 = if z {
                f0 | 0x80
            } else {
                f0 & !0x80
            };
            let f2 = if n {
                f1 | 0x40
            } else {
                f1 & !0x40
            };
            let f3 = if h {
                f2 | 0x20
            } else {
                f2 & !0x20
            };
            assert((if h {
                (if n {
                    (if z {
                        f0 | 0x80
                    } else {
                        f0 & !0x80
                    }) | 0x40
                } else {
                    (if z {
                        f0 | 0x80
                    } else {
                        f0 & !0x80
                    }) & !0x40
                }) | 0x20
            } else {
                (if n {
                    (if z {
                        f0 | 0x80
                    } else {
                        f0 & !0x80
                    }) | 0x40
                } else {
                    (if z {
                        f0 | 0x80
                    } else {
                        f0 & !0x80
                    }) & !0x40
                }) & !0x20
            }) == (f0 & 0x1f) | (if z { 0x80u8 } else { 0u8 }) | (if n { 0x40u8 } else { 0u8 }) | (
            if h {
                0x20u8
            } else {
                0u8
            })) by (bit_vector);
            assert(f3 == spec_set_flags(f0, z, n, h));
        }
    }

    /// The composed BC pair.
    pub fn bc(&self) -> (r: u16)
        ensures
            r == self.spec_reg16(Reg16::BC),
    {
        proof {
            lemma_pair_shift(self.b, self.c);
        }
        ((self.b as u16) << 8u16) | (self.c as u16)
    }

    /// Writes the BC pair: the high byte to B, the low byte to C.
    pub fn set_bc(&mut self, value: u16)
        ensures
            *final(self) == old(self).spec_with_reg16(Reg16::BC, value),
    {
        proof {
            lemma_pair_unshift(value);
        }
        self.b = (value >> 8u16) as u8;
        self.c = value as u8;
    }

    /// The composed DE pair.
    pub fn de(&self) -> (r: u16)
        ensures
            r == self.spec_reg16(Reg16::DE),
    {
        proof {
            lemma_pair_shift(self.d, self.e);
        }
        ((self.d as u16) << 8u16) | (self.e as u16)
    }

    /// Writes the DE pair: the high byte to D, the low byte to E.
    pub fn set_de(&mut self, value: u16)
        ensures
            *final(self) == old(self).spec_with_reg16(Reg16::DE, value),
    {
        proof {
            lemma_pair_unshift(value);
        }
        self.d = (value >> 8u16) as u8;
        self.e = value as u8;
    }

    /// The composed AF pair.
    pub fn af(&self) -> (r: u16)
        ensures
            r == self.spec_reg16(Reg16::AF),
    {
        proof {
            lemma_pair_shift(self.a, self.f);
        }
        ((self.a as u16) << 8u16) | (self.f as u16)
    }

    /// Writes the AF pair: the high byte to A, the low byte to F.
    pub fn set_af(&mut self, value: u16)
        ensures
            *final(self) == old(self).spec_with_reg16(Reg16::AF, value),
    {
        proof {
            lemma_pair_unshift(value);
        }
        self.a = (value >> 8u16) as u8;
        self.f = value as u8;
    }

    /// The composed HL pair.
    pub fn hl(&self) -> (r: u16)
        ensures
            r == self.spec_reg16(Reg16::HL),
    {
        proof {
            lemma_pair_shift(self.h, self.l);
        }
        ((self.h as u16) << 8u16) | (self.l as u16)
    }

    /// Writes the HL pair: the high byte to H, the low byte to L.
    pub fn set_hl(&mut self, value: u16)
        ensures
            *final(self) == old(self).spec_with_reg16(Reg16::HL, value),
    {
        proof {
            lemma_pair_unshift(value);
        }
        self.h = (value >> 8u16) as u8;
        self.l = value as u8;
    }

    /// Sets one flag bit of the flags register when `value` is true, clears
    /// it when `value` is false; everything else is untouched.
    pub fn set_flag(&mut self, flag: u8, value: bool)
        ensures
            *final(self) == old(self).spec_with_reg8(
                Reg8::F,
                if value {
                    old(self).f | flag
                } else {
                    old(self).f & !flag
                },
            ),
    {
        if value {
            let v = self.reg8(Reg8::F) | flag;
            self.write_reg8(Reg8::F, v);
        } else {
            let v = self.reg8(Reg8::F) & !flag;
            self.write_reg8(Reg8::F, v);
        }
    }

    /// Reads one 16-bit pair view.
    pub fn reg16(&self, reg: Reg16) -> (r: u16)
        ensures
            r == self.spec_reg16(reg),
    {
        match reg {
            Reg16::BC => self.bc(),
            Reg16::DE => self.de(),
            Reg16::HL => self.hl(),
            Reg16::AF => self.af(),
        }
    }

    /// Reads one 8-bit cell.
    pub fn reg8(&self, reg: Reg8) -> (r: u8)
        ensures
            r == self.spec_reg8(reg),
    {
        match reg {
            Reg8::B => self.b,
            Reg8::C => self.c,
            Reg8::D => self.d,
            Reg8::E => self.e,
            Reg8::H => self.h,
            Reg8::L => self.l,
            Reg8::F => self.f,
            Reg8::A => self.a,
        }
    }

    /// Writes one 8-bit cell.
    pub fn write_reg8(&mut self, reg: Reg8, value: u8)
        ensures
            *final(self) == old(self).spec_with_reg8(reg, value),
    {
        match reg {
            Reg8::B => self.b = value,
            Reg8::C => self.c = value,
            Reg8::D => self.d = value,
            Reg8::E => self.e = value,
            Reg8::H => self.h = value,
            Reg8::L => self.l = value,
            Reg8::F => self.f = value,
            Reg8::A => self.a = value,
        }
    }

    /// Writes one 16-bit pair view through its two cells.
    pub fn write_reg16(&mut self, reg: Reg16, value: u16)
        ensures
            *final(self) == old(self).spec_with_reg16(reg, value),
    {
        match reg {
            Reg16::BC => self.set_bc(value),
            Reg16::DE => self.set_de(value),
            Reg16::HL => self.set_hl(value),
            Reg16::AF => self.set_af(value),
        }
    }
}

} // verus!
