//! The address space: a fixed-capacity, zero-initialized, byte-addressable
//! store with byte and word accessors. Words are stored little-endian, as
//! the hardware stores its 16-bit immediates: the low byte at the lower
//! address.

use crate::bits::{spec_high, spec_low, spec_pair};
use byteorder::{ByteOrder, LittleEndian};
use vstd::prelude::*;

verus! {

/// Capacity of the modeled address space in bytes.
pub const MEM_SIZE: usize = 8192;

/// The failure surfaced by the core: an access named an address at or beyond
/// the capacity of the address space (for word accesses, an address whose
/// successor is out of range too). It is fatal to a run.
#[derive(Debug, PartialEq, Eq, Structural, Clone, Copy)]
pub enum GbError {
    AddressOutOfRange,
}

/// Relies on byteorder's `LittleEndian::read_u16` on a two-byte buffer: the
/// second byte becomes the high byte of the result.
#[verifier::external_body]
fn le_word_from_bytes(b0: u8, b1: u8) -> (r: u16)
    ensures
        r == spec_pair(b1, b0),
{
    LittleEndian::read_u16(&[b0, b1])
}

/// Relies on byteorder's `LittleEndian::write_u16` on a two-byte buffer:
/// the low byte of the word is written first.
#[verifier::external_body]
fn le_word_to_bytes(value: u16) -> (r: (u8, u8))
    ensures
        r.0 == spec_low(value),
        r.1 == spec_high(value),
{
    let mut buf = [0u8; 2];
    LittleEndian::write_u16(&mut buf, value);
    (buf[0], buf[1])
}

/// The backing store. Its mathematical view is the sequence of its bytes;
/// a well-formed store always holds exactly `MEM_SIZE` of them.
pub struct GbMemory {
    memory: Vec<u8>,
}

impl View for GbMemory {
    type V = Seq<u8>;

    closed spec fn view(&self) -> Seq<u8> {
        self.memory@
    }
}

impl GbMemory {
    /// Well-formedness: the store holds exactly `MEM_SIZE` bytes.
    pub open spec fn wf(self) -> bool {
        self@.len() == MEM_SIZE
    }

    /// A zero-initialized address space of `MEM_SIZE` bytes.
    pub fn new() -> (r: GbMemory)
        ensures
            r.wf(),
            forall|i: int| 0 <= i < MEM_SIZE ==> r@[i] == 0,
    {
        let mut memory: Vec<u8> = Vec::new();
        while memory.len() < MEM_SIZE
            invariant
                memory@.len() <= MEM_SIZE,
                forall|i: int| 0 <= i < memory@.len() ==> memory@[i] == 0,
            decreases MEM_SIZE - memory@.len(),
        {
            memory.push(0);
        }
        GbMemory { memory }
    }

    /// Reads the byte at an address; an address at or beyond the capacity is
    /// an error, and nothing else can fail.
    pub fn read_u8(&self, address: u16) -> (r: Result<u8, GbError>)
        requires
            self.wf(),
        ensures
            (address as int) < MEM_SIZE ==> r == Ok::<u8, GbError>(self@[address as int]),
            (address as int) >= MEM_SIZE ==> r == Err::<u8, GbError>(GbError::AddressOutOfRange),
    {
        if (address as usize) < MEM_SIZE {
            Ok(self.memory[address as usize])
        } else {
            Err(GbError::AddressOutOfRange)
        }
    }

    /// Reads the little-endian word whose low byte sits at the address and
    /// whose high byte sits at the next address; fails without reading when
    /// either is out of range.
    pub fn read_u16(&self, address: u16) -> (r: Result<u16, GbError>)
        requires
            self.wf(),
        ensures
            address as int + 1 < MEM_SIZE ==> r == Ok::<u16, GbError>(
                spec_pair(self@[address as int + 1], self@[address as int]),
            ),
            address as int + 1 >= MEM_SIZE ==> r == Err::<u16, GbError>(
                GbError::AddressOutOfRange,
            ),
    {
        if (address as usize) + 1 < MEM_SIZE {
            let b0 = self.memory[address as usize];
            let b1 = self.memory[address as usize + 1];
            Ok(le_word_from_bytes(b0, b1))
        } else {
            Err(GbError::AddressOutOfRange)
        }
    }

    /// Writes the byte at an address; an out-of-range address is an error and
    /// mutates nothing.
    pub fn write_u8(&mut self, address: u16, value: u8) -> (r: Result<(), GbError>)
        requires
            old(self).wf(),
        ensures
            final(self).wf(),
            (address as int) < MEM_SIZE ==> r == Ok::<(), GbError>(()) && final(self)@ == old(
                self,
            )@.update(address as int, value),
            (address as int) >= MEM_SIZE ==> r == Err::<(), GbError>(GbError::AddressOutOfRange)
                && final(self)@ == old(self)@,
    {
        if (address as usize) < MEM_SIZE {
            self.memory[address as usize] = value;
            Ok(())
        } else {
            Err(GbError::AddressOutOfRange)
        }
    }

    /// Writes a word little-endian: the low byte at the address, the high
    /// byte at the next address; fails without any partial write when either
    /// address is out of range.
    pub fn write_u16(&mut self, address: u16, value: u16) -> (r: Result<(), GbError>)
        requires
            old(self).wf(),
        ensures
            final(self).wf(),
            address as int + 1 < MEM_SIZE ==> r == Ok::<(), GbError>(()) && final(self)@ == old(
                self,
            )@.update(address as int, spec_low(value)).update(
                address as int + 1,
                spec_high(value),
            ),
            address as int + 1 >= MEM_SIZE ==> r == Err::<(), GbError>(GbError::AddressOutOfRange)
                && final(self)@ == old(self)@,
    {
        if (address as usize) + 1 < MEM_SIZE {
            let (b0, b1) = le_word_to_bytes(value);
            self.memory[address as usize] = b0;
            self.memory[address as usize + 1] = b1;
            Ok(())
        } else {
            Err(GbError::AddressOutOfRange)
        }
    }
}

} // verus!
