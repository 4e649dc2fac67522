//! The memory service and the two capabilities of an operand.
//!
//! Memory is a flat array of bytes addressed by 16-bit addresses. An access outside
//! the array is never an error: a read gives 0 and a write is discarded.

use crate::cpu::register::{high_byte, low_byte, word_of};
use crate::error::Error;
use crate::{GameBoy, Machine};
use byteorder::{ByteOrder, LittleEndian};
use vstd::prelude::*;

verus! {

/// The number of bytes that 16-bit addresses reach.
pub const ADDRESS_SPACE: usize = 0x1_0000;

/// The byte at `addr`, or 0 where `addr` lies outside `mem`.
pub open spec fn read_byte(mem: Seq<u8>, addr: u16) -> u8 {
    if addr < mem.len() {
        mem[addr as int]
    } else {
        0
    }
}

/// `mem` with `value` at `addr`, or `mem` itself where `addr` lies outside it.
pub open spec fn write_byte(mem: Seq<u8>, addr: u16, value: u8) -> Seq<u8> {
    if addr < mem.len() {
        mem.update(addr as int, value)
    } else {
        mem
    }
}

/// The little-endian word at `addr`: the low byte at `addr`, the high byte after it.
/// Where either byte lies outside `mem` the word is 0.
pub open spec fn read_word(mem: Seq<u8>, addr: u16) -> u16 {
    if addr + 1 < mem.len() {
        word_of(mem[addr + 1], mem[addr as int])
    } else {
        0
    }
}

/// `mem` with `value` stored at `addr` in little-endian order, or `mem` itself where
/// either byte would lie outside it.
pub open spec fn write_word(mem: Seq<u8>, addr: u16, value: u16) -> Seq<u8> {
    if addr + 1 < mem.len() {
        mem.update(addr as int, low_byte(value)).update(addr + 1, high_byte(value))
    } else {
        mem
    }
}

/// A word that was written inside the memory reads back as written.
pub proof fn law_word_round_trip(mem: Seq<u8>, addr: u16, value: u16)
    requires
        addr + 1 < mem.len(),
    ensures
        read_word(write_word(mem, addr, value), addr) == value,
        write_word(mem, addr, value).len() == mem.len(),
{
}

/// A byte that was written inside the memory reads back as written, and no other
/// address changes.
pub proof fn law_byte_round_trip(mem: Seq<u8>, addr: u16, value: u8, other: u16)
    requires
        addr < mem.len(),
    ensures
        read_byte(write_byte(mem, addr, value), addr) == value,
        other != addr ==> read_byte(write_byte(mem, addr, value), other) == read_byte(mem, other),
        write_byte(mem, addr, value).len() == mem.len(),
{
}

/// `byteorder::LittleEndian::read_u16`: the word whose low byte is the first byte of
/// `buf` and whose high byte is the second. The call panics on a shorter buffer.
#[verifier::external_body]
fn le_read_u16(buf: &[u8]) -> (word: u16)
    requires
        buf@.len() >= 2,
    ensures
        word == word_of(buf@[1], buf@[0]),
{
    LittleEndian::read_u16(buf)
}

/// `byteorder::LittleEndian::write_u16`: puts the low byte of `word` into the first
/// byte of `buf` and the high byte into the second, and leaves the rest of `buf` as
/// it was. The call panics on a shorter buffer.
#[verifier::external_body]
fn le_write_u16(buf: &mut [u8], word: u16)
    requires
        old(buf)@.len() >= 2,
    ensures
        final(buf)@ == old(buf)@.update(0, low_byte(word)).update(1, high_byte(word)),
{
    LittleEndian::write_u16(buf, word)
}

/// `Vec::into_boxed_slice`: the same bytes in the same order, as a boxed slice.
#[verifier::external_body]
fn into_boxed_slice(bytes: Vec<u8>) -> (boxed: Box<[u8]>)
    ensures
        boxed@ == bytes@,
{
    bytes.into_boxed_slice()
}

/// The memory.
#[derive(Debug)]
pub struct MMU {
    pub mem: Box<[u8]>,
}

impl View for MMU {
    type V = Seq<u8>;

    open spec fn view(&self) -> Seq<u8> {
        self.mem@
    }
}

impl MMU {
    /// A memory that spans the whole address space, every byte 0.
    pub fn new() -> (mmu: MMU)
        ensures
            mmu@ == Seq::new(ADDRESS_SPACE as nat, |i: int| 0u8),
    {
        let mmu = MMU { mem: into_boxed_slice(vec![0u8; ADDRESS_SPACE]) };
        assert(mmu@ =~= Seq::new(ADDRESS_SPACE as nat, |i: int| 0u8));
        mmu
    }

    /// Stores `value` at `addr`; outside the memory the write is discarded.
    pub fn write_u8(&mut self, addr: u16, value: u8)
        ensures
            final(self)@ == write_byte(old(self)@, addr, value),
    {
        if addr as usize >= self.mem.len() {
        } else {
            self.mem[addr as usize] = value;
        }
    }

    /// The byte at `addr`; outside the memory, 0.
    pub fn read_u8(&self, addr: u16) -> (value: u8)
        ensures
            value == read_byte(self@, addr),
    {
        if addr as usize >= self.mem.len() {
            0
        } else {
            self.mem[addr as usize]
        }
    }

    /// Exclusive access to the byte at `addr`, which has to lie inside the memory.
    /// Whatever the caller leaves in the byte is what the memory then holds there.
    pub fn read_u8_mut(&mut self, addr: u16) -> (cell: &mut u8)
        requires
            addr < old(self)@.len(),
        ensures
            *cell == old(self)@[addr as int],
            final(self)@ == old(self)@.update(addr as int, *final(cell)),
    {
        &mut self.mem[addr as usize]
    }

    /// The little-endian word at `addr`; 0 where it does not lie inside the memory.
    pub fn read_u16(&self, addr: u16) -> (value: u16)
        ensures
            value == read_word(self@, addr),
    {
        let at: usize = addr as usize;
        if at >= self.mem.len() || at + 1 >= self.mem.len() {
            0
        } else {
            le_read_u16(&self.mem[at..at + 2])
        }
    }

    /// Stores `value` at `addr` in little-endian order; where the word does not lie
    /// inside the memory the write is discarded.
    pub fn write_u16(&mut self, addr: u16, value: u16)
        ensures
            final(self)@ == write_word(old(self)@, addr, value),
    {
        let at: usize = addr as usize;
        if at >= self.mem.len() || at + 1 >= self.mem.len() {
        } else {
            let (_, tail) = self.mem.split_at_mut(at);
            le_write_u16(tail, value);
        }
    }
}

impl Default for MMU {
    fn default() -> (mmu: MMU)
        ensures
            mmu@ == Seq::new(ADDRESS_SPACE as nat, |i: int| 0u8),
    {
        MMU::new()
    }
}

/// The capability to produce a value from the machine's state.
///
/// A read may change the state (an operand that bumps a register after it was read
/// does), so the contract names both what is returned and what is left behind.
pub trait Read {
    type Out;

    /// What the operand adds to the step count of an instruction that reads it.
    spec fn spec_cycles() -> u8;

    fn cycles() -> (cycles: u8)
        ensures
            cycles == Self::spec_cycles(),
    ;

    /// What a read returns in the state `m`.
    spec fn value(&self, m: Machine) -> Self::Out;

    /// The state that a read in the state `m` leaves behind.
    spec fn after(&self, m: Machine) -> Machine;

    fn read(&self, gb: &mut GameBoy) -> (out: Self::Out)
        ensures
            out == self.value(old(gb)@),
            final(gb)@ == self.after(old(gb)@),
    ;
}

/// The capability to accept a value into the machine's state. A write never fails.
pub trait Write {
    type In;

    /// What the operand adds to the step count of an instruction that writes it.
    spec fn spec_cycles() -> u8;

    fn cycles() -> (cycles: u8)
        ensures
            cycles == Self::spec_cycles(),
    ;

    /// The state that writing `value` in the state `m` leaves behind.
    spec fn stored(&self, m: Machine, value: Self::In) -> Machine;

    fn write(&self, gb: &mut GameBoy, value: Self::In) -> (done: Result<(), Error>)
        ensures
            done is Ok,
            final(gb)@ == self.stored(old(gb)@, value),
    ;
}

} // verus!
