//! The instructions: what each family does to the machine, on whatever operands it
//! is given.
//!
//! Every instruction returns a step count. The driver adds it to the program counter;
//! a count of 0 says that the instruction has set the counter itself.

pub mod alu;
pub mod integer;
pub mod operand;
pub mod table;

use crate::cpu::flag;
use crate::cpu::register::RegisterF;
use crate::error::Error;
use crate::mem::{read_word, write_word, Read, Write};
use crate::{GameBoy, Machine};
use alu::{
    add_spec, and_spec, bit_spec, dec16_spec, dec_spec, inc16_spec, inc_spec,
    lemma_sub_half_carry, or_spec, sub_spec, xor_spec,
};
use integer::{Carry, Integer};
use operand::{
    AddrOf, Constant, Flags, Immediate16, Immediate8, NoWrite, Plus, PostDec, PostInc, R16, R8,
};
use table::{execute_spec, extended, extended_spec, lemma_row_and_column};
use vstd::prelude::*;

verus! {

/// What an interrupt instruction asks for.
#[derive(Debug, Copy, Clone, PartialEq, Eq, Structural)]
pub enum Interrupt {
    Enable,
    Disable,
}

impl Flags {
    /// Whether the condition is met by the flags `f`.
    pub open spec fn holds(self, f: RegisterF) -> bool {
        match self {
            Flags::Always => true,
            Flags::Z => f.has::<flag::Z>(),
            Flags::N => f.has::<flag::N>(),
            Flags::H => f.has::<flag::H>(),
            Flags::C => f.has::<flag::C>(),
            Flags::NZ => !f.has::<flag::Z>(),
            Flags::NN => !f.has::<flag::N>(),
            Flags::NH => !f.has::<flag::H>(),
            Flags::NC => !f.has::<flag::C>(),
        }
    }

    /// Tests the condition against the flags `f`.
    pub fn test(&self, f: RegisterF) -> (met: bool)
        ensures
            met == self.holds(f),
    {
        match self {
            Flags::Always => true,
            Flags::Z => f.flag(flag::Z).as_bool(),
            Flags::N => f.flag(flag::N).as_bool(),
            Flags::H => f.flag(flag::H).as_bool(),
            Flags::C => f.flag(flag::C).as_bool(),
            Flags::NZ => !f.flag(flag::Z).as_bool(),
            Flags::NN => !f.flag(flag::N).as_bool(),
            Flags::NH => !f.flag(flag::H).as_bool(),
            Flags::NC => !f.flag(flag::C).as_bool(),
        }
    }
}

/// The machine after a load: `from` is read, and what it gave is written to `to`.
pub open spec fn load_spec<W, R, V>(to: W, from: R, m: Machine) -> Machine where
    W: Write<In = V>,
    R: Read<Out = V>,
 {
    to.stored(from.after(m), from.value(m))
}

/// The machine after a binary operation whose function gave `outcome`: both operands
/// have been read, left first; the new flags are in place; and the result has been
/// written to the left operand.
pub open spec fn binary_op_spec<LHS, RHS, Num>(
    lhs: LHS,
    rhs: RHS,
    m: Machine,
    outcome: (Num, RegisterF),
) -> Machine where LHS: Read<Out = Num> + Write<In = Num>, RHS: Read<Out = Num> {
    lhs.stored(rhs.after(lhs.after(m)).with_flags(outcome.1), outcome.0)
}

/// The value of the left operand of a binary operation on `m`.
pub open spec fn left_value<LHS, RHS, Num>(lhs: LHS, rhs: RHS, m: Machine) -> Num where
    LHS: Read<Out = Num>,
    RHS: Read<Out = Num>,
 {
    lhs.value(m)
}

/// The value of the right operand of a binary operation on `m`: it is read after the
/// left one.
pub open spec fn right_value<LHS, RHS, Num>(lhs: LHS, rhs: RHS, m: Machine) -> Num where
    LHS: Read<Out = Num>,
    RHS: Read<Out = Num>,
 {
    rhs.value(lhs.after(m))
}

/// The flags that the function of a binary operation on `m` is given: those that
/// reading the two operands has left.
pub open spec fn flags_read<LHS, RHS, Num>(lhs: LHS, rhs: RHS, m: Machine) -> RegisterF where
    LHS: Read<Out = Num>,
    RHS: Read<Out = Num>,
 {
    rhs.after(lhs.after(m)).flags()
}

/// The signed number that the byte of a relative jump stands for.
pub open spec fn displacement(offset: u8) -> int {
    if offset < 0x80 {
        offset as int
    } else {
        offset - 0x100
    }
}

/// The machine and the step count after a relative jump. Where the condition is met
/// the signed offset is added to the program counter, which wraps at 16 bits, and
/// the count is 0. Where it is not, the counter stays and the count is the length of
/// the instruction.
pub open spec fn jump_spec<Offset: Read<Out = u8>>(flags: Flags, offset: Offset, m: Machine) -> (
    Machine,
    u8,
) {
    let read = offset.after(m);
    if flags.holds(read.flags()) {
        (
            read.with_pc(
                ((read.register.pc.pc + displacement(offset.value(m))) % 0x1_0000) as u16,
            ),
            0,
        )
    } else {
        (read, (1 + Offset::spec_cycles()) as u8)
    }
}

/// The machine and the step count after a jump by a word. Where the condition is met
/// the offset is added to the program counter, which wraps at 16 bits, and the count
/// is 0. Where it is not, the counter stays and the count is the length of the
/// instruction.
pub open spec fn jump16_spec<Offset: Read<Out = u16>>(
    flags: Flags,
    offset: Offset,
    m: Machine,
) -> (Machine, u8) {
    let read = offset.after(m);
    if flags.holds(read.flags()) {
        (read.with_pc(((read.register.pc.pc + offset.value(m)) % 0x1_0000) as u16), 0)
    } else {
        (read, (1 + Offset::spec_cycles()) as u8)
    }
}

/// The machine after a push: `from` is read, the word is stored at the stack pointer,
/// and the stack pointer moves up by 2, wrapping at 16 bits.
pub open spec fn push_spec<R: Read<Out = u16>>(from: R, m: Machine) -> Machine {
    let read = from.after(m);
    let sp = read.register.sp.sp;
    read.with_mem(write_word(read.mem, sp, from.value(m))).with_sp(
        ((sp + 2) % 0x1_0000) as u16,
    )
}

/// The machine after a pop: the word at the stack pointer is written to `to`, and
/// then the stack pointer moves down by 2, wrapping at 16 bits.
pub open spec fn pop_spec<W: Write<In = u16>>(to: W, m: Machine) -> Machine {
    let written = to.stored(m, read_word(m.mem, m.register.sp.sp));
    written.with_sp(((written.register.sp.sp - 2) % 0x1_0000) as u16)
}

/// The machine after a call: the target is read, the program counter is pushed, and
/// the target becomes the program counter.
pub open spec fn call_spec<R: Read<Out = u16>>(address: R, m: Machine) -> Machine {
    let read = address.after(m);
    push_spec(Constant(read.register.pc.pc), read).with_pc(address.value(m))
}

/// The machine after a bit test: the operand is read and the flags tell of its bit.
pub open spec fn bit_test_spec<R: Read<Out = u8>>(pos: u8, register: R, m: Machine) -> Machine {
    let read = register.after(m);
    read.with_flags(bit_spec(pos, register.value(m), read.flags()))
}

/// Carries out the instruction with the given opcode on `gameboy`.
///
/// Returns the number of steps that the program counter is to be moved on by, or the
/// error that stops the run: `UnmappedOpcode` with the opcode where it names no
/// instruction, `Unimplemented` where the instruction is not written yet. What
/// each opcode does is [`execute_spec`].
///
/// The table is kept by rows of sixteen opcodes, one function for each.
pub fn execute(opcode: u8, gameboy: &mut GameBoy) -> (steps: Result<u8, Error>)
    ensures
        (final(gameboy)@, steps) == execute_spec(opcode, old(gameboy)@),
{
    match opcode {
        0x00..=0x0F => opcodes_0x(opcode, gameboy),
        0x10..=0x1F => opcodes_1x(opcode, gameboy),
        0x20..=0x2F => opcodes_2x(opcode, gameboy),
        0x30..=0x3F => opcodes_3x(opcode, gameboy),
        0x40..=0x4F => opcodes_4x(opcode, gameboy),
        0x50..=0x5F => opcodes_5x(opcode, gameboy),
        0x60..=0x6F => opcodes_6x(opcode, gameboy),
        0x70..=0x7F => opcodes_7x(opcode, gameboy),
        0x80..=0x8F => opcodes_8x(opcode, gameboy),
        0x90..=0x9F => opcodes_9x(opcode, gameboy),
        0xA0..=0xAF => opcodes_ax(opcode, gameboy),
        0xB0..=0xBF => opcodes_bx(opcode, gameboy),
        0xC0..=0xCF => opcodes_cx(opcode, gameboy),
        0xD0..=0xDF => opcodes_dx(opcode, gameboy),
        0xE0..=0xEF => opcodes_ex(opcode, gameboy),
        0xF0..=0xFF => opcodes_fx(opcode, gameboy),
    }
}

/// The opcodes from 0x00 to 0x0F: BC and its halves are loaded, stepped and added
/// to HL.
fn opcodes_0x(opcode: u8, gameboy: &mut GameBoy) -> (steps: Result<u8, Error>)
    requires
        0x00 <= opcode <= 0x0F,
    ensures
        (final(gameboy)@, steps) == execute_spec(opcode, old(gameboy)@),
{
    proof {
        lemma_row_and_column(opcode);
    }
    match opcode {
        0x00 => gameboy.nop(),
        0x01 => gameboy.load(R16::BC, Immediate16),
        0x02 => gameboy.load(AddrOf(R16::BC), R8::A),
        0x03 => gameboy.inc16(R16::BC),
        0x04 => gameboy.inc(R8::B),
        0x05 => gameboy.dec(R8::B),
        0x06 => gameboy.load(R8::B, Immediate8),
        0x07 => Err(Error::Unimplemented),
        0x08 => Err(Error::Unimplemented),
        0x09 => gameboy.add(R16::HL, R16::BC, Carry::Without),
        0x0A => gameboy.load(R8::A, AddrOf(R16::BC)),
        0x0B => gameboy.dec16(R16::BC),
        0x0C => gameboy.inc(R8::C),
        0x0D => gameboy.dec(R8::C),
        0x0E => gameboy.load(R8::C, Immediate8),
        0x0F => Err(Error::Unimplemented),
        _ => Err(Error::UnmappedOpcode(opcode)),
    }
}

/// The opcodes from 0x10 to 0x1F: DE and its halves are loaded, stepped and added
/// to HL; the relative jump.
fn opcodes_1x(opcode: u8, gameboy: &mut GameBoy) -> (steps: Result<u8, Error>)
    requires
        0x10 <= opcode <= 0x1F,
    ensures
        (final(gameboy)@, steps) == execute_spec(opcode, old(gameboy)@),
{
    proof {
        lemma_row_and_column(opcode);
    }
    match opcode {
        0x10 => gameboy.stop(),
        0x11 => gameboy.load(R16::DE, Immediate16),
        0x12 => gameboy.load(AddrOf(R16::DE), R8::A),
        0x13 => gameboy.inc16(R16::DE),
        0x14 => gameboy.inc(R8::D),
        0x15 => gameboy.dec(R8::D),
        0x16 => gameboy.load(R8::D, Immediate8),
        0x17 => Err(Error::Unimplemented),
        0x18 => gameboy.jump(Flags::Always, Immediate8),
        0x19 => gameboy.add(R16::HL, R16::DE, Carry::Without),
        0x1A => gameboy.load(R8::A, AddrOf(R16::DE)),
        0x1B => gameboy.dec16(R16::DE),
        0x1C => gameboy.inc(R8::E),
        0x1D => gameboy.dec(R8::E),
        0x1E => gameboy.load(R8::E, Immediate8),
        0x1F => Err(Error::Unimplemented),
        _ => Err(Error::UnmappedOpcode(opcode)),
    }
}

/// The opcodes from 0x20 to 0x2F: HL and its halves are loaded, stepped and added
/// to HL; loads through HL with a post-increment; relative jumps on Zero.
fn opcodes_2x(opcode: u8, gameboy: &mut GameBoy) -> (steps: Result<u8, Error>)
    requires
        0x20 <= opcode <= 0x2F,
    ensures
        (final(gameboy)@, steps) == execute_spec(opcode, old(gameboy)@),
{
    proof {
        lemma_row_and_column(opcode);
    }
    match opcode {
        0x20 => gameboy.jump(Flags::NZ, Immediate8),
        0x21 => gameboy.load(R16::HL, Immediate16),
        0x22 => gameboy.load(AddrOf(PostInc(R16::HL)), R8::A),
        0x23 => gameboy.inc16(R16::HL),
        0x24 => gameboy.inc(R8::H),
        0x25 => gameboy.dec(R8::H),
        0x26 => gameboy.load(R8::H, Immediate8),
        0x27 => Err(Error::Unimplemented),
        0x28 => gameboy.jump(Flags::Z, Immediate8),
        0x29 => gameboy.add(R16::HL, R16::HL, Carry::Without),
        0x2A => gameboy.load(R8::A, AddrOf(PostInc(R16::HL))),
        0x2B => gameboy.dec16(R16::HL),
        0x2C => gameboy.inc(R8::L),
        0x2D => gameboy.dec(R8::L),
        0x2E => gameboy.load(R8::L, Immediate8),
        0x2F => Err(Error::Unimplemented),
        _ => Err(Error::UnmappedOpcode(opcode)),
    }
}

/// The opcodes from 0x30 to 0x3F: the stack pointer, the byte at HL and A are
/// loaded and stepped; loads through HL with a post-decrement; relative jumps on
/// Carry.
fn opcodes_3x(opcode: u8, gameboy: &mut GameBoy) -> (steps: Result<u8, Error>)
    requires
        0x30 <= opcode <= 0x3F,
    ensures
        (final(gameboy)@, steps) == execute_spec(opcode, old(gameboy)@),
{
    proof {
        lemma_row_and_column(opcode);
    }
    match opcode {
        0x30 => gameboy.jump(Flags::NC, Immediate8),
        0x31 => gameboy.load(R16::SP, Immediate16),
        0x32 => gameboy.load(AddrOf(PostDec(R16::HL)), R8::A),
        0x33 => gameboy.inc16(R16::SP),
        0x34 => gameboy.inc(AddrOf(R16::HL)),
        0x35 => gameboy.dec(AddrOf(R16::HL)),
        0x36 => gameboy.load(AddrOf(R16::HL), Immediate8),
        0x37 => Err(Error::Unimplemented),
        0x38 => gameboy.jump(Flags::C, Immediate8),
        0x39 => gameboy.add(R16::HL, R16::SP, Carry::Without),
        0x3A => gameboy.load(R8::A, AddrOf(PostDec(R16::HL))),
        0x3B => gameboy.dec16(R16::SP),
        0x3C => gameboy.inc(R8::A),
        0x3D => gameboy.dec(R8::A),
        0x3E => gameboy.load(R8::A, Immediate8),
        0x3F => Err(Error::Unimplemented),
        _ => Err(Error::UnmappedOpcode(opcode)),
    }
}

/// The opcodes from 0x40 to 0x4F: loads into B and C.
fn opcodes_4x(opcode: u8, gameboy: &mut GameBoy) -> (steps: Result<u8, Error>)
    requires
        0x40 <= opcode <= 0x4F,
    ensures
        (final(gameboy)@, steps) == execute_spec(opcode, old(gameboy)@),
{
    proof {
        lemma_row_and_column(opcode);
    }
    match opcode {
        0x40 => gameboy.load(R8::B, R8::B),
        0x41 => gameboy.load(R8::B, R8::C),
        0x42 => gameboy.load(R8::B, R8::D),
        0x43 => gameboy.load(R8::B, R8::E),
        0x44 => gameboy.load(R8::B, R8::H),
        0x45 => gameboy.load(R8::B, R8::L),
        0x46 => gameboy.load(R8::B, AddrOf(R16::HL)),
        0x47 => gameboy.load(R8::B, R8::A),
        0x48 => gameboy.load(R8::C, R8::B),
        0x49 => gameboy.load(R8::C, R8::C),
        0x4A => gameboy.load(R8::C, R8::D),
        0x4B => gameboy.load(R8::C, R8::E),
        0x4C => gameboy.load(R8::C, R8::H),
        0x4D => gameboy.load(R8::C, R8::L),
        0x4E => gameboy.load(R8::C, AddrOf(R16::HL)),
        0x4F => gameboy.load(R8::C, R8::A),
        _ => Err(Error::UnmappedOpcode(opcode)),
    }
}

/// The opcodes from 0x50 to 0x5F: loads into D and E.
fn opcodes_5x(opcode: u8, gameboy: &mut GameBoy) -> (steps: Result<u8, Error>)
    requires
        0x50 <= opcode <= 0x5F,
    ensures
        (final(gameboy)@, steps) == execute_spec(opcode, old(gameboy)@),
{
    proof {
        lemma_row_and_column(opcode);
    }
    match opcode {
        0x50 => gameboy.load(R8::D, R8::B),
        0x51 => gameboy.load(R8::D, R8::C),
        0x52 => gameboy.load(R8::D, R8::D),
        0x53 => gameboy.load(R8::D, R8::E),
        0x54 => gameboy.load(R8::D, R8::H),
        0x55 => gameboy.load(R8::D, R8::L),
        0x56 => gameboy.load(R8::D, AddrOf(R16::HL)),
        0x57 => gameboy.load(R8::D, R8::A),
        0x58 => gameboy.load(R8::E, R8::B),
        0x59 => gameboy.load(R8::E, R8::C),
        0x5A => gameboy.load(R8::E, R8::D),
        0x5B => gameboy.load(R8::E, R8::E),
        0x5C => gameboy.load(R8::E, R8::H),
        0x5D => gameboy.load(R8::E, R8::L),
        0x5E => gameboy.load(R8::E, AddrOf(R16::HL)),
        0x5F => gameboy.load(R8::E, R8::A),
        _ => Err(Error::UnmappedOpcode(opcode)),
    }
}

/// The opcodes from 0x60 to 0x6F: loads into H and L.
fn opcodes_6x(opcode: u8, gameboy: &mut GameBoy) -> (steps: Result<u8, Error>)
    requires
        0x60 <= opcode <= 0x6F,
    ensures
        (final(gameboy)@, steps) == execute_spec(opcode, old(gameboy)@),
{
    proof {
        lemma_row_and_column(opcode);
    }
    match opcode {
        0x60 => gameboy.load(R8::H, R8::B),
        0x61 => gameboy.load(R8::H, R8::C),
        0x62 => gameboy.load(R8::H, R8::D),
        0x63 => gameboy.load(R8::H, R8::E),
        0x64 => gameboy.load(R8::H, R8::H),
        0x65 => gameboy.load(R8::H, R8::L),
        0x66 => gameboy.load(R8::H, AddrOf(R16::HL)),
        0x67 => gameboy.load(R8::H, R8::A),
        0x68 => gameboy.load(R8::L, R8::B),
        0x69 => gameboy.load(R8::L, R8::C),
        0x6A => gameboy.load(R8::L, R8::D),
        0x6B => gameboy.load(R8::L, R8::E),
        0x6C => gameboy.load(R8::L, R8::H),
        0x6D => gameboy.load(R8::L, R8::L),
        0x6E => gameboy.load(R8::L, AddrOf(R16::HL)),
        0x6F => gameboy.load(R8::L, R8::A),
        _ => Err(Error::UnmappedOpcode(opcode)),
    }
}

/// The opcodes from 0x70 to 0x7F: loads into the byte at HL and into A.
fn opcodes_7x(opcode: u8, gameboy: &mut GameBoy) -> (steps: Result<u8, Error>)
    requires
        0x70 <= opcode <= 0x7F,
    ensures
        (final(gameboy)@, steps) == execute_spec(opcode, old(gameboy)@),
{
    proof {
        lemma_row_and_column(opcode);
    }
    match opcode {
        0x70 => gameboy.load(AddrOf(R16::HL), R8::B),
        0x71 => gameboy.load(AddrOf(R16::HL), R8::C),
        0x72 => gameboy.load(AddrOf(R16::HL), R8::D),
        0x73 => gameboy.load(AddrOf(R16::HL), R8::E),
        0x74 => gameboy.load(AddrOf(R16::HL), R8::H),
        0x75 => gameboy.load(AddrOf(R16::HL), R8::L),
        0x76 => gameboy.halt(),
        0x77 => gameboy.load(AddrOf(R16::HL), R8::A),
        0x78 => gameboy.load(R8::A, R8::B),
        0x79 => gameboy.load(R8::A, R8::C),
        0x7A => gameboy.load(R8::A, R8::D),
        0x7B => gameboy.load(R8::A, R8::E),
        0x7C => gameboy.load(R8::A, R8::H),
        0x7D => gameboy.load(R8::A, R8::L),
        0x7E => gameboy.load(R8::A, AddrOf(R16::HL)),
        0x7F => gameboy.load(R8::A, R8::A),
        _ => Err(Error::UnmappedOpcode(opcode)),
    }
}

/// The opcodes from 0x80 to 0x8F: additions to A.
fn opcodes_8x(opcode: u8, gameboy: &mut GameBoy) -> (steps: Result<u8, Error>)
    requires
        0x80 <= opcode <= 0x8F,
    ensures
        (final(gameboy)@, steps) == execute_spec(opcode, old(gameboy)@),
{
    proof {
        lemma_row_and_column(opcode);
    }
    match opcode {
        0x80 => gameboy.add(R8::A, R8::B, Carry::Without),
        0x81 => gameboy.add(R8::A, R8::C, Carry::Without),
        0x82 => gameboy.add(R8::A, R8::D, Carry::Without),
        0x83 => gameboy.add(R8::A, R8::E, Carry::Without),
        0x84 => gameboy.add(R8::A, R8::H, Carry::Without),
        0x85 => gameboy.add(R8::A, R8::L, Carry::Without),
        0x86 => gameboy.add(R8::A, AddrOf(R16::HL), Carry::Without),
        0x87 => gameboy.add(R8::A, R8::A, Carry::Without),
        0x88 => gameboy.add(R8::A, R8::B, Carry::With),
        0x89 => gameboy.add(R8::A, R8::C, Carry::With),
        0x8A => gameboy.add(R8::A, R8::D, Carry::With),
        0x8B => gameboy.add(R8::A, R8::E, Carry::With),
        0x8C => gameboy.add(R8::A, R8::H, Carry::With),
        0x8D => gameboy.add(R8::A, R8::L, Carry::With),
        0x8E => gameboy.add(R8::A, AddrOf(R16::HL), Carry::With),
        0x8F => gameboy.add(R8::A, R8::A, Carry::With),
        _ => Err(Error::UnmappedOpcode(opcode)),
    }
}

/// The opcodes from 0x90 to 0x9F: subtractions from A.
fn opcodes_9x(opcode: u8, gameboy: &mut GameBoy) -> (steps: Result<u8, Error>)
    requires
        0x90 <= opcode <= 0x9F,
    ensures
        (final(gameboy)@, steps) == execute_spec(opcode, old(gameboy)@),
{
    proof {
        lemma_row_and_column(opcode);
    }
    match opcode {
        0x90 => gameboy.sub(R8::A, R8::B, Carry::Without),
        0x91 => gameboy.sub(R8::A, R8::C, Carry::Without),
        0x92 => gameboy.sub(R8::A, R8::D, Carry::Without),
        0x93 => gameboy.sub(R8::A, R8::E, Carry::Without),
        0x94 => gameboy.sub(R8::A, R8::H, Carry::Without),
        0x95 => gameboy.sub(R8::A, R8::L, Carry::Without),
        0x96 => gameboy.sub(R8::A, AddrOf(R16::HL), Carry::Without),
        0x97 => gameboy.sub(R8::A, R8::A, Carry::Without),
        0x98 => gameboy.sub(R8::A, R8::B, Carry::With),
        0x99 => gameboy.sub(R8::A, R8::C, Carry::With),
        0x9A => gameboy.sub(R8::A, R8::D, Carry::With),
        0x9B => gameboy.sub(R8::A, R8::E, Carry::With),
        0x9C => gameboy.sub(R8::A, R8::H, Carry::With),
        0x9D => gameboy.sub(R8::A, R8::L, Carry::With),
        0x9E => gameboy.sub(R8::A, AddrOf(R16::HL), Carry::With),
        0x9F => gameboy.sub(R8::A, R8::A, Carry::With),
        _ => Err(Error::UnmappedOpcode(opcode)),
    }
}

/// The opcodes from 0xA0 to 0xAF: and, exclusive or.
fn opcodes_ax(opcode: u8, gameboy: &mut GameBoy) -> (steps: Result<u8, Error>)
    requires
        0xA0 <= opcode <= 0xAF,
    ensures
        (final(gameboy)@, steps) == execute_spec(opcode, old(gameboy)@),
{
    proof {
        lemma_row_and_column(opcode);
    }
    match opcode {
        0xA0 => gameboy.and(R8::A, R8::B),
        0xA1 => gameboy.and(R8::A, R8::C),
        0xA2 => gameboy.and(R8::A, R8::D),
        0xA3 => gameboy.and(R8::A, R8::E),
        0xA4 => gameboy.and(R8::A, R8::H),
        0xA5 => gameboy.and(R8::A, R8::L),
        0xA6 => gameboy.and(R8::A, AddrOf(R16::HL)),
        0xA7 => gameboy.and(R8::A, R8::A),
        0xA8 => gameboy.xor(R8::A, R8::B),
        0xA9 => gameboy.xor(R8::A, R8::C),
        0xAA => gameboy.xor(R8::A, R8::D),
        0xAB => gameboy.xor(R8::A, R8::E),
        0xAC => gameboy.xor(R8::A, R8::H),
        0xAD => gameboy.xor(R8::A, R8::L),
        0xAE => gameboy.xor(R8::A, AddrOf(R16::HL)),
        0xAF => gameboy.xor(R8::A, R8::A),
        _ => Err(Error::UnmappedOpcode(opcode)),
    }
}

/// The opcodes from 0xB0 to 0xBF: or, comparison.
fn opcodes_bx(opcode: u8, gameboy: &mut GameBoy) -> (steps: Result<u8, Error>)
    requires
        0xB0 <= opcode <= 0xBF,
    ensures
        (final(gameboy)@, steps) == execute_spec(opcode, old(gameboy)@),
{
    proof {
        lemma_row_and_column(opcode);
    }
    match opcode {
        0xB0 => gameboy.or(R8::A, R8::B),
        0xB1 => gameboy.or(R8::A, R8::C),
        0xB2 => gameboy.or(R8::A, R8::D),
        0xB3 => gameboy.or(R8::A, R8::E),
        0xB4 => gameboy.or(R8::A, R8::H),
        0xB5 => gameboy.or(R8::A, R8::L),
        0xB6 => gameboy.or(R8::A, AddrOf(R16::HL)),
        0xB7 => gameboy.or(R8::A, R8::A),
        0xB8 => gameboy.cmp(R8::A, R8::B),
        0xB9 => gameboy.cmp(R8::A, R8::C),
        0xBA => gameboy.cmp(R8::A, R8::D),
        0xBB => gameboy.cmp(R8::A, R8::E),
        0xBC => gameboy.cmp(R8::A, R8::H),
        0xBD => gameboy.cmp(R8::A, R8::L),
        0xBE => gameboy.cmp(R8::A, AddrOf(R16::HL)),
        0xBF => gameboy.cmp(R8::A, R8::A),
        _ => Err(Error::UnmappedOpcode(opcode)),
    }
}

/// The opcodes from 0xC0 to 0xCF: pop and push of BC, jumps on Zero, the call,
/// additions of an immediate, the escape to the second table.
fn opcodes_cx(opcode: u8, gameboy: &mut GameBoy) -> (steps: Result<u8, Error>)
    requires
        0xC0 <= opcode <= 0xCF,
    ensures
        (final(gameboy)@, steps) == execute_spec(opcode, old(gameboy)@),
{
    proof {
        lemma_row_and_column(opcode);
    }
    match opcode {
        0xC0 => Err(Error::Unimplemented),
        0xC1 => gameboy.pop(R16::BC),
        0xC2 => gameboy.jump16(Flags::NZ, Immediate16),
        0xC3 => gameboy.jump16(Flags::Always, Immediate16),
        0xC4 => Err(Error::Unimplemented),
        0xC5 => gameboy.push(R16::BC),
        0xC6 => gameboy.add(R8::A, Immediate8, Carry::Without),
        0xC7 => Err(Error::Unimplemented),
        0xC8 => Err(Error::Unimplemented),
        0xC9 => Err(Error::Unimplemented),
        0xCA => gameboy.jump16(Flags::Z, Immediate16),
        0xCB => callback(gameboy),
        0xCC => Err(Error::Unimplemented),
        0xCD => gameboy.call(Immediate16),
        0xCE => gameboy.add(R8::A, Immediate8, Carry::With),
        0xCF => Err(Error::Unimplemented),
        _ => Err(Error::UnmappedOpcode(opcode)),
    }
}

/// The opcodes from 0xD0 to 0xDF: push of DE, jumps on Carry, subtractions of an
/// immediate.
fn opcodes_dx(opcode: u8, gameboy: &mut GameBoy) -> (steps: Result<u8, Error>)
    requires
        0xD0 <= opcode <= 0xDF,
    ensures
        (final(gameboy)@, steps) == execute_spec(opcode, old(gameboy)@),
{
    proof {
        lemma_row_and_column(opcode);
    }
    match opcode {
        0xD0 => Err(Error::Unimplemented),
        0xD1 => Err(Error::Unimplemented),
        0xD2 => gameboy.jump16(Flags::NC, Immediate16),
        0xD3 => Err(Error::UnmappedOpcode(opcode)),
        0xD4 => Err(Error::Unimplemented),
        0xD5 => gameboy.push(R16::DE),
        0xD6 => gameboy.sub(R8::A, Immediate8, Carry::Without),
        0xD7 => Err(Error::Unimplemented),
        0xD8 => Err(Error::Unimplemented),
        0xD9 => Err(Error::Unimplemented),
        0xDA => gameboy.jump16(Flags::C, Immediate16),
        0xDB => Err(Error::UnmappedOpcode(opcode)),
        0xDC => Err(Error::Unimplemented),
        0xDD => Err(Error::UnmappedOpcode(opcode)),
        0xDE => gameboy.sub(R8::A, Immediate8, Carry::With),
        0xDF => Err(Error::Unimplemented),
        _ => Err(Error::UnmappedOpcode(opcode)),
    }
}

/// The opcodes from 0xE0 to 0xEF: stores to the high page and to an address, push of
/// HL, and and exclusive or with an immediate.
fn opcodes_ex(opcode: u8, gameboy: &mut GameBoy) -> (steps: Result<u8, Error>)
    requires
        0xE0 <= opcode <= 0xEF,
    ensures
        (final(gameboy)@, steps) == execute_spec(opcode, old(gameboy)@),
{
    proof {
        lemma_row_and_column(opcode);
    }
    match opcode {
        0xE0 => gameboy.load(AddrOf(Immediate8), R8::A),
        0xE1 => Err(Error::Unimplemented),
        0xE2 => gameboy.load(AddrOf(R8::C), R8::A),
        0xE3 => Err(Error::UnmappedOpcode(opcode)),
        0xE4 => Err(Error::UnmappedOpcode(opcode)),
        0xE5 => gameboy.push(R16::HL),
        0xE6 => gameboy.and(R8::A, Immediate8),
        0xE7 => Err(Error::Unimplemented),
        0xE8 => Err(Error::Unimplemented),
        0xE9 => Err(Error::Unimplemented),
        0xEA => gameboy.load(AddrOf(Immediate16), R8::A),
        0xEB => Err(Error::UnmappedOpcode(opcode)),
        0xEC => Err(Error::UnmappedOpcode(opcode)),
        0xED => Err(Error::UnmappedOpcode(opcode)),
        0xEE => gameboy.xor(R8::A, Immediate8),
        0xEF => Err(Error::Unimplemented),
        _ => Err(Error::UnmappedOpcode(opcode)),
    }
}

/// The opcodes from 0xF0 to 0xFF: loads from the high page and from an address, push
/// of AF, the stack pointer, interrupts, or and comparison with an immediate.
fn opcodes_fx(opcode: u8, gameboy: &mut GameBoy) -> (steps: Result<u8, Error>)
    requires
        0xF0 <= opcode <= 0xFF,
    ensures
        (final(gameboy)@, steps) == execute_spec(opcode, old(gameboy)@),
{
    proof {
        lemma_row_and_column(opcode);
    }
    match opcode {
        0xF0 => gameboy.load(R8::A, AddrOf(Immediate8)),
        0xF1 => Err(Error::Unimplemented),
        0xF2 => gameboy.load(R8::A, AddrOf(R8::C)),
        0xF3 => gameboy.set_interrupt(Interrupt::Disable),
        0xF4 => Err(Error::UnmappedOpcode(opcode)),
        0xF5 => gameboy.push(R16::AF),
        0xF6 => gameboy.or(R8::A, Immediate8),
        0xF7 => Err(Error::Unimplemented),
        0xF8 => gameboy.load(R16::HL, Plus(R16::SP, Immediate8)),
        0xF9 => gameboy.load(R16::SP, R16::HL),
        0xFA => gameboy.load(R8::A, AddrOf(Immediate16)),
        0xFB => gameboy.set_interrupt(Interrupt::Enable),
        0xFC => Err(Error::UnmappedOpcode(opcode)),
        0xFD => Err(Error::UnmappedOpcode(opcode)),
        0xFE => gameboy.cmp(R8::A, Immediate8),
        0xFF => Err(Error::Unimplemented),
        _ => Err(Error::UnmappedOpcode(opcode)),
    }
}

/// Carries out an instruction of the second table: moves the program counter on to
/// the byte after the escape opcode and dispatches on that byte. See [`extended`].
pub fn callback(gameboy: &mut GameBoy) -> (steps: Result<u8, Error>)
    ensures
        (final(gameboy)@, steps) == extended(old(gameboy)@),
{
    gameboy.advance_pc(1);
    let opcode = gameboy.fetch();
    match opcode {
        0x00..=0x3F => extended_00_3f(opcode, gameboy),
        0x40..=0x4F => extended_4x(opcode, gameboy),
        0x50..=0x5F => extended_5x(opcode, gameboy),
        0x60..=0x6F => extended_6x(opcode, gameboy),
        0x70..=0x7F => extended_7x(opcode, gameboy),
        0x80..=0xBF => extended_80_bf(opcode, gameboy),
        0xC0..=0xFF => extended_c0_ff(opcode, gameboy),
    }
}

/// The second table below 0x40: rotations, shifts and the swap of nibbles.
fn extended_00_3f(opcode: u8, gameboy: &mut GameBoy) -> (steps: Result<u8, Error>)
    requires
        0x00 <= opcode <= 0x3F,
    ensures
        (final(gameboy)@, steps) == extended_spec(opcode, old(gameboy)@),
{
    proof {
        lemma_row_and_column(opcode);
    }
    match opcode {
        0x00 => gameboy.rotate_left(R8::B, Carry::Without),
        0x01 => gameboy.rotate_left(R8::C, Carry::Without),
        0x02 => gameboy.rotate_left(R8::D, Carry::Without),
        0x03 => gameboy.rotate_left(R8::E, Carry::Without),
        0x04 => gameboy.rotate_left(R8::H, Carry::Without),
        0x05 => gameboy.rotate_left(R8::L, Carry::Without),
        0x06 => gameboy.rotate_left(AddrOf(R16::HL), Carry::Without),
        0x07 => gameboy.rotate_left(R8::A, Carry::Without),
        0x08 => gameboy.rotate_right(R8::B, Carry::Without),
        0x09 => gameboy.rotate_right(R8::C, Carry::Without),
        0x0A => gameboy.rotate_right(R8::D, Carry::Without),
        0x0B => gameboy.rotate_right(R8::E, Carry::Without),
        0x0C => gameboy.rotate_right(R8::H, Carry::Without),
        0x0D => gameboy.rotate_right(R8::L, Carry::Without),
        0x0E => gameboy.rotate_right(AddrOf(R16::HL), Carry::Without),
        0x0F => gameboy.rotate_right(R8::A, Carry::Without),
        0x10 => gameboy.rotate_left(R8::B, Carry::With),
        0x11 => gameboy.rotate_left(R8::C, Carry::With),
        0x12 => gameboy.rotate_left(R8::D, Carry::With),
        0x13 => gameboy.rotate_left(R8::E, Carry::With),
        0x14 => gameboy.rotate_left(R8::H, Carry::With),
        0x15 => gameboy.rotate_left(R8::L, Carry::With),
        0x16 => gameboy.rotate_left(AddrOf(R16::HL), Carry::With),
        0x17 => gameboy.rotate_left(R8::A, Carry::With),
        0x18 => gameboy.rotate_right(R8::B, Carry::With),
        0x19 => gameboy.rotate_right(R8::C, Carry::With),
        0x1A => gameboy.rotate_right(R8::D, Carry::With),
        0x1B => gameboy.rotate_right(R8::E, Carry::With),
        0x1C => gameboy.rotate_right(R8::H, Carry::With),
        0x1D => gameboy.rotate_right(R8::L, Carry::With),
        0x1E => gameboy.rotate_right(AddrOf(R16::HL), Carry::With),
        0x1F => gameboy.rotate_right(R8::A, Carry::With),
        0x20 => gameboy.shift_left(R8::B),
        0x21 => gameboy.shift_left(R8::C),
        0x22 => gameboy.shift_left(R8::D),
        0x23 => gameboy.shift_left(R8::E),
        0x24 => gameboy.shift_left(R8::H),
        0x25 => gameboy.shift_left(R8::L),
        0x26 => gameboy.shift_left(AddrOf(R16::HL)),
        0x27 => gameboy.shift_left(R8::A),
        0x28 => gameboy.shift_right(R8::B),
        0x29 => gameboy.shift_right(R8::C),
        0x2A => gameboy.shift_right(R8::D),
        0x2B => gameboy.shift_right(R8::E),
        0x2C => gameboy.shift_right(R8::H),
        0x2D => gameboy.shift_right(R8::L),
        0x2E => gameboy.shift_right(AddrOf(R16::HL)),
        0x2F => gameboy.shift_right(R8::A),
        0x30 => gameboy.swap(R8::B),
        0x31 => gameboy.swap(R8::C),
        0x32 => gameboy.swap(R8::D),
        0x33 => gameboy.swap(R8::E),
        0x34 => gameboy.swap(R8::H),
        0x35 => gameboy.swap(R8::L),
        0x36 => gameboy.swap(AddrOf(R16::HL)),
        0x37 => gameboy.swap(R8::A),
        0x38 => gameboy.shift_right_logical(R8::B),
        0x39 => gameboy.shift_right_logical(R8::C),
        0x3A => gameboy.shift_right_logical(R8::D),
        0x3B => gameboy.shift_right_logical(R8::E),
        0x3C => gameboy.shift_right_logical(R8::H),
        0x3D => gameboy.shift_right_logical(R8::L),
        0x3E => gameboy.shift_right_logical(AddrOf(R16::HL)),
        0x3F => gameboy.shift_right_logical(R8::A),
        _ => Err(Error::UnmappedOpcode(opcode)),
    }
}

/// The second table from 0x40 to 0x4F: the tests of bits 0 and 1.
fn extended_4x(opcode: u8, gameboy: &mut GameBoy) -> (steps: Result<u8, Error>)
    requires
        0x40 <= opcode <= 0x4F,
    ensures
        (final(gameboy)@, steps) == extended_spec(opcode, old(gameboy)@),
{
    proof {
        lemma_row_and_column(opcode);
    }
    match opcode {
        0x40 => gameboy.bit(0, R8::B),
        0x41 => gameboy.bit(0, R8::C),
        0x42 => gameboy.bit(0, R8::D),
        0x43 => gameboy.bit(0, R8::E),
        0x44 => gameboy.bit(0, R8::H),
        0x45 => gameboy.bit(0, R8::L),
        0x46 => gameboy.bit(0, AddrOf(R16::HL)),
        0x47 => gameboy.bit(0, R8::A),
        0x48 => gameboy.bit(1, R8::B),
        0x49 => gameboy.bit(1, R8::C),
        0x4A => gameboy.bit(1, R8::D),
        0x4B => gameboy.bit(1, R8::E),
        0x4C => gameboy.bit(1, R8::H),
        0x4D => gameboy.bit(1, R8::L),
        0x4E => gameboy.bit(1, AddrOf(R16::HL)),
        0x4F => gameboy.bit(1, R8::A),
        _ => Err(Error::UnmappedOpcode(opcode)),
    }
}

/// The second table from 0x50 to 0x5F: the tests of bits 2 and 3.
fn extended_5x(opcode: u8, gameboy: &mut GameBoy) -> (steps: Result<u8, Error>)
    requires
        0x50 <= opcode <= 0x5F,
    ensures
        (final(gameboy)@, steps) == extended_spec(opcode, old(gameboy)@),
{
    proof {
        lemma_row_and_column(opcode);
    }
    match opcode {
        0x50 => gameboy.bit(2, R8::B),
        0x51 => gameboy.bit(2, R8::C),
        0x52 => gameboy.bit(2, R8::D),
        0x53 => gameboy.bit(2, R8::E),
        0x54 => gameboy.bit(2, R8::H),
        0x55 => gameboy.bit(2, R8::L),
        0x56 => gameboy.bit(2, AddrOf(R16::HL)),
        0x57 => gameboy.bit(2, R8::A),
        0x58 => gameboy.bit(3, R8::B),
        0x59 => gameboy.bit(3, R8::C),
        0x5A => gameboy.bit(3, R8::D),
        0x5B => gameboy.bit(3, R8::E),
        0x5C => gameboy.bit(3, R8::H),
        0x5D => gameboy.bit(3, R8::L),
        0x5E => gameboy.bit(3, AddrOf(R16::HL)),
        0x5F => gameboy.bit(3, R8::A),
        _ => Err(Error::UnmappedOpcode(opcode)),
    }
}

/// The second table from 0x60 to 0x6F: the tests of bits 4 and 5.
fn extended_6x(opcode: u8, gameboy: &mut GameBoy) -> (steps: Result<u8, Error>)
    requires
        0x60 <= opcode <= 0x6F,
    ensures
        (final(gameboy)@, steps) == extended_spec(opcode, old(gameboy)@),
{
    proof {
        lemma_row_and_column(opcode);
    }
    match opcode {
        0x60 => gameboy.bit(4, R8::B),
        0x61 => gameboy.bit(4, R8::C),
        0x62 => gameboy.bit(4, R8::D),
        0x63 => gameboy.bit(4, R8::E),
        0x64 => gameboy.bit(4, R8::H),
        0x65 => gameboy.bit(4, R8::L),
        0x66 => gameboy.bit(4, AddrOf(R16::HL)),
        0x67 => gameboy.bit(4, R8::A),
        0x68 => gameboy.bit(5, R8::B),
        0x69 => gameboy.bit(5, R8::C),
        0x6A => gameboy.bit(5, R8::D),
        0x6B => gameboy.bit(5, R8::E),
        0x6C => gameboy.bit(5, R8::H),
        0x6D => gameboy.bit(5, R8::L),
        0x6E => gameboy.bit(5, AddrOf(R16::HL)),
        0x6F => gameboy.bit(5, R8::A),
        _ => Err(Error::UnmappedOpcode(opcode)),
    }
}

/// The second table from 0x70 to 0x7F: the tests of bits 6 and 7.
fn extended_7x(opcode: u8, gameboy: &mut GameBoy) -> (steps: Result<u8, Error>)
    requires
        0x70 <= opcode <= 0x7F,
    ensures
        (final(gameboy)@, steps) == extended_spec(opcode, old(gameboy)@),
{
    proof {
        lemma_row_and_column(opcode);
    }
    match opcode {
        0x70 => gameboy.bit(6, R8::B),
        0x71 => gameboy.bit(6, R8::C),
        0x72 => gameboy.bit(6, R8::D),
        0x73 => gameboy.bit(6, R8::E),
        0x74 => gameboy.bit(6, R8::H),
        0x75 => gameboy.bit(6, R8::L),
        0x76 => gameboy.bit(6, AddrOf(R16::HL)),
        0x77 => gameboy.bit(6, R8::A),
        0x78 => gameboy.bit(7, R8::B),
        0x79 => gameboy.bit(7, R8::C),
        0x7A => gameboy.bit(7, R8::D),
        0x7B => gameboy.bit(7, R8::E),
        0x7C => gameboy.bit(7, R8::H),
        0x7D => gameboy.bit(7, R8::L),
        0x7E => gameboy.bit(7, AddrOf(R16::HL)),
        0x7F => gameboy.bit(7, R8::A),
        _ => Err(Error::UnmappedOpcode(opcode)),
    }
}

/// The second table from 0x80 to 0xBF: the bit resets.
fn extended_80_bf(opcode: u8, gameboy: &mut GameBoy) -> (steps: Result<u8, Error>)
    requires
        0x80 <= opcode <= 0xBF,
    ensures
        (final(gameboy)@, steps) == extended_spec(opcode, old(gameboy)@),
{
    proof {
        lemma_row_and_column(opcode);
    }
    match opcode {
        0x80 => gameboy.res(0, R8::B),
        0x81 => gameboy.res(0, R8::C),
        0x82 => gameboy.res(0, R8::D),
        0x83 => gameboy.res(0, R8::E),
        0x84 => gameboy.res(0, R8::H),
        0x85 => gameboy.res(0, R8::L),
        0x86 => gameboy.res(0, AddrOf(R16::HL)),
        0x87 => gameboy.res(0, R8::A),
        0x88 => gameboy.res(1, R8::B),
        0x89 => gameboy.res(1, R8::C),
        0x8A => gameboy.res(1, R8::D),
        0x8B => gameboy.res(1, R8::E),
        0x8C => gameboy.res(1, R8::H),
        0x8D => gameboy.res(1, R8::L),
        0x8E => gameboy.res(1, AddrOf(R16::HL)),
        0x8F => gameboy.res(1, R8::A),
        0x90 => gameboy.res(2, R8::B),
        0x91 => gameboy.res(2, R8::C),
        0x92 => gameboy.res(2, R8::D),
        0x93 => gameboy.res(2, R8::E),
        0x94 => gameboy.res(2, R8::H),
        0x95 => gameboy.res(2, R8::L),
        0x96 => gameboy.res(2, AddrOf(R16::HL)),
        0x97 => gameboy.res(2, R8::A),
        0x98 => gameboy.res(3, R8::B),
        0x99 => gameboy.res(3, R8::C),
        0x9A => gameboy.res(3, R8::D),
        0x9B => gameboy.res(3, R8::E),
        0x9C => gameboy.res(3, R8::H),
        0x9D => gameboy.res(3, R8::L),
        0x9E => gameboy.res(3, AddrOf(R16::HL)),
        0x9F => gameboy.res(3, R8::A),
        0xA0 => gameboy.res(4, R8::B),
        0xA1 => gameboy.res(4, R8::C),
        0xA2 => gameboy.res(4, R8::D),
        0xA3 => gameboy.res(4, R8::E),
        0xA4 => gameboy.res(4, R8::H),
        0xA5 => gameboy.res(4, R8::L),
        0xA6 => gameboy.res(4, AddrOf(R16::HL)),
        0xA7 => gameboy.res(4, R8::A),
        0xA8 => gameboy.res(5, R8::B),
        0xA9 => gameboy.res(5, R8::C),
        0xAA => gameboy.res(5, R8::D),
        0xAB => gameboy.res(5, R8::E),
        0xAC => gameboy.res(5, R8::H),
        0xAD => gameboy.res(5, R8::L),
        0xAE => gameboy.res(5, AddrOf(R16::HL)),
        0xAF => gameboy.res(5, R8::A),
        0xB0 => gameboy.res(6, R8::B),
        0xB1 => gameboy.res(6, R8::C),
        0xB2 => gameboy.res(6, R8::D),
        0xB3 => gameboy.res(6, R8::E),
        0xB4 => gameboy.res(6, R8::H),
        0xB5 => gameboy.res(6, R8::L),
        0xB6 => gameboy.res(6, AddrOf(R16::HL)),
        0xB7 => gameboy.res(6, R8::A),
        0xB8 => gameboy.res(7, R8::B),
        0xB9 => gameboy.res(7, R8::C),
        0xBA => gameboy.res(7, R8::D),
        0xBB => gameboy.res(7, R8::E),
        0xBC => gameboy.res(7, R8::H),
        0xBD => gameboy.res(7, R8::L),
        0xBE => gameboy.res(7, AddrOf(R16::HL)),
        0xBF => gameboy.res(7, R8::A),
        _ => Err(Error::UnmappedOpcode(opcode)),
    }
}

/// The second table from 0xC0 on: the bit sets.
fn extended_c0_ff(opcode: u8, gameboy: &mut GameBoy) -> (steps: Result<u8, Error>)
    requires
        0xC0 <= opcode <= 0xFF,
    ensures
        (final(gameboy)@, steps) == extended_spec(opcode, old(gameboy)@),
{
    proof {
        lemma_row_and_column(opcode);
    }
    match opcode {
        0xC0 => gameboy.set(0, R8::B),
        0xC1 => gameboy.set(0, R8::C),
        0xC2 => gameboy.set(0, R8::D),
        0xC3 => gameboy.set(0, R8::E),
        0xC4 => gameboy.set(0, R8::H),
        0xC5 => gameboy.set(0, R8::L),
        0xC6 => gameboy.set(0, AddrOf(R16::HL)),
        0xC7 => gameboy.set(0, R8::A),
        0xC8 => gameboy.set(1, R8::B),
        0xC9 => gameboy.set(1, R8::C),
        0xCA => gameboy.set(1, R8::D),
        0xCB => gameboy.set(1, R8::E),
        0xCC => gameboy.set(1, R8::H),
        0xCD => gameboy.set(1, R8::L),
        0xCE => gameboy.set(1, AddrOf(R16::HL)),
        0xCF => gameboy.set(1, R8::A),
        0xD0 => gameboy.set(2, R8::B),
        0xD1 => gameboy.set(2, R8::C),
        0xD2 => gameboy.set(2, R8::D),
        0xD3 => gameboy.set(2, R8::E),
        0xD4 => gameboy.set(2, R8::H),
        0xD5 => gameboy.set(2, R8::L),
        0xD6 => gameboy.set(2, AddrOf(R16::HL)),
        0xD7 => gameboy.set(2, R8::A),
        0xD8 => gameboy.set(3, R8::B),
        0xD9 => gameboy.set(3, R8::C),
        0xDA => gameboy.set(3, R8::D),
        0xDB => gameboy.set(3, R8::E),
        0xDC => gameboy.set(3, R8::H),
        0xDD => gameboy.set(3, R8::L),
        0xDE => gameboy.set(3, AddrOf(R16::HL)),
        0xDF => gameboy.set(3, R8::A),
        0xE0 => gameboy.set(4, R8::B),
        0xE1 => gameboy.set(4, R8::C),
        0xE2 => gameboy.set(4, R8::D),
        0xE3 => gameboy.set(4, R8::E),
        0xE4 => gameboy.set(4, R8::H),
        0xE5 => gameboy.set(4, R8::L),
        0xE6 => gameboy.set(4, AddrOf(R16::HL)),
        0xE7 => gameboy.set(4, R8::A),
        0xE8 => gameboy.set(5, R8::B),
        0xE9 => gameboy.set(5, R8::C),
        0xEA => gameboy.set(5, R8::D),
        0xEB => gameboy.set(5, R8::E),
        0xEC => gameboy.set(5, R8::H),
        0xED => gameboy.set(5, R8::L),
        0xEE => gameboy.set(5, AddrOf(R16::HL)),
        0xEF => gameboy.set(5, R8::A),
        0xF0 => gameboy.set(6, R8::B),
        0xF1 => gameboy.set(6, R8::C),
        0xF2 => gameboy.set(6, R8::D),
        0xF3 => gameboy.set(6, R8::E),
        0xF4 => gameboy.set(6, R8::H),
        0xF5 => gameboy.set(6, R8::L),
        0xF6 => gameboy.set(6, AddrOf(R16::HL)),
        0xF7 => gameboy.set(6, R8::A),
        0xF8 => gameboy.set(7, R8::B),
        0xF9 => gameboy.set(7, R8::C),
        0xFA => gameboy.set(7, R8::D),
        0xFB => gameboy.set(7, R8::E),
        0xFC => gameboy.set(7, R8::H),
        0xFD => gameboy.set(7, R8::L),
        0xFE => gameboy.set(7, AddrOf(R16::HL)),
        0xFF => gameboy.set(7, R8::A),
        _ => Err(Error::UnmappedOpcode(opcode)),
    }
}

impl GameBoy {
    /// Reads `from` and writes what it gave to `to`. The step count is the sum of what
    /// the two operands cost.
    pub fn load<W, R, V>(&mut self, to: W, from: R) -> (steps: Result<u8, Error>) where
        W: Write<In = V>,
        R: Read<Out = V>,

        requires
            W::spec_cycles() + R::spec_cycles() <= u8::MAX,
        ensures
            steps == Ok::<u8, Error>((W::spec_cycles() + R::spec_cycles()) as u8),
            final(self)@ == load_spec(to, from, old(self)@),
    {
        let value: V = from.read(self);
        to.write(self, value)?;
        Ok(W::cycles() + R::cycles())
    }

    /// Reads both operands, the left one first, hands them and the flags to `op`,
    /// puts the flags that `op` gives in place and writes its result to the left
    /// operand. The step count is that of the width.
    pub fn binary_op<LHS, RHS, F, Num>(&mut self, lhs: LHS, rhs: RHS, op: F) -> (steps: Result<
        u8,
        Error,
    >) where
        LHS: Read<Out = Num> + Write<In = Num>,
        RHS: Read<Out = Num>,
        F: FnOnce(Num, Num, RegisterF) -> (Num, RegisterF),
        Num: Integer,

        requires
            call_requires(
                op,
                (
                    left_value(lhs, rhs, old(self)@),
                    right_value(lhs, rhs, old(self)@),
                    flags_read(lhs, rhs, old(self)@),
                ),
            ),
        ensures
            steps == Ok::<u8, Error>(Num::spec_cycles()),
            exists|outcome: (Num, RegisterF)|
                {
                    &&& call_ensures(
                        op,
                        (
                            left_value(lhs, rhs, old(self)@),
                            right_value(lhs, rhs, old(self)@),
                            flags_read(lhs, rhs, old(self)@),
                        ),
                        outcome,
                    )
                    &&& final(self)@ == binary_op_spec(lhs, rhs, old(self)@, outcome)
                },
    {
        let ghost before = self@;
        let lhs_ = lhs.read(self);
        let rhs_ = rhs.read(self);
        let ghost read = self@;
        let (result, f) = op(lhs_, rhs_, self.cpu.register.f());
        self.cpu.register.set_f(f);
        assert(self@ == read.with_flags(f));
        lhs.write(self, result)?;
        assert(call_ensures(
            op,
            (
                left_value(lhs, rhs, before),
                right_value(lhs, rhs, before),
                flags_read(lhs, rhs, before),
            ),
            (result, f),
        ));
        assert(self@ == binary_op_spec(lhs, rhs, before, (result, f)));
        Ok(Num::cycles())
    }

    /// The relative jump. See [`jump_spec`].
    pub fn jump<Offset>(&mut self, flags: Flags, offset: Offset) -> (steps: Result<
        u8,
        Error,
    >) where Offset: Read<Out = u8>
        requires
            Offset::spec_cycles() < u8::MAX,
        ensures
            steps == Ok::<u8, Error>(jump_spec(flags, offset, old(self)@).1),
            final(self)@ == jump_spec(flags, offset, old(self)@).0,
    {
        let offset = offset.read(self);
        let f = self.cpu.register.f();
        if flags.test(f) {
            let low: u16 = offset as u16;
            assert(0xFF00u16 | low == 0xFF00 + low) by (bit_vector)
                requires
                    low < 0x100,
            ;
            let signed: u16 = if offset < 0x80 {
                low
            } else {
                0xFF00 | low
            };
            *self.cpu.register.pc = self.cpu.register.pc.wrapping_add(signed);
            Ok(0)
        } else {
            Ok(1 + Offset::cycles())
        }
    }

    /// The jump by a word. See [`jump16_spec`].
    pub fn jump16<Offset>(&mut self, flags: Flags, offset: Offset) -> (steps: Result<
        u8,
        Error,
    >) where Offset: Read<Out = u16>
        requires
            Offset::spec_cycles() < u8::MAX,
        ensures
            steps == Ok::<u8, Error>(jump16_spec(flags, offset, old(self)@).1),
            final(self)@ == jump16_spec(flags, offset, old(self)@).0,
    {
        let offset = offset.read(self);
        let f = self.cpu.register.f();
        if flags.test(f) {
            *self.cpu.register.pc = self.cpu.register.pc.wrapping_add(offset);
            Ok(0)
        } else {
            Ok(1 + Offset::cycles())
        }
    }

    /// Pushes the program counter and makes the target the program counter. The step
    /// count is 0: the counter is set.
    pub fn call<R>(&mut self, address: R) -> (steps: Result<u8, Error>) where R: Read<Out = u16>
        ensures
            steps == Ok::<u8, Error>(0),
            final(self)@ == call_spec(address, old(self)@),
    {
        let address = address.read(self);
        self.push(Constant(*self.cpu.register.pc))?;
        *self.cpu.register.pc = address;
        Ok(0)
    }

    /// Records the wish to switch interrupts on or off. Interrupts are delivered from
    /// outside this machine, so nothing changes here.
    pub fn set_interrupt(&mut self, _interrupt: Interrupt) -> (steps: Result<u8, Error>)
        ensures
            steps == Ok::<u8, Error>(1),
            final(self)@ == old(self)@,
    {
        Ok(1)
    }

    /// Adds `rhs` to `lhs`, with the Carry flag if `carry` says so. See [`add_spec`].
    pub fn add<LHS, RHS, Num>(&mut self, lhs: LHS, rhs: RHS, carry: Carry) -> (steps: Result<
        u8,
        Error,
    >) where LHS: Read<Out = Num> + Write<In = Num>, RHS: Read<Out = Num>, Num: Integer
        ensures
            steps == Ok::<u8, Error>(Num::spec_cycles()),
            final(self)@ == binary_op_spec(
                lhs,
                rhs,
                old(self)@,
                add_spec(
                    left_value(lhs, rhs, old(self)@),
                    right_value(lhs, rhs, old(self)@),
                    carry,
                    flags_read(lhs, rhs, old(self)@),
                ),
            ),
    {
        let op = |x: Num, y: Num, f: RegisterF| -> (outcome: (Num, RegisterF))
            ensures
                outcome == add_spec(x, y, carry, f),
            {
                let carried = f.flag(flag::C).as_bool();
                let incoming = if carried {
                    Num::from_carry(carry)
                } else {
                    Num::zero()
                };
                proof {
                    Num::lemma_numbers(x, 1);
                    Num::lemma_numbers(x, 0);
                    Num::lemma_add_in_two_steps(x, y, alu::carry_in(carry, f));
                }
                let (res, overflow1) = x.overflowing_add(y);
                let (res, overflow2) = res.overflowing_add(incoming);
                let mut f = f;
                Num::set_zero_flag(&mut f, res);
                f.set_flag(flag::N, false);
                f.set_flag(
                    flag::H,
                    !x.bitxor(y).bitxor(res).bitand(Num::half_carry_flag()).equals(Num::zero()),
                );
                f.set_flag(flag::C, overflow1 || overflow2);
                (res, f)
            };
        self.binary_op(lhs, rhs, op)
    }

    /// Subtracts `rhs` from `lhs`, with the Carry flag if `carry` says so. See
    /// [`sub_spec`].
    pub fn sub<LHS, RHS>(&mut self, lhs: LHS, rhs: RHS, carry: Carry) -> (steps: Result<
        u8,
        Error,
    >) where LHS: Read<Out = u8> + Write<In = u8>, RHS: Read<Out = u8>
        ensures
            steps == Ok::<u8, Error>(1),
            final(self)@ == binary_op_spec(
                lhs,
                rhs,
                old(self)@,
                sub_spec(
                    left_value(lhs, rhs, old(self)@),
                    right_value(lhs, rhs, old(self)@),
                    carry,
                    flags_read(lhs, rhs, old(self)@),
                ),
            ),
    {
        let amount = u8::from_carry(carry);
        let op = |x: u8, y: u8, f: RegisterF| -> (outcome: (u8, RegisterF))
            ensures
                outcome == sub_spec(x, y, carry, f),
            {
                let incoming: u8 = if f.flag(flag::C).as_bool() {
                    amount
                } else {
                    0
                };
                proof {
                    lemma_sub_half_carry(x, y, incoming);
                }
                let first: u8 = x.wrapping_sub(y);
                let overflow1 = x < y;
                let res: u8 = first.wrapping_sub(incoming);
                let overflow2 = first < incoming;
                let mut f = f;
                f.set_flag(flag::Z, res == 0);
                f.set_flag(flag::N, true);
                f.set_flag(flag::H, (x ^ y ^ res) & 0x10 != 0);
                f.set_flag(flag::C, overflow1 || overflow2);
                (res, f)
            };
        self.binary_op(lhs, rhs, op)
    }

    /// Combines `lhs` with `rhs` by exclusive or. See [`xor_spec`].
    pub fn xor<LHS, RHS, Num>(&mut self, lhs: LHS, rhs: RHS) -> (steps: Result<u8, Error>) where
        LHS: Read<Out = Num> + Write<In = Num>,
        RHS: Read<Out = Num>,
        Num: Integer,

        ensures
            steps == Ok::<u8, Error>(Num::spec_cycles()),
            final(self)@ == binary_op_spec(
                lhs,
                rhs,
                old(self)@,
                xor_spec(
                    left_value(lhs, rhs, old(self)@),
                    right_value(lhs, rhs, old(self)@),
                    flags_read(lhs, rhs, old(self)@),
                ),
            ),
    {
        let op = |x: Num, y: Num, f: RegisterF| -> (outcome: (Num, RegisterF))
            ensures
                outcome == xor_spec(x, y, f),
            {
                let res = x.bitxor(y);
                let mut f = f;
                f.set_flag(flag::Z, res.equals(Num::zero()));
                f.set_flag(flag::N, false);
                f.set_flag(flag::H, false);
                f.set_flag(flag::C, false);
                (res, f)
            };
        self.binary_op(lhs, rhs, op)
    }

    /// Combines `lhs` with `rhs` by and. See [`and_spec`].
    pub fn and<LHS, RHS, Num>(&mut self, lhs: LHS, rhs: RHS) -> (steps: Result<u8, Error>) where
        LHS: Read<Out = Num> + Write<In = Num>,
        RHS: Read<Out = Num>,
        Num: Integer,

        ensures
            steps == Ok::<u8, Error>(Num::spec_cycles()),
            final(self)@ == binary_op_spec(
                lhs,
                rhs,
                old(self)@,
                and_spec(
                    left_value(lhs, rhs, old(self)@),
                    right_value(lhs, rhs, old(self)@),
                    flags_read(lhs, rhs, old(self)@),
                ),
            ),
    {
        let op = |x: Num, y: Num, f: RegisterF| -> (outcome: (Num, RegisterF))
            ensures
                outcome == and_spec(x, y, f),
            {
                let res = x.bitand(y);
                let mut f = f;
                f.set_flag(flag::Z, res.equals(Num::zero()));
                f.set_flag(flag::N, false);
                f.set_flag(flag::H, true);
                f.set_flag(flag::C, false);
                (res, f)
            };
        self.binary_op(lhs, rhs, op)
    }

    /// Combines `lhs` with `rhs` by or. See [`or_spec`].
    pub fn or<LHS, RHS, Num>(&mut self, lhs: LHS, rhs: RHS) -> (steps: Result<u8, Error>) where
        LHS: Read<Out = Num> + Write<In = Num>,
        RHS: Read<Out = Num>,
        Num: Integer,

        ensures
            steps == Ok::<u8, Error>(Num::spec_cycles()),
            final(self)@ == binary_op_spec(
                lhs,
                rhs,
                old(self)@,
                or_spec(
                    left_value(lhs, rhs, old(self)@),
                    right_value(lhs, rhs, old(self)@),
                    flags_read(lhs, rhs, old(self)@),
                ),
            ),
    {
        let op = |x: Num, y: Num, f: RegisterF| -> (outcome: (Num, RegisterF))
            ensures
                outcome == or_spec(x, y, f),
            {
                let res = x.bitor(y);
                let mut f = f;
                f.set_flag(flag::Z, res.equals(Num::zero()));
                f.set_flag(flag::N, false);
                f.set_flag(flag::H, false);
                f.set_flag(flag::C, false);
                (res, f)
            };
        self.binary_op(lhs, rhs, op)
    }

    /// Compares `lhs` with `rhs`: the flags are those of the subtraction without
    /// carry, and the result is written nowhere.
    pub fn cmp<LHS, RHS>(&mut self, lhs: LHS, rhs: RHS) -> (steps: Result<u8, Error>) where
        LHS: Read<Out = u8> + Write<In = u8>,
        RHS: Read<Out = u8>,

        ensures
            steps == Ok::<u8, Error>(1),
            final(self)@ == rhs.after(lhs.after(old(self)@)).with_flags(
                sub_spec(
                    left_value(lhs, rhs, old(self)@),
                    right_value(lhs, rhs, old(self)@),
                    Carry::Without,
                    flags_read(lhs, rhs, old(self)@),
                ).1,
            ),
    {
        // Ensure that the result is not written to the LHS
        self.sub(NoWrite(lhs), rhs, Carry::Without)
    }

    /// Increments a byte. See [`inc_spec`].
    pub fn inc<T>(&mut self, lhs: T) -> (steps: Result<u8, Error>) where
        T: Read<Out = u8> + Write<In = u8>,

        ensures
            steps == Ok::<u8, Error>(1),
            final(self)@ == binary_op_spec(
                lhs,
                Constant(1u8),
                old(self)@,
                inc_spec(lhs.value(old(self)@), lhs.after(old(self)@).flags()),
            ),
    {
        let op = |x: u8, y: u8, f: RegisterF| -> (outcome: (u8, RegisterF))
            ensures
                y == 1 ==> outcome == inc_spec(x, f),
            {
                proof {
                    <u8 as Integer>::lemma_add_in_two_steps(x, y, 0);
                }
                let res: u8 = x.wrapping_add(y);
                let mut f = f;
                f.set_flag(flag::Z, res == 0);
                f.set_flag(flag::N, false);
                f.set_flag(flag::H, (x ^ y ^ res) & 0x10 != 0);
                (res, f)
            };
        self.binary_op(lhs, Constant(1), op)
    }

    /// Increments a word. No flag is touched.
    pub fn inc16<T>(&mut self, lhs: T) -> (steps: Result<u8, Error>) where
        T: Read<Out = u16> + Write<In = u16>,

        ensures
            steps == Ok::<u8, Error>(2),
            final(self)@ == binary_op_spec(
                lhs,
                Constant(1u16),
                old(self)@,
                inc16_spec(lhs.value(old(self)@), lhs.after(old(self)@).flags()),
            ),
    {
        let op = |x: u16, y: u16, f: RegisterF| -> (outcome: (u16, RegisterF))
            ensures
                y == 1 ==> outcome == inc16_spec(x, f),
            { (x.wrapping_add(y), f) };
        self.binary_op(lhs, Constant(1), op)
    }

    /// Decrements a byte. See [`dec_spec`].
    pub fn dec<T>(&mut self, lhs: T) -> (steps: Result<u8, Error>) where
        T: Read<Out = u8> + Write<In = u8>,

        ensures
            steps == Ok::<u8, Error>(1),
            final(self)@ == binary_op_spec(
                lhs,
                Constant(1u8),
                old(self)@,
                dec_spec(lhs.value(old(self)@), lhs.after(old(self)@).flags()),
            ),
    {
        let op = |x: u8, y: u8, f: RegisterF| -> (outcome: (u8, RegisterF))
            ensures
                y == 1 ==> outcome == dec_spec(x, f),
            {
                proof {
                    lemma_sub_half_carry(x, y, 0);
                }
                let res: u8 = x.wrapping_sub(y);
                let mut f = f;
                f.set_flag(flag::Z, res == 0);
                f.set_flag(flag::N, true);
                f.set_flag(flag::H, (x ^ y ^ res) & 0x10 != 0);
                (res, f)
            };
        self.binary_op(lhs, Constant(1), op)
    }

    /// Decrements a word. No flag is touched.
    pub fn dec16<T>(&mut self, lhs: T) -> (steps: Result<u8, Error>) where
        T: Read<Out = u16> + Write<In = u16>,

        ensures
            steps == Ok::<u8, Error>(2),
            final(self)@ == binary_op_spec(
                lhs,
                Constant(1u16),
                old(self)@,
                dec16_spec(lhs.value(old(self)@), lhs.after(old(self)@).flags()),
            ),
    {
        let op = |x: u16, y: u16, f: RegisterF| -> (outcome: (u16, RegisterF))
            ensures
                y == 1 ==> outcome == dec16_spec(x, f),
            { (x.wrapping_sub(y), f) };
        self.binary_op(lhs, Constant(1), op)
    }

    /// Stores the word read from `from` at the stack pointer and moves the stack
    /// pointer up by 2.
    pub fn push<R>(&mut self, from: R) -> (steps: Result<u8, Error>) where R: Read<Out = u16>
        ensures
            steps == Ok::<u8, Error>(1),
            final(self)@ == push_spec(from, old(self)@),
    {
        let from = from.read(self);
        let sp: &mut u16 = &mut self.cpu.register.sp;
        self.mmu.write_u16(*sp, from);
        *sp = sp.wrapping_add(2);
        Ok(1)
    }

    /// Writes the word at the stack pointer to `to` and then moves the stack pointer
    /// down by 2.
    pub fn pop<W>(&mut self, to: W) -> (steps: Result<u8, Error>) where W: Write<In = u16>
        ensures
            steps == Ok::<u8, Error>(1),
            final(self)@ == pop_spec(to, old(self)@),
    {
        let value = self.mmu.read_u16(*self.cpu.register.sp);
        to.write(self, value)?;
        let sp: &mut u16 = &mut self.cpu.register.sp;
        *sp = sp.wrapping_sub(2);
        Ok(1)
    }

    /// Does nothing, in one step.
    pub fn nop(&mut self) -> (steps: Result<u8, Error>)
        ensures
            steps == Ok::<u8, Error>(1),
            final(self)@ == old(self)@,
    {
        Ok(1)
    }

    /// Not written yet: the power states belong to what drives the machine.
    pub fn halt(&mut self) -> (steps: Result<u8, Error>)
        ensures
            steps == Err::<u8, Error>(Error::Unimplemented),
            final(self)@ == old(self)@,
    {
        Err(Error::Unimplemented)
    }

    /// Not written yet: the power states belong to what drives the machine.
    pub fn stop(&mut self) -> (steps: Result<u8, Error>)
        ensures
            steps == Err::<u8, Error>(Error::Unimplemented),
            final(self)@ == old(self)@,
    {
        Err(Error::Unimplemented)
    }

    /// Not written yet.
    pub fn shift_left<R>(&mut self, _register: R) -> (steps: Result<u8, Error>) where
        R: Read<Out = u8>,

        ensures
            steps == Err::<u8, Error>(Error::Unimplemented),
            final(self)@ == old(self)@,
    {
        Err(Error::Unimplemented)
    }

    /// Not written yet.
    pub fn shift_right<R>(&mut self, _register: R) -> (steps: Result<u8, Error>) where
        R: Read<Out = u8>,

        ensures
            steps == Err::<u8, Error>(Error::Unimplemented),
            final(self)@ == old(self)@,
    {
        Err(Error::Unimplemented)
    }

    /// Not written yet.
    pub fn shift_right_logical<R>(&mut self, _register: R) -> (steps: Result<u8, Error>) where
        R: Read<Out = u8>,

        ensures
            steps == Err::<u8, Error>(Error::Unimplemented),
            final(self)@ == old(self)@,
    {
        Err(Error::Unimplemented)
    }

    /// Not written yet.
    pub fn rotate_left<R>(&mut self, _register: R, _carry: Carry) -> (steps: Result<
        u8,
        Error,
    >) where R: Read<Out = u8>
        ensures
            steps == Err::<u8, Error>(Error::Unimplemented),
            final(self)@ == old(self)@,
    {
        Err(Error::Unimplemented)
    }

    /// Not written yet.
    pub fn rotate_right<R>(&mut self, _register: R, _carry: Carry) -> (steps: Result<
        u8,
        Error,
    >) where R: Read<Out = u8>
        ensures
            steps == Err::<u8, Error>(Error::Unimplemented),
            final(self)@ == old(self)@,
    {
        Err(Error::Unimplemented)
    }

    /// Not written yet.
    pub fn swap<R>(&mut self, _register: R) -> (steps: Result<u8, Error>) where
        R: Read<Out = u8>,

        ensures
            steps == Err::<u8, Error>(Error::Unimplemented),
            final(self)@ == old(self)@,
    {
        Err(Error::Unimplemented)
    }

    /// Tests bit `pos` of the operand, which it does not change. See [`bit_spec`].
    pub fn bit<R>(&mut self, pos: u8, register: R) -> (steps: Result<u8, Error>) where
        R: Read<Out = u8>,

        requires
            pos < 8,
        ensures
            steps == Ok::<u8, Error>(2),
            final(self)@ == bit_test_spec(pos, register, old(self)@),
    {
        let register_ = register.read(self);
        let mut f = self.cpu.register.f();
        assert((register_ & (1u8 << pos) == 0) == !flag::bit_of(register_, pos)) by (bit_vector)
            requires
                pos < 8,
        ;
        f.set_flag(flag::Z, register_ & (1 << pos) == 0);
        f.set_flag(flag::N, false);
        f.set_flag(flag::H, true);
        self.cpu.register.set_f(f);
        Ok(2)
    }

    /// Not written yet.
    pub fn res<R>(&mut self, _pos: u8, _register: R) -> (steps: Result<u8, Error>) where
        R: Read<Out = u8>,

        ensures
            steps == Err::<u8, Error>(Error::Unimplemented),
            final(self)@ == old(self)@,
    {
        Err(Error::Unimplemented)
    }

    /// Not written yet.
    pub fn set<R>(&mut self, _pos: u8, _register: R) -> (steps: Result<u8, Error>) where
        R: Read<Out = u8>,

        ensures
            steps == Err::<u8, Error>(Error::Unimplemented),
            final(self)@ == old(self)@,
    {
        Err(Error::Unimplemented)
    }
}

} // verus!
