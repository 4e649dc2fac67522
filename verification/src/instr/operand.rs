//! The operands: where an instruction takes a value from and where it puts one.
//!
//! An operand is a small value that can be read, written, or both. The wrappers
//! ([`AddrOf`], [`PostInc`], [`PostDec`], [`NoWrite`], [`Plus`]) take another operand
//! and change how it is used, so that one instruction serves every addressing mode.

use super::integer::Integer;
use crate::cpu::register::{Register, Register8, RegisterPair, StackPointer};
use crate::error::Error;
use crate::mem::{read_byte, read_word, write_byte, Read, Write};
use crate::{GameBoy, Machine};
use vstd::prelude::*;

verus! {

/// Reads the sum of two operands, the second widened from a byte to a word. The
/// first is read first. The sum wraps at 16 bits.
pub struct Plus<T, U>(pub T, pub U);

/// Reads the operand and then writes it back decremented: the value returned is the
/// one from before.
pub struct PostDec<T>(pub T);

/// Reads the operand and then writes it back incremented: the value returned is the
/// one from before.
pub struct PostInc<T>(pub T);

/// Reads as the operand does; a write to it does nothing.
pub struct NoWrite<T>(pub T);

/// Always reads as the value it holds.
pub struct Constant<T>(pub T);

/// The byte of memory at the address that the operand reads as.
pub struct AddrOf<T>(pub T);

/// The byte that follows the opcode.
pub struct Immediate8;

/// The little-endian word that follows the opcode.
pub struct Immediate16;

/// What can serve as an address.
pub trait AsAddr: Sized {
    /// The address that the value stands for.
    spec fn addr(self) -> u16;

    fn into_addr(self) -> (addr: u16)
        ensures
            addr == self.addr(),
    ;
}

impl AsAddr for u16 {
    open spec fn addr(self) -> u16 {
        self
    }

    fn into_addr(self) -> (addr: u16) {
        self
    }
}

impl AsAddr for u8 {
    /// A byte addresses the high page: it is an offset from 0xFF00.
    open spec fn addr(self) -> u16 {
        (0xFF00 + self) as u16
    }

    fn into_addr(self) -> (addr: u16) {
        let offset: u16 = self as u16;
        assert(0xFF00u16 | offset == 0xFF00 + offset) by (bit_vector)
            requires
                offset < 0x100,
        ;
        0xFF00 | offset
    }
}

impl<T, U> Read for Plus<T, U> where T: Read<Out = u16>, U: Read<Out = u8> {
    type Out = u16;

    open spec fn spec_cycles() -> u8 {
        0
    }

    fn cycles() -> (cycles: u8) {
        0
    }

    open spec fn value(&self, m: Machine) -> u16 {
        ((self.0.value(m) + self.1.value(self.0.after(m))) % 0x1_0000) as u16
    }

    open spec fn after(&self, m: Machine) -> Machine {
        self.1.after(self.0.after(m))
    }

    fn read(&self, gb: &mut GameBoy) -> (out: u16) {
        let lhs = self.0.read(gb);
        let rhs = self.1.read(gb);
        lhs.wrapping_add(u16::from(rhs))
    }
}

impl<W, T> Read for PostInc<W> where T: Integer, W: Write<In = T> + Read<Out = T> {
    type Out = T;

    open spec fn spec_cycles() -> u8 {
        0
    }

    fn cycles() -> (cycles: u8) {
        0
    }

    open spec fn value(&self, m: Machine) -> T {
        self.0.value(m)
    }

    open spec fn after(&self, m: Machine) -> Machine {
        self.0.stored(
            self.0.after(m),
            T::of_int((self.0.value(m).to_int() + 1) % T::modulus()),
        )
    }

    fn read(&self, gb: &mut GameBoy) -> (out: T) {
        let value = self.0.read(gb);
        proof {
            T::lemma_numbers(value, 1);
        }
        self.0.write(gb, value.wrapping_add(T::one())).expect("post inc write must not fail");
        value
    }
}

impl<W, T> Read for PostDec<W> where T: Integer, W: Write<In = T> + Read<Out = T> {
    type Out = T;

    open spec fn spec_cycles() -> u8 {
        0
    }

    fn cycles() -> (cycles: u8) {
        0
    }

    open spec fn value(&self, m: Machine) -> T {
        self.0.value(m)
    }

    open spec fn after(&self, m: Machine) -> Machine {
        self.0.stored(
            self.0.after(m),
            T::of_int((self.0.value(m).to_int() - 1) % T::modulus()),
        )
    }

    fn read(&self, gb: &mut GameBoy) -> (out: T) {
        let value = self.0.read(gb);
        proof {
            T::lemma_numbers(value, 1);
        }
        self.0.write(gb, value.wrapping_sub(T::one())).expect("post dec write must not fail");
        value
    }
}

impl<A: AsAddr, R: Read<Out = A>> Read for AddrOf<R> {
    type Out = u8;

    open spec fn spec_cycles() -> u8 {
        0
    }

    fn cycles() -> (cycles: u8) {
        0
    }

    open spec fn value(&self, m: Machine) -> u8 {
        read_byte(self.0.after(m).mem, self.0.value(m).addr())
    }

    open spec fn after(&self, m: Machine) -> Machine {
        self.0.after(m)
    }

    fn read(&self, gb: &mut GameBoy) -> (out: u8) {
        let addr = self.0.read(gb).into_addr();
        gb.mmu.read_u8(addr)
    }
}

impl<A: AsAddr, R: Read<Out = A>> Write for AddrOf<R> {
    type In = u8;

    open spec fn spec_cycles() -> u8 {
        1
    }

    fn cycles() -> (cycles: u8) {
        1
    }

    /// The inner operand is read for the address, with whatever that read does to the
    /// state, and the byte is stored there.
    open spec fn stored(&self, m: Machine, value: u8) -> Machine {
        let read = self.0.after(m);
        read.with_mem(write_byte(read.mem, self.0.value(m).addr(), value))
    }

    fn write(&self, gb: &mut GameBoy, value: u8) -> (done: Result<(), Error>) {
        let addr = self.0.read(gb).into_addr();
        gb.mmu.write_u8(addr, value);
        Ok(())
    }
}

impl<V, T: Write<In = V>> Write for NoWrite<T> {
    type In = V;

    open spec fn spec_cycles() -> u8 {
        1
    }

    fn cycles() -> (cycles: u8) {
        1
    }

    open spec fn stored(&self, m: Machine, value: V) -> Machine {
        m
    }

    fn write(&self, _gb: &mut GameBoy, _value: V) -> (done: Result<(), Error>) {
        Ok(())
    }
}

impl<V, T: Read<Out = V>> Read for NoWrite<T> {
    type Out = V;

    open spec fn spec_cycles() -> u8 {
        0
    }

    fn cycles() -> (cycles: u8) {
        0
    }

    open spec fn value(&self, m: Machine) -> V {
        self.0.value(m)
    }

    open spec fn after(&self, m: Machine) -> Machine {
        self.0.after(m)
    }

    fn read(&self, gb: &mut GameBoy) -> (out: V) {
        self.0.read(gb)
    }
}

impl<T: Copy> Read for Constant<T> {
    type Out = T;

    open spec fn spec_cycles() -> u8 {
        0
    }

    fn cycles() -> (cycles: u8) {
        0
    }

    open spec fn value(&self, m: Machine) -> T {
        self.0
    }

    open spec fn after(&self, m: Machine) -> Machine {
        m
    }

    fn read(&self, _gb: &mut GameBoy) -> (out: T) {
        self.0
    }
}

/// The address that follows `pc`; after the last address comes the first.
pub open spec fn next_address(pc: u16) -> u16 {
    ((pc + 1) % 0x1_0000) as u16
}

impl Read for Immediate8 {
    type Out = u8;

    open spec fn spec_cycles() -> u8 {
        1
    }

    fn cycles() -> (cycles: u8) {
        1
    }

    open spec fn value(&self, m: Machine) -> u8 {
        read_byte(m.mem, next_address(m.register.pc.pc))
    }

    open spec fn after(&self, m: Machine) -> Machine {
        m
    }

    fn read(&self, gb: &mut GameBoy) -> (out: u8) {
        gb.mmu.read_u8(gb.cpu.register.pc.wrapping_add(1))
    }
}

impl Read for Immediate16 {
    type Out = u16;

    open spec fn spec_cycles() -> u8 {
        2
    }

    fn cycles() -> (cycles: u8) {
        2
    }

    open spec fn value(&self, m: Machine) -> u16 {
        read_word(m.mem, next_address(m.register.pc.pc))
    }

    open spec fn after(&self, m: Machine) -> Machine {
        m
    }

    fn read(&self, gb: &mut GameBoy) -> (out: u16) {
        gb.mmu.read_u16(gb.cpu.register.pc.wrapping_add(1))
    }
}

/// When a jump is taken: always, or on one of the four named flags being set
/// (`Z`, `N`, `H`, `C`) or clear (`NZ`, `NN`, `NH`, `NC`).
#[derive(Debug, Copy, Clone, PartialEq, Eq, Structural)]
pub enum Flags {
    Always,
    Z,
    N,
    H,
    C,
    NZ,
    NN,
    NH,
    NC,
}

/// The seven general 8-bit registers.
#[derive(Debug, Copy, Clone, PartialEq, Eq, Structural)]
pub enum R8 {
    A,
    B,
    C,
    D,
    E,
    H,
    L,
}

impl R8 {
    /// The register's value in the register file `r`.
    pub open spec fn get(self, r: Register) -> u8 {
        match self {
            R8::A => r.af.hi,
            R8::B => r.bc.hi,
            R8::C => r.bc.lo,
            R8::D => r.de.hi,
            R8::E => r.de.lo,
            R8::H => r.hl.hi,
            R8::L => r.hl.lo,
        }
    }

    /// The register file `r` with `value` in the register and nothing else changed.
    pub open spec fn set(self, r: Register, value: u8) -> Register {
        match self {
            R8::A => Register { af: RegisterPair { hi: value, ..r.af }, ..r },
            R8::B => Register { bc: RegisterPair { hi: value, ..r.bc }, ..r },
            R8::C => Register { bc: RegisterPair { lo: value, ..r.bc }, ..r },
            R8::D => Register { de: RegisterPair { hi: value, ..r.de }, ..r },
            R8::E => Register { de: RegisterPair { lo: value, ..r.de }, ..r },
            R8::H => Register { hl: RegisterPair { hi: value, ..r.hl }, ..r },
            R8::L => Register { hl: RegisterPair { lo: value, ..r.hl }, ..r },
        }
    }
}

impl Read for R8 {
    type Out = u8;

    open spec fn spec_cycles() -> u8 {
        0
    }

    fn cycles() -> (cycles: u8) {
        0
    }

    open spec fn value(&self, m: Machine) -> u8 {
        self.get(m.register)
    }

    open spec fn after(&self, m: Machine) -> Machine {
        m
    }

    fn read(&self, gb: &mut GameBoy) -> (out: u8) {
        match self {
            R8::A => gb.cpu.register.a(),
            R8::B => gb.cpu.register.b(),
            R8::C => gb.cpu.register.c(),
            R8::D => gb.cpu.register.d(),
            R8::E => gb.cpu.register.e(),
            R8::H => gb.cpu.register.h(),
            R8::L => gb.cpu.register.l(),
        }
    }
}

impl Write for R8 {
    type In = u8;

    open spec fn spec_cycles() -> u8 {
        1
    }

    fn cycles() -> (cycles: u8) {
        1
    }

    open spec fn stored(&self, m: Machine, value: u8) -> Machine {
        Machine { register: self.set(m.register, value), ..m }
    }

    fn write(&self, gb: &mut GameBoy, value: u8) -> (done: Result<(), Error>) {
        let register = &mut gb.cpu.register;
        let reg: &mut u8 = match self {
            R8::A => register.a(),
            R8::B => register.b(),
            R8::C => register.c(),
            R8::D => register.d(),
            R8::E => register.e(),
            R8::H => register.h(),
            R8::L => register.l(),
        };
        *reg = value;
        Ok(())
    }
}

/// The four register pairs and the stack pointer.
#[derive(Debug, Copy, Clone, PartialEq, Eq, Structural)]
pub enum R16 {
    AF,
    BC,
    DE,
    HL,
    SP,
}

impl R16 {
    /// The register's value in the register file `r`.
    pub open spec fn get(self, r: Register) -> u16 {
        match self {
            R16::AF => r.af.word(),
            R16::BC => r.bc.word(),
            R16::DE => r.de.word(),
            R16::HL => r.hl.word(),
            R16::SP => r.sp.sp,
        }
    }

    /// The register file `r` with `value` in the register and nothing else changed.
    pub open spec fn set(self, r: Register, value: u16) -> Register {
        match self {
            R16::AF => Register { af: RegisterPair::of_word(value), ..r },
            R16::BC => Register { bc: RegisterPair::of_word(value), ..r },
            R16::DE => Register { de: RegisterPair::of_word(value), ..r },
            R16::HL => Register { hl: RegisterPair::of_word(value), ..r },
            R16::SP => Register { sp: StackPointer { sp: value }, ..r },
        }
    }
}

impl Read for R16 {
    type Out = u16;

    open spec fn spec_cycles() -> u8 {
        0
    }

    fn cycles() -> (cycles: u8) {
        0
    }

    open spec fn value(&self, m: Machine) -> u16 {
        self.get(m.register)
    }

    open spec fn after(&self, m: Machine) -> Machine {
        m
    }

    fn read(&self, gb: &mut GameBoy) -> (out: u16) {
        match self {
            R16::AF => gb.cpu.register.af.as_u16(),
            R16::BC => gb.cpu.register.bc.as_u16(),
            R16::DE => gb.cpu.register.de.as_u16(),
            R16::HL => gb.cpu.register.hl.as_u16(),
            R16::SP => *gb.cpu.register.sp,
        }
    }
}

impl Write for R16 {
    type In = u16;

    open spec fn spec_cycles() -> u8 {
        1
    }

    fn cycles() -> (cycles: u8) {
        1
    }

    open spec fn stored(&self, m: Machine, value: u16) -> Machine {
        Machine { register: self.set(m.register, value), ..m }
    }

    fn write(&self, gb: &mut GameBoy, value: u16) -> (done: Result<(), Error>) {
        match self {
            R16::AF => gb.cpu.register.af.set_u16(value),
            R16::BC => gb.cpu.register.bc.set_u16(value),
            R16::DE => gb.cpu.register.de.set_u16(value),
            R16::HL => gb.cpu.register.hl.set_u16(value),
            R16::SP => {
                *gb.cpu.register.sp = value;
            },
        }
        Ok(())
    }
}

/// A register that was written reads back as written, and a write to one 8-bit
/// register changes no other, nor the stack pointer or the program counter.
pub proof fn law_register_round_trip(r: Register, written: R8, value: u8, other: R8)
    ensures
        written.get(written.set(r, value)) == value,
        other != written ==> other.get(written.set(r, value)) == other.get(r),
        written.set(r, value).sp == r.sp,
        written.set(r, value).pc == r.pc,
        written != R8::A ==> written.set(r, value).flags() == r.flags(),
{
}

/// A 16-bit register that was written reads back as written, and its two halves are
/// the two bytes of the word.
pub proof fn law_pair_round_trip(r: Register, written: R16, value: u16)
    ensures
        written.get(written.set(r, value)) == value,
        R8::B.get(R16::BC.set(r, value)) as int == value / 256,
        R8::C.get(R16::BC.set(r, value)) as int == value % 256,
        written.set(r, value).pc == r.pc,
{
}

/// A register that is read with a post-increment or a post-decrement gives the value
/// that it held before, and holds one more or one less afterwards, wrapping at 16
/// bits. Memory is not touched.
pub proof fn law_post_read_returns_old_value(r: R16, m: Machine)
    ensures
        PostInc(r).value(m) == r.get(m.register),
        r.get(PostInc(r).after(m).register) == (r.get(m.register) + 1) % 0x1_0000,
        PostInc(r).after(m).mem == m.mem,
        PostDec(r).value(m) == r.get(m.register),
        r.get(PostDec(r).after(m).register) == (r.get(m.register) - 1) % 0x1_0000,
        PostDec(r).after(m).mem == m.mem,
{
    law_pair_round_trip(m.register, r, (((r.get(m.register) + 1) % 0x1_0000) as u16));
    law_pair_round_trip(m.register, r, (((r.get(m.register) - 1) % 0x1_0000) as u16));
}

} // verus!
