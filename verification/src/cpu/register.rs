//! The register file: four register pairs, the stack pointer and the program counter.
//!
//! Every pair is stored as two bytes. Its 16-bit reading is computed from them, so the
//! two readings of a pair cannot diverge, and the flags byte is the low byte of AF
//! because it is stored nowhere else.

use core::ops::{Deref, DerefMut};
use vstd::prelude::*;

verus! {

/// The 16-bit word made of a high and a low byte.
pub open spec fn word_of(hi: u8, lo: u8) -> u16 {
    (hi as int * 256 + lo as int) as u16
}

/// The high byte of a word.
pub open spec fn high_byte(word: u16) -> u8 {
    (word as int / 256) as u8
}

/// The low byte of a word.
pub open spec fn low_byte(word: u16) -> u8 {
    (word as int % 256) as u8
}

/// Two 8-bit registers that can also be read and written as one 16-bit register.
#[derive(Copy, Clone, Debug, PartialEq, Eq, Structural)]
pub struct RegisterPair {
    pub lo: u8,
    pub hi: u8,
}

impl RegisterPair {
    /// The pair read as one word: `hi` is the upper byte, `lo` the lower.
    pub open spec fn word(self) -> u16 {
        word_of(self.hi, self.lo)
    }

    /// The pair that reads as `word`.
    pub open spec fn of_word(word: u16) -> RegisterPair {
        RegisterPair { lo: low_byte(word), hi: high_byte(word) }
    }

    /// Reads the pair as one 16-bit register.
    pub fn as_u16(&self) -> (word: u16)
        ensures
            word == self.word(),
    {
        let hi: u16 = self.hi as u16;
        let lo: u16 = self.lo as u16;
        assert((hi << 8) | lo == (hi as int * 256 + lo as int) as u16) by (bit_vector)
            requires
                hi < 256,
                lo < 256,
        ;
        (hi << 8) | lo
    }

    /// Writes the pair as one 16-bit register.
    pub fn set_u16(&mut self, word: u16)
        ensures
            *final(self) == RegisterPair::of_word(word),
            final(self).word() == word,
    {
        assert((word >> 8) == word / 256 && (word & 0xff) == word % 256 && (word >> 8) < 256)
            by (bit_vector);
        self.hi = (word >> 8) as u8;
        self.lo = (word & 0xff) as u8;
    }
}

/// The two readings of a pair agree: the pair that reads as a word has that word's
/// bytes as its halves, and a pair is the pair of the word it reads as.
pub proof fn law_pair_readings_agree(pair: RegisterPair, word: u16)
    ensures
        RegisterPair::of_word(word).word() == word,
        RegisterPair::of_word(word).hi as int == word / 256,
        RegisterPair::of_word(word).lo as int == word % 256,
        RegisterPair::of_word(pair.word()) == pair,
        pair.word() as int == pair.hi * 256 + pair.lo,
{
}

impl Default for RegisterPair {
    fn default() -> (pair: RegisterPair)
        ensures
            pair == (RegisterPair { lo: 0, hi: 0 }),
    {
        RegisterPair { lo: 0, hi: 0 }
    }
}

/// The flags byte. Bit 7 is Zero, bit 6 Subtract, bit 5 Half-carry, bit 4 Carry; the
/// four low bits carry no meaning.
#[derive(Copy, Clone, Debug, PartialEq, Eq, Structural)]
pub struct RegisterF {
    pub f: u8,
}

impl Default for RegisterF {
    fn default() -> (flags: RegisterF)
        ensures
            flags == (RegisterF { f: 0 }),
    {
        RegisterF { f: 0 }
    }
}

/// The stack pointer.
#[derive(Copy, Clone, Debug, PartialEq, Eq, Structural)]
pub struct StackPointer {
    pub sp: u16,
}

impl Default for StackPointer {
    fn default() -> (sp: StackPointer)
        ensures
            sp == (StackPointer { sp: 0 }),
    {
        StackPointer { sp: 0 }
    }
}

impl Deref for StackPointer {
    type Target = u16;

    fn deref(&self) -> (sp: &u16)
        ensures
            *sp == self.sp,
    {
        &self.sp
    }
}

impl DerefMut for StackPointer {
    /// Exclusive access to the stack pointer: what the caller leaves in it is what
    /// the stack pointer then is.
    fn deref_mut(&mut self) -> (sp: &mut u16)
        ensures
            *sp == old(self).sp,
            *final(self) == (StackPointer { sp: *final(sp) }),
    {
        &mut self.sp
    }
}

/// The program counter.
#[derive(Copy, Clone, Debug, PartialEq, Eq, Structural)]
pub struct ProgramCounter {
    pub pc: u16,
}

impl Default for ProgramCounter {
    fn default() -> (pc: ProgramCounter)
        ensures
            pc == (ProgramCounter { pc: 0 }),
    {
        ProgramCounter { pc: 0 }
    }
}

impl Deref for ProgramCounter {
    type Target = u16;

    fn deref(&self) -> (pc: &u16)
        ensures
            *pc == self.pc,
    {
        &self.pc
    }
}

impl DerefMut for ProgramCounter {
    /// Exclusive access to the program counter: what the caller leaves in it is
    /// what the program counter then is.
    fn deref_mut(&mut self) -> (pc: &mut u16)
        ensures
            *pc == old(self).pc,
            *final(self) == (ProgramCounter { pc: *final(pc) }),
    {
        &mut self.pc
    }
}

/// The register file.
#[derive(Copy, Clone, Debug, PartialEq, Eq, Structural)]
pub struct Register {
    pub af: RegisterPair,
    pub bc: RegisterPair,
    pub de: RegisterPair,
    pub hl: RegisterPair,
    pub sp: StackPointer,
    pub pc: ProgramCounter,
}

impl Default for Register {
    fn default() -> (register: Register)
        ensures
            register == Register::zeroed(),
    {
        Register {
            af: RegisterPair::default(),
            bc: RegisterPair::default(),
            de: RegisterPair::default(),
            hl: RegisterPair::default(),
            sp: StackPointer::default(),
            pc: ProgramCounter::default(),
        }
    }
}

/// Access to the seven general 8-bit registers: by value on a register file, by
/// exclusive reference on `&mut Register`.
pub trait Register8 {
    type Output;

    fn a(self) -> Self::Output;

    fn b(self) -> Self::Output;

    fn c(self) -> Self::Output;

    fn d(self) -> Self::Output;

    fn e(self) -> Self::Output;

    fn h(self) -> Self::Output;

    fn l(self) -> Self::Output;
}

impl Register8 for Register {
    type Output = u8;

    fn a(self) -> (value: u8)
        ensures
            value == self.af.hi,
    {
        self.af.hi
    }

    fn b(self) -> (value: u8)
        ensures
            value == self.bc.hi,
    {
        self.bc.hi
    }

    fn c(self) -> (value: u8)
        ensures
            value == self.bc.lo,
    {
        self.bc.lo
    }

    fn d(self) -> (value: u8)
        ensures
            value == self.de.hi,
    {
        self.de.hi
    }

    fn e(self) -> (value: u8)
        ensures
            value == self.de.lo,
    {
        self.de.lo
    }

    fn h(self) -> (value: u8)
        ensures
            value == self.hl.hi,
    {
        self.hl.hi
    }

    fn l(self) -> (value: u8)
        ensures
            value == self.hl.lo,
    {
        self.hl.lo
    }
}

impl<'a> Register8 for &'a mut Register {
    type Output = &'a mut u8;

    fn a(self) -> (cell: &'a mut u8)
        ensures
            *cell == old(self).af.hi,
            *final(self) == (Register {
                af: RegisterPair { hi: *final(cell), ..old(self).af },
                ..*old(self)
            }),
    {
        &mut self.af.hi
    }

    fn b(self) -> (cell: &'a mut u8)
        ensures
            *cell == old(self).bc.hi,
            *final(self) == (Register {
                bc: RegisterPair { hi: *final(cell), ..old(self).bc },
                ..*old(self)
            }),
    {
        &mut self.bc.hi
    }

    fn c(self) -> (cell: &'a mut u8)
        ensures
            *cell == old(self).bc.lo,
            *final(self) == (Register {
                bc: RegisterPair { lo: *final(cell), ..old(self).bc },
                ..*old(self)
            }),
    {
        &mut self.bc.lo
    }

    fn d(self) -> (cell: &'a mut u8)
        ensures
            *cell == old(self).de.hi,
            *final(self) == (Register {
                de: RegisterPair { hi: *final(cell), ..old(self).de },
                ..*old(self)
            }),
    {
        &mut self.de.hi
    }

    fn e(self) -> (cell: &'a mut u8)
        ensures
            *cell == old(self).de.lo,
            *final(self) == (Register {
                de: RegisterPair { lo: *final(cell), ..old(self).de },
                ..*old(self)
            }),
    {
        &mut self.de.lo
    }

    fn h(self) -> (cell: &'a mut u8)
        ensures
            *cell == old(self).hl.hi,
            *final(self) == (Register {
                hl: RegisterPair { hi: *final(cell), ..old(self).hl },
                ..*old(self)
            }),
    {
        &mut self.hl.hi
    }

    fn l(self) -> (cell: &'a mut u8)
        ensures
            *cell == old(self).hl.lo,
            *final(self) == (Register {
                hl: RegisterPair { lo: *final(cell), ..old(self).hl },
                ..*old(self)
            }),
    {
        &mut self.hl.lo
    }
}

impl Register {
    /// The register file with every register zero.
    pub open spec fn zeroed() -> Register {
        Register {
            af: RegisterPair { lo: 0, hi: 0 },
            bc: RegisterPair { lo: 0, hi: 0 },
            de: RegisterPair { lo: 0, hi: 0 },
            hl: RegisterPair { lo: 0, hi: 0 },
            sp: StackPointer { sp: 0 },
            pc: ProgramCounter { pc: 0 },
        }
    }

    /// The flags byte: the low byte of AF.
    pub open spec fn flags(self) -> RegisterF {
        RegisterF { f: self.af.lo }
    }

    /// This register file with `flags` as its flags byte and nothing else changed.
    pub open spec fn with_flags(self, flags: RegisterF) -> Register {
        Register { af: RegisterPair { lo: flags.f, ..self.af }, ..self }
    }

    /// This register file with `pc` as its program counter and nothing else changed.
    pub open spec fn with_pc(self, pc: u16) -> Register {
        Register { pc: ProgramCounter { pc }, ..self }
    }

    /// This register file with `sp` as its stack pointer and nothing else changed.
    pub open spec fn with_sp(self, sp: u16) -> Register {
        Register { sp: StackPointer { sp }, ..self }
    }

    /// Reads the flags byte.
    pub fn f(&self) -> (flags: RegisterF)
        ensures
            flags == self.flags(),
    {
        RegisterF { f: self.af.lo }
    }

    /// Writes the flags byte. No other register changes.
    pub fn set_f(&mut self, flags: RegisterF)
        ensures
            *final(self) == old(self).with_flags(flags),
    {
        self.af.lo = flags.f;
    }
}

/// The flags byte is the low byte of AF and nothing else: writing it changes the low
/// byte of the word in AF and no other register, and it reads back as written.
pub proof fn law_flags_are_low_byte_of_af(register: Register, flags: RegisterF)
    ensures
        register.flags().f as int == register.af.word() % 256,
        register.with_flags(flags).flags() == flags,
        register.with_flags(flags).af.word() as int == register.af.hi * 256 + flags.f,
        register.with_flags(flags).af.hi == register.af.hi,
        register.with_flags(flags).bc == register.bc,
        register.with_flags(flags).de == register.de,
        register.with_flags(flags).hl == register.hl,
        register.with_flags(flags).sp == register.sp,
        register.with_flags(flags).pc == register.pc,
        register.with_flags(register.flags()) == register,
{
}

} // verus!
