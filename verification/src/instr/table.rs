//! What each opcode means.
//!
//! Most of the opcode space is regular: three bits of the opcode name a place that
//! holds a byte, two bits name a register pair, three bits name an arithmetic
//! family. The table is written down here by that structure; the dispatch in
//! [`execute`](super::execute) is held against it opcode by opcode.

use super::alu::{
    add_spec, and_spec, bit_spec, dec16_spec, dec_spec, inc16_spec, inc_spec, law_xor_with_itself,
    or_spec, sub_spec, xor_spec,
};
use crate::cpu::flag::{C, H, N, Z};
use super::integer::Carry;
use super::operand::{
    AddrOf, Flags, Immediate16, Immediate8, Plus, PostDec, PostInc, R16, R8,
};
use super::{call_spec, jump16_spec, jump_spec, load_spec, pop_spec, push_spec};
use crate::cpu::register::RegisterF;
use crate::error::Error;
use crate::mem::{read_byte, write_byte, Read, Write};
use crate::Machine;
use vstd::prelude::*;

verus! {

/// A machine and what the instruction returned on it.
pub type Outcome = (Machine, Result<u8, Error>);

/// The low three bits of an opcode, as a number.
pub open spec fn column(opcode: u8) -> int {
    opcode as int % 8
}

/// The three bits above the low three of an opcode, as a number.
pub open spec fn row(opcode: u8) -> int {
    (opcode as int / 8) % 8
}

/// An opcode is made of a quarter, a row and a column.
pub proof fn lemma_row_and_column(opcode: u8)
    ensures
        0 <= row(opcode) < 8,
        0 <= column(opcode) < 8,
        opcode < 0x40 ==> opcode == 8 * row(opcode) + column(opcode),
        0x40 <= opcode < 0x80 ==> opcode == 0x40 + 8 * row(opcode) + column(opcode),
        0x80 <= opcode < 0xC0 ==> opcode == 0x80 + 8 * row(opcode) + column(opcode),
        0xC0 <= opcode ==> opcode == 0xC0 + 8 * row(opcode) + column(opcode),
{
}

/// One of the eight places that three bits of an opcode can name.
pub enum Place {
    /// One of the seven general registers.
    Register(R8),
    /// The byte of memory at the address in HL.
    AtHL,
}

impl Place {
    /// The place that the number names: B, C, D, E, H, L, the byte at HL, A.
    pub open spec fn of(index: int) -> Place {
        if index == 0 {
            Place::Register(R8::B)
        } else if index == 1 {
            Place::Register(R8::C)
        } else if index == 2 {
            Place::Register(R8::D)
        } else if index == 3 {
            Place::Register(R8::E)
        } else if index == 4 {
            Place::Register(R8::H)
        } else if index == 5 {
            Place::Register(R8::L)
        } else if index == 6 {
            Place::AtHL
        } else {
            Place::Register(R8::A)
        }
    }

    /// The byte in the place.
    pub open spec fn value(self, m: Machine) -> u8 {
        match self {
            Place::Register(r) => r.get(m.register),
            Place::AtHL => read_byte(m.mem, m.register.hl.word()),
        }
    }

    /// The machine with `value` in the place.
    pub open spec fn stored(self, m: Machine, value: u8) -> Machine {
        match self {
            Place::Register(r) => Machine { register: r.set(m.register, value), ..m },
            Place::AtHL => m.with_mem(write_byte(m.mem, m.register.hl.word(), value)),
        }
    }
}

/// The register that two bits of an opcode name: BC, DE, HL, SP.
pub open spec fn pair_of(index: int) -> R16 {
    if index == 0 {
        R16::BC
    } else if index == 1 {
        R16::DE
    } else if index == 2 {
        R16::HL
    } else {
        R16::SP
    }
}

/// The address that two bits of an opcode name, and the machine once the address has
/// been taken: the word in BC, the word in DE, the word in HL with HL then
/// incremented, the word in HL with HL then decremented.
pub open spec fn pointer_of(index: int, m: Machine) -> (u16, Machine) {
    if index == 0 {
        (m.register.bc.word(), m)
    } else if index == 1 {
        (m.register.de.word(), m)
    } else if index == 2 {
        (m.register.hl.word(), PostInc(R16::HL).after(m))
    } else {
        (m.register.hl.word(), PostDec(R16::HL).after(m))
    }
}

/// The condition that two bits of an opcode name: Zero clear, Zero set, Carry clear,
/// Carry set.
pub open spec fn condition_of(index: int) -> Flags {
    if index == 0 {
        Flags::NZ
    } else if index == 1 {
        Flags::Z
    } else if index == 2 {
        Flags::NC
    } else {
        Flags::C
    }
}

/// The result and the flags of the arithmetic family that three bits of an opcode
/// name: add, add with carry, subtract, subtract with carry, and, exclusive or, or,
/// compare. A comparison has the flags of a subtraction and the first operand as its
/// result.
pub open spec fn family_of(index: int, x: u8, y: u8, f: RegisterF) -> (u8, RegisterF) {
    if index == 0 {
        add_spec::<u8>(x, y, Carry::Without, f)
    } else if index == 1 {
        add_spec::<u8>(x, y, Carry::With, f)
    } else if index == 2 {
        sub_spec(x, y, Carry::Without, f)
    } else if index == 3 {
        sub_spec(x, y, Carry::With, f)
    } else if index == 4 {
        and_spec::<u8>(x, y, f)
    } else if index == 5 {
        xor_spec::<u8>(x, y, f)
    } else if index == 6 {
        or_spec::<u8>(x, y, f)
    } else {
        (x, sub_spec(x, y, Carry::Without, f).1)
    }
}

/// The opcodes that name no instruction of the processor.
pub open spec fn is_unmapped(opcode: u8) -> bool {
    opcode == 0xD3 || opcode == 0xDB || opcode == 0xDD || opcode == 0xE3 || opcode == 0xE4
        || opcode == 0xEB || opcode == 0xEC || opcode == 0xED || opcode == 0xF4 || opcode
        == 0xFC || opcode == 0xFD
}

/// An instruction that is not written yet: it fails and leaves the machine `m` as
/// it is.
pub open spec fn unimplemented(m: Machine) -> Outcome {
    (m, Err(Error::Unimplemented))
}

/// An arithmetic instruction of the given family on A and the byte `y`, in one step.
pub open spec fn arithmetic(family: int, y: u8, m: Machine) -> Outcome {
    let outcome = family_of(family, m.register.af.hi, y, m.flags());
    (Place::Register(R8::A).stored(m.with_flags(outcome.1), outcome.0), Ok(1))
}

/// A relative jump on the condition `flags`.
pub open spec fn relative_jump(flags: Flags, m: Machine) -> Outcome {
    (jump_spec(flags, Immediate8, m).0, Ok(jump_spec(flags, Immediate8, m).1))
}

/// A jump by the word that follows the opcode, on the condition `flags`.
pub open spec fn word_jump(flags: Flags, m: Machine) -> Outcome {
    (jump16_spec(flags, Immediate16, m).0, Ok(jump16_spec(flags, Immediate16, m).1))
}

/// The opcodes below 0x40, by the low three bits of the opcode (the column) and the
/// three bits above them (the row).
pub open spec fn first_quarter(opcode: u8, m: Machine) -> Outcome {
    let row = row(opcode);
    let column = column(opcode);
    if column == 0 {
        if row == 0 {
            (m, Ok(1))
        } else if row == 3 {
            relative_jump(Flags::Always, m)
        } else if row >= 4 {
            relative_jump(condition_of(row - 4), m)
        } else {
            unimplemented(m)
        }
    } else if column == 1 {
        if row % 2 == 0 {
            (load_spec(pair_of(row / 2), Immediate16, m), Ok(3))
        } else {
            let hl = m.register.hl.word();
            let outcome = add_spec::<u16>(
                hl,
                pair_of(row / 2).get(m.register),
                Carry::Without,
                m.flags(),
            );
            (R16::HL.stored(m.with_flags(outcome.1), outcome.0), Ok(2))
        }
    } else if column == 2 {
        let (address, taken) = pointer_of(row / 2, m);
        if row % 2 == 0 {
            (taken.with_mem(write_byte(taken.mem, address, m.register.af.hi)), Ok(1))
        } else {
            (Place::Register(R8::A).stored(taken, read_byte(taken.mem, address)), Ok(1))
        }
    } else if column == 3 {
        let pair = pair_of(row / 2);
        let word = pair.get(m.register);
        if row % 2 == 0 {
            (pair.stored(m, inc16_spec(word, m.flags()).0), Ok(2))
        } else {
            (pair.stored(m, dec16_spec(word, m.flags()).0), Ok(2))
        }
    } else if column == 4 {
        let place = Place::of(row);
        let outcome = inc_spec(place.value(m), m.flags());
        (place.stored(m.with_flags(outcome.1), outcome.0), Ok(1))
    } else if column == 5 {
        let place = Place::of(row);
        let outcome = dec_spec(place.value(m), m.flags());
        (place.stored(m.with_flags(outcome.1), outcome.0), Ok(1))
    } else if column == 6 {
        (Place::of(row).stored(m, Immediate8.value(m)), Ok(2))
    } else {
        unimplemented(m)
    }
}

/// The opcodes from 0x40 to 0x7F: a load from the place that the low three bits name
/// into the place that the three bits above them name. The one opcode that would
/// load the byte at HL into itself halts instead, which is not written yet.
pub open spec fn second_quarter(opcode: u8, m: Machine) -> Outcome {
    if opcode == 0x76 {
        unimplemented(m)
    } else {
        (
            Place::of(row(opcode)).stored(m, Place::of(column(opcode)).value(m)),
            Ok(1),
        )
    }
}

/// The opcodes from 0x80 to 0xBF: the arithmetic family that the three bits above
/// the low three name, on A and the place that the low three bits name.
pub open spec fn third_quarter(opcode: u8, m: Machine) -> Outcome {
    arithmetic(row(opcode), Place::of(column(opcode)).value(m), m)
}

/// The opcodes from 0xC0 on, but for the escape to the second table.
pub open spec fn last_quarter(opcode: u8, m: Machine) -> Outcome {
    if column(opcode) == 6 {
        arithmetic(row(opcode), Immediate8.value(m), m)
    } else if opcode == 0xC1 {
        (pop_spec(R16::BC, m), Ok(1))
    } else if opcode == 0xC3 {
        word_jump(Flags::Always, m)
    } else if opcode == 0xC2 || opcode == 0xCA || opcode == 0xD2 || opcode == 0xDA {
        word_jump(condition_of(row(opcode)), m)
    } else if opcode == 0xC5 {
        (push_spec(R16::BC, m), Ok(1))
    } else if opcode == 0xD5 {
        (push_spec(R16::DE, m), Ok(1))
    } else if opcode == 0xE5 {
        (push_spec(R16::HL, m), Ok(1))
    } else if opcode == 0xF5 {
        (push_spec(R16::AF, m), Ok(1))
    } else if opcode == 0xCD {
        (call_spec(Immediate16, m), Ok(0))
    } else if opcode == 0xE0 {
        (load_spec(AddrOf(Immediate8), R8::A, m), Ok(1))
    } else if opcode == 0xE2 {
        (load_spec(AddrOf(R8::C), R8::A, m), Ok(1))
    } else if opcode == 0xEA {
        (load_spec(AddrOf(Immediate16), R8::A, m), Ok(1))
    } else if opcode == 0xF0 {
        (load_spec(R8::A, AddrOf(Immediate8), m), Ok(1))
    } else if opcode == 0xF2 {
        (load_spec(R8::A, AddrOf(R8::C), m), Ok(1))
    } else if opcode == 0xFA {
        (load_spec(R8::A, AddrOf(Immediate16), m), Ok(1))
    } else if opcode == 0xF3 || opcode == 0xFB {
        (m, Ok(1))
    } else if opcode == 0xF8 {
        (load_spec(R16::HL, Plus(R16::SP, Immediate8), m), Ok(1))
    } else if opcode == 0xF9 {
        (load_spec(R16::SP, R16::HL, m), Ok(1))
    } else {
        unimplemented(m)
    }
}

/// What the instruction of the second table with the given opcode does to the
/// machine `m`. From 0x40 to 0x7F that is a test of the bit that the three bits above
/// the low three name, in the place that the low three bits name, in two steps. The
/// rest is not written yet.
pub open spec fn extended_spec(opcode: u8, m: Machine) -> Outcome {
    if 0x40 <= opcode < 0x80 {
        (
            m.with_flags(
                bit_spec(row(opcode) as u8, Place::of(column(opcode)).value(m), m.flags()),
            ),
            Ok(2),
        )
    } else {
        unimplemented(m)
    }
}

/// The escape to the second table: the program counter moves on by one, the byte it
/// then points at is the opcode, and the instruction that it names in the second
/// table is carried out.
pub open spec fn extended(m: Machine) -> Outcome {
    let at = m.advanced(1);
    extended_spec(at.next_opcode(), at)
}

/// What the instruction with the given opcode does to the machine `m` and what it
/// returns: its step count, or the error that stops the run.
pub open spec fn execute_spec(opcode: u8, m: Machine) -> Outcome {
    if is_unmapped(opcode) {
        (m, Err(Error::UnmappedOpcode(opcode)))
    } else if opcode == 0xCB {
        extended(m)
    } else if opcode < 0x40 {
        first_quarter(opcode, m)
    } else if opcode < 0x80 {
        second_quarter(opcode, m)
    } else if opcode < 0xC0 {
        third_quarter(opcode, m)
    } else {
        last_quarter(opcode, m)
    }
}

/// A comparison changes nothing but the flags: A, which is its left operand, holds
/// afterwards what it held before, whatever the operands are, equal or not. The
/// flags are those of the subtraction of the right operand from A.
pub proof fn law_compare_keeps_operand(opcode: u8, m: Machine)
    requires
        0xB8 <= opcode <= 0xBF || opcode == 0xFE,
    ensures
        ({
            let (after, steps) = execute_spec(opcode, m);
            let y = if opcode == 0xFE {
                Immediate8.value(m)
            } else {
                Place::of(column(opcode)).value(m)
            };
            &&& steps == Ok::<u8, Error>(1)
            &&& after.register.af.hi == m.register.af.hi
            &&& after.flags() == sub_spec(m.register.af.hi, y, Carry::Without, m.flags()).1
            &&& after.register.bc == m.register.bc
            &&& after.register.de == m.register.de
            &&& after.register.hl == m.register.hl
            &&& after.register.sp == m.register.sp
            &&& after.register.pc == m.register.pc
            &&& after.mem == m.mem
        }),
{
    lemma_row_and_column(opcode);
}

/// The exclusive or of A with itself leaves 0 in A and sets Zero, whatever A held; the
/// other three named flags are cleared and nothing else changes.
pub proof fn law_xor_a_with_itself(m: Machine)
    ensures
        ({
            let (after, steps) = execute_spec(0xAF, m);
            &&& steps == Ok::<u8, Error>(1)
            &&& after.register.af.hi == 0
            &&& after.flags().has::<Z>()
            &&& !after.flags().has::<N>()
            &&& !after.flags().has::<H>()
            &&& !after.flags().has::<C>()
            &&& after.register.bc == m.register.bc
            &&& after.register.de == m.register.de
            &&& after.register.hl == m.register.hl
            &&& after.register.sp == m.register.sp
            &&& after.register.pc == m.register.pc
            &&& after.mem == m.mem
        }),
{
    lemma_row_and_column(0xAF);
    law_xor_with_itself(m.register.af.hi, m.flags());
}

/// A load between two registers copies the byte and changes nothing else, and the
/// source keeps its value.
pub proof fn law_load_copies(opcode: u8, m: Machine)
    requires
        0x40 <= opcode <= 0x7F,
        row(opcode) != 6,
        column(opcode) != 6,
    ensures
        ({
            let (after, steps) = execute_spec(opcode, m);
            let to = Place::of(row(opcode));
            let from = Place::of(column(opcode));
            &&& steps == Ok::<u8, Error>(1)
            &&& to.value(after) == from.value(m)
            &&& from.value(after) == from.value(m)
            &&& after.flags() == m.flags()
            &&& after.register.pc == m.register.pc
            &&& after.register.sp == m.register.sp
            &&& after.mem == m.mem
        }),
{
    lemma_row_and_column(opcode);
}

/// An increment or a decrement of a register acts on the register that the row of
/// its opcode names, and on the flags: B, C, D, E, H, L and A for the rows 0 to 5 and
/// 7. No other register changes, nor the stack pointer, the program counter or
/// memory.
pub proof fn law_step_acts_on_named_register(opcode: u8, m: Machine, other: R8)
    requires
        opcode < 0x40,
        column(opcode) == 4 || column(opcode) == 5,
        row(opcode) != 6,
    ensures
        ({
            let (after, steps) = execute_spec(opcode, m);
            let named = Place::of(row(opcode))->0;
            let outcome = if column(opcode) == 4 {
                inc_spec(named.get(m.register), m.flags())
            } else {
                dec_spec(named.get(m.register), m.flags())
            };
            &&& Place::of(row(opcode)) is Register
            &&& steps == Ok::<u8, Error>(1)
            &&& named.get(after.register) == outcome.0
            &&& after.flags() == outcome.1
            &&& other != named ==> other.get(after.register) == other.get(m.register)
            &&& after.register.sp == m.register.sp
            &&& after.register.pc == m.register.pc
            &&& after.mem == m.mem
        }),
{
    lemma_row_and_column(opcode);
}

/// An instruction that fails has changed nothing, but for a failure in the second
/// table: there the escape has moved the program counter on by one, and nothing else
/// has changed.
pub proof fn law_failure_leaves_machine(opcode: u8, m: Machine)
    requires
        execute_spec(opcode, m).1 is Err,
    ensures
        opcode != 0xCB ==> execute_spec(opcode, m).0 == m,
        opcode == 0xCB ==> execute_spec(opcode, m).0 == m.advanced(1),
{
    lemma_row_and_column(opcode);
}

} // verus!
