//! The two widths of arithmetic: bytes and words.
//!
//! An instruction that works for both widths is written once, over [`Integer`]. Its
//! contract speaks of the numbers that the values stand for, so that it reads the same
//! for both.

use crate::cpu::flag::Z;
use crate::cpu::register::RegisterF;
use num_traits::{One, WrappingSub, Zero};
use vstd::prelude::*;

verus! {

/// Whether the Carry flag takes part in an addition or subtraction.
#[derive(Debug, Copy, Clone, PartialEq, Eq, Structural)]
pub enum Carry {
    Without,
    With,
}

impl Carry {
    /// What a set Carry flag counts for in the operation: 0 without, 1 with.
    pub open spec fn to_int(self) -> int {
        match self {
            Carry::Without => 0,
            Carry::With => 1,
        }
    }
}

/// `num_traits::Zero::zero` for `u8`: the number 0.
#[verifier::external_body]
fn zero_u8() -> (zero: u8)
    ensures
        zero == 0,
{
    Zero::zero()
}

/// `num_traits::Zero::zero` for `u16`: the number 0.
#[verifier::external_body]
fn zero_u16() -> (zero: u16)
    ensures
        zero == 0,
{
    Zero::zero()
}

/// `num_traits::One::one` for `u8`: the number 1.
#[verifier::external_body]
fn one_u8() -> (one: u8)
    ensures
        one == 1,
{
    One::one()
}

/// `num_traits::One::one` for `u16`: the number 1.
#[verifier::external_body]
fn one_u16() -> (one: u16)
    ensures
        one == 1,
{
    One::one()
}

/// `num_traits::WrappingSub::wrapping_sub` for `u8`: the difference modulo 256.
#[verifier::external_body]
fn wrapping_sub_u8(x: u8, y: u8) -> (difference: u8)
    ensures
        difference == (x - y) % 0x100,
{
    WrappingSub::wrapping_sub(&x, &y)
}

/// `num_traits::WrappingSub::wrapping_sub` for `u16`: the difference modulo 65536.
#[verifier::external_body]
fn wrapping_sub_u16(x: u16, y: u16) -> (difference: u16)
    ensures
        difference == (x - y) % 0x1_0000,
{
    WrappingSub::wrapping_sub(&x, &y)
}

/// An unsigned machine integer of a fixed width.
pub trait Integer: Copy {
    /// The step count of an arithmetic instruction of this width.
    spec fn spec_cycles() -> u8;

    /// The bit that a carry out of the low half of a value arrives at, as a number:
    /// the low half of a value is the value modulo this.
    spec fn half() -> int;

    /// The number that the value stands for.
    spec fn to_int(self) -> int;

    /// The value that stands for the number `i`.
    spec fn of_int(i: int) -> Self;

    /// How many values the type has: every value stands for a number below this.
    spec fn modulus() -> int;

    /// Bitwise exclusive or.
    spec fn xor(self, rhs: Self) -> Self;

    /// Bitwise and.
    spec fn and(self, rhs: Self) -> Self;

    /// Bitwise or.
    spec fn or(self, rhs: Self) -> Self;

    /// Values and the numbers below the modulus stand for each other, one for one.
    proof fn lemma_numbers(x: Self, i: int)
        ensures
            0 <= x.to_int() < Self::modulus(),
            Self::of_int(x.to_int()) == x,
            0 <= i < Self::modulus() ==> Self::of_int(i).to_int() == i,
            0 < Self::half() < Self::modulus(),
            Self::modulus() > 2,
    ;

    /// Adding `y` and then a carry of 0 or 1, each time modulo the modulus, is adding
    /// all three at once; one of the two steps overflows exactly if the sum of the
    /// three does; and the exclusive or of the operands and the result shows at the
    /// half-carry bit whether the low halves carried.
    proof fn lemma_add_in_two_steps(x: Self, y: Self, carry: int)
        requires
            0 <= carry <= 1,
        ensures
            ({
                let first = (x.to_int() + y.to_int()) % Self::modulus();
                let sum = x.to_int() + y.to_int() + carry;
                let res = Self::of_int(sum % Self::modulus());
                let half = Self::half();
                &&& Self::of_int((first + carry) % Self::modulus()) == res
                &&& Self::of_int(first).to_int() == first
                &&& (x.to_int() + y.to_int() >= Self::modulus() || first + carry
                    >= Self::modulus()) == (sum >= Self::modulus())
                &&& (x.xor(y).xor(res).and(Self::of_int(half)) != Self::of_int(0)) == (
                x.to_int() % half + y.to_int() % half + carry >= half)
            }),
    ;

    fn cycles() -> (cycles: u8)
        ensures
            cycles == Self::spec_cycles(),
    ;

    fn half_carry_flag() -> (flag: Self)
        ensures
            flag == Self::of_int(Self::half()),
    ;

    fn from_carry(carry: Carry) -> (value: Self)
        ensures
            value == Self::of_int(carry.to_int()),
    ;

    /// Sets the Zero flag exactly if `res` is 0.
    fn set_zero_flag(f: &mut RegisterF, res: Self)
        ensures
            *final(f) == old(f).with::<Z>(res == Self::of_int(0)),
    ;

    /// The sum modulo the modulus, and whether the sum reached the modulus.
    fn overflowing_add(self, rhs: Self) -> (sum: (Self, bool))
        ensures
            sum.0 == Self::of_int((self.to_int() + rhs.to_int()) % Self::modulus()),
            sum.1 == (self.to_int() + rhs.to_int() >= Self::modulus()),
    ;

    /// The difference modulo the modulus, and whether `rhs` was the larger.
    fn overflowing_sub(self, rhs: Self) -> (difference: (Self, bool))
        ensures
            difference.0 == Self::of_int((self.to_int() - rhs.to_int()) % Self::modulus()),
            difference.1 == (self.to_int() < rhs.to_int()),
    ;

    fn zero() -> (zero: Self)
        ensures
            zero == Self::of_int(0),
    ;

    fn one() -> (one: Self)
        ensures
            one == Self::of_int(1),
    ;

    /// The sum modulo the modulus.
    fn wrapping_add(self, rhs: Self) -> (sum: Self)
        ensures
            sum == Self::of_int((self.to_int() + rhs.to_int()) % Self::modulus()),
    ;

    /// The difference modulo the modulus.
    fn wrapping_sub(self, rhs: Self) -> (difference: Self)
        ensures
            difference == Self::of_int((self.to_int() - rhs.to_int()) % Self::modulus()),
    ;

    fn bitxor(self, rhs: Self) -> (bits: Self)
        ensures
            bits == self.xor(rhs),
    ;

    fn bitand(self, rhs: Self) -> (bits: Self)
        ensures
            bits == self.and(rhs),
    ;

    fn bitor(self, rhs: Self) -> (bits: Self)
        ensures
            bits == self.or(rhs),
    ;

    fn equals(self, rhs: Self) -> (same: bool)
        ensures
            same == (self == rhs),
    ;
}

impl Integer for u16 {
    open spec fn spec_cycles() -> u8 {
        2
    }

    open spec fn half() -> int {
        0x100
    }

    open spec fn to_int(self) -> int {
        self as int
    }

    open spec fn of_int(i: int) -> u16 {
        i as u16
    }

    open spec fn modulus() -> int {
        0x1_0000
    }

    open spec fn xor(self, rhs: u16) -> u16 {
        self ^ rhs
    }

    open spec fn and(self, rhs: u16) -> u16 {
        self & rhs
    }

    open spec fn or(self, rhs: u16) -> u16 {
        self | rhs
    }

    proof fn lemma_numbers(x: u16, i: int) {
    }

    proof fn lemma_add_in_two_steps(x: u16, y: u16, carry: int) {
        let c = carry as u16;
        let sum = (x + y + c) as u32;
        let res = ((x + y + carry) % 0x1_0000) as u16;
        assert(((x ^ y ^ res) & 0x100u16 != 0u16) == ((x & 0xffu16) + (y & 0xffu16) + c > 0xffu16))
            by (bit_vector)
            requires
                c <= 1u16,
                sum == (x + y + c) as u32,
                res as u32 == sum % 0x1_0000u32,
        ;
        assert(x & 0xffu16 == x % 0x100u16 && y & 0xffu16 == y % 0x100u16) by (bit_vector);
    }

    fn cycles() -> (cycles: u8) {
        2
    }

    fn half_carry_flag() -> (flag: u16) {
        0x100
    }

    fn from_carry(carry: Carry) -> (value: u16) {
        match carry {
            Carry::Without => 0,
            Carry::With => 1,
        }
    }

    fn set_zero_flag(f: &mut RegisterF, res: u16) {
        f.set_flag(Z, res == 0);
    }

    fn overflowing_add(self, rhs: u16) -> (sum: (u16, bool)) {
        (u16::wrapping_add(self, rhs), u16::checked_add(self, rhs).is_none())
    }

    fn overflowing_sub(self, rhs: u16) -> (difference: (u16, bool)) {
        (u16::wrapping_sub(self, rhs), u16::checked_sub(self, rhs).is_none())
    }

    fn zero() -> (zero: u16) {
        zero_u16()
    }

    fn one() -> (one: u16) {
        one_u16()
    }

    fn wrapping_add(self, rhs: u16) -> (sum: u16) {
        u16::wrapping_add(self, rhs)
    }

    fn wrapping_sub(self, rhs: u16) -> (difference: u16) {
        wrapping_sub_u16(self, rhs)
    }

    fn bitxor(self, rhs: u16) -> (bits: u16) {
        self ^ rhs
    }

    fn bitand(self, rhs: u16) -> (bits: u16) {
        self & rhs
    }

    fn bitor(self, rhs: u16) -> (bits: u16) {
        self | rhs
    }

    fn equals(self, rhs: u16) -> (same: bool) {
        self == rhs
    }
}

impl Integer for u8 {
    open spec fn spec_cycles() -> u8 {
        1
    }

    open spec fn half() -> int {
        0x10
    }

    open spec fn to_int(self) -> int {
        self as int
    }

    open spec fn of_int(i: int) -> u8 {
        i as u8
    }

    open spec fn modulus() -> int {
        0x100
    }

    open spec fn xor(self, rhs: u8) -> u8 {
        self ^ rhs
    }

    open spec fn and(self, rhs: u8) -> u8 {
        self & rhs
    }

    open spec fn or(self, rhs: u8) -> u8 {
        self | rhs
    }

    proof fn lemma_numbers(x: u8, i: int) {
    }

    proof fn lemma_add_in_two_steps(x: u8, y: u8, carry: int) {
        let c = carry as u8;
        let sum = (x + y + c) as u16;
        let res = ((x + y + carry) % 0x100) as u8;
        assert(((x ^ y ^ res) & 0x10u8 != 0u8) == ((x & 0xfu8) + (y & 0xfu8) + c > 0xfu8))
            by (bit_vector)
            requires
                c <= 1u8,
                sum == (x + y + c) as u16,
                res as u16 == sum % 0x100u16,
        ;
        assert(x & 0xfu8 == x % 0x10u8 && y & 0xfu8 == y % 0x10u8) by (bit_vector);
    }

    fn cycles() -> (cycles: u8) {
        1
    }

    fn half_carry_flag() -> (flag: u8) {
        0x10
    }

    fn from_carry(carry: Carry) -> (value: u8) {
        match carry {
            Carry::Without => 0,
            Carry::With => 1,
        }
    }

    fn set_zero_flag(f: &mut RegisterF, res: u8) {
        f.set_flag(Z, res == 0);
    }

    fn overflowing_add(self, rhs: u8) -> (sum: (u8, bool)) {
        (u8::wrapping_add(self, rhs), u8::checked_add(self, rhs).is_none())
    }

    fn overflowing_sub(self, rhs: u8) -> (difference: (u8, bool)) {
        (u8::wrapping_sub(self, rhs), u8::checked_sub(self, rhs).is_none())
    }

    fn zero() -> (zero: u8) {
        zero_u8()
    }

    fn one() -> (one: u8) {
        one_u8()
    }

    fn wrapping_add(self, rhs: u8) -> (sum: u8) {
        u8::wrapping_add(self, rhs)
    }

    fn wrapping_sub(self, rhs: u8) -> (difference: u8) {
        wrapping_sub_u8(self, rhs)
    }

    fn bitxor(self, rhs: u8) -> (bits: u8) {
        self ^ rhs
    }

    fn bitand(self, rhs: u8) -> (bits: u8) {
        self & rhs
    }

    fn bitor(self, rhs: u8) -> (bits: u8) {
        self | rhs
    }

    fn equals(self, rhs: u8) -> (same: bool) {
        self == rhs
    }
}

} // verus!
