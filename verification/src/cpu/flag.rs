//! Typed access to the single bits of the flags byte.
//!
//! A [`Value<F>`] holds a flags byte and lets its user read and change the one bit that
//! belongs to the flag `F`. Whatever is done through it, the other seven bits stay as
//! they were.

use super::register::RegisterF;
use core::marker::PhantomData;
use vstd::prelude::*;
use vstd::std_specs::convert::FromSpecImpl;

verus! {

/// Whether the bit at `offset` of `byte` is set.
pub open spec fn bit_of(byte: u8, offset: u8) -> bool {
    (byte >> offset) & 1u8 != 0
}

/// `byte` with the bit at `offset` made equal to `value` and every other bit kept.
pub open spec fn with_bit(byte: u8, offset: u8, value: bool) -> u8 {
    if value {
        byte | (1u8 << offset)
    } else {
        byte & !(1u8 << offset)
    }
}

/// A bit that was written reads back as written, and no other bit of the byte moves.
pub proof fn lemma_with_bit(byte: u8, offset: u8, value: bool, other: u8)
    requires
        offset < 8,
        other < 8,
    ensures
        bit_of(with_bit(byte, offset, value), offset) == value,
        other != offset ==> bit_of(with_bit(byte, offset, value), other) == bit_of(byte, other),
{
    assert(bit_of(byte | (1u8 << offset), offset)) by (bit_vector)
        requires
            offset < 8,
    ;
    assert(!bit_of(byte & !(1u8 << offset), offset)) by (bit_vector)
        requires
            offset < 8,
    ;
    assert(other != offset ==> bit_of(byte | (1u8 << offset), other) == bit_of(byte, other))
        by (bit_vector)
        requires
            offset < 8,
            other < 8,
    ;
    assert(other != offset ==> bit_of(byte & !(1u8 << offset), other) == bit_of(byte, other))
        by (bit_vector)
        requires
            offset < 8,
            other < 8,
    ;
}

/// Writing a bit that already has the written value changes nothing, and of two writes
/// to one bit the second decides.
pub proof fn lemma_with_bit_again(byte: u8, offset: u8, first: bool, second: bool)
    requires
        offset < 8,
    ensures
        with_bit(byte, offset, bit_of(byte, offset)) == byte,
        with_bit(with_bit(byte, offset, first), offset, second) == with_bit(byte, offset, second),
{
    assert(bit_of(byte, offset) ==> byte | (1u8 << offset) == byte) by (bit_vector)
        requires
            offset < 8,
    ;
    assert(!bit_of(byte, offset) ==> byte & !(1u8 << offset) == byte) by (bit_vector)
        requires
            offset < 8,
    ;
    let mask = 1u8 << offset;
    assert((byte | mask) | mask == byte | mask && (byte & !mask) | mask == byte | mask && (byte
        | mask) & !mask == byte & !mask && (byte & !mask) & !mask == byte & !mask) by (bit_vector);
}

/// Marks a type as the name of one bit of the flags byte.
pub trait Flag {
    /// The position of the flag's bit, counted from the least significant bit.
    spec fn spec_offset() -> u8;

    /// The flag's bit lies inside the byte.
    proof fn offset_in_byte()
        ensures
            Self::spec_offset() < 8,
    ;

    fn offset() -> (offset: u8)
        ensures
            offset == Self::spec_offset(),
    ;
}

/// Zero: the last result was zero.
#[derive(Debug, Copy, Clone)]
pub struct Z;

/// Subtract: the last operation was a subtraction.
#[derive(Debug, Copy, Clone)]
pub struct N;

/// Half-carry: the last operation carried out of the low nibble (of the low byte, for
/// a 16-bit operation).
#[derive(Debug, Copy, Clone)]
pub struct H;

/// Carry: the last operation carried out of the result.
#[derive(Debug, Copy, Clone)]
pub struct C;

/// Unused bit 3.
#[derive(Debug, Copy, Clone)]
pub struct _3;

/// Unused bit 2.
#[derive(Debug, Copy, Clone)]
pub struct _2;

/// Unused bit 1.
#[derive(Debug, Copy, Clone)]
pub struct _1;

/// Unused bit 0.
#[derive(Debug, Copy, Clone)]
pub struct _0;

impl Flag for Z {
    open spec fn spec_offset() -> u8 {
        7
    }

    proof fn offset_in_byte() {
    }

    fn offset() -> (offset: u8) {
        7
    }
}

impl Flag for N {
    open spec fn spec_offset() -> u8 {
        6
    }

    proof fn offset_in_byte() {
    }

    fn offset() -> (offset: u8) {
        6
    }
}

impl Flag for H {
    open spec fn spec_offset() -> u8 {
        5
    }

    proof fn offset_in_byte() {
    }

    fn offset() -> (offset: u8) {
        5
    }
}

impl Flag for C {
    open spec fn spec_offset() -> u8 {
        4
    }

    proof fn offset_in_byte() {
    }

    fn offset() -> (offset: u8) {
        4
    }
}

impl Flag for _3 {
    open spec fn spec_offset() -> u8 {
        3
    }

    proof fn offset_in_byte() {
    }

    fn offset() -> (offset: u8) {
        3
    }
}

impl Flag for _2 {
    open spec fn spec_offset() -> u8 {
        2
    }

    proof fn offset_in_byte() {
    }

    fn offset() -> (offset: u8) {
        2
    }
}

impl Flag for _1 {
    open spec fn spec_offset() -> u8 {
        1
    }

    proof fn offset_in_byte() {
    }

    fn offset() -> (offset: u8) {
        1
    }
}

impl Flag for _0 {
    open spec fn spec_offset() -> u8 {
        0
    }

    proof fn offset_in_byte() {
    }

    fn offset() -> (offset: u8) {
        0
    }
}

impl RegisterF {
    /// Whether the flag `T` is set in this byte.
    pub open spec fn has<T: Flag>(self) -> bool {
        bit_of(self.f, T::spec_offset())
    }

    /// This byte with the flag `T` made equal to `value` and the other bits kept.
    pub open spec fn with<T: Flag>(self, value: bool) -> RegisterF {
        RegisterF { f: with_bit(self.f, T::spec_offset(), value) }
    }

    /// The view of this byte that gives access to the flag `T` alone.
    pub fn flag<T: Flag>(&self, _flag: T) -> (value: Value<T>)
        ensures
            value@ == *self,
    {
        Value::new(self)
    }

    /// Makes the flag `T` equal to `value`. The other bits stay as they were.
    pub fn set_flag<T: Flag>(&mut self, flag: T, value: bool)
        ensures
            *final(self) == old(self).with::<T>(value),
    {
        let mut view = self.flag(flag);
        view.set_bool(value);
        *self = view.into_register();
    }
}

/// A flags byte seen through one flag: only the bit of `Flag` can be read or changed.
#[derive(Debug)]
pub struct Value<Flag> {
    is: RegisterF,
    phantom: PhantomData<Flag>,
}

impl<Flag> Clone for Value<Flag> {
    fn clone(&self) -> (copy: Self)
        ensures
            copy == *self,
    {
        Value { is: self.is, phantom: PhantomData }
    }
}

impl<Flag> Copy for Value<Flag> {

}

impl<Flag> View for Value<Flag> {
    type V = RegisterF;

    /// The whole flags byte that the value holds.
    closed spec fn view(&self) -> RegisterF {
        self.is
    }
}

impl<T: Flag> Value<T> {
    /// The view of `rf` through the flag `T`.
    pub fn new(rf: &RegisterF) -> (value: Value<T>)
        ensures
            value@ == *rf,
    {
        Value { is: *rf, phantom: PhantomData }
    }

    /// The flags byte with whatever was changed through this view.
    pub fn into_register(self) -> (rf: RegisterF)
        ensures
            rf == self@,
    {
        self.is
    }

    /// Sets flag `T` to the provided bool.
    ///
    /// `set` and `reset` should be preferred whenever possible, since they more clearly
    /// show intent.
    pub fn set_bool(&mut self, value: bool)
        ensures
            final(self)@ == old(self)@.with::<T>(value),
    {
        let offset: u8 = T::offset();
        let bit: u8 = if value {
            1
        } else {
            0
        };
        let byte: u8 = self.is.f;
        proof {
            T::offset_in_byte();
            assert(byte & !(1u8 << offset) | (bit << offset) == with_bit(byte, offset, value))
                by (bit_vector)
                requires
                    offset < 8,
                    bit == (if value {
                        1u8
                    } else {
                        0u8
                    }),
            ;
        }
        self.is.f = byte & !(1u8 << offset) | (bit << offset);
    }

    /// Reads the flag as a bool.
    pub fn as_bool(&self) -> (value: bool)
        ensures
            value == self@.has::<T>(),
    {
        let offset: u8 = T::offset();
        proof {
            T::offset_in_byte();
        }
        (self.is.f >> offset) & 1u8 != 0
    }

    /// Toggles the flag, i.e. `false` => `true` or vice versa.
    pub fn toggle(&mut self)
        ensures
            final(self)@ == old(self)@.with::<T>(!old(self)@.has::<T>()),
    {
        let offset: u8 = T::offset();
        let byte: u8 = self.is.f;
        proof {
            T::offset_in_byte();
            assert(byte ^ (1u8 << offset) == with_bit(byte, offset, !bit_of(byte, offset)))
                by (bit_vector)
                requires
                    offset < 8,
            ;
        }
        self.is.f = byte ^ (1u8 << offset);
    }

    /// Sets the flag to `true`.
    pub fn set(&mut self)
        ensures
            final(self)@ == old(self)@.with::<T>(true),
    {
        self.set_bool(true)
    }

    /// Resets the flag to `false`.
    pub fn reset(&mut self)
        ensures
            final(self)@ == old(self)@.with::<T>(false),
    {
        self.set_bool(false)
    }
}

impl<T: Flag> From<Value<T>> for bool {
    fn from(value: Value<T>) -> (flag: bool) {
        value.as_bool()
    }
}

impl<T: Flag> FromSpecImpl<Value<T>> for bool {
    open spec fn obeys_from_spec() -> bool {
        true
    }

    open spec fn from_spec(value: Value<T>) -> bool {
        value@.has::<T>()
    }
}

/// A flag reads as it was last written: after `set` it is true, after `reset` false,
/// after `set_bool(value)` it is `value`.
pub proof fn law_flag_reads_as_written<T: Flag>(rf: RegisterF, value: bool)
    ensures
        rf.with::<T>(value).has::<T>() == value,
        rf.with::<T>(true).has::<T>(),
        !rf.with::<T>(false).has::<T>(),
{
    T::offset_in_byte();
    lemma_with_bit(rf.f, T::spec_offset(), value, 0);
    lemma_with_bit(rf.f, T::spec_offset(), true, 0);
    lemma_with_bit(rf.f, T::spec_offset(), false, 0);
}

/// Toggling a flag inverts it, and toggling it twice gives back the byte from before.
pub proof fn law_toggle_twice<T: Flag>(rf: RegisterF)
    ensures
        rf.with::<T>(!rf.has::<T>()).has::<T>() == !rf.has::<T>(),
        ({
            let once = rf.with::<T>(!rf.has::<T>());
            once.with::<T>(!once.has::<T>()) == rf
        }),
{
    T::offset_in_byte();
    let offset = T::spec_offset();
    let flipped = !rf.has::<T>();
    lemma_with_bit(rf.f, offset, flipped, 0);
    lemma_with_bit_again(rf.f, offset, flipped, !flipped);
}

/// Writing the flag `T` changes the bit of no flag `U` that sits at another offset,
/// whatever is written.
pub proof fn law_other_flags_kept<T: Flag, U: Flag>(rf: RegisterF, value: bool)
    requires
        T::spec_offset() != U::spec_offset(),
    ensures
        rf.with::<T>(value).has::<U>() == rf.has::<U>(),
        rf.with::<T>(!rf.has::<T>()).has::<U>() == rf.has::<U>(),
{
    T::offset_in_byte();
    U::offset_in_byte();
    lemma_with_bit(rf.f, T::spec_offset(), value, U::spec_offset());
    lemma_with_bit(rf.f, T::spec_offset(), !rf.has::<T>(), U::spec_offset());
}

} // verus!
