//! What the arithmetic and logic instructions compute: a result and the flags after
//! it, from two values and the flags before.
//!
//! Each function names every flag that its instruction decides. The bits it does not
//! name are those of the flags it was given.

use super::integer::{Carry, Integer};
use crate::cpu::flag::{
    bit_of, law_flag_reads_as_written, law_other_flags_kept, C, H, N, Z, _0, _1, _2, _3,
};
use crate::cpu::register::RegisterF;
use vstd::prelude::*;

verus! {

/// The carry that comes into an addition or subtraction: 1 if the instruction takes
/// the Carry flag into account and the flag is set, else 0.
pub open spec fn carry_in(carry: Carry, f: RegisterF) -> int {
    if carry == Carry::With && f.has::<C>() {
        1
    } else {
        0
    }
}

/// Addition, of either width. The result is the sum of the operands and the incoming
/// carry, modulo the width. Carry tells that the sum did not fit; Half-carry that the
/// sum of the low halves did not fit the low half; Subtract is cleared; Zero tells
/// that the result is 0.
pub open spec fn add_spec<Num: Integer>(x: Num, y: Num, carry: Carry, f: RegisterF) -> (
    Num,
    RegisterF,
) {
    let c = carry_in(carry, f);
    let sum = x.to_int() + y.to_int() + c;
    let half = Num::half();
    let res = Num::of_int(sum % Num::modulus());
    (
        res,
        f.with::<Z>(res == Num::of_int(0)).with::<N>(false).with::<H>(
            x.to_int() % half + y.to_int() % half + c >= half,
        ).with::<C>(sum >= Num::modulus()),
    )
}

/// Subtraction of bytes. The result is the first operand less the second and the
/// incoming carry, modulo 256. Carry tells that a borrow was needed; Half-carry that
/// the low nibble needed one; Subtract is set; Zero tells that the result is 0.
pub open spec fn sub_spec(x: u8, y: u8, carry: Carry, f: RegisterF) -> (u8, RegisterF) {
    let c = carry_in(carry, f);
    let res = ((x - y - c) % 0x100) as u8;
    (
        res,
        f.with::<Z>(res == 0).with::<N>(true).with::<H>(x % 0x10 < y % 0x10 + c).with::<C>(
            x < y + c,
        ),
    )
}

/// Bitwise exclusive or. Zero tells that the result is 0; the other three named flags
/// are cleared.
pub open spec fn xor_spec<Num: Integer>(x: Num, y: Num, f: RegisterF) -> (Num, RegisterF) {
    let res = x.xor(y);
    (
        res,
        f.with::<Z>(res == Num::of_int(0)).with::<N>(false).with::<H>(false).with::<C>(false),
    )
}

/// Bitwise and. Zero tells that the result is 0; Half-carry is set; Subtract and
/// Carry are cleared.
pub open spec fn and_spec<Num: Integer>(x: Num, y: Num, f: RegisterF) -> (Num, RegisterF) {
    let res = x.and(y);
    (
        res,
        f.with::<Z>(res == Num::of_int(0)).with::<N>(false).with::<H>(true).with::<C>(false),
    )
}

/// Bitwise or. Zero tells that the result is 0; the other three named flags are
/// cleared.
pub open spec fn or_spec<Num: Integer>(x: Num, y: Num, f: RegisterF) -> (Num, RegisterF) {
    let res = x.or(y);
    (
        res,
        f.with::<Z>(res == Num::of_int(0)).with::<N>(false).with::<H>(false).with::<C>(false),
    )
}

/// Increment of a byte: as an addition of 1, but Carry is not touched.
pub open spec fn inc_spec(x: u8, f: RegisterF) -> (u8, RegisterF) {
    let res = ((x + 1) % 0x100) as u8;
    (res, f.with::<Z>(res == 0).with::<N>(false).with::<H>(x % 0x10 == 0xF))
}

/// Decrement of a byte: as a subtraction of 1, but Carry is not touched.
pub open spec fn dec_spec(x: u8, f: RegisterF) -> (u8, RegisterF) {
    let res = ((x - 1) % 0x100) as u8;
    (res, f.with::<Z>(res == 0).with::<N>(true).with::<H>(x % 0x10 == 0))
}

/// Increment of a word. No flag is touched.
pub open spec fn inc16_spec(x: u16, f: RegisterF) -> (u16, RegisterF) {
    (((x + 1) % 0x1_0000) as u16, f)
}

/// Decrement of a word. No flag is touched.
pub open spec fn dec16_spec(x: u16, f: RegisterF) -> (u16, RegisterF) {
    (((x - 1) % 0x1_0000) as u16, f)
}

/// The test of bit `pos` of `value`. Zero tells that the bit is clear; Half-carry is
/// set; Subtract is cleared; Carry is not touched.
pub open spec fn bit_spec(pos: u8, value: u8, f: RegisterF) -> RegisterF {
    f.with::<Z>(!bit_of(value, pos)).with::<N>(false).with::<H>(true)
}

/// The exclusive or of the operands of a subtraction and its result shows at bit 4
/// whether the low nibble had to borrow.
pub proof fn lemma_sub_half_carry(x: u8, y: u8, c: u8)
    requires
        c <= 1,
    ensures
        ({
            let res = ((x - y - c) % 0x100) as u8;
            ((x ^ y ^ res) & 0x10 != 0) == (x % 0x10 < y % 0x10 + c)
        }),
{
    let res = ((x - y - c) % 0x100) as u8;
    let lifted = (0x100 + x - y - c) as u16;
    assert(((x ^ y ^ res) & 0x10u8 != 0u8) == ((x & 0xfu8) < (y & 0xfu8) + c)) by (bit_vector)
        requires
            c <= 1u8,
            lifted == (0x100u16 + x - y - c) as u16,
            res as u16 == lifted % 0x100u16,
    ;
    assert(x & 0xfu8 == x % 0x10u8 && y & 0xfu8 == y % 0x10u8) by (bit_vector);
}

/// Whether two flags bytes agree in the four unused bits.
pub open spec fn same_unused_bits(g: RegisterF, f: RegisterF) -> bool {
    &&& g.has::<_3>() == f.has::<_3>()
    &&& g.has::<_2>() == f.has::<_2>()
    &&& g.has::<_1>() == f.has::<_1>()
    &&& g.has::<_0>() == f.has::<_0>()
}

/// What each flag is after the four named flags were written in the order Zero,
/// Subtract, Half-carry, Carry.
proof fn lemma_four_flags(f: RegisterF, z: bool, n: bool, h: bool, c: bool)
    ensures
        ({
            let g = f.with::<Z>(z).with::<N>(n).with::<H>(h).with::<C>(c);
            &&& g.has::<Z>() == z
            &&& g.has::<N>() == n
            &&& g.has::<H>() == h
            &&& g.has::<C>() == c
            &&& g.has::<_3>() == f.has::<_3>()
            &&& g.has::<_2>() == f.has::<_2>()
            &&& g.has::<_1>() == f.has::<_1>()
            &&& g.has::<_0>() == f.has::<_0>()
        }),
{
    let f1 = f.with::<Z>(z);
    let f2 = f1.with::<N>(n);
    let f3 = f2.with::<H>(h);
    law_flag_reads_as_written::<Z>(f, z);
    law_flag_reads_as_written::<N>(f1, n);
    law_flag_reads_as_written::<H>(f2, h);
    law_flag_reads_as_written::<C>(f3, c);
    law_other_flags_kept::<N, Z>(f1, n);
    law_other_flags_kept::<H, Z>(f2, h);
    law_other_flags_kept::<H, N>(f2, h);
    law_other_flags_kept::<C, Z>(f3, c);
    law_other_flags_kept::<C, N>(f3, c);
    law_other_flags_kept::<C, H>(f3, c);
    law_other_flags_kept::<Z, _3>(f, z);
    law_other_flags_kept::<Z, _2>(f, z);
    law_other_flags_kept::<Z, _1>(f, z);
    law_other_flags_kept::<Z, _0>(f, z);
    law_other_flags_kept::<N, _3>(f1, n);
    law_other_flags_kept::<N, _2>(f1, n);
    law_other_flags_kept::<N, _1>(f1, n);
    law_other_flags_kept::<N, _0>(f1, n);
    law_other_flags_kept::<H, _3>(f2, h);
    law_other_flags_kept::<H, _2>(f2, h);
    law_other_flags_kept::<H, _1>(f2, h);
    law_other_flags_kept::<H, _0>(f2, h);
    law_other_flags_kept::<C, _3>(f3, c);
    law_other_flags_kept::<C, _2>(f3, c);
    law_other_flags_kept::<C, _1>(f3, c);
    law_other_flags_kept::<C, _0>(f3, c);
}

/// What each flag is after Zero, Subtract and Half-carry were written and Carry was
/// not.
proof fn lemma_three_flags(f: RegisterF, z: bool, n: bool, h: bool)
    ensures
        ({
            let g = f.with::<Z>(z).with::<N>(n).with::<H>(h);
            &&& g.has::<Z>() == z
            &&& g.has::<N>() == n
            &&& g.has::<H>() == h
            &&& g.has::<C>() == f.has::<C>()
            &&& same_unused_bits(g, f)
        }),
{
    let f1 = f.with::<Z>(z);
    let f2 = f1.with::<N>(n);
    law_other_flags_kept::<Z, _3>(f, z);
    law_other_flags_kept::<Z, _2>(f, z);
    law_other_flags_kept::<Z, _1>(f, z);
    law_other_flags_kept::<Z, _0>(f, z);
    law_other_flags_kept::<N, _3>(f1, n);
    law_other_flags_kept::<N, _2>(f1, n);
    law_other_flags_kept::<N, _1>(f1, n);
    law_other_flags_kept::<N, _0>(f1, n);
    law_other_flags_kept::<H, _3>(f2, h);
    law_other_flags_kept::<H, _2>(f2, h);
    law_other_flags_kept::<H, _1>(f2, h);
    law_other_flags_kept::<H, _0>(f2, h);
    law_flag_reads_as_written::<Z>(f, z);
    law_flag_reads_as_written::<N>(f1, n);
    law_flag_reads_as_written::<H>(f2, h);
    law_other_flags_kept::<N, Z>(f1, n);
    law_other_flags_kept::<H, Z>(f2, h);
    law_other_flags_kept::<H, N>(f2, h);
    law_other_flags_kept::<Z, C>(f, z);
    law_other_flags_kept::<N, C>(f1, n);
    law_other_flags_kept::<H, C>(f2, h);
}

/// No arithmetic or logic instruction touches the four unused bits of the flags byte.
pub proof fn law_unused_bits_kept(x: u8, y: u8, carry: Carry, pos: u8, f: RegisterF)
    ensures
        same_unused_bits(add_spec::<u8>(x, y, carry, f).1, f),
        same_unused_bits(sub_spec(x, y, carry, f).1, f),
        same_unused_bits(and_spec::<u8>(x, y, f).1, f),
        same_unused_bits(or_spec::<u8>(x, y, f).1, f),
        same_unused_bits(xor_spec::<u8>(x, y, f).1, f),
        same_unused_bits(inc_spec(x, f).1, f),
        same_unused_bits(dec_spec(x, f).1, f),
        same_unused_bits(bit_spec(pos, x, f), f),
{
    let c = carry_in(carry, f);
    let sum = ((x + y + c) % 0x100) as u8;
    let difference = ((x - y - c) % 0x100) as u8;
    lemma_four_flags(f, sum == 0, false, x % 0x10 + y % 0x10 + c >= 0x10, x + y + c >= 0x100);
    lemma_four_flags(f, difference == 0, true, x % 0x10 < y % 0x10 + c, x < y + c);
    lemma_four_flags(f, x & y == 0, false, true, false);
    lemma_four_flags(f, x | y == 0, false, false, false);
    lemma_four_flags(f, x ^ y == 0, false, false, false);
    lemma_three_flags(f, inc_spec(x, f).0 == 0, false, x % 0x10 == 0xF);
    lemma_three_flags(f, dec_spec(x, f).0 == 0, true, x % 0x10 == 0);
    lemma_three_flags(f, !bit_of(x, pos), false, true);
}

/// Adding two bytes without the carry: the result is the sum modulo 256. Carry is set
/// exactly if the sum is above 0xFF, Half-carry exactly if the sum of the low nibbles
/// is above 0xF, Zero exactly if the result is 0, and Subtract is clear. The four
/// unused bits are those from before.
pub proof fn law_add_flags(x: u8, y: u8, f: RegisterF)
    ensures
        ({
            let (res, g) = add_spec::<u8>(x, y, Carry::Without, f);
            &&& res as int == (x + y) % 0x100
            &&& g.has::<C>() == (x as u16 + y as u16 > 0xFF)
            &&& g.has::<H>() == (x % 0x10 + y % 0x10 > 0xF)
            &&& g.has::<Z>() == (res == 0)
            &&& !g.has::<N>()
            &&& g.has::<_3>() == f.has::<_3>()
            &&& g.has::<_2>() == f.has::<_2>()
            &&& g.has::<_1>() == f.has::<_1>()
            &&& g.has::<_0>() == f.has::<_0>()
        }),
{
    let res = ((x + y) % 0x100) as u8;
    lemma_four_flags(f, res == 0, false, x % 0x10 + y % 0x10 >= 0x10, x + y >= 0x100);
}

/// Adding with the carry: the result and the flags are those of one addition of the
/// two operands and the Carry flag that came in.
pub proof fn law_add_with_carry(x: u8, y: u8, f: RegisterF)
    ensures
        ({
            let c: int = if f.has::<C>() {
                1
            } else {
                0
            };
            let (res, g) = add_spec::<u8>(x, y, Carry::With, f);
            &&& res as int == (x + y + c) % 0x100
            &&& g.has::<C>() == (x + y + c > 0xFF)
            &&& g.has::<H>() == (x % 0x10 + y % 0x10 + c > 0xF)
            &&& g.has::<Z>() == (res == 0)
            &&& !g.has::<N>()
        }),
{
    let c: int = if f.has::<C>() {
        1
    } else {
        0
    };
    let res = ((x + y + c) % 0x100) as u8;
    lemma_four_flags(f, res == 0, false, x % 0x10 + y % 0x10 + c >= 0x10, x + y + c >= 0x100);
}

/// Adding two words without the carry: the result is the sum modulo 65536. Carry is
/// set exactly if the sum is above 0xFFFF, Half-carry exactly if the sum of the low
/// bytes is above 0xFF, Zero exactly if the result is 0, and Subtract is clear.
pub proof fn law_add_word_flags(x: u16, y: u16, f: RegisterF)
    ensures
        ({
            let (res, g) = add_spec::<u16>(x, y, Carry::Without, f);
            &&& res as int == (x + y) % 0x1_0000
            &&& g.has::<C>() == (x + y > 0xFFFF)
            &&& g.has::<H>() == (x % 0x100 + y % 0x100 > 0xFF)
            &&& g.has::<Z>() == (res == 0)
            &&& !g.has::<N>()
            &&& same_unused_bits(g, f)
        }),
{
    let res = ((x + y) % 0x1_0000) as u16;
    lemma_four_flags(f, res == 0, false, x % 0x100 + y % 0x100 >= 0x100, x + y >= 0x1_0000);
}

/// Subtracting two bytes without the carry: the result is the difference modulo 256.
/// Carry is set exactly if the second operand is the larger, Half-carry exactly if
/// its low nibble is the larger, Zero exactly if the operands are equal, and Subtract
/// is set.
pub proof fn law_sub_flags(x: u8, y: u8, f: RegisterF)
    ensures
        ({
            let (res, g) = sub_spec(x, y, Carry::Without, f);
            &&& res as int == (x - y) % 0x100
            &&& g.has::<C>() == (x < y)
            &&& g.has::<H>() == (x % 0x10 < y % 0x10)
            &&& g.has::<Z>() == (x == y)
            &&& g.has::<N>()
        }),
{
    let res = ((x - y) % 0x100) as u8;
    lemma_four_flags(f, res == 0, true, x % 0x10 < y % 0x10, x < y);
}

/// Subtraction and addition without the carry are inverse to each other: adding the
/// second operand to the difference gives the first operand back, whatever the flags
/// are in between.
pub proof fn law_sub_then_add(x: u8, y: u8, f: RegisterF, g: RegisterF)
    ensures
        add_spec::<u8>(sub_spec(x, y, Carry::Without, f).0, y, Carry::Without, g).0 == x,
        sub_spec(add_spec::<u8>(x, y, Carry::Without, f).0, y, Carry::Without, g).0 == x,
{
    let difference: int = if x >= y {
        x - y
    } else {
        x - y + 0x100
    };
    assert((x - y) % 0x100 == difference);
    assert((difference + y) % 0x100 == x);
    let sum: int = if x + y < 0x100 {
        x + y
    } else {
        x + y - 0x100
    };
    assert((x + y) % 0x100 == sum);
    assert((sum - y) % 0x100 == x);
}

/// Incrementing and decrementing a byte never touch Carry. Subtract is cleared by the
/// one and set by the other, and Zero tells that the result is 0.
pub proof fn law_inc_dec_keep_carry(x: u8, f: RegisterF)
    ensures
        inc_spec(x, f).1.has::<C>() == f.has::<C>(),
        dec_spec(x, f).1.has::<C>() == f.has::<C>(),
        inc_spec(x, f).1.has::<Z>() == (inc_spec(x, f).0 == 0),
        dec_spec(x, f).1.has::<Z>() == (dec_spec(x, f).0 == 0),
        !inc_spec(x, f).1.has::<N>(),
        dec_spec(x, f).1.has::<N>(),
        inc_spec(x, f).1.has::<H>() == (x % 0x10 == 0xF),
        dec_spec(x, f).1.has::<H>() == (x % 0x10 == 0),
        dec_spec(inc_spec(x, f).0, f).0 == x,
{
    lemma_three_flags(f, inc_spec(x, f).0 == 0, false, x % 0x10 == 0xF);
    lemma_three_flags(f, dec_spec(x, f).0 == 0, true, x % 0x10 == 0);
}

/// Incrementing 0xFF gives 0 with Zero and Half-carry set, and Carry as it was.
pub proof fn law_inc_wraps(f: RegisterF)
    ensures
        inc_spec(0xFF, f).0 == 0,
        inc_spec(0xFF, f).1.has::<Z>(),
        inc_spec(0xFF, f).1.has::<H>(),
        inc_spec(0xFF, f).1.has::<C>() == f.has::<C>(),
{
    law_inc_dec_keep_carry(0xFF, f);
}

/// A value combined with itself by exclusive or is 0, and Zero is then set.
pub proof fn law_xor_with_itself(x: u8, f: RegisterF)
    ensures
        xor_spec::<u8>(x, x, f).0 == 0,
        xor_spec::<u8>(x, x, f).1.has::<Z>(),
        !xor_spec::<u8>(x, x, f).1.has::<N>(),
        !xor_spec::<u8>(x, x, f).1.has::<H>(),
        !xor_spec::<u8>(x, x, f).1.has::<C>(),
{
    assert(x ^ x == 0u8) by (bit_vector);
    lemma_four_flags(f, true, false, false, false);
}

/// The bit test leaves Carry as it was, and Zero tells that the tested bit is clear.
pub proof fn law_bit_flags(pos: u8, value: u8, f: RegisterF)
    ensures
        bit_spec(pos, value, f).has::<Z>() == !bit_of(value, pos),
        !bit_spec(pos, value, f).has::<N>(),
        bit_spec(pos, value, f).has::<H>(),
        bit_spec(pos, value, f).has::<C>() == f.has::<C>(),
{
    lemma_three_flags(f, !bit_of(value, pos), false, true);
}

} // verus!
