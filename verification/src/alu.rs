//! The 8-bit operations of the processor, as functions from bytes and flags
//! to bytes and flags. Each is stated over the integers: the byte that comes
//! out is the mathematical result modulo 256.
//!
//! Addition and subtraction are binary. The decimal-mode flag is kept and
//! can be set, cleared, pushed and pulled, but it does not change what ADC
//! and SBC compute.

use vstd::prelude::*;

verus! {

/// The integer reduced to a byte, modulo 256. The sums and differences of
/// two bytes come first, since they need no division.
pub open spec fn wrap8(i: int) -> u8 {
    if 0 <= i < 256 {
        i as u8
    } else if 256 <= i < 512 {
        (i - 256) as u8
    } else if -256 <= i < 0 {
        (i + 256) as u8
    } else {
        (i % 256) as u8
    }
}

/// The integer reduced to a word, modulo 65,536. The sums and differences
/// of two words come first, since they need no division.
pub open spec fn wrap16(i: int) -> u16 {
    if 0 <= i < 65536 {
        i as u16
    } else if 65536 <= i < 131072 {
        (i - 65536) as u16
    } else if -65536 <= i < 0 {
        (i + 65536) as u16
    } else {
        (i % 65536) as u16
    }
}

/// `wrap8` is reduction modulo 256.
pub proof fn lemma_wrap8_is_modulo(i: int)
    ensures
        wrap8(i) == i % 256,
{
}

/// `wrap16` is reduction modulo 65,536.
pub proof fn lemma_wrap16_is_modulo(i: int)
    ensures
        wrap16(i) == i % 65536,
{
}

/// Bit 7 of a byte, its sign when read as a signed number.
pub open spec fn is_negative(value: u8) -> bool {
    value >= 128
}

/// A carry flag as the number it adds.
pub open spec fn carry_in(carry: bool) -> int {
    if carry {
        1
    } else {
        0
    }
}

/// The byte read as a signed number, -128 to 127.
pub open spec fn signed(value: u8) -> int {
    if value < 128 {
        value as int
    } else {
        value - 256
    }
}

/// The full sum that an addition with carry forms.
pub open spec fn adc_sum(a: u8, operand: u8, carry: bool) -> int {
    a + operand + carry_in(carry)
}

/// Signed overflow of an addition: both terms have the same sign and the
/// result has the other.
pub open spec fn adc_overflow(a: u8, operand: u8, carry: bool) -> bool {
    is_negative(a) == is_negative(operand) && is_negative(a) != is_negative(
        wrap8(adc_sum(a, operand, carry)),
    )
}

/// The bitwise complement of a byte.
pub open spec fn complement(value: u8) -> u8 {
    (255 - value) as u8
}

/// The full difference that a subtraction with borrow forms; the borrow is
/// the inverse of the carry flag.
pub open spec fn sbc_difference(a: u8, operand: u8, carry: bool) -> int {
    a - operand - (1 - carry_in(carry))
}

/// What an arithmetic operation hands back: the byte, the carry and the
/// signed overflow.
#[derive(Clone, Copy, Debug, PartialEq, Eq, Structural)]
pub struct Sum {
    pub result: u8,
    pub carry: bool,
    pub overflow: bool,
}

/// What a shift or rotation hands back: the byte and the bit shifted out.
#[derive(Clone, Copy, Debug, PartialEq, Eq, Structural)]
pub struct Shifted {
    pub result: u8,
    pub carry: bool,
}

/// The flags that a comparison sets.
#[derive(Clone, Copy, Debug, PartialEq, Eq, Structural)]
pub struct Comparison {
    pub carry: bool,
    pub zero: bool,
    pub negative: bool,
}

/// Addition with carry as a value: the sum modulo 256, the carry out of bit
/// 7 and the signed overflow.
#[verifier::opaque]
pub open spec fn adc_spec(a: u8, operand: u8, carry: bool) -> Sum {
    Sum {
        result: wrap8(adc_sum(a, operand, carry)),
        carry: adc_sum(a, operand, carry) > 255,
        overflow: adc_overflow(a, operand, carry),
    }
}

/// Subtraction with borrow as a value: addition of the complemented operand.
pub open spec fn sbc_spec(a: u8, operand: u8, carry: bool) -> Sum {
    adc_spec(a, complement(operand), carry)
}

/// Comparison as a value.
#[verifier::opaque]
pub open spec fn compare_spec(register: u8, operand: u8) -> Comparison {
    Comparison {
        carry: register >= operand,
        zero: register == operand,
        negative: is_negative(wrap8(register - operand)),
    }
}

/// Shift left as a value: bit 7 goes to the carry, bit 0 becomes 0.
#[verifier::opaque]
pub open spec fn asl_spec(operand: u8) -> Shifted {
    Shifted { result: wrap8(2 * operand), carry: is_negative(operand) }
}

/// Logical shift right as a value: bit 0 goes to the carry, bit 7 becomes 0.
#[verifier::opaque]
pub open spec fn lsr_spec(operand: u8) -> Shifted {
    Shifted { result: (operand / 2) as u8, carry: operand % 2 == 1 }
}

/// Rotation left as a value: the old carry enters at bit 0.
#[verifier::opaque]
pub open spec fn rol_spec(operand: u8, carry: bool) -> Shifted {
    Shifted { result: wrap8(2 * operand + carry_in(carry)), carry: is_negative(operand) }
}

/// Rotation right as a value: the old carry enters at bit 7.
#[verifier::opaque]
pub open spec fn ror_spec(operand: u8, carry: bool) -> Shifted {
    Shifted { result: (128 * carry_in(carry) + operand / 2) as u8, carry: operand % 2 == 1 }
}

/// Bit 6 of a byte.
#[verifier::opaque]
pub open spec fn bit_six(value: u8) -> bool {
    (value / 64) % 2 == 1
}

/// `A + operand + C`: the low eight bits of the sum, the carry out of bit 7
/// and the signed overflow.
pub fn add_with_carry(a: u8, operand: u8, carry: bool) -> (out: Sum)
    ensures
        out == adc_spec(a, operand, carry),
{
    reveal(adc_spec);
    let carry_bit: u16 = if carry {
        1
    } else {
        0
    };
    let sum: u16 = a as u16 + operand as u16 + carry_bit;
    let result: u8 = (sum & 0xFF) as u8;
    assert(sum & 0xFF == sum % 256) by (bit_vector);
    let overflow: bool = (a ^ result) & (operand ^ result) & 0x80 != 0;
    assert(((a ^ result) & (operand ^ result) & 0x80 != 0) == ((a >= 128) == (operand >= 128) && (a
        >= 128) != (result >= 128))) by (bit_vector);
    Sum { result, carry: sum > 0xFF, overflow }
}

/// `A - operand - (1 - C)`, computed as the addition of the complemented
/// operand.
pub fn subtract_with_borrow(a: u8, operand: u8, carry: bool) -> (out: Sum)
    ensures
        out == sbc_spec(a, operand, carry),
{
    assert(!operand == 255 - operand) by (bit_vector);
    add_with_carry(a, !operand, carry)
}

/// Compares a register with an operand without storing the difference.
pub fn compare(register: u8, operand: u8) -> (out: Comparison)
    ensures
        out == compare_spec(register, operand),
{
    reveal(compare_spec);
    let difference: u8 = register.wrapping_sub(operand);
    assert(difference & 0x80 != 0 <==> difference >= 128) by (bit_vector);
    Comparison {
        carry: register >= operand,
        zero: register == operand,
        negative: difference & 0x80 != 0,
    }
}

/// Shifts a byte left by one bit.
pub fn shift_left(operand: u8) -> (out: Shifted)
    ensures
        out == asl_spec(operand),
{
    reveal(asl_spec);
    assert(operand << 1u8 == (2 * operand) % 256) by (bit_vector);
    assert(operand & 0x80 != 0 <==> operand >= 128) by (bit_vector);
    Shifted { result: operand << 1u8, carry: operand & 0x80 != 0 }
}

/// Shifts a byte right by one bit.
pub fn shift_right(operand: u8) -> (out: Shifted)
    ensures
        out == lsr_spec(operand),
{
    reveal(lsr_spec);
    assert(operand >> 1u8 == operand / 2) by (bit_vector);
    assert(operand & 0x01 != 0 <==> operand % 2 == 1) by (bit_vector);
    Shifted { result: operand >> 1u8, carry: operand & 0x01 != 0 }
}

/// Rotates a byte left by one bit through the carry.
pub fn rotate_left(operand: u8, carry: bool) -> (out: Shifted)
    ensures
        out == rol_spec(operand, carry),
{
    reveal(rol_spec);
    let low: u8 = if carry {
        1
    } else {
        0
    };
    assert(low <= 1 ==> (operand << 1u8) | low == (2 * operand + low) % 256) by (bit_vector);
    assert(operand & 0x80 != 0 <==> operand >= 128) by (bit_vector);
    Shifted { result: (operand << 1u8) | low, carry: operand & 0x80 != 0 }
}

/// Rotates a byte right by one bit through the carry.
pub fn rotate_right(operand: u8, carry: bool) -> (out: Shifted)
    ensures
        out == ror_spec(operand, carry),
{
    reveal(ror_spec);
    let high: u8 = if carry {
        0x80
    } else {
        0
    };
    assert(high == 0 || high == 128 ==> (operand >> 1u8) | high == high + operand / 2)
        by (bit_vector);
    assert(operand & 0x01 != 0 <==> operand % 2 == 1) by (bit_vector);
    Shifted { result: (operand >> 1u8) | high, carry: operand & 0x01 != 0 }
}

/// Whether bit 7 of a byte is set.
pub fn negative(value: u8) -> (set: bool)
    ensures
        set == is_negative(value),
{
    assert(value & 0x80 != 0 <==> value >= 128) by (bit_vector);
    value & 0x80 != 0
}

/// Whether bit 6 of a byte is set.
pub fn overflow_bit(value: u8) -> (set: bool)
    ensures
        set == bit_six(value),
{
    reveal(bit_six);
    assert(value & 0x40 != 0 <==> (value / 64) % 2 == 1) by (bit_vector);
    value & 0x40 != 0
}

/// The offset of a branch, -128 to 127, added to an address modulo 65,536.
pub fn offset_address(base: u16, offset: u8) -> (target: u16)
    ensures
        target == wrap16(base + signed(offset)),
{
    if offset < 128 {
        base.wrapping_add(offset as u16)
    } else {
        base.wrapping_sub(256 - offset as u16)
    }
}

/// Subtraction with borrow stores the difference modulo 256, and the carry
/// that comes out says that no borrow was needed.
pub proof fn lemma_sbc_is_subtraction(a: u8, operand: u8, carry: bool)
    ensures
        sbc_spec(a, operand, carry).result == wrap8(sbc_difference(a, operand, carry)),
        sbc_spec(a, operand, carry).carry == (sbc_difference(a, operand, carry) >= 0),
{
    reveal(adc_spec);
}

/// Signed overflow of an addition means that the sum of the terms read as
/// signed numbers does not fit in a signed byte.
pub proof fn lemma_adc_overflow_is_signed_range(a: u8, operand: u8, carry: bool)
    ensures
        adc_overflow(a, operand, carry) <==> !(-128 <= signed(a) + signed(operand) + carry_in(
            carry,
        ) <= 127),
{
}

} // verus!
