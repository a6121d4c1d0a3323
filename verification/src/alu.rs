//! The arithmetic and logic unit: what each data operation makes of its
//! operands and of the status register, stated over plain numbers.

use crate::bytes::{sub8, wrap8};
use crate::status::{StatusRegister, FLAG_C, FLAG_D, FLAG_I, FLAG_N, FLAG_V, FLAG_Z};
use vstd::prelude::*;

verus! {

/// The carry flag as a number: 1 when set.
pub open spec fn carry_in(p: StatusRegister) -> int {
    if p.carry() {
        1
    } else {
        0
    }
}

/// A byte whose two nibbles are decimal digits.
pub open spec fn is_bcd(b: u8) -> bool {
    b % 16 <= 9 && b / 16 <= 9
}

/// The number from 0 to 99 that a binary-coded decimal byte stands for.
pub open spec fn bcd_value(b: u8) -> int {
    (b / 16) * 10 + b % 16
}

/// Binary add with carry: the nine-bit sum gives accumulator and Carry,
/// Overflow tells that two operands of one sign gave a result of the
/// other sign.
pub open spec fn spec_adc_binary(a: u8, value: u8, p: StatusRegister) -> (u8, StatusRegister) {
    let sum = a + value + carry_in(p);
    let result = wrap8(sum);
    let overflow = (a >= 128) == (value >= 128) && (result >= 128) != (a >= 128);
    (result, p.with_flag(FLAG_C, sum > 0xff).with_nz(result).with_flag(FLAG_V, overflow))
}

/// Decimal add with carry: each nibble is a digit, added modulo ten with
/// a carry from the low digit into the high one. Overflow is cleared.
pub open spec fn spec_adc_decimal(a: u8, value: u8, p: StatusRegister) -> (u8, StatusRegister) {
    let low = a % 16 + value % 16 + carry_in(p);
    let digit_carry: int = if low > 9 {
        1
    } else {
        0
    };
    let high = a / 16 + value / 16 + digit_carry;
    let result = ((high % 10) * 16 + low % 10) as u8;
    (result, p.with_flag(FLAG_V, false).with_flag(FLAG_C, high > 9).with_nz(result))
}

/// Add with carry in the mode that the Decimal flag selects.
pub open spec fn spec_adc(a: u8, value: u8, p: StatusRegister) -> (u8, StatusRegister) {
    if p.decimal() {
        spec_adc_decimal(a, value, p)
    } else {
        spec_adc_binary(a, value, p)
    }
}

/// Binary subtract with borrow (the borrow is the inverted Carry).
/// Carry is set when no borrow was needed; Overflow tells that operands
/// of different signs gave a result whose sign is not the minuend's.
pub open spec fn spec_sbc_binary(a: u8, value: u8, p: StatusRegister) -> (u8, StatusRegister) {
    let difference = a - value - (1 - carry_in(p));
    let result = wrap8(difference);
    let overflow = (a >= 128) != (value >= 128) && (result >= 128) != (a >= 128);
    (
        result,
        p.with_flag(FLAG_C, difference >= 0).with_nz(result).with_flag(FLAG_V, overflow),
    )
}

/// Decimal subtract with borrow: digit by digit modulo ten, with a
/// borrow from the high digit when the low one runs short. Overflow is
/// cleared.
pub open spec fn spec_sbc_decimal(a: u8, value: u8, p: StatusRegister) -> (u8, StatusRegister) {
    let low = a % 16 - value % 16 - (1 - carry_in(p));
    let digit_borrow: int = if low < 0 {
        1
    } else {
        0
    };
    let high = a / 16 - value / 16 - digit_borrow;
    let result = ((high % 10) * 16 + low % 10) as u8;
    (result, p.with_flag(FLAG_V, false).with_flag(FLAG_C, high >= 0).with_nz(result))
}

/// Subtract with borrow in the mode that the Decimal flag selects.
pub open spec fn spec_sbc(a: u8, value: u8, p: StatusRegister) -> (u8, StatusRegister) {
    if p.decimal() {
        spec_sbc_decimal(a, value, p)
    } else {
        spec_sbc_binary(a, value, p)
    }
}

/// Comparison of a register with a value: the flags of `register -
/// value`, Carry set when the register is not smaller.
pub open spec fn spec_compare(register: u8, value: u8, p: StatusRegister) -> StatusRegister {
    p.with_nz(wrap8(register - value)).with_flag(FLAG_C, register >= value)
}

/// Bit test: Zero from the conjunction with the accumulator, Negative
/// and Overflow copied from bits 7 and 6 of the value.
pub open spec fn spec_bit(a: u8, value: u8, p: StatusRegister) -> StatusRegister {
    let z = p.with_flag(FLAG_Z, a & value == 0);
    StatusRegister { value: (z.value & 0x3f) | (value & 0xc0) }
}

/// Shift left: bit 7 leaves into Carry, bit 0 becomes zero.
pub open spec fn spec_asl(value: u8, p: StatusRegister) -> (u8, StatusRegister) {
    let result = wrap8(value * 2);
    (result, p.with_flag(FLAG_C, value >= 128).with_nz(result))
}

/// Shift right: bit 0 leaves into Carry, bit 7 becomes zero.
pub open spec fn spec_lsr(value: u8, p: StatusRegister) -> (u8, StatusRegister) {
    let result = value / 2;
    (result, p.with_flag(FLAG_C, value % 2 == 1).with_nz(result))
}

/// Rotate left through Carry.
pub open spec fn spec_rol(value: u8, p: StatusRegister) -> (u8, StatusRegister) {
    let result = wrap8(value * 2 + carry_in(p));
    (result, p.with_flag(FLAG_C, value >= 128).with_nz(result))
}

/// Rotate right through Carry.
pub open spec fn spec_ror(value: u8, p: StatusRegister) -> (u8, StatusRegister) {
    let result = (value / 2 + 128 * carry_in(p)) as u8;
    (result, p.with_flag(FLAG_C, value % 2 == 1).with_nz(result))
}

/// The flags of a register that had Carry, then Negative and Zero, then
/// Overflow assigned, in that order.
proof fn lemma_flags_c_nz_v(p: StatusRegister, c: bool, result: u8, v: bool)
    ensures
        ({
            let q = p.with_flag(FLAG_C, c).with_nz(result).with_flag(FLAG_V, v);
            &&& q.carry() == c
            &&& q.negative() == (result >= 128)
            &&& q.zero() == (result == 0)
            &&& q.overflow() == v
            &&& q.decimal() == p.decimal()
            &&& q.interrupt_disable() == p.interrupt_disable()
        }),
{
    let first = p.with_flag(FLAG_C, c);
    let second = first.with_nz(result);
    first.lemma_flags_after_nz(result);
    p.lemma_flag_after_set(FLAG_C, FLAG_C, c);
    p.lemma_flag_after_set(FLAG_C, FLAG_D, c);
    p.lemma_flag_after_set(FLAG_C, FLAG_I, c);
    second.lemma_flag_after_set(FLAG_V, FLAG_C, v);
    second.lemma_flag_after_set(FLAG_V, FLAG_N, v);
    second.lemma_flag_after_set(FLAG_V, FLAG_Z, v);
    second.lemma_flag_after_set(FLAG_V, FLAG_V, v);
    second.lemma_flag_after_set(FLAG_V, FLAG_D, v);
    second.lemma_flag_after_set(FLAG_V, FLAG_I, v);
}

/// The flags of a register that had Overflow cleared, then Carry, then
/// Negative and Zero assigned, in that order.
proof fn lemma_flags_v_c_nz(p: StatusRegister, c: bool, result: u8)
    ensures
        ({
            let q = p.with_flag(FLAG_V, false).with_flag(FLAG_C, c).with_nz(result);
            &&& q.carry() == c
            &&& q.negative() == (result >= 128)
            &&& q.zero() == (result == 0)
            &&& !q.overflow()
            &&& q.decimal() == p.decimal()
            &&& q.interrupt_disable() == p.interrupt_disable()
        }),
{
    let first = p.with_flag(FLAG_V, false);
    let second = first.with_flag(FLAG_C, c);
    second.lemma_flags_after_nz(result);
    p.lemma_flag_after_set(FLAG_V, FLAG_V, false);
    p.lemma_flag_after_set(FLAG_V, FLAG_D, false);
    p.lemma_flag_after_set(FLAG_V, FLAG_I, false);
    first.lemma_flag_after_set(FLAG_C, FLAG_C, c);
    first.lemma_flag_after_set(FLAG_C, FLAG_V, c);
    first.lemma_flag_after_set(FLAG_C, FLAG_D, c);
    first.lemma_flag_after_set(FLAG_C, FLAG_I, c);
}

/// The flags of a register that had Carry, then Negative and Zero
/// assigned, or the other way round.
proof fn lemma_flags_c_nz(p: StatusRegister, c: bool, result: u8)
    ensures
        ({
            let q = p.with_flag(FLAG_C, c).with_nz(result);
            &&& q.carry() == c
            &&& q.negative() == (result >= 128)
            &&& q.zero() == (result == 0)
            &&& q.overflow() == p.overflow()
            &&& q.decimal() == p.decimal()
            &&& q.interrupt_disable() == p.interrupt_disable()
        }),
        ({
            let q = p.with_nz(result).with_flag(FLAG_C, c);
            &&& q.carry() == c
            &&& q.negative() == (result >= 128)
            &&& q.zero() == (result == 0)
            &&& q.overflow() == p.overflow()
            &&& q.decimal() == p.decimal()
            &&& q.interrupt_disable() == p.interrupt_disable()
        }),
{
    let first = p.with_flag(FLAG_C, c);
    first.lemma_flags_after_nz(result);
    p.lemma_flag_after_set(FLAG_C, FLAG_C, c);
    p.lemma_flag_after_set(FLAG_C, FLAG_V, c);
    p.lemma_flag_after_set(FLAG_C, FLAG_D, c);
    p.lemma_flag_after_set(FLAG_C, FLAG_I, c);
    let second = p.with_nz(result);
    p.lemma_flags_after_nz(result);
    second.lemma_flag_after_set(FLAG_C, FLAG_C, c);
    second.lemma_flag_after_set(FLAG_C, FLAG_N, c);
    second.lemma_flag_after_set(FLAG_C, FLAG_Z, c);
    second.lemma_flag_after_set(FLAG_C, FLAG_V, c);
    second.lemma_flag_after_set(FLAG_C, FLAG_D, c);
    second.lemma_flag_after_set(FLAG_C, FLAG_I, c);
}

/// A byte built from two decimal digits has those digits as its nibbles.
proof fn lemma_digit_pair(high_digit: int, low_digit: int)
    requires
        0 <= high_digit <= 9,
        0 <= low_digit <= 9,
    ensures
        0 <= high_digit * 16 + low_digit < 256,
        (high_digit * 16 + low_digit) % 16 == low_digit,
        (high_digit * 16 + low_digit) / 16 == high_digit,
{
}

/// Binary addition: the accumulator receives the low eight bits of the
/// sum, Carry is set exactly when the sum exceeds 0xFF, Overflow exactly
/// when the operands agree in sign and the result does not, Negative and
/// Zero describe the result, and the other flags stay.
pub proof fn lemma_adc_binary(a: u8, value: u8, p: StatusRegister)
    requires
        !p.decimal(),
    ensures
        ({
            let (result, q) = spec_adc(a, value, p);
            let sum = a + value + carry_in(p);
            &&& result == sum % 256
            &&& q.carry() == (sum > 0xff)
            &&& q.overflow() == ((a >= 128) == (value >= 128) && (result >= 128) != (a >= 128))
            &&& q.negative() == (result & 0x80 != 0)
            &&& q.zero() == (result == 0)
            &&& !q.decimal()
            &&& q.interrupt_disable() == p.interrupt_disable()
        }),
{
    let sum = a + value + carry_in(p);
    let result = wrap8(sum);
    let overflow = (a >= 128) == (value >= 128) && (result >= 128) != (a >= 128);
    lemma_flags_c_nz_v(p, sum > 0xff, result, overflow);
    crate::status::lemma_sign_bit(result);
}

/// Binary subtraction: the accumulator receives the low eight bits of
/// `a - value - borrow`, Carry is set exactly when no borrow occurred,
/// Overflow exactly when the accumulator and the complemented operand
/// agree in sign and the result does not, Negative and Zero describe
/// the result, and the other flags stay.
pub proof fn lemma_sbc_binary(a: u8, value: u8, p: StatusRegister)
    requires
        !p.decimal(),
    ensures
        ({
            let (result, q) = spec_sbc(a, value, p);
            let difference = a - value - (1 - carry_in(p));
            let complement = (255 - value) as u8;
            &&& result == difference % 256
            &&& q.carry() == (difference >= 0)
            &&& q.overflow() == ((a >= 128) == (complement >= 128) && (result >= 128) != (a
                >= 128))
            &&& q.negative() == (result & 0x80 != 0)
            &&& q.zero() == (result == 0)
            &&& !q.decimal()
            &&& q.interrupt_disable() == p.interrupt_disable()
            &&& (result, q) == spec_adc(a, complement, p)
        }),
{
    let difference = a - value - (1 - carry_in(p));
    let result = wrap8(difference);
    let overflow = (a >= 128) != (value >= 128) && (result >= 128) != (a >= 128);
    lemma_flags_c_nz_v(p, difference >= 0, result, overflow);
    crate::status::lemma_sign_bit(result);
}

/// Decimal addition of any two bytes leaves Negative and Zero
/// describing the result.
pub proof fn lemma_adc_any_decimal(a: u8, value: u8, p: StatusRegister)
    requires
        p.decimal(),
    ensures
        ({
            let (result, q) = spec_adc(a, value, p);
            &&& q.negative() == (result & 0x80 != 0)
            &&& q.zero() == (result == 0)
            &&& !q.overflow()
        }),
{
    let (result, q) = spec_adc(a, value, p);
    let high = a / 16 + value / 16 + (if a % 16 + value % 16 + carry_in(p) > 9 {
        1int
    } else {
        0int
    });
    lemma_flags_v_c_nz(p, high > 9, result);
    crate::status::lemma_sign_bit(result);
}

/// Decimal subtraction of any two bytes leaves Negative and Zero
/// describing the result.
pub proof fn lemma_sbc_any_decimal(a: u8, value: u8, p: StatusRegister)
    requires
        p.decimal(),
    ensures
        ({
            let (result, q) = spec_sbc(a, value, p);
            &&& q.negative() == (result & 0x80 != 0)
            &&& q.zero() == (result == 0)
            &&& !q.overflow()
        }),
{
    let (result, q) = spec_sbc(a, value, p);
    let high = a / 16 - value / 16 - (if a % 16 - value % 16 - (1 - carry_in(p)) < 0 {
        1int
    } else {
        0int
    });
    lemma_flags_v_c_nz(p, high >= 0, result);
    crate::status::lemma_sign_bit(result);
}

/// Decimal addition of two binary-coded decimal bytes gives the
/// binary-coded decimal sum modulo 100, and Carry exactly when the sum
/// reaches 100. Overflow is clear afterwards.
pub proof fn lemma_adc_decimal(a: u8, value: u8, p: StatusRegister)
    requires
        p.decimal(),
        is_bcd(a),
        is_bcd(value),
    ensures
        ({
            let (result, q) = spec_adc(a, value, p);
            let sum = bcd_value(a) + bcd_value(value) + carry_in(p);
            &&& is_bcd(result)
            &&& bcd_value(result) == sum % 100
            &&& q.carry() == (sum >= 100)
            &&& !q.overflow()
            &&& q.negative() == (result & 0x80 != 0)
            &&& q.zero() == (result == 0)
        }),
{
    let low = a % 16 + value % 16 + carry_in(p);
    let digit_carry: int = if low > 9 {
        1
    } else {
        0
    };
    let high = a / 16 + value / 16 + digit_carry;
    let low_digit = low % 10;
    let high_digit = high % 10;
    let result = (high_digit * 16 + low_digit) as u8;
    lemma_flags_v_c_nz(p, high > 9, result);
    crate::status::lemma_sign_bit(result);
    assert(low_digit == low - 10 * digit_carry);
    assert(high_digit == (if high > 9 {
        high - 10
    } else {
        high
    }));
    lemma_digit_pair(high_digit, low_digit);
    let sum = bcd_value(a) + bcd_value(value) + carry_in(p);
    assert(sum == 10 * high + low_digit);
    assert(sum % 100 == 10 * high_digit + low_digit);
}

/// Two decimal digits whose sum with the incoming carry is at most nine
/// add to that sum with Carry clear; and 0x09 plus 0x01 is 0x10.
pub proof fn lemma_adc_decimal_digits(a: u8, value: u8, p: StatusRegister)
    requires
        p.decimal(),
        a <= 9,
        value <= 9,
    ensures
        a + value + carry_in(p) <= 9 ==> spec_adc(a, value, p).0 == a + value + carry_in(p)
            && !spec_adc(a, value, p).1.carry(),
        a == 9 && value == 1 && !p.carry() ==> spec_adc(a, value, p).0 == 0x10 && !spec_adc(
            a,
            value,
            p,
        ).1.carry(),
{
    lemma_adc_decimal(a, value, p);
}

/// Decimal subtraction of two binary-coded decimal bytes gives the
/// binary-coded decimal difference modulo 100, and Carry exactly when
/// no borrow occurred. Overflow is clear afterwards.
pub proof fn lemma_sbc_decimal(a: u8, value: u8, p: StatusRegister)
    requires
        p.decimal(),
        is_bcd(a),
        is_bcd(value),
    ensures
        ({
            let (result, q) = spec_sbc(a, value, p);
            let difference = bcd_value(a) - bcd_value(value) - (1 - carry_in(p));
            &&& is_bcd(result)
            &&& bcd_value(result) == difference % 100
            &&& q.carry() == (difference >= 0)
            &&& !q.overflow()
            &&& q.negative() == (result & 0x80 != 0)
            &&& q.zero() == (result == 0)
        }),
{
    let low = a % 16 - value % 16 - (1 - carry_in(p));
    let digit_borrow: int = if low < 0 {
        1
    } else {
        0
    };
    let high = a / 16 - value / 16 - digit_borrow;
    let low_digit = low % 10;
    let high_digit = high % 10;
    let result = (high_digit * 16 + low_digit) as u8;
    lemma_flags_v_c_nz(p, high >= 0, result);
    crate::status::lemma_sign_bit(result);
    assert(low_digit == low + 10 * digit_borrow);
    assert(high_digit == (if high < 0 {
        high + 10
    } else {
        high
    }));
    lemma_digit_pair(high_digit, low_digit);
    let difference = bcd_value(a) - bcd_value(value) - (1 - carry_in(p));
    assert(difference == 10 * high + low_digit);
    assert(difference % 100 == 10 * high_digit + low_digit);
}

/// A comparison sets Carry when the register is at least the value,
/// Zero when they are equal, and Negative from bit 7 of their
/// difference; nothing else changes.
pub proof fn lemma_compare(register: u8, value: u8, p: StatusRegister)
    ensures
        ({
            let q = spec_compare(register, value, p);
            let difference = wrap8(register - value);
            &&& q.carry() == (register >= value)
            &&& q.zero() == (register == value)
            &&& q.negative() == (difference & 0x80 != 0)
            &&& q.overflow() == p.overflow()
            &&& q.decimal() == p.decimal()
            &&& q.interrupt_disable() == p.interrupt_disable()
        }),
{
    let difference = wrap8(register - value);
    lemma_flags_c_nz(p, register >= value, difference);
    crate::status::lemma_sign_bit(difference);
}

/// Shifts and rotates: Carry receives the bit that left the byte,
/// Negative and Zero describe the result, the other flags stay.
pub proof fn lemma_shifts(value: u8, p: StatusRegister)
    ensures
        ({
            let (result, q) = spec_asl(value, p);
            &&& result == (value * 2) % 256
            &&& q.carry() == (value & 0x80 != 0)
            &&& q.negative() == (result & 0x80 != 0)
            &&& q.zero() == (result == 0)
            &&& q.overflow() == p.overflow()
        }),
        ({
            let (result, q) = spec_lsr(value, p);
            &&& q.carry() == (value % 2 == 1)
            &&& !q.negative()
            &&& q.zero() == (result == 0)
            &&& q.overflow() == p.overflow()
        }),
        ({
            let (result, q) = spec_rol(value, p);
            &&& result == (value * 2 + carry_in(p)) % 256
            &&& q.carry() == (value & 0x80 != 0)
            &&& q.negative() == (result & 0x80 != 0)
            &&& q.zero() == (result == 0)
            &&& q.overflow() == p.overflow()
        }),
        ({
            let (result, q) = spec_ror(value, p);
            &&& q.carry() == (value % 2 == 1)
            &&& q.negative() == p.carry()
            &&& q.negative() == (result & 0x80 != 0)
            &&& q.zero() == (result == 0)
            &&& q.overflow() == p.overflow()
        }),
{
    lemma_flags_c_nz(p, value >= 128, spec_asl(value, p).0);
    lemma_flags_c_nz(p, value % 2 == 1, spec_lsr(value, p).0);
    lemma_flags_c_nz(p, value >= 128, spec_rol(value, p).0);
    lemma_flags_c_nz(p, value % 2 == 1, spec_ror(value, p).0);
    crate::status::lemma_sign_bit(value);
    crate::status::lemma_sign_bit(spec_asl(value, p).0);
    crate::status::lemma_sign_bit(spec_rol(value, p).0);
    crate::status::lemma_sign_bit(spec_ror(value, p).0);
}

pub fn adc(a: u8, value: u8, p: StatusRegister) -> (out: (u8, StatusRegister))
    ensures
        out == spec_adc(a, value, p),
{
    let mut p = p;
    let carry: u8 = if p.get_C() {
        1
    } else {
        0
    };
    if p.get_D() {
        p.set_V(false);
        let low: u8 = a % 16 + value % 16 + carry;
        let digit_carry: u8 = if low > 9 {
            1
        } else {
            0
        };
        let high: u8 = a / 16 + value / 16 + digit_carry;
        let result: u8 = (high % 10) * 16 + low % 10;
        p.set_C(high > 9);
        p.set_NZ(result);
        return (result, p);
    }
    let sum: u16 = a as u16 + value as u16 + carry as u16;
    let result: u8 = (sum % 256) as u8;
    let overflow = (a >= 128) == (value >= 128) && (result >= 128) != (a >= 128);
    p.set_C(sum > 0xff);
    p.set_NZ(result);
    p.set_V(overflow);
    (result, p)
}

/// The decimal digit that a digit difference leaves: `n` modulo ten.
fn borrow_digit(n: i16) -> (digit: u8)
    requires
        -20 <= n < 20,
    ensures
        digit == n % 10,
{
    if n < -10 {
        (n + 20) as u8
    } else if n < 0 {
        (n + 10) as u8
    } else if n >= 10 {
        (n - 10) as u8
    } else {
        n as u8
    }
}

fn sbc_decimal(a: u8, value: u8, p: StatusRegister) -> (out: (u8, StatusRegister))
    ensures
        out == spec_sbc_decimal(a, value, p),
{
    let mut p = p;
    let borrow: i16 = if p.get_C() {
        0
    } else {
        1
    };
    p.set_V(false);
    let low: i16 = (a % 16) as i16 - (value % 16) as i16 - borrow;
    let digit_borrow: i16 = if low < 0 {
        1
    } else {
        0
    };
    let high: i16 = (a / 16) as i16 - (value / 16) as i16 - digit_borrow;
    let low_digit = borrow_digit(low);
    let high_digit = borrow_digit(high);
    let result: u8 = high_digit * 16 + low_digit;
    p.set_C(high >= 0);
    p.set_NZ(result);
    (result, p)
}

fn sbc_binary(a: u8, value: u8, p: StatusRegister) -> (out: (u8, StatusRegister))
    ensures
        out == spec_sbc_binary(a, value, p),
{
    let mut p = p;
    let borrow: i16 = if p.get_C() {
        0
    } else {
        1
    };
    let difference: i16 = a as i16 - value as i16 - borrow;
    let result: u8 = if difference < 0 {
        (difference + 256) as u8
    } else {
        difference as u8
    };
    let overflow = (a >= 128) != (value >= 128) && (result >= 128) != (a >= 128);
    p.set_C(difference >= 0);
    p.set_NZ(result);
    p.set_V(overflow);
    (result, p)
}

pub fn sbc(a: u8, value: u8, p: StatusRegister) -> (out: (u8, StatusRegister))
    ensures
        out == spec_sbc(a, value, p),
{
    if p.get_D() {
        sbc_decimal(a, value, p)
    } else {
        sbc_binary(a, value, p)
    }
}

pub fn compare(register: u8, value: u8, p: StatusRegister) -> (out: StatusRegister)
    ensures
        out == spec_compare(register, value, p),
{
    let mut p = p;
    p.set_NZ(sub8(register, value));
    p.set_C(register >= value);
    p
}

pub fn bit(a: u8, value: u8, p: StatusRegister) -> (out: StatusRegister)
    ensures
        out == spec_bit(a, value, p),
{
    let mut p = p;
    p.set_Z(a & value == 0);
    p.value = (p.value & 0x3f) | (value & 0xc0);
    p
}

pub fn asl(value: u8, p: StatusRegister) -> (out: (u8, StatusRegister))
    ensures
        out == spec_asl(value, p),
{
    let mut p = p;
    let result: u8 = if value >= 128 {
        (value - 128) * 2
    } else {
        value * 2
    };
    p.set_C(value >= 128);
    p.set_NZ(result);
    (result, p)
}

pub fn lsr(value: u8, p: StatusRegister) -> (out: (u8, StatusRegister))
    ensures
        out == spec_lsr(value, p),
{
    let mut p = p;
    let result: u8 = value / 2;
    p.set_C(value % 2 == 1);
    p.set_NZ(result);
    (result, p)
}

pub fn rol(value: u8, p: StatusRegister) -> (out: (u8, StatusRegister))
    ensures
        out == spec_rol(value, p),
{
    let mut p = p;
    let carry: u8 = if p.get_C() {
        1
    } else {
        0
    };
    let result: u8 = if value >= 128 {
        (value - 128) * 2 + carry
    } else {
        value * 2 + carry
    };
    p.set_C(value >= 128);
    p.set_NZ(result);
    (result, p)
}

pub fn ror(value: u8, p: StatusRegister) -> (out: (u8, StatusRegister))
    ensures
        out == spec_ror(value, p),
{
    let mut p = p;
    let carry: u8 = if p.get_C() {
        128
    } else {
        0
    };
    let result: u8 = value / 2 + carry;
    p.set_C(value % 2 == 1);
    p.set_NZ(result);
    (result, p)
}

} // verus!
