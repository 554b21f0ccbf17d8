use vstd::prelude::*;
use crate::cpu::registers::{Flags, bool_to_int};

verus! {

/// The value of a byte read as a signed number.
pub open spec fn signed(byte: u8) -> int {
    if byte < 128 {
        byte as int
    } else {
        byte - 256
    }
}

/// The address `offset` bytes from `base`, the offset read as signed and
/// the address space going round.
pub open spec fn offset_address(base: u16, offset: u8) -> u16 {
    ((base + signed(offset)) % 0x1_0000) as u16
}

/// Sum, with the flags: zero where the byte that results is 0, half-carry
/// where the low nibbles carry into bit 4, carry where the bytes carry out
/// of bit 7.
pub open spec fn alu_add(a: u8, value: u8, carry_in: bool) -> (u8, Flags) {
    let sum = a + value + bool_to_int(carry_in);
    (
        (sum % 256) as u8,
        Flags {
            zero: sum % 256 == 0,
            negative: false,
            half_carry: a % 16 + value % 16 + bool_to_int(carry_in) > 0xF,
            carry: sum > 0xFF,
        },
    )
}

/// Difference, with the flags: half-carry where the low nibbles borrow from
/// bit 4, carry where the bytes borrow.
pub open spec fn alu_sub(a: u8, value: u8, carry_in: bool) -> (u8, Flags) {
    let difference = a - value - bool_to_int(carry_in);
    (
        (difference % 256) as u8,
        Flags {
            zero: difference % 256 == 0,
            negative: true,
            half_carry: a % 16 < value % 16 + bool_to_int(carry_in),
            carry: difference < 0,
        },
    )
}

/// One more, with the flags; the carry stays.
pub open spec fn alu_inc(value: u8, f: Flags) -> (u8, Flags) {
    (
        ((value + 1) % 256) as u8,
        Flags {
            zero: (value + 1) % 256 == 0,
            negative: false,
            half_carry: value % 16 + 1 > 0xF,
            carry: f.carry,
        },
    )
}

/// One less, with the flags; the carry stays.
pub open spec fn alu_dec(value: u8, f: Flags) -> (u8, Flags) {
    (
        ((value - 1) % 256) as u8,
        Flags {
            zero: (value - 1) % 256 == 0,
            negative: true,
            half_carry: value % 16 < 1,
            carry: f.carry,
        },
    )
}

/// Sum of two words, with the flags: half-carry out of bit 11, carry out of
/// bit 15; the zero flag stays.
pub open spec fn alu_add16(a: u16, value: u16, f: Flags) -> (u16, Flags) {
    (
        ((a + value) % 0x1_0000) as u16,
        Flags {
            zero: f.zero,
            negative: false,
            half_carry: a % 0x1000 + value % 0x1000 > 0xFFF,
            carry: a + value > 0xFFFF,
        },
    )
}

/// The stack pointer moved by a signed offset, with the flags, which are
/// those of adding the offset as an unsigned byte to the low byte.
pub open spec fn alu_add_sp(sp: u16, offset: u8) -> (u16, Flags) {
    (
        offset_address(sp, offset),
        Flags {
            zero: false,
            negative: false,
            half_carry: sp % 16 + offset % 16 > 0xF,
            carry: sp % 256 + offset > 0xFF,
        },
    )
}

/// What the decimal adjust adds to the accumulator, or takes from it after
/// a subtraction: 0x06 where the low digit is wrong, 0x60 where the high
/// one is.
pub open spec fn daa_correction(a: u8, f: Flags) -> u8 {
    let low: int = if f.half_carry || (!f.negative && a % 16 > 0x09) {
        0x06
    } else {
        0
    };
    let high: int = if f.carry || (!f.negative && a > 0x99) {
        0x60
    } else {
        0
    };
    (low + high) as u8
}

/// The accumulator adjusted to two decimal digits, with the flags.
pub open spec fn alu_daa(a: u8, f: Flags) -> (u8, Flags) {
    let correction = daa_correction(a, f);
    let adjusted = if f.negative {
        a - correction
    } else {
        a + correction
    };
    (
        (adjusted % 256) as u8,
        Flags {
            zero: adjusted % 256 == 0,
            negative: f.negative,
            half_carry: false,
            carry: correction >= 0x60,
        },
    )
}

/// Rotation to the left by one bit; the bit that leaves comes in again and
/// is the carry.
pub open spec fn spec_rlc(value: u8) -> (u8, bool) {
    (((value * 2) % 256 + value / 128) as u8, value >= 128)
}

/// Rotation to the right by one bit.
pub open spec fn spec_rrc(value: u8) -> (u8, bool) {
    ((value / 2 + (value % 2) * 128) as u8, value % 2 == 1)
}

/// Rotation to the left through the carry.
pub open spec fn spec_rl(value: u8, carry_in: bool) -> (u8, bool) {
    (((value * 2) % 256 + bool_to_int(carry_in)) as u8, value >= 128)
}

/// Rotation to the right through the carry.
pub open spec fn spec_rr(value: u8, carry_in: bool) -> (u8, bool) {
    ((value / 2 + 128 * bool_to_int(carry_in)) as u8, value % 2 == 1)
}

/// Shift to the left; bit 0 becomes 0.
pub open spec fn spec_sla(value: u8) -> (u8, bool) {
    (((value * 2) % 256) as u8, value >= 128)
}

/// Shift to the right that keeps bit 7.
pub open spec fn spec_sra(value: u8) -> (u8, bool) {
    ((value / 2 + if value >= 128 {
        128int
    } else {
        0
    }) as u8, value % 2 == 1)
}

/// Shift to the right; bit 7 becomes 0.
pub open spec fn spec_srl(value: u8) -> (u8, bool) {
    ((value / 2) as u8, value % 2 == 1)
}

/// The two nibbles exchanged.
pub open spec fn spec_swap(value: u8) -> u8 {
    ((value % 16) * 16 + value / 16) as u8
}

proof fn lemma_nibbles(a: u8, t: u8)
    by (bit_vector)
    ensures
        a & 0xF == a % 16,
        t < 32 ==> (t & 0x10 == 0x10) == (t >= 16),
        t >= 240 ==> t & 0x10 == 0x10,
{
}

proof fn lemma_nibbles16(a: u16, b: u16)
    by (bit_vector)
    ensures
        a & 0xFFF == a % 0x1000,
        b < 0x2000 ==> (b & 0x1000 == 0x1000) == (b >= 0x1000),
{
}

proof fn lemma_rotations(v: u8, c: u8)
    by (bit_vector)
    requires
        c <= 1,
    ensures
        v < 128 ==> v << 1u8 == 2 * v,
        v >= 128 ==> v << 1u8 == 2 * v - 256,
        v >> 1u8 == v / 2,
        v >> 7u8 == v / 128,
        v >> 4u8 == v / 16,
        v << 7u8 == 128 * (v % 2),
        v << 4u8 == 16 * (v % 16),
        c << 7u8 == 128 * c,
        v >= 128 ==> v & 0x80 == 128,
        v < 128 ==> v & 0x80 == 0,
        (v << 1u8) | (v >> 7u8) == (v << 1u8) + (v >> 7u8),
        (v >> 1u8) | (v << 7u8) == (v >> 1u8) + (v << 7u8),
        (v << 1u8) | c == (v << 1u8) + c,
        (v >> 1u8) | (c << 7u8) == (v >> 1u8) + (c << 7u8),
        (v >> 1u8) | (v & 0x80) == (v >> 1u8) + (v & 0x80),
        (v >> 4u8) | (v << 4u8) == (v >> 4u8) + (v << 4u8),
        (v & 0x01 != 0) == (v % 2 == 1),
        !v == 255 - v,
{
}

/// Whether adding two bytes carries out of bit 3.
pub fn half_carry_set_add_u8(a: u8, b: u8) -> (r: bool)
    ensures
        r == (a % 16 + b % 16 > 0xF),
{
    proof {
        lemma_nibbles(a, 0);
        lemma_nibbles(b, 0);
        lemma_nibbles(0, ((a % 16) + (b % 16)) as u8);
    }
    ((a & 0xF) + (b & 0xF)) & 0x10 == 0x10
}

/// Whether adding two bytes and a carry carries out of bit 3.
pub fn half_carry_set_adc_u8(a: u8, b: u8, carry: u8) -> (r: bool)
    requires
        carry <= 1,
    ensures
        r == (a % 16 + b % 16 + carry > 0xF),
{
    proof {
        lemma_nibbles(a, 0);
        lemma_nibbles(b, 0);
        lemma_nibbles(carry, ((a % 16) + (b % 16) + carry) as u8);
    }
    ((a & 0xF) + (b & 0xF) + (carry & 0xF)) & 0x10 == 0x10
}

/// Whether subtracting `b` from `a` borrows from bit 4.
pub fn half_carry_set_sub_u8(a: u8, b: u8) -> (r: bool)
    ensures
        r == (a % 16 < b % 16),
{
    proof {
        lemma_nibbles(a, 0);
        lemma_nibbles(b, 0);
        lemma_nibbles(0, (a & 0xF).wrapping_sub(b & 0xF));
    }
    (((a & 0xF).wrapping_sub(b & 0xF)) & 0x10) == 0x10
}

/// Whether subtracting `b` and a carry from `a` borrows from bit 4.
pub fn half_carry_set_sbc_u8(a: u8, b: u8, carry: u8) -> (r: bool)
    requires
        carry <= 1,
    ensures
        r == (a % 16 < b % 16 + carry),
{
    proof {
        lemma_nibbles(a, 0);
        lemma_nibbles(b, 0);
        lemma_nibbles(carry, (a & 0xF).wrapping_sub(b & 0xF).wrapping_sub(carry & 0xF));
    }
    (a & 0xF).wrapping_sub(b & 0xF).wrapping_sub(carry & 0xF) & 0x10 == 0x10
}

/// Whether adding two words carries out of bit 11.
pub fn half_carry_set_add_u16(a: u16, b: u16) -> (r: bool)
    ensures
        r == (a % 0x1000 + b % 0x1000 > 0xFFF),
{
    proof {
        lemma_nibbles16(a, 0);
        lemma_nibbles16(b, ((a % 0x1000) + (b % 0x1000)) as u16);
    }
    ((a & 0xFFF) + (b & 0xFFF)) & 0x1000 == 0x1000
}

pub fn add_signed_offset(base: u16, offset: u8) -> (r: u16)
    ensures
        r == offset_address(base, offset),
{
    if offset < 128 {
        base.wrapping_add(offset as u16)
    } else {
        base.wrapping_sub(256 - offset as u16)
    }
}

pub fn add_bytes(a: u8, value: u8, carry_in: bool) -> (r: (u8, Flags))
    ensures
        r == alu_add(a, value, carry_in),
{
    let carry_val: u8 = if carry_in {
        1
    } else {
        0
    };
    let sum: u16 = a as u16 + value as u16 + carry_val as u16;
    let result = a.wrapping_add(value).wrapping_add(carry_val);
    (
        result,
        Flags {
            zero: result == 0,
            negative: false,
            half_carry: half_carry_set_adc_u8(a, value, carry_val),
            carry: sum > 0xFF,
        },
    )
}

pub fn sub_bytes(a: u8, value: u8, carry_in: bool) -> (r: (u8, Flags))
    ensures
        r == alu_sub(a, value, carry_in),
{
    let carry_val: u8 = if carry_in {
        1
    } else {
        0
    };
    let result = a.wrapping_sub(value).wrapping_sub(carry_val);
    (
        result,
        Flags {
            zero: result == 0,
            negative: true,
            half_carry: half_carry_set_sbc_u8(a, value, carry_val),
            carry: (a as u16) < value as u16 + carry_val as u16,
        },
    )
}

pub fn increment(value: u8, f: Flags) -> (r: (u8, Flags))
    ensures
        r == alu_inc(value, f),
{
    let result = value.wrapping_add(1);
    (
        result,
        Flags {
            zero: result == 0,
            negative: false,
            half_carry: half_carry_set_add_u8(value, 1),
            carry: f.carry,
        },
    )
}

pub fn decrement(value: u8, f: Flags) -> (r: (u8, Flags))
    ensures
        r == alu_dec(value, f),
{
    let result = value.wrapping_sub(1);
    (
        result,
        Flags {
            zero: result == 0,
            negative: true,
            half_carry: half_carry_set_sub_u8(value, 1),
            carry: f.carry,
        },
    )
}

pub fn add_words(a: u16, value: u16, f: Flags) -> (r: (u16, Flags))
    ensures
        r == alu_add16(a, value, f),
{
    let result = a.wrapping_add(value);
    (
        result,
        Flags {
            zero: f.zero,
            negative: false,
            half_carry: half_carry_set_add_u16(a, value),
            carry: a as u32 + value as u32 > 0xFFFF,
        },
    )
}

pub fn add_to_stack_pointer(sp: u16, offset: u8) -> (r: (u16, Flags))
    ensures
        r == alu_add_sp(sp, offset),
{
    let result = add_signed_offset(sp, offset);
    let sp_u8 = (sp % 256) as u8;
    (
        result,
        Flags {
            zero: false,
            negative: false,
            half_carry: half_carry_set_add_u8(sp_u8, offset),
            carry: sp_u8 as u16 + offset as u16 > 0xFF,
        },
    )
}

pub fn decimal_adjust(a: u8, f: Flags) -> (r: (u8, Flags))
    ensures
        r == alu_daa(a, f),
{
    proof {
        lemma_nibbles(a, 0);
    }
    let mut correction: u8 = 0;
    if f.half_carry || (!f.negative && (a & 0x0F) > 0x09) {
        correction += 0x06;
    }
    if f.carry || (!f.negative && a > 0x99) {
        correction += 0x60;
    }
    let new_a = if f.negative {
        a.wrapping_sub(correction)
    } else {
        a.wrapping_add(correction)
    };
    (
        new_a,
        Flags {
            zero: new_a == 0,
            negative: f.negative,
            half_carry: false,
            carry: correction >= 0x60,
        },
    )
}

pub fn rotate_left(value: u8) -> (r: (u8, bool))
    ensures
        r == spec_rlc(value),
{
    proof {
        lemma_rotations(value, 0);
    }
    ((value << 1) | (value >> 7), value & 0x80 != 0)
}

pub fn rotate_right(value: u8) -> (r: (u8, bool))
    ensures
        r == spec_rrc(value),
{
    proof {
        lemma_rotations(value, 0);
    }
    ((value >> 1) | (value << 7), value & 0x01 != 0)
}

pub fn rotate_left_through_carry(value: u8, carry_in: bool) -> (r: (u8, bool))
    ensures
        r == spec_rl(value, carry_in),
{
    let carry_val: u8 = if carry_in {
        1
    } else {
        0
    };
    proof {
        lemma_rotations(value, carry_val);
    }
    ((value << 1) | carry_val, value & 0x80 != 0)
}

pub fn rotate_right_through_carry(value: u8, carry_in: bool) -> (r: (u8, bool))
    ensures
        r == spec_rr(value, carry_in),
{
    let carry_val: u8 = if carry_in {
        1
    } else {
        0
    };
    proof {
        lemma_rotations(value, carry_val);
    }
    ((value >> 1) | (carry_val << 7), value & 0x01 != 0)
}

pub fn shift_left(value: u8) -> (r: (u8, bool))
    ensures
        r == spec_sla(value),
{
    proof {
        lemma_rotations(value, 0);
    }
    (value << 1, value & 0x80 != 0)
}

pub fn shift_right_arithmetic(value: u8) -> (r: (u8, bool))
    ensures
        r == spec_sra(value),
{
    proof {
        lemma_rotations(value, 0);
    }
    ((value >> 1) | (value & 0x80), value & 0x01 != 0)
}

pub fn shift_right_logical(value: u8) -> (r: (u8, bool))
    ensures
        r == spec_srl(value),
{
    proof {
        lemma_rotations(value, 0);
    }
    (value >> 1, value & 0x01 != 0)
}

pub fn swap_nibbles(value: u8) -> (r: u8)
    ensures
        r == spec_swap(value),
{
    proof {
        lemma_rotations(value, 0);
    }
    (value >> 4) | (value << 4)
}

pub fn complement(value: u8) -> (r: u8)
    ensures
        r == 255 - value,
{
    proof {
        lemma_rotations(value, 0);
    }
    !value
}

proof fn lemma_bit_four(a: u8, b: u8, c: u8, r: u8, k: u8)
    by (bit_vector)
    requires
        c <= 1,
        k <= 1,
    ensures
        r + 256 * k == a + b + c ==> ((a ^ b ^ r) & 0x10 != 0) == ((a & 0xF) + (b & 0xF) + c > 0xF),
        r + b + c == a + 256 * k ==> ((a ^ b ^ r) & 0x10 != 0) == ((a & 0xF) < (b & 0xF) + c),
        a & 0xF == a % 16,
        b & 0xF == b % 16,
{
}

/// The flags of a sum follow the carries between the bits. The carry flag
/// is the carry out of bit 7: with it the result is the sum exactly. The
/// half-carry flag is the carry out of bit 3, which shows in bit 4 of the
/// result against bit 4 of the operands. The zero flag says that the byte
/// that results is 0.
pub proof fn lemma_sum_flags(a: u8, value: u8, carry_in: bool)
    ensures
        ({
            let (result, f) = alu_add(a, value, carry_in);
            &&& result + 256 * bool_to_int(f.carry) == a + value + bool_to_int(carry_in)
            &&& f.half_carry == ((a ^ value ^ result) & 0x10 != 0)
            &&& f.half_carry == (a % 16 + value % 16 + bool_to_int(carry_in) >= 0x10)
            &&& f.zero == (result == 0)
            &&& !f.negative
        }),
{
    let (result, f) = alu_add(a, value, carry_in);
    let c: u8 = if carry_in {
        1
    } else {
        0
    };
    let k: u8 = if f.carry {
        1
    } else {
        0
    };
    lemma_bit_four(a, value, c, result, k);
}

/// The flags of a difference follow the borrows between the bits. The
/// carry flag is the borrow into bit 7: with it the result is the
/// difference exactly. The half-carry flag is the borrow into bit 3, which
/// shows in bit 4 of the result against bit 4 of the operands.
pub proof fn lemma_difference_flags(a: u8, value: u8, carry_in: bool)
    ensures
        ({
            let (result, f) = alu_sub(a, value, carry_in);
            &&& result - 256 * bool_to_int(f.carry) == a - value - bool_to_int(carry_in)
            &&& f.half_carry == ((a ^ value ^ result) & 0x10 != 0)
            &&& f.half_carry == (a % 16 < value % 16 + bool_to_int(carry_in))
            &&& f.zero == (result == 0)
            &&& f.negative
        }),
{
    let (result, f) = alu_sub(a, value, carry_in);
    let c: u8 = if carry_in {
        1
    } else {
        0
    };
    let k: u8 = if f.carry {
        1
    } else {
        0
    };
    lemma_bit_four(a, value, c, result, k);
}

/// Whether both nibbles of a byte are decimal digits.
pub open spec fn is_decimal(value: u8) -> bool {
    value % 16 <= 9 && value / 16 <= 9
}

/// The number that a byte stands for when its nibbles are read as two
/// decimal digits.
pub open spec fn decimal(value: u8) -> int {
    (value / 16) * 10 + value % 16
}

proof fn lemma_decimal_digits(x: u16, y: u16, c: u16, sum: u16, k: u16, fix: u16, adjusted: u16, m: u16)
    by (bit_vector)
    requires
        x < 256 && x % 16 <= 9 && x / 16 <= 9,
        y < 256 && y % 16 <= 9 && y / 16 <= 9,
        c <= 1,
        k <= 1,
        m <= 1,
        sum < 256,
        adjusted < 256,
        sum + 256 * k == x + y + c,
        fix == (if x % 16 + y % 16 + c > 0xF || sum % 16 > 9 {
            6u16
        } else {
            0u16
        }) + (if k == 1 || sum > 0x99 {
            0x60u16
        } else {
            0u16
        }),
        adjusted + 256 * m == sum + fix,
    ensures
        adjusted % 16 <= 9,
        adjusted / 16 <= 9,
        fix >= 0x60 ==> (adjusted / 16) * 10 + adjusted % 16 + 100 == (x / 16) * 10 + x % 16 + (y
            / 16) * 10 + y % 16 + c,
        fix < 0x60 ==> (adjusted / 16) * 10 + adjusted % 16 == (x / 16) * 10 + x % 16 + (y / 16)
            * 10 + y % 16 + c,
{
}

/// After the sum of two bytes of two decimal digits each, the decimal
/// adjustment leaves the sum in decimal digits: the accumulator holds its
/// two low digits, and the carry stands for a hundred.
pub proof fn lemma_decimal_sum(x: u8, y: u8, carry_in: bool)
    requires
        is_decimal(x),
        is_decimal(y),
    ensures
        ({
            let (sum, f) = alu_add(x, y, carry_in);
            let (adjusted, g) = alu_daa(sum, f);
            &&& is_decimal(adjusted)
            &&& decimal(adjusted) + 100 * bool_to_int(g.carry) == decimal(x) + decimal(y)
                + bool_to_int(carry_in)
            &&& !g.half_carry
        }),
{
    let (sum, f) = alu_add(x, y, carry_in);
    let (adjusted, g) = alu_daa(sum, f);
    let fix = daa_correction(sum, f);
    let c: u16 = if carry_in {
        1
    } else {
        0
    };
    let k: u16 = if f.carry {
        1
    } else {
        0
    };
    let m: u16 = if sum + fix > 255 {
        1
    } else {
        0
    };
    let x16 = x as u16;
    let y16 = y as u16;
    let sum16 = sum as u16;
    let fix16 = fix as u16;
    let adjusted16 = adjusted as u16;
    assert(sum16 + 256 * k == x16 + y16 + c) by {
        lemma_sum_flags(x, y, carry_in);
    }
    assert(x16 % 16 == x % 16 && x16 / 16 == x / 16 && y16 % 16 == y % 16 && y16 / 16 == y / 16);
    assert(sum16 % 16 == sum % 16);
    assert(f.half_carry == (x16 % 16 + y16 % 16 + c > 0xF));
    assert(!f.negative);
    assert(fix16 == (if x16 % 16 + y16 % 16 + c > 0xF || sum16 % 16 > 9 {
        6u16
    } else {
        0u16
    }) + (if k == 1 || sum16 > 0x99 {
        0x60u16
    } else {
        0u16
    }));
    assert(fix <= 0x66);
    assert(adjusted16 + 256 * m == sum16 + fix16);
    lemma_decimal_digits(x16, y16, c, sum16, k, fix16, adjusted16, m);
    assert(adjusted16 % 16 == adjusted % 16 && adjusted16 / 16 == adjusted / 16);
    assert(g.carry == (fix >= 0x60));
}

} // verus!
