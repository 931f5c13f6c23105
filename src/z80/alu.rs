//! The arithmetic and logic unit: result bytes and flag bytes.
use super::semantics::{
    wrap16,
    add_flags, add_result, borrow_at, dec_flags, even_parity, inc_flags, logic_flags, logic_result,
    popcount, shift_flags, shift_result, sub_flags, sub_result, szp_flags, Logic, Shift,
};
use crate::cpu::reg::{mask_of, put_flag, word};
use crate::ops::StatusFlag;
use vstd::prelude::*;

verus! {

/// Set or clear one flag in a flag byte.
pub fn put(f: u8, flag: StatusFlag, b: bool) -> (r: u8)
    ensures
        r == put_flag(f, flag, b),
{
    let mask: u8 = match flag {
        StatusFlag::Carry => 0x01,
        StatusFlag::AddSubtract => 0x02,
        StatusFlag::ParityOverflow => 0x04,
        StatusFlag::HalfCarry => 0x10,
        StatusFlag::Zero => 0x40,
        StatusFlag::Sign => 0x80,
    };
    assert(mask == mask_of(flag));
    if b {
        f | mask
    } else {
        f & !mask
    }
}

/// Whether a byte has an even number of one bits.
pub fn parity(val: u8) -> (r: bool)
    ensures
        r == even_parity(val),
{
    let mut rest: u8 = val;
    let mut ones: u8 = 0;
    while rest != 0
        invariant
            popcount(val as nat) == ones + popcount(rest as nat),
            ones + rest <= 255,
        decreases rest,
    {
        ones = ones + rest % 2;
        rest = rest / 2;
    }
    ones % 2 == 0
}

/// Whether subtracting `sub` from `min` borrows at bit `bit`.
pub fn is_borrow(min: u16, sub: u16, bit: u16) -> (r: bool)
    requires
        bit < 15,
    ensures
        r == borrow_at(min, sub, bit),
{
    let shift: u16 = bit + 1;
    assert(shift < 16 ==> (1u16 << shift) >= 1u16) by (bit_vector);
    let mask: u16 = (1u16 << shift) - 1;
    (min & mask) < (sub & mask)
}

/// Sign, Zero and ParityOverflow from a result byte.
pub fn szp(f: u8, r: u8) -> (g: u8)
    ensures
        g == szp_flags(f, r),
{
    let f1 = put(f, StatusFlag::ParityOverflow, parity(r));
    let f2 = put(f1, StatusFlag::Zero, r == 0);
    put(f2, StatusFlag::Sign, r >= 128)
}

/// `a + b + carry`, and the flag byte it leaves.
pub fn add8(a: u8, b: u8, carry: bool, f: u8) -> (r: (u8, u8))
    ensures
        r == (add_result(a, b, carry), add_flags(f, a, b, carry)),
{
    let v: u16 = b as u16 + if carry { 1u16 } else { 0u16 };
    let total: u16 = a as u16 + v;
    let sum = (total % 256) as u8;
    let f1 = put(f, StatusFlag::Carry, (a as u16 & v & 0x40) != 0);
    let f2 = put(f1, StatusFlag::AddSubtract, false);
    let f3 = put(f2, StatusFlag::ParityOverflow, total > 255);
    let f4 = put(f3, StatusFlag::HalfCarry, (a as u16 & v & 0x04) != 0);
    let f5 = put(f4, StatusFlag::Zero, sum == 0);
    (sum, put(f5, StatusFlag::Sign, sum >= 128))
}

/// `a - b - carry`, and the flag byte it leaves.
pub fn sub8(a: u8, b: u8, carry: bool, f: u8) -> (r: (u8, u8))
    ensures
        r == (sub_result(a, b, carry), sub_flags(f, a, b, carry)),
{
    let v: u16 = b as u16 + if carry { 1u16 } else { 0u16 };
    let diff: u8 = if (a as u16) >= v {
        (a as u16 - v) as u8
    } else {
        (a as u16 + 256 - v) as u8
    };
    let f1 = put(f, StatusFlag::Carry, is_borrow(a as u16, v, 6));
    let f2 = put(f1, StatusFlag::AddSubtract, true);
    let f3 = put(f2, StatusFlag::ParityOverflow, (a as u16) < v);
    let f4 = put(f3, StatusFlag::HalfCarry, is_borrow(a as u16, v, 2));
    let f5 = put(f4, StatusFlag::Zero, diff == 0);
    (diff, put(f5, StatusFlag::Sign, diff >= 128))
}

/// `x + 1`, and the flag byte it leaves; the carry is kept.
pub fn inc8(x: u8, f: u8) -> (r: (u8, u8))
    ensures
        r == (add_result(x, 1, false), inc_flags(f, x)),
{
    let sum: u8 = if x == 255 { 0 } else { x + 1 };
    let f2 = put(f, StatusFlag::AddSubtract, false);
    let f3 = put(f2, StatusFlag::ParityOverflow, x == 255);
    let f4 = put(f3, StatusFlag::HalfCarry, false);
    let f5 = put(f4, StatusFlag::Zero, sum == 0);
    (sum, put(f5, StatusFlag::Sign, sum >= 128))
}

/// `x - 1`, and the flag byte it leaves; the carry is kept.
pub fn dec8(x: u8, f: u8) -> (r: (u8, u8))
    ensures
        r == (sub_result(x, 1, false), dec_flags(f, x)),
{
    let diff: u8 = if x == 0 { 255 } else { x - 1 };
    let f2 = put(f, StatusFlag::AddSubtract, true);
    let f3 = put(f2, StatusFlag::ParityOverflow, x == 0);
    let f4 = put(f3, StatusFlag::HalfCarry, is_borrow(x as u16, 1, 2));
    let f5 = put(f4, StatusFlag::Zero, diff == 0);
    (diff, put(f5, StatusFlag::Sign, diff >= 128))
}

/// A logic operation, and the flag byte it leaves.
pub fn logic(kind: Logic, a: u8, b: u8, f: u8) -> (r: (u8, u8))
    ensures
        r == (logic_result(kind, a, b), logic_flags(f, logic_result(kind, a, b))),
{
    let result = match kind {
        Logic::And => a & b,
        Logic::Or => a | b,
        Logic::Xor => a ^ b,
    };
    let f1 = put(f, StatusFlag::Carry, false);
    let f2 = put(f1, StatusFlag::AddSubtract, false);
    let f3 = put(f2, StatusFlag::HalfCarry, false);
    (result, szp(f3, result))
}

/// A rotate or shift of `v`, and the flag byte it leaves.
pub fn shift(kind: Shift, v: u8, carry: bool, f: u8, set_szp: bool) -> (r: (u8, u8))
    ensures
        r == (shift_result(kind, v, carry), shift_flags(f, kind, v, carry, set_szp)),
{
    let c: u8 = if carry { 1 } else { 0 };
    let low7: u8 = v % 128;
    let result: u8 = match kind {
        Shift::Rlc => low7 * 2 + v / 128,
        Shift::Rl => low7 * 2 + c,
        Shift::Rrc => v / 2 + (v % 2) * 128,
        Shift::Rr => v / 2 + c * 128,
        Shift::Sla => low7 * 2,
        Shift::Sra => v / 2 + (v / 128) * 128,
        Shift::Srl => v / 2,
    };
    let out = match kind {
        Shift::Rlc | Shift::Rl | Shift::Sla => v >= 128,
        _ => v % 2 == 1,
    };
    let f1 = put(f, StatusFlag::Carry, out);
    let f2 = put(put(f1, StatusFlag::HalfCarry, false), StatusFlag::AddSubtract, false);
    if set_szp {
        (result, szp(f2, result))
    } else {
        (result, f2)
    }
}

/// The word whose high byte is `hi` and low byte is `lo`.
pub fn join(hi: u8, lo: u8) -> (r: u16)
    ensures
        r == word(hi, lo),
{
    (hi as u16) * 256 + (lo as u16)
}

/// `pc + e`, modulo 2^16.
pub fn offset(pc: u16, e: i8) -> (r: u16)
    ensures
        r == wrap16(pc + e),
{
    if e >= 0 {
        let d = e as u16;
        if pc as u32 + d as u32 >= 0x10000 {
            (pc as u32 + d as u32 - 0x10000) as u16
        } else {
            pc + d
        }
    } else {
        let d = (-(e as i16)) as u16;
        if pc >= d {
            pc - d
        } else {
            (pc as u32 + 0x10000 - d as u32) as u16
        }
    }
}

/// `x + n`, modulo 2^16.
pub fn advance(x: u16, n: u16) -> (r: u16)
    ensures
        r == wrap16(x + n),
{
    if x as u32 + n as u32 >= 0x10000 {
        (x as u32 + n as u32 - 0x10000) as u16
    } else {
        x + n
    }
}

} // verus!
