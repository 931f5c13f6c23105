//! What each operation does to the register file and the memory.
//!
//! The machine state is a register file and the memory contents as a
//! sequence of bytes. Arithmetic is stated on integers; the flag byte is
//! built by setting one flag after another, leaving the undefined bits 3
//! and 5 alone.
use crate::cpu::reg::{high_byte, lemma_flag_round_trip, lemma_reg16_round_trip, low_byte, put_flag, word, Registers};
use crate::ops::{JumpConditional, Location16, Location8, Op, Reg16, Reg8, StatusFlag, Z80Error};
use vstd::prelude::*;

verus! {

/// The number of one bits in `v`.
pub open spec fn popcount(v: nat) -> nat
    decreases v,
{
    if v == 0 {
        0
    } else {
        v % 2 + popcount(v / 2)
    }
}

/// Even parity: the byte holds an even number of one bits.
pub open spec fn even_parity(v: u8) -> bool {
    popcount(v as nat) % 2 == 0
}

/// A borrow at bit `bit`: the low `bit + 1` bits of the minuend are less
/// than the same bits of the subtrahend.
pub open spec fn borrow_at(minuend: u16, subtrahend: u16, bit: u16) -> bool {
    let mask = ((1u16 << (bit + 1) as u16) - 1) as u16;
    (minuend & mask) < (subtrahend & mask)
}

/// An integer taken modulo 2^16.
pub open spec fn wrap16(x: int) -> u16 {
    (x % 0x10000) as u16
}

/// `flags` with Sign, Zero and ParityOverflow taken from `r`.
pub open spec fn szp_flags(f: u8, r: u8) -> u8 {
    put_flag(put_flag(put_flag(f, StatusFlag::ParityOverflow, even_parity(r)), StatusFlag::Zero, r == 0), StatusFlag::Sign, r >= 128)
}

/// The byte of `ADD`/`ADC`: `a + b + carry`, modulo 256.
pub open spec fn add_result(a: u8, b: u8, carry: bool) -> u8 {
    ((a + b + if carry { 1int } else { 0int }) % 256) as u8
}

/// The flags of `ADD`/`ADC`. With `v = b + carry`: C is bit 6 of `a & v`,
/// H is bit 2 of `a & v`, P/V is a carry out of the byte.
pub open spec fn add_flags(f: u8, a: u8, b: u8, carry: bool) -> u8 {
    let v = (b + if carry { 1int } else { 0int }) as u16;
    let r = add_result(a, b, carry);
    let f1 = put_flag(f, StatusFlag::Carry, (a as u16 & v & 0x40) != 0);
    let f2 = put_flag(f1, StatusFlag::AddSubtract, false);
    let f3 = put_flag(f2, StatusFlag::ParityOverflow, a + v > 255);
    let f4 = put_flag(f3, StatusFlag::HalfCarry, (a as u16 & v & 0x04) != 0);
    put_flag(put_flag(f4, StatusFlag::Zero, r == 0), StatusFlag::Sign, r >= 128)
}

/// The byte of `SUB`/`SBC`/`CP`: `a - b - carry`, modulo 256.
pub open spec fn sub_result(a: u8, b: u8, carry: bool) -> u8 {
    ((a - b - if carry { 1int } else { 0int }) % 256) as u8
}

/// The flags of `SUB`/`SBC`/`CP`. With `v = b + carry`: C is a borrow at
/// bit 6, H a borrow at bit 2, P/V a borrow out of the byte.
pub open spec fn sub_flags(f: u8, a: u8, b: u8, carry: bool) -> u8 {
    let v = (b + if carry { 1int } else { 0int }) as u16;
    let r = sub_result(a, b, carry);
    let f1 = put_flag(f, StatusFlag::Carry, borrow_at(a as u16, v, 6));
    let f2 = put_flag(f1, StatusFlag::AddSubtract, true);
    let f3 = put_flag(f2, StatusFlag::ParityOverflow, a < v);
    let f4 = put_flag(f3, StatusFlag::HalfCarry, borrow_at(a as u16, v, 2));
    put_flag(put_flag(f4, StatusFlag::Zero, r == 0), StatusFlag::Sign, r >= 128)
}

/// The flags of `INC`: as `ADD x, 1` (whose masked half carry is never
/// set), with the carry left alone.
pub open spec fn inc_flags(f: u8, x: u8) -> u8 {
    let r = add_result(x, 1, false);
    let f2 = put_flag(f, StatusFlag::AddSubtract, false);
    let f3 = put_flag(f2, StatusFlag::ParityOverflow, x == 255);
    let f4 = put_flag(f3, StatusFlag::HalfCarry, false);
    put_flag(put_flag(f4, StatusFlag::Zero, r == 0), StatusFlag::Sign, r >= 128)
}

/// The flags of `DEC`: as `SUB x, 1`, with the carry left alone.
pub open spec fn dec_flags(f: u8, x: u8) -> u8 {
    let r = sub_result(x, 1, false);
    let f2 = put_flag(f, StatusFlag::AddSubtract, true);
    let f3 = put_flag(f2, StatusFlag::ParityOverflow, x == 0);
    let f4 = put_flag(f3, StatusFlag::HalfCarry, borrow_at(x as u16, 1, 2));
    put_flag(put_flag(f4, StatusFlag::Zero, r == 0), StatusFlag::Sign, r >= 128)
}

/// The logic operations on the accumulator.
#[derive(Clone, Copy, Debug, PartialEq, Eq, Structural)]
pub enum Logic {
    And,
    Or,
    Xor,
}

/// The byte of a logic operation.
pub open spec fn logic_result(kind: Logic, a: u8, b: u8) -> u8 {
    match kind {
        Logic::And => a & b,
        Logic::Or => a | b,
        Logic::Xor => a ^ b,
    }
}

/// The flags of `AND`/`OR`/`XOR`: C, N and H clear, S, Z and P/V (parity)
/// from the result.
pub open spec fn logic_flags(f: u8, r: u8) -> u8 {
    let f1 = put_flag(f, StatusFlag::Carry, false);
    let f2 = put_flag(f1, StatusFlag::AddSubtract, false);
    szp_flags(put_flag(f2, StatusFlag::HalfCarry, false), r)
}

/// The rotates and shifts of a single byte.
#[derive(Clone, Copy, Debug, PartialEq, Eq, Structural)]
pub enum Shift {
    /// rotate left, bit 7 into carry and bit 0
    Rlc,
    /// rotate left through the carry
    Rl,
    /// rotate right, bit 0 into carry and bit 7
    Rrc,
    /// rotate right through the carry
    Rr,
    /// shift left, zero filled
    Sla,
    /// shift right, bit 7 kept
    Sra,
    /// shift right, zero filled
    Srl,
}

/// The byte of a rotate or shift of `v`, with `carry` the carry flag before.
pub open spec fn shift_result(kind: Shift, v: u8, carry: bool) -> u8 {
    let c = if carry { 1int } else { 0int };
    match kind {
        Shift::Rlc => ((v * 2) % 256 + v / 128) as u8,
        Shift::Rl => ((v * 2) % 256 + c) as u8,
        Shift::Rrc => (v / 2 + (v % 2) * 128) as u8,
        Shift::Rr => (v / 2 + c * 128) as u8,
        Shift::Sla => ((v * 2) % 256) as u8,
        Shift::Sra => (v / 2 + (v / 128) * 128) as u8,
        Shift::Srl => (v / 2) as u8,
    }
}

/// The bit that a rotate or shift of `v` moves out, into the carry.
pub open spec fn shift_carry(kind: Shift, v: u8) -> bool {
    match kind {
        Shift::Rlc | Shift::Rl | Shift::Sla => v >= 128,
        _ => v % 2 == 1,
    }
}

/// The flags of a rotate or shift: C the bit moved out, H and N clear, and
/// S, Z, P/V from the result where `set_szp` holds.
pub open spec fn shift_flags(f: u8, kind: Shift, v: u8, carry: bool, set_szp: bool) -> u8 {
    let r = shift_result(kind, v, carry);
    let f1 = put_flag(f, StatusFlag::Carry, shift_carry(kind, v));
    let f2 = put_flag(put_flag(f1, StatusFlag::HalfCarry, false), StatusFlag::AddSubtract, false);
    if set_szp {
        szp_flags(f2, r)
    } else {
        f2
    }
}

/// Whether a jump condition holds in this register file.
pub open spec fn holds(regs: Registers, c: JumpConditional) -> bool {
    match c {
        JumpConditional::Unconditional => true,
        JumpConditional::NonZero => !regs.flag(StatusFlag::Zero),
        JumpConditional::Zero => regs.flag(StatusFlag::Zero),
        JumpConditional::NoCarry => !regs.flag(StatusFlag::Carry),
        JumpConditional::Carry => regs.flag(StatusFlag::Carry),
        JumpConditional::ParityOdd => !regs.flag(StatusFlag::ParityOverflow),
        JumpConditional::ParityEven => regs.flag(StatusFlag::ParityOverflow),
        JumpConditional::SignPositive => !regs.flag(StatusFlag::Sign),
        JumpConditional::SignNegative => regs.flag(StatusFlag::Sign),
    }
}

/// The memory byte at `addr`, or the fault of reading past the end.
pub open spec fn mem_read(mem: Seq<u8>, addr: int) -> Result<u8, Z80Error> {
    if 0 <= addr < mem.len() {
        Ok(mem[addr])
    } else {
        Err(Z80Error::OutOfMemory(addr as usize))
    }
}

/// The memory with `v` at `addr`, or the fault of writing past the end.
pub open spec fn mem_write(mem: Seq<u8>, addr: int, v: u8) -> Result<Seq<u8>, Z80Error> {
    if 0 <= addr < mem.len() {
        Ok(mem.update(addr, v))
    } else {
        Err(Z80Error::OutOfMemory(addr as usize))
    }
}

/// The word whose low byte is at `lo` and high byte at `hi`.
pub open spec fn read_pair(mem: Seq<u8>, lo: int, hi: int) -> Result<u16, Z80Error> {
    match mem_read(mem, lo) {
        Err(e) => Err(e),
        Ok(l) => match mem_read(mem, hi) {
            Err(e) => Err(e),
            Ok(h) => Ok(word(h, l)),
        },
    }
}

/// The memory with the low byte of `v` at `lo` and its high byte at `hi`;
/// nothing is written unless both addresses are in range.
pub open spec fn write_pair(mem: Seq<u8>, lo: int, hi: int, v: u16) -> Result<Seq<u8>, Z80Error> {
    if !(0 <= lo < mem.len()) {
        Err(Z80Error::OutOfMemory(lo as usize))
    } else if !(0 <= hi < mem.len()) {
        Err(Z80Error::OutOfMemory(hi as usize))
    } else {
        Ok(mem.update(lo, low_byte(v)).update(hi, high_byte(v)))
    }
}

/// The value at an 8-bit location.
pub open spec fn read8(regs: Registers, mem: Seq<u8>, loc: Location8) -> Result<u8, Z80Error> {
    match loc {
        Location8::Reg(r) => Ok(regs.reg8(r)),
        Location8::RegIndirect(rr) => mem_read(mem, regs.reg16(rr) as int),
        Location8::ImmediateIndirect(addr) => mem_read(mem, addr as int),
        Location8::Immediate(v) => Ok(v),
    }
}

/// The state with `v` stored at an 8-bit location.
pub open spec fn write8(regs: Registers, mem: Seq<u8>, loc: Location8, v: u8) -> Result<(Registers, Seq<u8>), Z80Error> {
    match loc {
        Location8::Reg(r) => Ok((regs.with_reg8(r, v), mem)),
        Location8::RegIndirect(rr) => match mem_write(mem, regs.reg16(rr) as int, v) {
            Ok(m) => Ok((regs, m)),
            Err(e) => Err(e),
        },
        Location8::ImmediateIndirect(addr) => match mem_write(mem, addr as int, v) {
            Ok(m) => Ok((regs, m)),
            Err(e) => Err(e),
        },
        Location8::Immediate(_) => Err(Z80Error::ImmediateStore),
    }
}

/// The value at a 16-bit location; memory words are little-endian.
pub open spec fn read16(regs: Registers, mem: Seq<u8>, loc: Location16) -> Result<u16, Z80Error> {
    match loc {
        Location16::Reg(r) => Ok(regs.reg16(r)),
        Location16::ImmediateIndirect(addr) => read_pair(mem, addr as int, addr + 1),
        Location16::Immediate(v) => Ok(v),
    }
}

/// The state with `v` stored at a 16-bit location.
pub open spec fn write16(regs: Registers, mem: Seq<u8>, loc: Location16, v: u16) -> Result<(Registers, Seq<u8>), Z80Error> {
    match loc {
        Location16::Reg(r) => Ok((regs.with_reg16(r, v), mem)),
        Location16::ImmediateIndirect(addr) => match write_pair(mem, addr as int, addr + 1, v) {
            Ok(m) => Ok((regs, m)),
            Err(e) => Err(e),
        },
        Location16::Immediate(_) => Err(Z80Error::ImmediateStore),
    }
}

/// The state after pushing `v`: its high byte at `SP - 1`, its low byte at
/// `SP - 2`, and `SP` lowered by two.
pub open spec fn push_word(regs: Registers, mem: Seq<u8>, v: u16) -> Result<(Registers, Seq<u8>), Z80Error> {
    let sp = regs.sp;
    match write_pair(mem, wrap16(sp - 2) as int, wrap16(sp - 1) as int, v) {
        Ok(m) => Ok((Registers { sp: wrap16(sp - 2), ..regs }, m)),
        Err(e) => Err(e),
    }
}

/// The word on top of the stack: low byte at `SP`, high byte at `SP + 1`.
pub open spec fn top_word(regs: Registers, mem: Seq<u8>) -> Result<u16, Z80Error> {
    read_pair(mem, regs.sp as int, wrap16(regs.sp + 1) as int)
}

/// The state after storing `v` at `dst` and then setting F to `f`.
pub open spec fn store_and_flag(regs: Registers, mem: Seq<u8>, dst: Location8, v: u8, f: u8) -> Result<(Registers, Seq<u8>), Z80Error> {
    match write8(regs, mem, dst, v) {
        Ok((r, m)) => Ok((r.with_reg8(Reg8::F, f), m)),
        Err(e) => Err(e),
    }
}

/// The accumulator as a location.
pub open spec fn acc() -> Location8 {
    Location8::Reg(Reg8::A)
}

/// The carry flag, where `with_carry` holds; else false.
pub open spec fn carry_in(regs: Registers, with_carry: bool) -> bool {
    with_carry && regs.flag(StatusFlag::Carry)
}

/// `LD8 dst, src`.
pub open spec fn load8_effect(regs: Registers, mem: Seq<u8>, dst: Location8, src: Location8) -> Result<(Registers, Seq<u8>), Z80Error> {
    match read8(regs, mem, src) {
        Ok(v) => write8(regs, mem, dst, v),
        Err(e) => Err(e),
    }
}

/// `LD16 dst, src`.
pub open spec fn load16_effect(regs: Registers, mem: Seq<u8>, dst: Location16, src: Location16) -> Result<(Registers, Seq<u8>), Z80Error> {
    match read16(regs, mem, src) {
        Ok(v) => write16(regs, mem, dst, v),
        Err(e) => Err(e),
    }
}

/// `ADD dst, src`, or `ADC dst, src` where `include_carry` holds.
pub open spec fn add_effect(regs: Registers, mem: Seq<u8>, dst: Location8, src: Location8, include_carry: bool) -> Result<(Registers, Seq<u8>), Z80Error> {
    match read8(regs, mem, dst) {
        Err(e) => Err(e),
        Ok(a) => match read8(regs, mem, src) {
            Err(e) => Err(e),
            Ok(b) => {
                let c = carry_in(regs, include_carry);
                store_and_flag(regs, mem, dst, add_result(a, b, c), add_flags(regs.f, a, b, c))
            },
        },
    }
}

/// `SUB dst, src`, `SBC` where `include_carry` holds, and `CP` where the
/// result is not stored.
pub open spec fn sub_effect(regs: Registers, mem: Seq<u8>, dst: Location8, src: Location8, include_carry: bool, store: bool) -> Result<(Registers, Seq<u8>), Z80Error> {
    match read8(regs, mem, dst) {
        Err(e) => Err(e),
        Ok(a) => match read8(regs, mem, src) {
            Err(e) => Err(e),
            Ok(b) => {
                let c = carry_in(regs, include_carry);
                let f = sub_flags(regs.f, a, b, c);
                if store {
                    store_and_flag(regs, mem, dst, sub_result(a, b, c), f)
                } else {
                    Ok((regs.with_reg8(Reg8::F, f), mem))
                }
            },
        },
    }
}

/// `INC loc`.
pub open spec fn inc_effect(regs: Registers, mem: Seq<u8>, loc: Location8) -> Result<(Registers, Seq<u8>), Z80Error> {
    match read8(regs, mem, loc) {
        Err(e) => Err(e),
        Ok(x) => store_and_flag(regs, mem, loc, add_result(x, 1, false), inc_flags(regs.f, x)),
    }
}

/// `DEC loc`.
pub open spec fn dec_effect(regs: Registers, mem: Seq<u8>, loc: Location8) -> Result<(Registers, Seq<u8>), Z80Error> {
    match read8(regs, mem, loc) {
        Err(e) => Err(e),
        Ok(x) => store_and_flag(regs, mem, loc, sub_result(x, 1, false), dec_flags(regs.f, x)),
    }
}

/// `AND`, `OR` or `XOR` of the accumulator with `src`, into the accumulator.
pub open spec fn logic_effect(regs: Registers, mem: Seq<u8>, kind: Logic, src: Location8) -> Result<(Registers, Seq<u8>), Z80Error> {
    match read8(regs, mem, src) {
        Err(e) => Err(e),
        Ok(b) => {
            let r = logic_result(kind, regs.a, b);
            Ok((Registers { a: r, f: logic_flags(regs.f, r), ..regs }, mem))
        },
    }
}

/// `CPL`: the accumulator inverted, H and N set.
pub open spec fn cpl_effect(regs: Registers) -> Registers {
    let f = put_flag(put_flag(regs.f, StatusFlag::HalfCarry, true), StatusFlag::AddSubtract, true);
    Registers { a: (255 - regs.a) as u8, f, ..regs }
}

/// `NEG`: the accumulator negated. H is a borrow at bit 3 of `0 - A`, P/V
/// is set iff A was `0x80`, C iff A was not zero.
pub open spec fn neg_effect(regs: Registers) -> Registers {
    let a = regs.a;
    let r = ((256 - a) % 256) as u8;
    let f1 = put_flag(put_flag(regs.f, StatusFlag::Sign, r >= 128), StatusFlag::Zero, r == 0);
    let f2 = put_flag(f1, StatusFlag::HalfCarry, borrow_at(0, a as u16, 3));
    let f3 = put_flag(put_flag(f2, StatusFlag::ParityOverflow, a == 0x80), StatusFlag::AddSubtract, true);
    Registers { a: r, f: put_flag(f3, StatusFlag::Carry, a != 0), ..regs }
}

/// `CCF`: the carry inverted, N cleared.
pub open spec fn ccf_effect(regs: Registers) -> Registers {
    regs.with_flag(StatusFlag::Carry, !regs.flag(StatusFlag::Carry)).with_flag(StatusFlag::AddSubtract, false)
}

/// `SCF`: the carry set, N and H cleared.
pub open spec fn scf_effect(regs: Registers) -> Registers {
    regs.with_flag(StatusFlag::Carry, true).with_flag(StatusFlag::AddSubtract, false).with_flag(StatusFlag::HalfCarry, false)
}

/// A rotate or shift of the byte at `loc`; S, Z and P/V are updated where
/// `set_szp` holds.
pub open spec fn shift_effect(regs: Registers, mem: Seq<u8>, kind: Shift, loc: Location8, set_szp: bool) -> Result<(Registers, Seq<u8>), Z80Error> {
    match read8(regs, mem, loc) {
        Err(e) => Err(e),
        Ok(v) => {
            let c = regs.flag(StatusFlag::Carry);
            store_and_flag(regs, mem, loc, shift_result(kind, v, c), shift_flags(regs.f, kind, v, c, set_szp))
        },
    }
}

/// `RLD` (where `left` holds) or `RRD`: the low nibble of A and the two
/// nibbles of `(HL)` rotate as three nibbles; H and N cleared, S, Z and P/V
/// from the new A.
pub open spec fn nibble_effect(regs: Registers, mem: Seq<u8>, left: bool) -> Result<(Registers, Seq<u8>), Z80Error> {
    let hl = Location8::RegIndirect(Reg16::HL);
    match read8(regs, mem, hl) {
        Err(e) => Err(e),
        Ok(m) => {
            let a = regs.a;
            let a2 = if left { (a / 16) * 16 + m / 16 } else { (a / 16) * 16 + m % 16 };
            let m2 = if left { (m % 16) * 16 + a % 16 } else { m / 16 + (a % 16) * 16 };
            let f = szp_flags(put_flag(put_flag(regs.f, StatusFlag::HalfCarry, false), StatusFlag::AddSubtract, false), a2 as u8);
            match write8(regs, mem, hl, m2 as u8) {
                Ok((r, mm)) => Ok((Registers { a: a2 as u8, f, ..r }, mm)),
                Err(e) => Err(e),
            }
        },
    }
}

/// `BIT n, loc`: Z set iff bit `n` is clear, H set, N cleared.
pub open spec fn bit_effect(regs: Registers, mem: Seq<u8>, n: u8, loc: Location8) -> Result<(Registers, Seq<u8>), Z80Error> {
    if n >= 8 {
        Err(Z80Error::InvalidBit(n))
    } else {
        match read8(regs, mem, loc) {
            Err(e) => Err(e),
            Ok(v) => {
                let f1 = put_flag(regs.f, StatusFlag::Zero, v & (1u8 << n) == 0);
                let f = put_flag(put_flag(f1, StatusFlag::HalfCarry, true), StatusFlag::AddSubtract, false);
                Ok((regs.with_reg8(Reg8::F, f), mem))
            },
        }
    }
}

/// `SET n, loc` (where `set` holds) or `RES n, loc`.
pub open spec fn set_bit_effect(regs: Registers, mem: Seq<u8>, n: u8, loc: Location8, set: bool) -> Result<(Registers, Seq<u8>), Z80Error> {
    if n >= 8 {
        Err(Z80Error::InvalidBit(n))
    } else {
        match read8(regs, mem, loc) {
            Err(e) => Err(e),
            Ok(v) => write8(regs, mem, loc, if set { v | (1u8 << n) } else { v & !(1u8 << n) }),
        }
    }
}

/// `PUSH src`.
pub open spec fn push_effect(regs: Registers, mem: Seq<u8>, src: Location16) -> Result<(Registers, Seq<u8>), Z80Error> {
    match read16(regs, mem, src) {
        Ok(v) => push_word(regs, mem, v),
        Err(e) => Err(e),
    }
}

/// The register file with `SP` raised by two.
pub open spec fn popped(regs: Registers) -> Registers {
    Registers { sp: wrap16(regs.sp + 2), ..regs }
}

/// `POP dst`: the top word is taken off the stack, then stored at `dst`.
pub open spec fn pop_effect(regs: Registers, mem: Seq<u8>, dst: Location16) -> Result<(Registers, Seq<u8>), Z80Error> {
    match top_word(regs, mem) {
        Ok(v) => write16(popped(regs), mem, dst, v),
        Err(e) => Err(e),
    }
}

/// A state change that leaves the program counter to the run loop.
pub open spec fn no_jump(res: Result<(Registers, Seq<u8>), Z80Error>) -> Result<(Registers, Seq<u8>, Option<u16>), Z80Error> {
    match res {
        Ok((r, m)) => Ok((r, m, None)),
        Err(e) => Err(e),
    }
}

/// `JP cond, target`.
pub open spec fn jp_effect(regs: Registers, mem: Seq<u8>, cond: JumpConditional, target: Location16) -> Result<(Registers, Seq<u8>, Option<u16>), Z80Error> {
    if holds(regs, cond) {
        match read16(regs, mem, target) {
            Ok(t) => Ok((regs, mem, Some(t))),
            Err(e) => Err(e),
        }
    } else {
        Ok((regs, mem, None))
    }
}

/// `JR cond, e`: relative to the address of the `JR` itself.
pub open spec fn jr_effect(regs: Registers, mem: Seq<u8>, cond: JumpConditional, e: i8) -> Result<(Registers, Seq<u8>, Option<u16>), Z80Error> {
    if holds(regs, cond) {
        Ok((regs, mem, Some(wrap16(regs.pc + e))))
    } else {
        Ok((regs, mem, None))
    }
}

/// `DJNZ e`: B is decremented (never below zero), then a relative jump is
/// taken iff B is not zero.
pub open spec fn djnz_effect(regs: Registers, mem: Seq<u8>, e: i8) -> Result<(Registers, Seq<u8>, Option<u16>), Z80Error> {
    let b = if regs.b == 0 { 0u8 } else { (regs.b - 1) as u8 };
    let r = regs.with_reg8(Reg8::B, b);
    if b != 0 {
        Ok((r, mem, Some(wrap16(regs.pc + e))))
    } else {
        Ok((r, mem, None))
    }
}

/// `CALL cond, addr`: pushes the address after the three bytes of the
/// `CALL`, then jumps.
pub open spec fn call_effect(regs: Registers, mem: Seq<u8>, cond: JumpConditional, addr: u16) -> Result<(Registers, Seq<u8>, Option<u16>), Z80Error> {
    if holds(regs, cond) {
        match push_word(regs, mem, wrap16(regs.pc + 3)) {
            Ok((r, m)) => Ok((r, m, Some(addr))),
            Err(e) => Err(e),
        }
    } else {
        Ok((regs, mem, None))
    }
}

/// `RET cond`: pops the return address and jumps to it.
pub open spec fn ret_effect(regs: Registers, mem: Seq<u8>, cond: JumpConditional) -> Result<(Registers, Seq<u8>, Option<u16>), Z80Error> {
    if holds(regs, cond) {
        match top_word(regs, mem) {
            Ok(v) => Ok((popped(regs), mem, Some(v))),
            Err(e) => Err(e),
        }
    } else {
        Ok((regs, mem, None))
    }
}

/// Whether an operation talks to a peripheral.
pub open spec fn is_io(op: Op) -> bool {
    op is IN || op is OUT
}

/// What an operation other than `IN` and `OUT` does: the new register file
/// and memory, and the jump target if it jumps, or the fault that stops it.
/// `HALT` changes neither; it sets the halt latch, which is the engine's.
pub open spec fn effect(regs: Registers, mem: Seq<u8>, op: Op) -> Result<(Registers, Seq<u8>, Option<u16>), Z80Error>
    recommends
        !is_io(op),
{
    match op {
        Op::LD8(dst, src) => no_jump(load8_effect(regs, mem, dst, src)),
        Op::LD16(dst, src) => no_jump(load16_effect(regs, mem, dst, src)),
        Op::ADD8(dst, src) => no_jump(add_effect(regs, mem, dst, src, false)),
        Op::ADC(dst, src) => no_jump(add_effect(regs, mem, dst, src, true)),
        Op::INC(loc) => no_jump(inc_effect(regs, mem, loc)),
        Op::SUB8(dst, src) => no_jump(sub_effect(regs, mem, dst, src, false, true)),
        Op::SBC(dst, src) => no_jump(sub_effect(regs, mem, dst, src, true, true)),
        Op::DEC(loc) => no_jump(dec_effect(regs, mem, loc)),
        Op::CP(src) => no_jump(sub_effect(regs, mem, acc(), src, false, false)),
        Op::AND(src) => no_jump(logic_effect(regs, mem, Logic::And, src)),
        Op::OR(src) => no_jump(logic_effect(regs, mem, Logic::Or, src)),
        Op::XOR(src) => no_jump(logic_effect(regs, mem, Logic::Xor, src)),
        Op::CPL => Ok((cpl_effect(regs), mem, None)),
        Op::NEG => Ok((neg_effect(regs), mem, None)),
        Op::CCF => Ok((ccf_effect(regs), mem, None)),
        Op::SCF => Ok((scf_effect(regs), mem, None)),
        Op::NOP => Ok((regs, mem, None)),
        Op::HALT => Ok((regs, mem, None)),
        Op::DAA => Err(Z80Error::Unsupported),
        Op::RLCA => no_jump(shift_effect(regs, mem, Shift::Rlc, acc(), false)),
        Op::RLA => no_jump(shift_effect(regs, mem, Shift::Rl, acc(), false)),
        Op::RRCA => no_jump(shift_effect(regs, mem, Shift::Rrc, acc(), false)),
        Op::RRA => no_jump(shift_effect(regs, mem, Shift::Rr, acc(), false)),
        Op::RLC(loc) => no_jump(shift_effect(regs, mem, Shift::Rlc, loc, true)),
        Op::RL(loc) => no_jump(shift_effect(regs, mem, Shift::Rl, loc, true)),
        Op::RRC(loc) => no_jump(shift_effect(regs, mem, Shift::Rrc, loc, true)),
        Op::RR(loc) => no_jump(shift_effect(regs, mem, Shift::Rr, loc, true)),
        Op::SLA(loc) => no_jump(shift_effect(regs, mem, Shift::Sla, loc, true)),
        Op::SRA(loc) => no_jump(shift_effect(regs, mem, Shift::Sra, loc, true)),
        Op::SRL(loc) => no_jump(shift_effect(regs, mem, Shift::Srl, loc, true)),
        Op::RLD => no_jump(nibble_effect(regs, mem, true)),
        Op::RRD => no_jump(nibble_effect(regs, mem, false)),
        Op::BIT(n, loc) => no_jump(bit_effect(regs, mem, n, loc)),
        Op::SET(n, loc) => no_jump(set_bit_effect(regs, mem, n, loc, true)),
        Op::RES(n, loc) => no_jump(set_bit_effect(regs, mem, n, loc, false)),
        Op::JP(cond, target) => jp_effect(regs, mem, cond, target),
        Op::JR(cond, e) => jr_effect(regs, mem, cond, e),
        Op::DJNZ(e) => djnz_effect(regs, mem, e),
        Op::CALL(cond, addr) => call_effect(regs, mem, cond, addr),
        Op::RET(cond) => ret_effect(regs, mem, cond),
        Op::PUSH(src) => no_jump(push_effect(regs, mem, src)),
        Op::POP(dst) => no_jump(pop_effect(regs, mem, dst)),
        Op::IN(..) | Op::OUT(..) => Ok((regs, mem, None)),
    }
}

/// `IN` and `OUT`, with `ins` the bytes that each input peripheral will
/// give and `outs` the bytes that each output peripheral has taken, by port.
/// `IN` checks its destination before it asks the peripheral, so that a
/// failure leaves every peripheral as it was.
pub open spec fn io_effect(
    regs: Registers,
    mem: Seq<u8>,
    ins: Map<u8, Seq<u8>>,
    outs: Map<u8, Seq<u8>>,
    op: Op,
) -> Result<(Registers, Seq<u8>, Map<u8, Seq<u8>>, Map<u8, Seq<u8>>), Z80Error> {
    match op {
        Op::IN(dst, port) => match read8(regs, mem, port) {
            Err(e) => Err(e),
            Ok(p) => if !ins.contains_key(p) {
                Err(Z80Error::NoInputDevice(p))
            } else if dst is Immediate {
                Err(Z80Error::ImmediateStore)
            } else {
                match read8(regs, mem, dst) {
                    Err(e) => Err(e),
                    Ok(_) => if ins[p].len() == 0 {
                        Err(Z80Error::InputUnavailable(p))
                    } else {
                        match write8(regs, mem, dst, ins[p][0]) {
                            Ok((r, m)) => Ok((r, m, ins.insert(p, ins[p].drop_first()), outs)),
                            Err(e) => Err(e),
                        }
                    },
                }
            },
        },
        Op::OUT(src, port) => match read8(regs, mem, port) {
            Err(e) => Err(e),
            Ok(p) => if !outs.contains_key(p) {
                Err(Z80Error::NoOutputDevice(p))
            } else {
                match read8(regs, mem, src) {
                    Err(e) => Err(e),
                    Ok(v) => Ok((regs, mem, ins, outs.insert(p, outs[p].push(v)))),
                }
            },
        },
        _ => Err(Z80Error::Unsupported),
    }
}

/// What any operation does to the registers, the memory and the
/// peripherals, and the jump target if it jumps; or the fault that stops it.
pub open spec fn exec_model(
    regs: Registers,
    mem: Seq<u8>,
    ins: Map<u8, Seq<u8>>,
    outs: Map<u8, Seq<u8>>,
    op: Op,
) -> Result<(Registers, Seq<u8>, Map<u8, Seq<u8>>, Map<u8, Seq<u8>>, Option<u16>), Z80Error> {
    if is_io(op) {
        match io_effect(regs, mem, ins, outs, op) {
            Ok((r, m, i, o)) => Ok((r, m, i, o, None)),
            Err(e) => Err(e),
        }
    } else {
        match effect(regs, mem, op) {
            Ok((r, m, j)) => Ok((r, m, ins, outs, j)),
            Err(e) => Err(e),
        }
    }
}

/// `CCF` twice leaves the carry as it was, and clears N.
pub proof fn lemma_ccf_twice(regs: Registers, mem: Seq<u8>)
    ensures
        effect(regs, mem, Op::CCF) matches Ok((r1, m1, None)) && effect(r1, m1, Op::CCF) matches Ok((r2, m2, None)) && {
            &&& r2.flag(StatusFlag::Carry) == regs.flag(StatusFlag::Carry)
            &&& !r1.flag(StatusFlag::AddSubtract)
            &&& !r2.flag(StatusFlag::AddSubtract)
            &&& m2 == mem
        },
{
    let c = regs.flag(StatusFlag::Carry);
    let a = regs.with_flag(StatusFlag::Carry, !c);
    lemma_flag_round_trip(regs, StatusFlag::Carry, !c, StatusFlag::Carry);
    lemma_flag_round_trip(a, StatusFlag::AddSubtract, false, StatusFlag::Carry);
    lemma_flag_round_trip(a, StatusFlag::AddSubtract, false, StatusFlag::AddSubtract);
    let r1 = ccf_effect(regs);
    let b = r1.with_flag(StatusFlag::Carry, c);
    lemma_flag_round_trip(r1, StatusFlag::Carry, c, StatusFlag::Carry);
    lemma_flag_round_trip(b, StatusFlag::AddSubtract, false, StatusFlag::Carry);
    lemma_flag_round_trip(b, StatusFlag::AddSubtract, false, StatusFlag::AddSubtract);
}

/// The two stack bytes below `sp`, and `sp` again two above the lower one.
proof fn lemma_stack_addresses(sp: u16)
    ensures
        wrap16(sp - 2) != wrap16(sp - 1),
        wrap16(wrap16(sp - 2) + 1) == wrap16(sp - 1),
        wrap16(wrap16(sp - 2) + 2) == sp,
{
}

/// `PUSH rr` then `POP rr2` leaves in `rr2` what `rr` held before the push,
/// and `SP` as it was, on the 16 KiB memory with the stack bytes inside it:
/// `2 <= SP <= 0x4000`. (`POP SP` is left out: it sets `SP` to the popped
/// word.)
pub proof fn lemma_push_pop(regs: Registers, mem: Seq<u8>, rr: Reg16, rr2: Reg16)
    requires
        mem.len() == crate::cpu::mem::MEMORY_SIZE,
        2 <= regs.sp <= 0x4000,
        rr2 != Reg16::SP,
    ensures
        push_effect(regs, mem, Location16::Reg(rr)) matches Ok((r1, m1)) && pop_effect(r1, m1, Location16::Reg(rr2)) matches Ok((r2, m2)) && {
            &&& r2.reg16(rr2) == regs.reg16(rr)
            &&& r2.sp == regs.sp
        },
{
    let v = regs.reg16(rr);
    let lo = wrap16(regs.sp - 2);
    let hi = wrap16(regs.sp - 1);
    lemma_stack_addresses(regs.sp);
    let m1 = mem.update(lo as int, low_byte(v)).update(hi as int, high_byte(v));
    let r1 = Registers { sp: lo, ..regs };
    assert(write_pair(mem, lo as int, hi as int, v) == Ok::<Seq<u8>, Z80Error>(m1));
    assert(push_effect(regs, mem, Location16::Reg(rr)) == Ok::<(Registers, Seq<u8>), Z80Error>((r1, m1)));
    assert(m1[lo as int] == low_byte(v));
    assert(m1[hi as int] == high_byte(v));
    assert(word(high_byte(v), low_byte(v)) == v);
    assert(top_word(r1, m1) == Ok::<u16, Z80Error>(v));
    let r2 = popped(r1).with_reg16(rr2, v);
    assert(popped(r1).sp == regs.sp);
    assert(pop_effect(r1, m1, Location16::Reg(rr2)) == Ok::<(Registers, Seq<u8>), Z80Error>((r2, m1)));
    lemma_reg16_round_trip(popped(r1), rr2, v);
}

} // verus!
