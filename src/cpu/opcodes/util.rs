//! Operand tables shared by many instructions.
use crate::cpu::reg::word;
use crate::ops::{JumpConditional, Location16, Location8, Reg16, Reg8};
use vstd::prelude::*;

verus! {

/// The 8-bit location that the low three bits of `bits` select:
/// `B, C, D, E, H, L, (HL), A`.
pub open spec fn reg_loc(bits: u8) -> Location8 {
    let z = bits % 8;
    if z == 0 {
        Location8::Reg(Reg8::B)
    } else if z == 1 {
        Location8::Reg(Reg8::C)
    } else if z == 2 {
        Location8::Reg(Reg8::D)
    } else if z == 3 {
        Location8::Reg(Reg8::E)
    } else if z == 4 {
        Location8::Reg(Reg8::H)
    } else if z == 5 {
        Location8::Reg(Reg8::L)
    } else if z == 6 {
        Location8::RegIndirect(Reg16::HL)
    } else {
        Location8::Reg(Reg8::A)
    }
}

/// The register pair that the low two bits of `bits` select:
/// `BC, DE, HL`, and `SP` (or `AF` where `with_af` holds).
pub open spec fn pair_loc(bits: u8, with_af: bool) -> Location16 {
    let p = bits % 4;
    if p == 0 {
        Location16::Reg(Reg16::BC)
    } else if p == 1 {
        Location16::Reg(Reg16::DE)
    } else if p == 2 {
        Location16::Reg(Reg16::HL)
    } else if with_af {
        Location16::Reg(Reg16::AF)
    } else {
        Location16::Reg(Reg16::SP)
    }
}

/// The jump condition that the low three bits of `bits` select.
pub open spec fn cond_of(bits: u8) -> JumpConditional {
    let y = bits % 8;
    if y == 0 {
        JumpConditional::NonZero
    } else if y == 1 {
        JumpConditional::Zero
    } else if y == 2 {
        JumpConditional::NoCarry
    } else if y == 3 {
        JumpConditional::Carry
    } else if y == 4 {
        JumpConditional::ParityOdd
    } else if y == 5 {
        JumpConditional::ParityEven
    } else if y == 6 {
        JumpConditional::SignPositive
    } else {
        JumpConditional::SignNegative
    }
}

/// Many instructions select a single 8-bit location with three bits.
pub fn reg_bits(bits: u8) -> (r: Location8)
    ensures
        r == reg_loc(bits),
{
    let z = bits % 8;
    if z == 0 {
        Location8::Reg(Reg8::B)
    } else if z == 1 {
        Location8::Reg(Reg8::C)
    } else if z == 2 {
        Location8::Reg(Reg8::D)
    } else if z == 3 {
        Location8::Reg(Reg8::E)
    } else if z == 4 {
        Location8::Reg(Reg8::H)
    } else if z == 5 {
        Location8::Reg(Reg8::L)
    } else if z == 6 {
        Location8::RegIndirect(Reg16::HL)
    } else {
        Location8::Reg(Reg8::A)
    }
}

/// The register pair of the 16-bit loads: `BC, DE, HL, SP`.
pub fn reg16_bits(bits: u8) -> (r: Location16)
    ensures
        r == pair_loc(bits, false),
{
    let p = bits % 4;
    if p == 0 {
        Location16::Reg(Reg16::BC)
    } else if p == 1 {
        Location16::Reg(Reg16::DE)
    } else if p == 2 {
        Location16::Reg(Reg16::HL)
    } else {
        Location16::Reg(Reg16::SP)
    }
}

/// The register pair of `PUSH` and `POP`: `BC, DE, HL, AF`.
pub fn reg16_bits_af(bits: u8) -> (r: Location16)
    ensures
        r == pair_loc(bits, true),
{
    let p = bits % 4;
    if p == 0 {
        Location16::Reg(Reg16::BC)
    } else if p == 1 {
        Location16::Reg(Reg16::DE)
    } else if p == 2 {
        Location16::Reg(Reg16::HL)
    } else {
        Location16::Reg(Reg16::AF)
    }
}

/// The jump condition selected by three bits.
pub fn cond_bits(bits: u8) -> (r: JumpConditional)
    ensures
        r == cond_of(bits),
{
    let y = bits % 8;
    if y == 0 {
        JumpConditional::NonZero
    } else if y == 1 {
        JumpConditional::Zero
    } else if y == 2 {
        JumpConditional::NoCarry
    } else if y == 3 {
        JumpConditional::Carry
    } else if y == 4 {
        JumpConditional::ParityOdd
    } else if y == 5 {
        JumpConditional::ParityEven
    } else if y == 6 {
        JumpConditional::SignPositive
    } else {
        JumpConditional::SignNegative
    }
}

/// The little-endian word `n0, n1`.
pub fn le_word(n0: u8, n1: u8) -> (r: u16)
    ensures
        r == word(n1, n0),
{
    (n1 as u16) * 256 + (n0 as u16)
}

/// The literal word written little-endian as `n0, n1`.
pub fn le_immediate(n0: u8, n1: u8) -> (r: Location16)
    ensures
        r == Location16::Immediate(word(n1, n0)),
{
    Location16::Immediate(le_word(n0, n1))
}

/// The memory word at the address written little-endian as `n0, n1`.
pub fn le_imm_indir(n0: u8, n1: u8) -> (r: Location16)
    ensures
        r == Location16::ImmediateIndirect(word(n1, n0)),
{
    Location16::ImmediateIndirect(le_word(n0, n1))
}

} // verus!
