//! The `DD`/`FD`-prefixed group: the supported `IX`/`IY` instructions.
use super::util::{le_imm_indir, le_immediate};
use crate::cpu::reg::word;
use crate::ops::{Location16, Op, Reg16, Z80Error};
use vstd::prelude::*;

verus! {

/// What the bytes after an index prefix decode to, for the index register
/// `reg`; `prefix` is the prefix byte itself, for the error.
pub open spec fn index_op(prefix: u8, reg: Reg16, op: u8, n1: u8, n2: u8) -> Result<(Op, usize), Z80Error> {
    if op == 0x21 {
        Ok((Op::LD16(Location16::Reg(reg), Location16::Immediate(word(n2, n1))), 4))
    } else if op == 0x2A {
        Ok((Op::LD16(Location16::Reg(reg), Location16::ImmediateIndirect(word(n2, n1))), 4))
    } else if op == 0x22 {
        Ok((Op::LD16(Location16::ImmediateIndirect(word(n2, n1)), Location16::Reg(reg)), 4))
    } else if op == 0xF9 {
        Ok((Op::LD16(Location16::Reg(Reg16::SP), Location16::Reg(reg)), 2))
    } else if op == 0xE1 {
        Ok((Op::POP(Location16::Reg(reg)), 2))
    } else if op == 0xE5 {
        Ok((Op::PUSH(Location16::Reg(reg)), 2))
    } else {
        Err(Z80Error::UnknownOpcode(prefix, op, n1, n2))
    }
}

/// Decode the bytes after an index prefix (`DD` for `IX`, `FD` for `IY`).
pub fn parse(reg: Reg16, op: u8, n1: u8, n2: u8) -> (r: Result<(Op, usize), Z80Error>)
    ensures
        r == index_op(if reg == Reg16::IY { 0xFDu8 } else { 0xDDu8 }, reg, op, n1, n2),
{
    if op == 0x21 {
        Ok((Op::LD16(Location16::Reg(reg), le_immediate(n1, n2)), 4))
    } else if op == 0x2A {
        Ok((Op::LD16(Location16::Reg(reg), le_imm_indir(n1, n2)), 4))
    } else if op == 0x22 {
        Ok((Op::LD16(le_imm_indir(n1, n2), Location16::Reg(reg)), 4))
    } else if op == 0xF9 {
        Ok((Op::LD16(Location16::Reg(Reg16::SP), Location16::Reg(reg)), 2))
    } else if op == 0xE1 {
        Ok((Op::POP(Location16::Reg(reg)), 2))
    } else if op == 0xE5 {
        Ok((Op::PUSH(Location16::Reg(reg)), 2))
    } else {
        let prefix: u8 = match reg {
            Reg16::IY => 0xFD,
            _ => 0xDD,
        };
        Err(Z80Error::UnknownOpcode(prefix, op, n1, n2))
    }
}

} // verus!
