//! The accumulator arithmetic and logic groups of the opcode map.
use super::util::{reg_bits, reg_loc};
use crate::ops::{Location8, Op, Reg8};
use vstd::prelude::*;

verus! {

/// The operand of an arithmetic or logic opcode: a literal in the next byte
/// where bit 6 is set (the `11xx x110` forms), else the location of the low
/// three bits.
pub open spec fn alu_operand(op: u8, o1: u8) -> (Location8, usize) {
    if op & 0x40 != 0 {
        (Location8::Immediate(o1), 2)
    } else {
        (reg_loc(op), 1)
    }
}

/// `ADD, ADC, SUB, SBC` on the accumulator, selected by bits 4..3.
pub open spec fn add_subtract_op(op: u8, o1: u8) -> (Op, usize) {
    let (loc, n) = alu_operand(op, o1);
    let acc = Location8::Reg(Reg8::A);
    let y = (op / 8) % 4;
    if y == 0 {
        (Op::ADD8(acc, loc), n)
    } else if y == 1 {
        (Op::ADC(acc, loc), n)
    } else if y == 2 {
        (Op::SUB8(acc, loc), n)
    } else {
        (Op::SBC(acc, loc), n)
    }
}

/// `AND, XOR, OR, CP` with the accumulator, selected by bits 4..3.
pub open spec fn boolean_op(op: u8, o1: u8) -> (Op, usize) {
    let (loc, n) = alu_operand(op, o1);
    let y = (op / 8) % 4;
    if y == 0 {
        (Op::AND(loc), n)
    } else if y == 1 {
        (Op::XOR(loc), n)
    } else if y == 2 {
        (Op::OR(loc), n)
    } else {
        (Op::CP(loc), n)
    }
}

fn operand(op: u8, o1: u8) -> (r: (Location8, usize))
    ensures
        r == alu_operand(op, o1),
{
    if op & 0x40 != 0 {
        (Location8::Immediate(o1), 2)
    } else {
        (reg_bits(op), 1)
    }
}

/// Decode an addition or subtraction opcode, with `o1` the byte after it.
pub fn add_subtract(op: u8, o1: u8) -> (r: (Op, usize))
    ensures
        r == add_subtract_op(op, o1),
{
    let (loc, n) = operand(op, o1);
    let acc = Location8::Reg(Reg8::A);
    let y = (op / 8) % 4;
    if y == 0 {
        (Op::ADD8(acc, loc), n)
    } else if y == 1 {
        (Op::ADC(acc, loc), n)
    } else if y == 2 {
        (Op::SUB8(acc, loc), n)
    } else {
        (Op::SBC(acc, loc), n)
    }
}

/// Decode a logic or compare opcode, with `o1` the byte after it.
pub fn boolean(op: u8, o1: u8) -> (r: (Op, usize))
    ensures
        r == boolean_op(op, o1),
{
    let (loc, n) = operand(op, o1);
    let y = (op / 8) % 4;
    if y == 0 {
        (Op::AND(loc), n)
    } else if y == 1 {
        (Op::XOR(loc), n)
    } else if y == 2 {
        (Op::OR(loc), n)
    } else {
        (Op::CP(loc), n)
    }
}

} // verus!
