//! The `CB`-prefixed group: rotates, shifts and single-bit operations.
use super::util::{reg_bits, reg_loc};
use crate::ops::{Op, Z80Error};
use vstd::prelude::*;

verus! {

/// What the byte after a `CB` prefix decodes to.
pub open spec fn bits_op(op: u8) -> Result<(Op, usize), Z80Error> {
    let loc = reg_loc(op);
    let x = op / 64;
    let y = (op / 8) % 8;
    if x == 0 {
        if y == 0 {
            Ok((Op::RLC(loc), 2))
        } else if y == 1 {
            Ok((Op::RRC(loc), 2))
        } else if y == 2 {
            Ok((Op::RL(loc), 2))
        } else if y == 3 {
            Ok((Op::RR(loc), 2))
        } else if y == 4 {
            Ok((Op::SLA(loc), 2))
        } else if y == 5 {
            Ok((Op::SRA(loc), 2))
        } else if y == 6 {
            Err(Z80Error::UndocumentedSll)
        } else {
            Ok((Op::SRL(loc), 2))
        }
    } else if x == 1 {
        Ok((Op::BIT(y, loc), 2))
    } else if x == 2 {
        Ok((Op::RES(y, loc), 2))
    } else {
        Ok((Op::SET(y, loc), 2))
    }
}

/// Decode the byte after a `CB` prefix. The undocumented `SLL` family is
/// refused.
pub fn parse(op: u8) -> (r: Result<(Op, usize), Z80Error>)
    ensures
        r == bits_op(op),
{
    let loc = reg_bits(op);
    let x = op / 64;
    let y = (op / 8) % 8;
    if x == 0 {
        if y == 0 {
            Ok((Op::RLC(loc), 2))
        } else if y == 1 {
            Ok((Op::RRC(loc), 2))
        } else if y == 2 {
            Ok((Op::RL(loc), 2))
        } else if y == 3 {
            Ok((Op::RR(loc), 2))
        } else if y == 4 {
            Ok((Op::SLA(loc), 2))
        } else if y == 5 {
            Ok((Op::SRA(loc), 2))
        } else if y == 6 {
            Err(Z80Error::UndocumentedSll)
        } else {
            Ok((Op::SRL(loc), 2))
        }
    } else if x == 1 {
        Ok((Op::BIT(y, loc), 2))
    } else if x == 2 {
        Ok((Op::RES(y, loc), 2))
    } else {
        Ok((Op::SET(y, loc), 2))
    }
}

} // verus!
