//! The instruction decoder: from a window of four bytes to an operation and
//! the number of bytes it takes.
//!
//! The rules are tried in a fixed order; bytes are split into the fields
//! `x` (bits 7..6), `y` (bits 5..3) and `z` (bits 2..0), with `p = y / 2`
//! and `q = y % 2`.
use crate::cpu::reg::word;
use crate::ops::{JumpConditional, Location16, Location8, Op, Reg16, Reg8, Z80Error};
use vstd::prelude::*;

pub mod arithmetic;
pub mod bits;
pub mod index;
pub mod util;

use arithmetic::{add_subtract_op, boolean_op};
use bits::bits_op;
use index::index_op;
use util::{
    cond_bits, cond_of, le_imm_indir, le_immediate, pair_loc, reg16_bits, reg16_bits_af, reg_bits,
    reg_loc,
};

verus! {

/// The byte at `i`, or zero past the end: windows near the end of a buffer
/// are padded with zeros.
pub open spec fn byte_at(s: Seq<u8>, i: int) -> u8 {
    if 0 <= i < s.len() {
        s[i]
    } else {
        0
    }
}

/// What the window of four bytes at `i` decodes to.
pub open spec fn decode_at(s: Seq<u8>, i: int) -> Result<(Op, usize), Z80Error> {
    decode(byte_at(s, i), byte_at(s, i + 1), byte_at(s, i + 2), byte_at(s, i + 3))
}

/// The operations of `s` from `i` on, each decoded where the one before it
/// ends; or the first fault. (Every decoded operation takes at least one
/// byte.)
pub open spec fn decode_from(s: Seq<u8>, i: int) -> Result<Seq<Op>, Z80Error>
    decreases s.len() - i,
{
    if i < 0 || i >= s.len() {
        Ok(Seq::empty())
    } else {
        match decode_at(s, i) {
            Err(e) => Err(e),
            Ok((op, n)) => if n >= 1 {
                let next = if i + n < s.len() { i + n } else { s.len() as int };
                match decode_from(s, next) {
                    Ok(rest) => Ok(seq![op] + rest),
                    Err(e) => Err(e),
                }
            } else {
                Ok(seq![op])
            },
        }
    }
}

/// `IN r, (C)` or `OUT (C), r` for the byte after an `ED` prefix with
/// `x == 1` and `z` in `{0, 1}`; `(HL)` is refused.
pub open spec fn port_c_op(b0: u8, b1: u8, b2: u8, b3: u8) -> Result<(Op, usize), Z80Error> {
    let loc = reg_loc(b1 / 8);
    if loc is RegIndirect {
        Err(Z80Error::UnknownOpcode(b0, b1, b2, b3))
    } else if b1 % 2 == 1 {
        Ok((Op::OUT(loc, Location8::Reg(Reg8::C)), 2))
    } else {
        Ok((Op::IN(loc, Location8::Reg(Reg8::C)), 2))
    }
}

/// What the window `b0 b1 b2 b3` decodes to: the operation and the number of
/// bytes it takes, or why it cannot be decoded.
pub open spec fn decode(b0: u8, b1: u8, b2: u8, b3: u8) -> Result<(Op, usize), Z80Error> {
    let (x, y, z) = (b0 / 64, (b0 / 8) % 8, b0 % 8);
    let (x1, y1, z1) = (b1 / 64, (b1 / 8) % 8, b1 % 8);
    if b0 == 0x00 {
        Ok((Op::NOP, 1))
    } else if b0 == 0x76 {
        Ok((Op::HALT, 1))
    } else if b0 == 0x07 {
        Ok((Op::RLCA, 1))
    } else if b0 == 0x0F {
        Ok((Op::RRCA, 1))
    } else if b0 == 0x17 {
        Ok((Op::RLA, 1))
    } else if b0 == 0x1F {
        Ok((Op::RRA, 1))
    } else if b0 == 0xED && b1 == 0x67 {
        Ok((Op::RRD, 2))
    } else if b0 == 0xED && b1 == 0x6F {
        Ok((Op::RLD, 2))
    } else if b0 == 0xCB {
        bits_op(b1)
    } else if b0 == 0xDB {
        Ok((Op::IN(Location8::Reg(Reg8::A), Location8::Immediate(b1)), 2))
    } else if b0 == 0xD3 {
        Ok((Op::OUT(Location8::Reg(Reg8::A), Location8::Immediate(b1)), 2))
    } else if b0 == 0xED && x1 == 1 && z1 < 2 {
        port_c_op(b0, b1, b2, b3)
    } else if b0 == 0xC3 {
        Ok((Op::JP(JumpConditional::Unconditional, Location16::Immediate(word(b2, b1))), 3))
    } else if x == 3 && z == 2 {
        Ok((Op::JP(cond_of(y), Location16::Immediate(word(b2, b1))), 3))
    } else if b0 == 0x18 {
        Ok((Op::JR(JumpConditional::Unconditional, b1 as i8), 2))
    } else if x == 0 && z == 0 && y >= 4 {
        Ok((Op::JR(cond_of((y - 4) as u8), b1 as i8), 2))
    } else if b0 == 0x10 {
        Ok((Op::DJNZ(b1 as i8), 2))
    } else if x == 1 {
        Ok((Op::LD8(reg_loc(y), reg_loc(z)), 1))
    } else if x == 0 && z == 6 {
        Ok((Op::LD8(reg_loc(y), Location8::Immediate(b1)), 2))
    } else if x == 0 && z == 1 && y % 2 == 0 {
        Ok((Op::LD16(pair_loc(y / 2, false), Location16::Immediate(word(b2, b1))), 3))
    } else if b0 == 0x2A {
        Ok((Op::LD16(Location16::Reg(Reg16::HL), Location16::ImmediateIndirect(word(b2, b1))), 3))
    } else if b0 == 0xED && x1 == 1 && z1 == 3 && y1 % 2 == 1 {
        Ok((Op::LD16(pair_loc(y1 / 2, false), Location16::ImmediateIndirect(word(b3, b2))), 4))
    } else if b0 == 0x22 {
        Ok((Op::LD16(Location16::ImmediateIndirect(word(b2, b1)), Location16::Reg(Reg16::HL)), 3))
    } else if b0 == 0xED && x1 == 1 && z1 == 3 && y1 % 2 == 0 {
        Ok((Op::LD16(Location16::ImmediateIndirect(word(b3, b2)), pair_loc(y1 / 2, false)), 4))
    } else if b0 == 0xF9 {
        Ok((Op::LD16(Location16::Reg(Reg16::SP), Location16::Reg(Reg16::HL)), 1))
    } else if x == 3 && z == 5 && y % 2 == 0 {
        Ok((Op::PUSH(pair_loc(y / 2, true)), 1))
    } else if x == 3 && z == 1 && y % 2 == 0 {
        Ok((Op::POP(pair_loc(y / 2, true)), 1))
    } else if b0 == 0xDD {
        index_op(b0, Reg16::IX, b1, b2, b3)
    } else if b0 == 0xFD {
        index_op(b0, Reg16::IY, b1, b2, b3)
    } else if b0 == 0x0A {
        Ok((Op::LD8(Location8::Reg(Reg8::A), Location8::RegIndirect(Reg16::BC)), 1))
    } else if b0 == 0x1A {
        Ok((Op::LD8(Location8::Reg(Reg8::A), Location8::RegIndirect(Reg16::DE)), 1))
    } else if b0 == 0x3A {
        Ok((Op::LD8(Location8::Reg(Reg8::A), Location8::ImmediateIndirect(word(b2, b1))), 3))
    } else if b0 == 0x02 {
        Ok((Op::LD8(Location8::RegIndirect(Reg16::BC), Location8::Reg(Reg8::A)), 1))
    } else if b0 == 0x12 {
        Ok((Op::LD8(Location8::RegIndirect(Reg16::DE), Location8::Reg(Reg8::A)), 1))
    } else if b0 == 0x32 {
        Ok((Op::LD8(Location8::ImmediateIndirect(word(b2, b1)), Location8::Reg(Reg8::A)), 3))
    } else if b0 == 0x2F {
        Ok((Op::CPL, 1))
    } else if b0 == 0xED && b1 == 0x44 {
        Ok((Op::NEG, 2))
    } else if b0 == 0x3F {
        Ok((Op::CCF, 1))
    } else if b0 == 0x37 {
        Ok((Op::SCF, 1))
    } else if (x == 2 || (x == 3 && z == 6)) && y >= 4 {
        Ok(boolean_op(b0, b1))
    } else if x == 0 && z == 4 {
        Ok((Op::INC(reg_loc(y)), 1))
    } else if x == 0 && z == 5 {
        Ok((Op::DEC(reg_loc(y)), 1))
    } else if (x == 2 || (x == 3 && z == 6)) && y < 4 {
        Ok(add_subtract_op(b0, b1))
    } else {
        Err(Z80Error::UnknownOpcode(b0, b1, b2, b3))
    }
}

/// Decode the byte after an `ED` prefix for `IN r, (C)` / `OUT (C), r`.
fn port_c(b0: u8, b1: u8, b2: u8, b3: u8) -> (r: Result<(Op, usize), Z80Error>)
    ensures
        r == port_c_op(b0, b1, b2, b3),
{
    let loc = reg_bits(b1 / 8);
    if let Location8::RegIndirect(_) = loc {
        Err(Z80Error::UnknownOpcode(b0, b1, b2, b3))
    } else if b1 % 2 == 1 {
        Ok((Op::OUT(loc, Location8::Reg(Reg8::C)), 2))
    } else {
        Ok((Op::IN(loc, Location8::Reg(Reg8::C)), 2))
    }
}

/// Decode a window of four bytes: the operation at its start and the number
/// of bytes that the operation takes.
pub fn opcode(code: [u8; 4]) -> (r: Result<(Op, usize), Z80Error>)
    ensures
        r == decode(code[0], code[1], code[2], code[3]),
        r matches Ok((_, n)) ==> 1 <= n <= 4,
{
    let b0 = code[0];
    let b1 = code[1];
    let b2 = code[2];
    let b3 = code[3];
    let (x, y, z) = (b0 / 64, (b0 / 8) % 8, b0 % 8);
    let (x1, y1, z1) = (b1 / 64, (b1 / 8) % 8, b1 % 8);
    if b0 == 0x00 {
        Ok((Op::NOP, 1))
    } else if b0 == 0x76 {
        Ok((Op::HALT, 1))
    } else if b0 == 0x07 {
        Ok((Op::RLCA, 1))
    } else if b0 == 0x0F {
        Ok((Op::RRCA, 1))
    } else if b0 == 0x17 {
        Ok((Op::RLA, 1))
    } else if b0 == 0x1F {
        Ok((Op::RRA, 1))
    } else if b0 == 0xED && b1 == 0x67 {
        Ok((Op::RRD, 2))
    } else if b0 == 0xED && b1 == 0x6F {
        Ok((Op::RLD, 2))
    } else if b0 == 0xCB {
        bits::parse(b1)
    } else if b0 == 0xDB {
        Ok((Op::IN(Location8::Reg(Reg8::A), Location8::Immediate(b1)), 2))
    } else if b0 == 0xD3 {
        Ok((Op::OUT(Location8::Reg(Reg8::A), Location8::Immediate(b1)), 2))
    } else if b0 == 0xED && x1 == 1 && z1 < 2 {
        port_c(b0, b1, b2, b3)
    } else if b0 == 0xC3 {
        Ok((Op::JP(JumpConditional::Unconditional, le_immediate(b1, b2)), 3))
    } else if x == 3 && z == 2 {
        Ok((Op::JP(cond_bits(y), le_immediate(b1, b2)), 3))
    } else if b0 == 0x18 {
        Ok((Op::JR(JumpConditional::Unconditional, b1 as i8), 2))
    } else if x == 0 && z == 0 && y >= 4 {
        Ok((Op::JR(cond_bits(y - 4), b1 as i8), 2))
    } else if b0 == 0x10 {
        Ok((Op::DJNZ(b1 as i8), 2))
    } else if x == 1 {
        Ok((Op::LD8(reg_bits(y), reg_bits(z)), 1))
    } else if x == 0 && z == 6 {
        Ok((Op::LD8(reg_bits(y), Location8::Immediate(b1)), 2))
    } else if x == 0 && z == 1 && y % 2 == 0 {
        Ok((Op::LD16(reg16_bits(y / 2), le_immediate(b1, b2)), 3))
    } else if b0 == 0x2A {
        Ok((Op::LD16(Location16::Reg(Reg16::HL), le_imm_indir(b1, b2)), 3))
    } else if b0 == 0xED && x1 == 1 && z1 == 3 && y1 % 2 == 1 {
        Ok((Op::LD16(reg16_bits(y1 / 2), le_imm_indir(b2, b3)), 4))
    } else if b0 == 0x22 {
        Ok((Op::LD16(le_imm_indir(b1, b2), Location16::Reg(Reg16::HL)), 3))
    } else if b0 == 0xED && x1 == 1 && z1 == 3 && y1 % 2 == 0 {
        Ok((Op::LD16(le_imm_indir(b2, b3), reg16_bits(y1 / 2)), 4))
    } else if b0 == 0xF9 {
        Ok((Op::LD16(Location16::Reg(Reg16::SP), Location16::Reg(Reg16::HL)), 1))
    } else if x == 3 && z == 5 && y % 2 == 0 {
        Ok((Op::PUSH(reg16_bits_af(y / 2)), 1))
    } else if x == 3 && z == 1 && y % 2 == 0 {
        Ok((Op::POP(reg16_bits_af(y / 2)), 1))
    } else if b0 == 0xDD {
        index::parse(Reg16::IX, b1, b2, b3)
    } else if b0 == 0xFD {
        index::parse(Reg16::IY, b1, b2, b3)
    } else if b0 == 0x0A {
        Ok((Op::LD8(Location8::Reg(Reg8::A), Location8::RegIndirect(Reg16::BC)), 1))
    } else if b0 == 0x1A {
        Ok((Op::LD8(Location8::Reg(Reg8::A), Location8::RegIndirect(Reg16::DE)), 1))
    } else if b0 == 0x3A {
        let addr = util::le_word(b1, b2);
        Ok((Op::LD8(Location8::Reg(Reg8::A), Location8::ImmediateIndirect(addr)), 3))
    } else if b0 == 0x02 {
        Ok((Op::LD8(Location8::RegIndirect(Reg16::BC), Location8::Reg(Reg8::A)), 1))
    } else if b0 == 0x12 {
        Ok((Op::LD8(Location8::RegIndirect(Reg16::DE), Location8::Reg(Reg8::A)), 1))
    } else if b0 == 0x32 {
        let addr = util::le_word(b1, b2);
        Ok((Op::LD8(Location8::ImmediateIndirect(addr), Location8::Reg(Reg8::A)), 3))
    } else if b0 == 0x2F {
        Ok((Op::CPL, 1))
    } else if b0 == 0xED && b1 == 0x44 {
        Ok((Op::NEG, 2))
    } else if b0 == 0x3F {
        Ok((Op::CCF, 1))
    } else if b0 == 0x37 {
        Ok((Op::SCF, 1))
    } else if (x == 2 || (x == 3 && z == 6)) && y >= 4 {
        Ok(arithmetic::boolean(b0, b1))
    } else if x == 0 && z == 4 {
        Ok((Op::INC(reg_bits(y)), 1))
    } else if x == 0 && z == 5 {
        Ok((Op::DEC(reg_bits(y)), 1))
    } else if (x == 2 || (x == 3 && z == 6)) && y < 4 {
        Ok(arithmetic::add_subtract(b0, b1))
    } else {
        Err(Z80Error::UnknownOpcode(b0, b1, b2, b3))
    }
}

/// Decode a whole program, one operation after another.
pub fn parse_stream(stream: Vec<u8>) -> (r: Result<Vec<Op>, Z80Error>)
    ensures
        r matches Ok(ops) ==> decode_from(stream@, 0) == Ok::<Seq<Op>, Z80Error>(ops@),
        r matches Err(e) ==> decode_from(stream@, 0) == Err::<Seq<Op>, Z80Error>(e),
{
    let len = stream.len();
    let mut i: usize = 0;
    let mut ops: Vec<Op> = Vec::new();
    while i < len
        invariant
            len == stream@.len(),
            i <= len,
            match decode_from(stream@, i as int) {
                Ok(rest) => decode_from(stream@, 0) == Ok::<Seq<Op>, Z80Error>(ops@ + rest),
                Err(e) => decode_from(stream@, 0) == Err::<Seq<Op>, Z80Error>(e),
            },
        decreases len - i,
    {
        let window: [u8; 4] = [
            stream[i],
            if len - i > 1 { stream[i + 1] } else { 0 },
            if len - i > 2 { stream[i + 2] } else { 0 },
            if len - i > 3 { stream[i + 3] } else { 0 },
        ];
        let (op, n) = opcode(window)?;
        let ghost prefix = ops@;
        ops.push(op);
        proof {
            let next = if i + n < len { i + n } else { len as int };
            match decode_from(stream@, next) {
                Ok(rest) => {
                    assert(prefix + (seq![op] + rest) =~= ops@ + rest);
                },
                Err(e) => {},
            }
        }
        if n >= len - i {
            i = len;
        } else {
            i = i + n;
        }
    }
    proof {
        assert(ops@ + Seq::<Op>::empty() =~= ops@);
    }
    Ok(ops)
}

} // verus!
