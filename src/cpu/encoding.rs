//! The canonical encoding of each operation, and the law that the decoder
//! reads it back.
use crate::cpu::opcodes::decode;
use crate::cpu::opcodes::util::{cond_of, pair_loc, reg_loc};
use crate::cpu::reg::{high_byte, low_byte, word};
use crate::ops::{JumpConditional, Location16, Location8, Op, Reg16, Reg8};
use vstd::prelude::*;

verus! {

/// The three-bit code of an 8-bit location: `B, C, D, E, H, L, (HL), A`.
pub open spec fn reg_code(loc: Location8) -> Option<u8> {
    match loc {
        Location8::Reg(Reg8::B) => Some(0u8),
        Location8::Reg(Reg8::C) => Some(1u8),
        Location8::Reg(Reg8::D) => Some(2u8),
        Location8::Reg(Reg8::E) => Some(3u8),
        Location8::Reg(Reg8::H) => Some(4u8),
        Location8::Reg(Reg8::L) => Some(5u8),
        Location8::RegIndirect(Reg16::HL) => Some(6u8),
        Location8::Reg(Reg8::A) => Some(7u8),
        _ => None,
    }
}

/// The two-bit code of a register pair: `BC, DE, HL`, and `SP` (or `AF`
/// where `with_af` holds).
pub open spec fn pair_code(loc: Location16, with_af: bool) -> Option<u8> {
    match loc {
        Location16::Reg(Reg16::BC) => Some(0u8),
        Location16::Reg(Reg16::DE) => Some(1u8),
        Location16::Reg(Reg16::HL) => Some(2u8),
        Location16::Reg(Reg16::SP) => if with_af { None } else { Some(3u8) },
        Location16::Reg(Reg16::AF) => if with_af { Some(3u8) } else { None },
        _ => None,
    }
}

/// The three-bit code of a jump condition; `Unconditional` has none.
pub open spec fn cond_code(c: JumpConditional) -> Option<u8> {
    match c {
        JumpConditional::NonZero => Some(0u8),
        JumpConditional::Zero => Some(1u8),
        JumpConditional::NoCarry => Some(2u8),
        JumpConditional::Carry => Some(3u8),
        JumpConditional::ParityOdd => Some(4u8),
        JumpConditional::ParityEven => Some(5u8),
        JumpConditional::SignPositive => Some(6u8),
        JumpConditional::SignNegative => Some(7u8),
        JumpConditional::Unconditional => None,
    }
}

/// The prefix byte of an index register.
pub open spec fn index_prefix(r: Reg16) -> Option<u8> {
    match r {
        Reg16::IX => Some(0xDDu8),
        Reg16::IY => Some(0xFDu8),
        _ => None,
    }
}

/// A byte given as an integer.
pub open spec fn byte(v: int) -> u8 {
    v as u8
}

/// `CB`-prefixed rotates and shifts: `k` selects the operation.
pub open spec fn cb_encoding(k: int, loc: Location8) -> Option<Seq<u8>> {
    match reg_code(loc) {
        Some(c) => Some(seq![0xCBu8, byte(8 * k + c)]),
        None => None,
    }
}

/// `CB`-prefixed bit operations: `x` is 1 for `BIT`, 2 for `RES`, 3 for `SET`.
pub open spec fn bit_encoding(x: int, n: u8, loc: Location8) -> Option<Seq<u8>> {
    match reg_code(loc) {
        Some(c) => if n < 8 { Some(seq![0xCBu8, byte(64 * x + 8 * n + c)]) } else { None },
        None => None,
    }
}

/// Accumulator arithmetic and logic: `k` selects the operation.
pub open spec fn alu_encoding(k: int, loc: Location8) -> Option<Seq<u8>> {
    match loc {
        Location8::Immediate(n) => Some(seq![byte(0xC6 + 8 * k), n]),
        _ => match reg_code(loc) {
            Some(c) => Some(seq![byte(0x80 + 8 * k + c)]),
            None => None,
        },
    }
}

/// `IN`/`OUT` between a register and a port: `out` selects `OUT`.
pub open spec fn port_encoding(out: bool, reg: Location8, port: Location8) -> Option<Seq<u8>> {
    match port {
        Location8::Immediate(n) => if reg == Location8::Reg(Reg8::A) {
            Some(seq![if out { 0xD3u8 } else { 0xDBu8 }, n])
        } else {
            None
        },
        Location8::Reg(Reg8::C) => match reg_code(reg) {
            Some(c) => if c != 6 { Some(seq![0xEDu8, byte(0x40 + 8 * c + if out { 1int } else { 0int })]) } else { None },
            None => None,
        },
        _ => None,
    }
}

/// 8-bit loads.
pub open spec fn ld8_encoding(dst: Location8, src: Location8) -> Option<Seq<u8>> {
    let acc = Location8::Reg(Reg8::A);
    if reg_code(dst) is Some && reg_code(src) is Some && !(reg_code(dst) == Some(6u8) && reg_code(src) == Some(6u8)) {
        Some(seq![byte(0x40 + 8 * reg_code(dst).unwrap() + reg_code(src).unwrap())])
    } else if reg_code(dst) is Some && src is Immediate {
        Some(seq![byte(0x06 + 8 * reg_code(dst).unwrap()), src->Immediate_0])
    } else if dst == acc && src == Location8::RegIndirect(Reg16::BC) {
        Some(seq![0x0Au8])
    } else if dst == acc && src == Location8::RegIndirect(Reg16::DE) {
        Some(seq![0x1Au8])
    } else if dst == acc && src is ImmediateIndirect {
        let nn = src->ImmediateIndirect_0;
        Some(seq![0x3Au8, low_byte(nn), high_byte(nn)])
    } else if src == acc && dst == Location8::RegIndirect(Reg16::BC) {
        Some(seq![0x02u8])
    } else if src == acc && dst == Location8::RegIndirect(Reg16::DE) {
        Some(seq![0x12u8])
    } else if src == acc && dst is ImmediateIndirect {
        let nn = dst->ImmediateIndirect_0;
        Some(seq![0x32u8, low_byte(nn), high_byte(nn)])
    } else {
        None
    }
}

/// 16-bit loads.
pub open spec fn ld16_encoding(dst: Location16, src: Location16) -> Option<Seq<u8>> {
    match (dst, src) {
        (Location16::Reg(r), Location16::Immediate(nn)) => match (pair_code(dst, false), index_prefix(r)) {
            (Some(p), _) => Some(seq![byte(0x01 + 16 * p), low_byte(nn), high_byte(nn)]),
            (None, Some(x)) => Some(seq![x, 0x21u8, low_byte(nn), high_byte(nn)]),
            _ => None,
        },
        (Location16::Reg(r), Location16::ImmediateIndirect(nn)) => match (pair_code(dst, false), index_prefix(r)) {
            (Some(2u8), _) => Some(seq![0x2Au8, low_byte(nn), high_byte(nn)]),
            (Some(p), _) => Some(seq![0xEDu8, byte(0x4B + 16 * p), low_byte(nn), high_byte(nn)]),
            (None, Some(x)) => Some(seq![x, 0x2Au8, low_byte(nn), high_byte(nn)]),
            _ => None,
        },
        (Location16::ImmediateIndirect(nn), Location16::Reg(r)) => match (pair_code(src, false), index_prefix(r)) {
            (Some(2u8), _) => Some(seq![0x22u8, low_byte(nn), high_byte(nn)]),
            (Some(p), _) => Some(seq![0xEDu8, byte(0x43 + 16 * p), low_byte(nn), high_byte(nn)]),
            (None, Some(x)) => Some(seq![x, 0x22u8, low_byte(nn), high_byte(nn)]),
            _ => None,
        },
        (Location16::Reg(Reg16::SP), Location16::Reg(r)) => if r == Reg16::HL {
            Some(seq![0xF9u8])
        } else {
            match index_prefix(r) {
                Some(x) => Some(seq![x, 0xF9u8]),
                None => None,
            }
        },
        _ => None,
    }
}

/// `PUSH` (where `push` holds) or `POP`.
pub open spec fn stack_encoding(push: bool, loc: Location16) -> Option<Seq<u8>> {
    match (pair_code(loc, true), loc) {
        (Some(p), _) => Some(seq![byte(if push { 0xC5int } else { 0xC1int } + 16 * p)]),
        (None, Location16::Reg(r)) => match index_prefix(r) {
            Some(x) => Some(seq![x, if push { 0xE5u8 } else { 0xE1u8 }]),
            None => None,
        },
        _ => None,
    }
}

/// The canonical encoding of an operation, or `None` where the decoder has
/// no encoding for it (`DAA`, `CALL`, `RET`, and operand combinations that
/// the processor lacks).
pub open spec fn encode(op: Op) -> Option<Seq<u8>> {
    match op {
        Op::NOP => Some(seq![0x00u8]),
        Op::HALT => Some(seq![0x76u8]),
        Op::RLCA => Some(seq![0x07u8]),
        Op::RRCA => Some(seq![0x0Fu8]),
        Op::RLA => Some(seq![0x17u8]),
        Op::RRA => Some(seq![0x1Fu8]),
        Op::CPL => Some(seq![0x2Fu8]),
        Op::CCF => Some(seq![0x3Fu8]),
        Op::SCF => Some(seq![0x37u8]),
        Op::RRD => Some(seq![0xEDu8, 0x67u8]),
        Op::RLD => Some(seq![0xEDu8, 0x6Fu8]),
        Op::NEG => Some(seq![0xEDu8, 0x44u8]),
        Op::RLC(l) => cb_encoding(0, l),
        Op::RRC(l) => cb_encoding(1, l),
        Op::RL(l) => cb_encoding(2, l),
        Op::RR(l) => cb_encoding(3, l),
        Op::SLA(l) => cb_encoding(4, l),
        Op::SRA(l) => cb_encoding(5, l),
        Op::SRL(l) => cb_encoding(7, l),
        Op::BIT(n, l) => bit_encoding(1, n, l),
        Op::RES(n, l) => bit_encoding(2, n, l),
        Op::SET(n, l) => bit_encoding(3, n, l),
        Op::IN(d, p) => port_encoding(false, d, p),
        Op::OUT(s, p) => port_encoding(true, s, p),
        Op::JP(c, t) => match t {
            Location16::Immediate(nn) => match cond_code(c) {
                Some(k) => Some(seq![byte(0xC2 + 8 * k), low_byte(nn), high_byte(nn)]),
                None => Some(seq![0xC3u8, low_byte(nn), high_byte(nn)]),
            },
            _ => None,
        },
        Op::JR(c, e) => match cond_code(c) {
            Some(k) => if k < 4 { Some(seq![byte(0x20 + 8 * k), e as u8]) } else { None },
            None => Some(seq![0x18u8, e as u8]),
        },
        Op::DJNZ(e) => Some(seq![0x10u8, e as u8]),
        Op::LD8(d, s) => ld8_encoding(d, s),
        Op::LD16(d, s) => ld16_encoding(d, s),
        Op::PUSH(l) => stack_encoding(true, l),
        Op::POP(l) => stack_encoding(false, l),
        Op::AND(l) => alu_encoding(4, l),
        Op::XOR(l) => alu_encoding(5, l),
        Op::OR(l) => alu_encoding(6, l),
        Op::CP(l) => alu_encoding(7, l),
        Op::ADD8(d, l) => if d == Location8::Reg(Reg8::A) { alu_encoding(0, l) } else { None },
        Op::ADC(d, l) => if d == Location8::Reg(Reg8::A) { alu_encoding(1, l) } else { None },
        Op::SUB8(d, l) => if d == Location8::Reg(Reg8::A) { alu_encoding(2, l) } else { None },
        Op::SBC(d, l) => if d == Location8::Reg(Reg8::A) { alu_encoding(3, l) } else { None },
        Op::INC(l) => match reg_code(l) {
            Some(c) => Some(seq![byte(0x04 + 8 * c)]),
            None => None,
        },
        Op::DEC(l) => match reg_code(l) {
            Some(c) => Some(seq![byte(0x05 + 8 * c)]),
            None => None,
        },
        Op::DAA | Op::CALL(..) | Op::RET(..) => None,
    }
}

/// The window `b0 b1 b2 b3` starts with the bytes `e`.
pub open spec fn starts_with(e: Seq<u8>, b0: u8, b1: u8, b2: u8, b3: u8) -> bool {
    &&& 1 <= e.len() <= 4
    &&& e[0] == b0
    &&& e.len() > 1 ==> e[1] == b1
    &&& e.len() > 2 ==> e[2] == b2
    &&& e.len() > 3 ==> e[3] == b3
}

/// The code of a location selects it back, whatever the other bits.
proof fn lemma_reg_code(loc: Location8, x: u8)
    requires
        reg_code(loc) matches Some(c) && x % 8 == c,
    ensures
        reg_loc(x) == loc,
{
}

/// The code of a pair selects it back, whatever the other bits.
proof fn lemma_pair_code(loc: Location16, with_af: bool, x: u8)
    requires
        pair_code(loc, with_af) matches Some(p) && x % 4 == p,
    ensures
        pair_loc(x, with_af) == loc,
{
}

/// The code of a condition selects it back, whatever the other bits.
proof fn lemma_cond_code(c: JumpConditional, x: u8)
    requires
        cond_code(c) matches Some(k) && x % 8 == k,
    ensures
        cond_of(x) == c,
{
}

/// A byte made of the fields `x`, `y` and `z`.
proof fn lemma_fields(b: u8, x: int, y: int, z: int)
    requires
        0 <= x < 4,
        0 <= y < 8,
        0 <= z < 8,
        b == 64 * x + 8 * y + z,
    ensures
        b / 64 == x,
        (b / 8) % 8 == y,
        b % 8 == z,
        ((b / 8) % 8) / 2 == y / 2,
        ((b / 8) % 8) % 2 == y % 2,
        (b & 0x40 != 0) == (x % 2 == 1),
{
    assert((b & 0x40 != 0) == ((b / 64) % 2 == 1)) by (bit_vector);
}

/// The little-endian bytes of a word give it back.
proof fn lemma_word_bytes(nn: u16)
    ensures
        word(high_byte(nn), low_byte(nn)) == nn,
{
}

proof fn lemma_round_trip_cb(op: Op, b0: u8, b1: u8, b2: u8, b3: u8)
    requires
        op is RLC || op is RRC || op is RL || op is RR || op is SLA || op is SRA || op is SRL || op is BIT
            || op is RES || op is SET,
        encode(op) matches Some(e) && starts_with(e, b0, b1, b2, b3),
    ensures
        decode(b0, b1, b2, b3) == Ok::<(Op, usize), crate::ops::Z80Error>((op, encode(op).unwrap().len() as usize)),
{
    match op {
        Op::RLC(l) | Op::RRC(l) | Op::RL(l) | Op::RR(l) | Op::SLA(l) | Op::SRA(l) | Op::SRL(l) => {
            let c = reg_code(l).unwrap();
            let k: int = match op {
                Op::RLC(_) => 0,
                Op::RRC(_) => 1,
                Op::RL(_) => 2,
                Op::RR(_) => 3,
                Op::SLA(_) => 4,
                Op::SRA(_) => 5,
                _ => 7,
            };
            lemma_fields(b1, 0, k, c as int);
            lemma_reg_code(l, b1);
        },
        Op::BIT(n, l) | Op::RES(n, l) | Op::SET(n, l) => {
            let c = reg_code(l).unwrap();
            let x: int = match op {
                Op::BIT(..) => 1,
                Op::RES(..) => 2,
                _ => 3,
            };
            lemma_fields(b1, x, n as int, c as int);
            lemma_reg_code(l, b1);
        },
        _ => {},
    }
}

proof fn lemma_round_trip_alu(op: Op, b0: u8, b1: u8, b2: u8, b3: u8)
    requires
        op is AND || op is XOR || op is OR || op is CP || op is ADD8 || op is ADC || op is SUB8 || op is SBC
            || op is INC || op is DEC,
        encode(op) matches Some(e) && starts_with(e, b0, b1, b2, b3),
    ensures
        decode(b0, b1, b2, b3) == Ok::<(Op, usize), crate::ops::Z80Error>((op, encode(op).unwrap().len() as usize)),
{
    let l = match op {
        Op::AND(l) | Op::XOR(l) | Op::OR(l) | Op::CP(l) | Op::INC(l) | Op::DEC(l) => l,
        Op::ADD8(_, l) | Op::ADC(_, l) | Op::SUB8(_, l) | Op::SBC(_, l) => l,
        _ => Location8::Immediate(0),
    };
    let k: int = match op {
        Op::ADD8(..) => 0,
        Op::ADC(..) => 1,
        Op::SUB8(..) => 2,
        Op::SBC(..) => 3,
        Op::AND(..) => 4,
        Op::XOR(..) => 5,
        Op::OR(..) => 6,
        _ => 7,
    };
    if op is INC || op is DEC {
        let c = reg_code(l).unwrap();
        lemma_fields(b0, 0, c as int, if op is INC { 4 } else { 5 });
        lemma_reg_code(l, (b0 / 8) % 8);
    } else if l is Immediate {
        lemma_fields(b0, 3, k, 6);
    } else {
        let c = reg_code(l).unwrap();
        lemma_fields(b0, 2, k, c as int);
        lemma_reg_code(l, b0);
    }
}

proof fn lemma_round_trip_flow(op: Op, b0: u8, b1: u8, b2: u8, b3: u8)
    requires
        op is JP || op is JR || op is DJNZ || op is IN || op is OUT,
        encode(op) matches Some(e) && starts_with(e, b0, b1, b2, b3),
    ensures
        decode(b0, b1, b2, b3) == Ok::<(Op, usize), crate::ops::Z80Error>((op, encode(op).unwrap().len() as usize)),
{
    match op {
        Op::JP(c, t) => {
            lemma_word_bytes(t->Immediate_0);
            if let Some(k) = cond_code(c) {
                lemma_fields(b0, 3, k as int, 2);
                lemma_cond_code(c, (b0 / 8) % 8);
            }
        },
        Op::JR(c, e) => {
            assert((e as u8) as i8 == e) by (bit_vector);
            if let Some(k) = cond_code(c) {
                lemma_fields(b0, 0, 4 + k as int, 0);
                lemma_cond_code(c, ((b0 / 8) % 8 - 4) as u8);
            }
        },
        Op::DJNZ(e) => {
            assert((e as u8) as i8 == e) by (bit_vector);
        },
        Op::IN(r, p) | Op::OUT(r, p) => {
            if p == Location8::Reg(Reg8::C) {
                let c = reg_code(r).unwrap();
                lemma_fields(b1, 1, c as int, if op is OUT { 1 } else { 0 });
                lemma_reg_code(r, b1 / 8);
            }
        },
        _ => {},
    }
}

proof fn lemma_round_trip_ld8(op: Op, b0: u8, b1: u8, b2: u8, b3: u8)
    requires
        op is LD8,
        encode(op) matches Some(e) && starts_with(e, b0, b1, b2, b3),
    ensures
        decode(b0, b1, b2, b3) == Ok::<(Op, usize), crate::ops::Z80Error>((op, encode(op).unwrap().len() as usize)),
{
    let (d, s) = (op->LD8_0, op->LD8_1);
    if reg_code(d) is Some && reg_code(s) is Some && !(reg_code(d) == Some(6u8) && reg_code(s) == Some(6u8)) {
        lemma_fields(b0, 1, reg_code(d).unwrap() as int, reg_code(s).unwrap() as int);
        lemma_reg_code(d, (b0 / 8) % 8);
        lemma_reg_code(s, b0 % 8);
    } else if reg_code(d) is Some && s is Immediate {
        lemma_fields(b0, 0, reg_code(d).unwrap() as int, 6);
        lemma_reg_code(d, (b0 / 8) % 8);
    } else if d is ImmediateIndirect {
        lemma_word_bytes(d->ImmediateIndirect_0);
    } else if s is ImmediateIndirect {
        lemma_word_bytes(s->ImmediateIndirect_0);
    }
}

proof fn lemma_round_trip_ld16(op: Op, b0: u8, b1: u8, b2: u8, b3: u8)
    requires
        op is LD16 || op is PUSH || op is POP,
        encode(op) matches Some(e) && starts_with(e, b0, b1, b2, b3),
    ensures
        decode(b0, b1, b2, b3) == Ok::<(Op, usize), crate::ops::Z80Error>((op, encode(op).unwrap().len() as usize)),
{
    match op {
        Op::LD16(d, s) => {
            match (d, s) {
                (Location16::Reg(r), Location16::Immediate(nn)) => {
                    lemma_word_bytes(nn);
                    if let Some(p) = pair_code(d, false) {
                        lemma_fields(b0, 0, 2 * p as int, 1);
                        lemma_pair_code(d, false, ((b0 / 8) % 8) / 2);
                    }
                },
                (Location16::Reg(r), Location16::ImmediateIndirect(nn)) => {
                    lemma_word_bytes(nn);
                    if let Some(p) = pair_code(d, false) {
                        if p != 2 {
                            lemma_fields(b1, 1, 2 * p as int + 1, 3);
                            lemma_pair_code(d, false, ((b1 / 8) % 8) / 2);
                        }
                    }
                },
                (Location16::ImmediateIndirect(nn), Location16::Reg(r)) => {
                    lemma_word_bytes(nn);
                    if let Some(p) = pair_code(s, false) {
                        if p != 2 {
                            lemma_fields(b1, 1, 2 * p as int, 3);
                            lemma_pair_code(s, false, ((b1 / 8) % 8) / 2);
                        }
                    }
                },
                _ => {},
            }
        },
        Op::PUSH(l) | Op::POP(l) => {
            if let Some(p) = pair_code(l, true) {
                lemma_fields(b0, 3, 2 * p as int, if op is PUSH { 5 } else { 1 });
                lemma_pair_code(l, true, ((b0 / 8) % 8) / 2);
            }
        },
        _ => {},
    }
}

/// Every operation that has an encoding decodes back from any window that
/// starts with that encoding, taking exactly the bytes of the encoding.
pub proof fn lemma_decode_encode(op: Op, b0: u8, b1: u8, b2: u8, b3: u8)
    requires
        encode(op) matches Some(e) && starts_with(e, b0, b1, b2, b3),
    ensures
        decode(b0, b1, b2, b3) == Ok::<(Op, usize), crate::ops::Z80Error>((op, encode(op).unwrap().len() as usize)),
{
    if op is RLC || op is RRC || op is RL || op is RR || op is SLA || op is SRA || op is SRL || op is BIT
        || op is RES || op is SET {
        lemma_round_trip_cb(op, b0, b1, b2, b3);
    } else if op is AND || op is XOR || op is OR || op is CP || op is ADD8 || op is ADC || op is SUB8
        || op is SBC || op is INC || op is DEC {
        lemma_round_trip_alu(op, b0, b1, b2, b3);
    } else if op is JP || op is JR || op is DJNZ || op is IN || op is OUT {
        lemma_round_trip_flow(op, b0, b1, b2, b3);
    } else if op is LD8 {
        lemma_round_trip_ld8(op, b0, b1, b2, b3);
    } else if op is LD16 || op is PUSH || op is POP {
        lemma_round_trip_ld16(op, b0, b1, b2, b3);
    }
}

} // verus!
