//! The register file of the Z80.
//!
//! A register pair is a view of two byte registers: its first letter is the
//! low byte and its second letter the high byte, so `BC` reads as
//! `(C << 8) | B`. `IX`, `IY`, `SP` and `PC` are native words.
use crate::ops::{Reg16, Reg8, StatusFlag};
use vstd::prelude::*;

verus! {

/// The byte that selects a flag in register F.
pub open spec fn mask_of(f: StatusFlag) -> u8 {
    match f {
        StatusFlag::Carry => 0x01,
        StatusFlag::AddSubtract => 0x02,
        StatusFlag::ParityOverflow => 0x04,
        StatusFlag::HalfCarry => 0x10,
        StatusFlag::Zero => 0x40,
        StatusFlag::Sign => 0x80,
    }
}

/// Whether flag `f` is set in the flag byte `byte`.
pub open spec fn flag_in(byte: u8, f: StatusFlag) -> bool {
    byte & mask_of(f) != 0
}

/// The flag byte `byte` with flag `f` set to `b` and every other bit kept.
pub open spec fn put_flag(byte: u8, f: StatusFlag, b: bool) -> u8 {
    if b {
        byte | mask_of(f)
    } else {
        byte & !mask_of(f)
    }
}

/// The word whose high byte is `hi` and low byte is `lo`.
pub open spec fn word(hi: u8, lo: u8) -> u16 {
    (hi as int * 256 + lo as int) as u16
}

/// The low byte of a word.
pub open spec fn low_byte(v: u16) -> u8 {
    (v % 256) as u8
}

/// The high byte of a word.
pub open spec fn high_byte(v: u16) -> u8 {
    (v / 256) as u8
}

/// All the registers of the Z80, including the shadow bank.
#[derive(Clone, Copy, Debug, PartialEq, Eq, Structural)]
pub struct Registers {
    pub a: u8,
    pub b: u8,
    pub c: u8,
    pub d: u8,
    pub e: u8,
    pub f: u8,
    pub h: u8,
    pub l: u8,
    pub ap: u8,
    pub bp: u8,
    pub cp: u8,
    pub dp: u8,
    pub ep: u8,
    pub fp: u8,
    pub hp: u8,
    pub lp: u8,
    pub pc: u16,
    pub ix: u16,
    pub iy: u16,
    pub sp: u16,
}

impl Registers {
    /// The register file with every register zero.
    pub open spec fn zeroed() -> Registers {
        Registers {
            a: 0,
            b: 0,
            c: 0,
            d: 0,
            e: 0,
            f: 0,
            h: 0,
            l: 0,
            ap: 0,
            bp: 0,
            cp: 0,
            dp: 0,
            ep: 0,
            fp: 0,
            hp: 0,
            lp: 0,
            pc: 0,
            ix: 0,
            iy: 0,
            sp: 0,
        }
    }

    /// The value of an 8-bit register.
    pub open spec fn reg8(self, r: Reg8) -> u8 {
        match r {
            Reg8::A => self.a,
            Reg8::B => self.b,
            Reg8::C => self.c,
            Reg8::D => self.d,
            Reg8::E => self.e,
            Reg8::F => self.f,
            Reg8::H => self.h,
            Reg8::L => self.l,
            Reg8::AP => self.ap,
            Reg8::BP => self.bp,
            Reg8::CP => self.cp,
            Reg8::DP => self.dp,
            Reg8::EP => self.ep,
            Reg8::FP => self.fp,
            Reg8::HP => self.hp,
            Reg8::LP => self.lp,
        }
    }

    /// This register file with the 8-bit register `r` holding `v`.
    pub open spec fn with_reg8(self, r: Reg8, v: u8) -> Registers {
        match r {
            Reg8::A => Registers { a: v, ..self },
            Reg8::B => Registers { b: v, ..self },
            Reg8::C => Registers { c: v, ..self },
            Reg8::D => Registers { d: v, ..self },
            Reg8::E => Registers { e: v, ..self },
            Reg8::F => Registers { f: v, ..self },
            Reg8::H => Registers { h: v, ..self },
            Reg8::L => Registers { l: v, ..self },
            Reg8::AP => Registers { ap: v, ..self },
            Reg8::BP => Registers { bp: v, ..self },
            Reg8::CP => Registers { cp: v, ..self },
            Reg8::DP => Registers { dp: v, ..self },
            Reg8::EP => Registers { ep: v, ..self },
            Reg8::FP => Registers { fp: v, ..self },
            Reg8::HP => Registers { hp: v, ..self },
            Reg8::LP => Registers { lp: v, ..self },
        }
    }

    /// The two byte registers that a pair is made of, high byte first.
    pub open spec fn halves(r: Reg16) -> Option<(Reg8, Reg8)> {
        match r {
            Reg16::AF => Some((Reg8::F, Reg8::A)),
            Reg16::BC => Some((Reg8::C, Reg8::B)),
            Reg16::DE => Some((Reg8::E, Reg8::D)),
            Reg16::HL => Some((Reg8::L, Reg8::H)),
            Reg16::AFP => Some((Reg8::FP, Reg8::AP)),
            Reg16::BCP => Some((Reg8::CP, Reg8::BP)),
            Reg16::DEP => Some((Reg8::EP, Reg8::DP)),
            Reg16::HLP => Some((Reg8::LP, Reg8::HP)),
            _ => None,
        }
    }

    /// The value of a 16-bit register.
    pub open spec fn reg16(self, r: Reg16) -> u16 {
        match r {
            Reg16::IX => self.ix,
            Reg16::IY => self.iy,
            Reg16::SP => self.sp,
            _ => {
                let (hi, lo) = Self::halves(r).unwrap();
                word(self.reg8(hi), self.reg8(lo))
            },
        }
    }

    /// This register file with the 16-bit register `r` holding `v`.
    pub open spec fn with_reg16(self, r: Reg16, v: u16) -> Registers {
        match r {
            Reg16::IX => Registers { ix: v, ..self },
            Reg16::IY => Registers { iy: v, ..self },
            Reg16::SP => Registers { sp: v, ..self },
            _ => {
                let (hi, lo) = Self::halves(r).unwrap();
                self.with_reg8(lo, low_byte(v)).with_reg8(hi, high_byte(v))
            },
        }
    }

    /// Whether a flag is set.
    pub open spec fn flag(self, f: StatusFlag) -> bool {
        flag_in(self.f, f)
    }

    /// This register file with flag `f` set to `b`.
    pub open spec fn with_flag(self, f: StatusFlag, b: bool) -> Registers {
        Registers { f: put_flag(self.f, f, b), ..self }
    }

    /// A register file with every register zero.
    pub fn new() -> (r: Registers)
        ensures
            r == Registers::zeroed(),
    {
        Registers {
            a: 0,
            b: 0,
            c: 0,
            d: 0,
            e: 0,
            f: 0,
            h: 0,
            l: 0,
            ap: 0,
            bp: 0,
            cp: 0,
            dp: 0,
            ep: 0,
            fp: 0,
            hp: 0,
            lp: 0,
            pc: 0,
            ix: 0,
            iy: 0,
            sp: 0,
        }
    }

    /// The byte that selects a flag in register F.
    pub fn flag_mask(f: &StatusFlag) -> (r: u8)
        ensures
            r == mask_of(*f),
    {
        match f {
            StatusFlag::Carry => 0x01,
            StatusFlag::AddSubtract => 0x02,
            StatusFlag::ParityOverflow => 0x04,
            StatusFlag::HalfCarry => 0x10,
            StatusFlag::Zero => 0x40,
            StatusFlag::Sign => 0x80,
        }
    }

    /// Read a flag out of register F.
    pub fn get_flag(&self, f: &StatusFlag) -> (r: bool)
        ensures
            r == self.flag(*f),
    {
        (self.f & Self::flag_mask(f)) != 0
    }

    /// Write a flag into register F, keeping every other bit.
    pub fn set_flag(&mut self, f: &StatusFlag, set: bool)
        ensures
            *final(self) == old(self).with_flag(*f, set),
    {
        if set {
            self.f = self.f | Self::flag_mask(f);
        } else {
            self.f = self.f & !Self::flag_mask(f);
        }
    }

    /// Read an 8-bit register.
    pub fn get_reg8(&self, r: Reg8) -> (v: u8)
        ensures
            v == self.reg8(r),
    {
        match r {
            Reg8::A => self.a,
            Reg8::B => self.b,
            Reg8::C => self.c,
            Reg8::D => self.d,
            Reg8::E => self.e,
            Reg8::F => self.f,
            Reg8::H => self.h,
            Reg8::L => self.l,
            Reg8::AP => self.ap,
            Reg8::BP => self.bp,
            Reg8::CP => self.cp,
            Reg8::DP => self.dp,
            Reg8::EP => self.ep,
            Reg8::FP => self.fp,
            Reg8::HP => self.hp,
            Reg8::LP => self.lp,
        }
    }

    /// Write an 8-bit register.
    pub fn set_reg8(&mut self, r: Reg8, v: u8)
        ensures
            *final(self) == old(self).with_reg8(r, v),
    {
        match r {
            Reg8::A => self.a = v,
            Reg8::B => self.b = v,
            Reg8::C => self.c = v,
            Reg8::D => self.d = v,
            Reg8::E => self.e = v,
            Reg8::F => self.f = v,
            Reg8::H => self.h = v,
            Reg8::L => self.l = v,
            Reg8::AP => self.ap = v,
            Reg8::BP => self.bp = v,
            Reg8::CP => self.cp = v,
            Reg8::DP => self.dp = v,
            Reg8::EP => self.ep = v,
            Reg8::FP => self.fp = v,
            Reg8::HP => self.hp = v,
            Reg8::LP => self.lp = v,
        }
    }

    /// Write a 16-bit register. A pair takes the low byte in its first
    /// register and the high byte in its second.
    pub fn set_reg16(&mut self, r: &Reg16, v: u16)
        ensures
            *final(self) == old(self).with_reg16(*r, v),
    {
        let lo = (v % 256) as u8;
        let hi = (v / 256) as u8;
        match r {
            Reg16::AF => {
                self.a = lo;
                self.f = hi;
            },
            Reg16::BC => {
                self.b = lo;
                self.c = hi;
            },
            Reg16::DE => {
                self.d = lo;
                self.e = hi;
            },
            Reg16::HL => {
                self.h = lo;
                self.l = hi;
            },
            Reg16::AFP => {
                self.ap = lo;
                self.fp = hi;
            },
            Reg16::BCP => {
                self.bp = lo;
                self.cp = hi;
            },
            Reg16::DEP => {
                self.dp = lo;
                self.ep = hi;
            },
            Reg16::HLP => {
                self.hp = lo;
                self.lp = hi;
            },
            Reg16::IX => self.ix = v,
            Reg16::IY => self.iy = v,
            Reg16::SP => self.sp = v,
        }
    }

    /// Read a 16-bit register. A pair reads its second register as the
    /// high byte.
    pub fn get_reg16(&self, r: &Reg16) -> (v: u16)
        ensures
            v == self.reg16(*r),
    {
        let (lo, hi) = match r {
            Reg16::AF => (self.a, self.f),
            Reg16::BC => (self.b, self.c),
            Reg16::DE => (self.d, self.e),
            Reg16::HL => (self.h, self.l),
            Reg16::AFP => (self.ap, self.fp),
            Reg16::BCP => (self.bp, self.cp),
            Reg16::DEP => (self.dp, self.ep),
            Reg16::HLP => (self.hp, self.lp),
            Reg16::IX => return self.ix,
            Reg16::IY => return self.iy,
            Reg16::SP => return self.sp,
        };
        (hi as u16) * 256 + (lo as u16)
    }

    /// The program counter.
    pub fn get_pc(&self) -> (pc: u16)
        ensures
            pc == self.pc,
    {
        self.pc
    }

    /// Set the program counter.
    pub fn set_pc(&mut self, pc: u16)
        ensures
            *final(self) == (Registers { pc, ..*old(self) }),
    {
        self.pc = pc;
    }
}

impl Default for Registers {
    fn default() -> (r: Registers)
        ensures
            r == Registers::zeroed(),
    {
        Registers::new()
    }
}

/// Writing an 8-bit register and reading it back gives the value written,
/// and every other 8-bit register keeps its value.
pub proof fn lemma_reg8_round_trip(regs: Registers, r: Reg8, v: u8)
    ensures
        regs.with_reg8(r, v).reg8(r) == v,
        forall|other: Reg8| other != r ==> #[trigger] regs.with_reg8(r, v).reg8(other) == regs.reg8(other),
{
}

/// Writing a 16-bit register and reading it back gives the value written;
/// for a pair, its high register then holds `v >> 8` and its low register
/// `v & 0xFF`.
pub proof fn lemma_reg16_round_trip(regs: Registers, rr: Reg16, v: u16)
    ensures
        regs.with_reg16(rr, v).reg16(rr) == v,
        Registers::halves(rr) matches Some((hi, lo)) ==> {
            &&& regs.with_reg16(rr, v).reg8(hi) == (v >> 8) as u8
            &&& regs.with_reg16(rr, v).reg8(lo) == (v & 0xFF) as u8
        },
        rr != Reg16::SP ==> regs.with_reg16(rr, v).sp == regs.sp,
{
    assert((v >> 8) == v / 256 && (v & 0xFF) == v % 256) by (bit_vector);
}

/// The masks of two different flags share no bit, and no mask is zero.
proof fn lemma_masks_disjoint(f: StatusFlag, g: StatusFlag)
    ensures
        mask_of(f) != 0,
        f != g ==> mask_of(f) & mask_of(g) == 0,
{
    assert(0x01u8 & 0x02u8 == 0 && 0x01u8 & 0x04u8 == 0 && 0x01u8 & 0x10u8 == 0 && 0x01u8 & 0x40u8 == 0
        && 0x01u8 & 0x80u8 == 0 && 0x02u8 & 0x04u8 == 0 && 0x02u8 & 0x10u8 == 0 && 0x02u8 & 0x40u8 == 0
        && 0x02u8 & 0x80u8 == 0 && 0x04u8 & 0x10u8 == 0 && 0x04u8 & 0x40u8 == 0 && 0x04u8 & 0x80u8 == 0
        && 0x10u8 & 0x40u8 == 0 && 0x10u8 & 0x80u8 == 0 && 0x40u8 & 0x80u8 == 0
        && 0x02u8 & 0x01u8 == 0 && 0x04u8 & 0x01u8 == 0 && 0x10u8 & 0x01u8 == 0 && 0x40u8 & 0x01u8 == 0
        && 0x80u8 & 0x01u8 == 0 && 0x04u8 & 0x02u8 == 0 && 0x10u8 & 0x02u8 == 0 && 0x40u8 & 0x02u8 == 0
        && 0x80u8 & 0x02u8 == 0 && 0x10u8 & 0x04u8 == 0 && 0x40u8 & 0x04u8 == 0 && 0x80u8 & 0x04u8 == 0
        && 0x40u8 & 0x10u8 == 0 && 0x80u8 & 0x10u8 == 0 && 0x80u8 & 0x40u8 == 0) by (bit_vector);
}

/// Setting or clearing the bits of `m` in `x`, seen through a mask `k`.
proof fn lemma_put_bits(x: u8, m: u8, k: u8)
    ensures
        m != 0 ==> (x | m) & m != 0,
        (x & !m) & m == 0,
        m & k == 0 ==> (x | m) & k == x & k,
        m & k == 0 ==> (x & !m) & k == x & k,
{
    assert(m != 0 ==> (x | m) & m != 0) by (bit_vector);
    assert((x & !m) & m == 0) by (bit_vector);
    assert(m & k == 0 ==> (x | m) & k == x & k) by (bit_vector);
    assert(m & k == 0 ==> (x & !m) & k == x & k) by (bit_vector);
}

/// Setting a flag to `b` and reading it back gives `b`; every other flag
/// reads as before.
pub proof fn lemma_flag_round_trip(regs: Registers, f: StatusFlag, b: bool, g: StatusFlag)
    ensures
        regs.with_flag(f, b).flag(f) == b,
        g != f ==> regs.with_flag(f, b).flag(g) == regs.flag(g),
{
    lemma_masks_disjoint(f, g);
    lemma_put_bits(regs.f, mask_of(f), mask_of(g));
}

} // verus!
