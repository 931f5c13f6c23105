//! The execution engine: a processor with its registers, its memory, a halt
//! latch and the peripherals installed on its ports.
use crate::cpu::mem::{Memory, MEMORY_SIZE};
use crate::cpu::reg::Registers;
use crate::ops::{JumpConditional, Location16, Location8, Op, Reg16, Reg8, StatusFlag, Z80Error};
use vstd::prelude::*;

pub mod alu;
pub mod io;
pub mod run;
pub mod semantics;

use io::{BufInput, BufOutput, InputDevice, OutputDevice, Peripherals};
use semantics::{
    add_effect, bit_effect, ccf_effect, cpl_effect, dec_effect, effect, exec_model, holds,
    inc_effect,
    jp_effect, jr_effect, load16_effect, load8_effect, logic_effect, mem_read, mem_write,
    neg_effect, nibble_effect, pop_effect, push_effect, push_word, read16, read8, read_pair,
    ret_effect, scf_effect, set_bit_effect, shift_effect, sub_effect, top_word, write16, write8,
    write_pair, Logic, Shift,
};

verus! {

/// Whether a state change happened, without its new state.
pub open spec fn status(outcome: Result<(Registers, Seq<u8>), Z80Error>) -> Result<(), Z80Error> {
    match outcome {
        Ok(_) => Ok(()),
        Err(e) => Err(e),
    }
}

/// A memory change as a state change of the machine with registers `regs`.
pub open spec fn mem_outcome(regs: Registers, res: Result<Seq<u8>, Z80Error>) -> Result<(Registers, Seq<u8>), Z80Error> {
    match res {
        Ok(m) => Ok((regs, m)),
        Err(e) => Err(e),
    }
}

/// Whether `op` is one of the arithmetic and logic operations.
pub open spec fn is_arith(op: Op) -> bool {
    op is ADD8
        || op is ADC
        || op is INC
        || op is SUB8
        || op is SBC
        || op is DEC
        || op is CP
        || op is AND
        || op is OR
        || op is XOR
        || op is CPL
        || op is NEG
        || op is CCF
        || op is SCF
}

/// Whether `op` is one of the rotates, shifts and single-bit operations.
pub open spec fn is_bits(op: Op) -> bool {
    op is RLCA
        || op is RLA
        || op is RRCA
        || op is RRA
        || op is RLC
        || op is RL
        || op is RRC
        || op is RR
        || op is SLA
        || op is SRA
        || op is SRL
        || op is RLD
        || op is RRD
        || op is BIT
        || op is SET
        || op is RES
}

/// Whether `op` is one of the loads, the stack operations, `NOP`, `HALT` and `DAA`.
pub open spec fn is_move(op: Op) -> bool {
    op is LD8
        || op is LD16
        || op is PUSH
        || op is POP
        || op is NOP
        || op is HALT
        || op is DAA
}

/// Whether `op` is one of the jumps, calls and returns.
pub open spec fn is_jump(op: Op) -> bool {
    op is JP
        || op is JR
        || op is DJNZ
        || op is CALL
        || op is RET
}

fn is_arith_op(op: &Op) -> (r: bool)
    ensures
        r == is_arith(*op),
{
    match op {
        Op::ADD8(..) | Op::ADC(..) | Op::INC(..) | Op::SUB8(..) | Op::SBC(..) | Op::DEC(..) | Op::CP(..) | Op::AND(..) | Op::OR(..) | Op::XOR(..) | Op::CPL | Op::NEG | Op::CCF | Op::SCF => true,
        _ => false,
    }
}

fn is_bits_op(op: &Op) -> (r: bool)
    ensures
        r == is_bits(*op),
{
    match op {
        Op::RLCA | Op::RLA | Op::RRCA | Op::RRA | Op::RLC(..) | Op::RL(..) | Op::RRC(..) | Op::RR(..) | Op::SLA(..) | Op::SRA(..) | Op::SRL(..) | Op::RLD | Op::RRD | Op::BIT(..) | Op::SET(..) | Op::RES(..) => true,
        _ => false,
    }
}

fn is_jump_op(op: &Op) -> (r: bool)
    ensures
        r == is_jump(*op),
{
    match op {
        Op::JP(..) | Op::JR(..) | Op::DJNZ(..) | Op::CALL(..) | Op::RET(..) => true,
        _ => false,
    }
}

/// A Z80 processor. `I` and `O` are the kinds of peripheral that can be
/// installed on its input and output ports.
pub struct Z80<I, O> {
    pub registers: Registers,
    pub memory: Memory,
    /// Set by `HALT`; the run loop stops when it is set.
    pub is_halted: bool,
    pub devices: Peripherals<I, O>,
}

impl<I, O> Z80<I, O> {
    /// Whether an input peripheral is installed at `port`.
    pub open spec fn has_input(self, port: u8) -> bool {
        self.devices.has_input(port)
    }

    /// Whether an output peripheral is installed at `port`.
    pub open spec fn has_output(self, port: u8) -> bool {
        self.devices.has_output(port)
    }

    /// The same peripherals, in the same state.
    pub open spec fn same_devices(self, other: Self) -> bool {
        self.devices == other.devices
    }

    /// Memory of exactly `MEMORY_SIZE` bytes, and one peripheral slot of
    /// each kind per port.
    pub open spec fn wf(self) -> bool {
        self.memory.memory@.len() == MEMORY_SIZE && self.devices.wf()
    }

    /// The machine state: the register file and the memory contents.
    pub open spec fn state(self) -> (Registers, Seq<u8>) {
        (self.registers, self.memory.memory@)
    }

    /// This processor is `prev` after a state change with `outcome`: the new
    /// state where it succeeded, the old one where it failed, and the halt
    /// latch and the peripherals untouched either way.
    pub open spec fn moved(self, prev: Self, outcome: Result<(Registers, Seq<u8>), Z80Error>) -> bool {
        &&& self.is_halted == prev.is_halted
        &&& self.same_devices(prev)
        &&& self.memory.memory@.len() == prev.memory.memory@.len()
        &&& match outcome {
            Ok((regs, mem)) => self.registers == regs && self.memory.memory@ == mem,
            Err(_) => self.state() == prev.state(),
        }
    }

    /// This processor is `prev` after executing `op`, other than `IN` and
    /// `OUT`, which returned `r`.
    pub open spec fn stepped(self, prev: Self, op: Op, r: Result<Option<u16>, Z80Error>) -> bool {
        &&& self.same_devices(prev)
        &&& self.memory.memory@.len() == prev.memory.memory@.len()
        &&& match effect(prev.registers, prev.memory.memory@, op) {
            Ok((regs, mem, jump)) => {
                &&& r == Ok::<Option<u16>, Z80Error>(jump)
                &&& self.registers == regs
                &&& self.memory.memory@ == mem
                &&& self.is_halted == (prev.is_halted || op == Op::HALT)
            },
            Err(e) => r == Err::<Option<u16>, Z80Error>(e) && self.state() == prev.state() && self.is_halted == prev.is_halted,
        }
    }

    /// A processor with every register and every byte of memory zero, not
    /// halted, and no peripheral installed.
    pub fn new() -> (z: Self)
        ensures
            z.registers == Registers::zeroed(),
            z.memory.memory@ == Seq::new(crate::cpu::mem::MEMORY_SIZE as nat, |i: int| 0u8),
            !z.is_halted,
            forall|p: u8| !z.has_input(p) && !z.has_output(p),
            z.wf(),
    {
        Z80 {
            registers: Registers::new(),
            memory: Memory::new(),
            is_halted: false,
            devices: Peripherals::new(),
        }
    }

    fn read_mem(&self, addr: usize) -> (r: Result<u8, Z80Error>)
        ensures
            r == mem_read(self.memory.memory@, addr as int),
    {
        if addr < self.memory.memory.len() {
            Ok(self.memory.memory[addr])
        } else {
            Err(Z80Error::OutOfMemory(addr))
        }
    }

    fn write_mem(&mut self, addr: usize, val: u8) -> (r: Result<(), Z80Error>)
        ensures
            final(self).moved(*old(self), mem_outcome(old(self).registers, mem_write(old(self).memory.memory@, addr as int, val))),
            r == status(mem_outcome(old(self).registers, mem_write(old(self).memory.memory@, addr as int, val))),
    {
        if addr < self.memory.memory.len() {
            self.memory.memory.set(addr, val);
            Ok(())
        } else {
            Err(Z80Error::OutOfMemory(addr))
        }
    }

    fn read_word(&self, lo: usize, hi: usize) -> (r: Result<u16, Z80Error>)
        ensures
            r == read_pair(self.memory.memory@, lo as int, hi as int),
    {
        let l = self.read_mem(lo)?;
        let h = self.read_mem(hi)?;
        Ok(alu::join(h, l))
    }

    fn write_word(&mut self, lo: usize, hi: usize, v: u16) -> (r: Result<(), Z80Error>)
        ensures
            final(self).moved(*old(self), mem_outcome(old(self).registers, write_pair(old(self).memory.memory@, lo as int, hi as int, v))),
            r == status(mem_outcome(old(self).registers, write_pair(old(self).memory.memory@, lo as int, hi as int, v))),
    {
        let n = self.memory.memory.len();
        if lo >= n {
            return Err(Z80Error::OutOfMemory(lo));
        }
        if hi >= n {
            return Err(Z80Error::OutOfMemory(hi));
        }
        self.memory.memory.set(lo, (v % 256) as u8);
        self.memory.memory.set(hi, (v / 256) as u8);
        Ok(())
    }

    /// Read an 8-bit location.
    pub fn get_loc8(&self, loc: &Location8) -> (r: Result<u8, Z80Error>)
        ensures
            r == read8(self.registers, self.memory.memory@, *loc),
    {
        match loc {
            Location8::Immediate(v) => Ok(*v),
            Location8::Reg(reg) => Ok(self.registers.get_reg8(*reg)),
            Location8::RegIndirect(reg) => self.read_mem(self.registers.get_reg16(reg) as usize),
            Location8::ImmediateIndirect(addr) => self.read_mem(*addr as usize),
        }
    }

    /// Store into an 8-bit location. An immediate is no store target.
    pub fn set_loc8(&mut self, loc: &Location8, val: u8) -> (r: Result<(), Z80Error>)
        ensures
            final(self).moved(*old(self), write8(old(self).registers, old(self).memory.memory@, *loc, val)),
            r == status(write8(old(self).registers, old(self).memory.memory@, *loc, val)),
    {
        match loc {
            Location8::Immediate(_) => Err(Z80Error::ImmediateStore),
            Location8::Reg(reg) => {
                self.registers.set_reg8(*reg, val);
                Ok(())
            },
            Location8::RegIndirect(reg) => {
                let addr = self.registers.get_reg16(reg) as usize;
                self.write_mem(addr, val)
            },
            Location8::ImmediateIndirect(addr) => self.write_mem(*addr as usize, val),
        }
    }

    /// Read a 16-bit location; memory words are little-endian.
    pub fn get_loc16(&self, loc: &Location16) -> (r: Result<u16, Z80Error>)
        ensures
            r == read16(self.registers, self.memory.memory@, *loc),
    {
        match loc {
            Location16::Immediate(v) => Ok(*v),
            Location16::Reg(reg) => Ok(self.registers.get_reg16(reg)),
            Location16::ImmediateIndirect(addr) => self.read_word(*addr as usize, *addr as usize + 1),
        }
    }

    /// Store into a 16-bit location. An immediate is no store target.
    pub fn set_loc16(&mut self, loc: &Location16, val: u16) -> (r: Result<(), Z80Error>)
        ensures
            final(self).moved(*old(self), write16(old(self).registers, old(self).memory.memory@, *loc, val)),
            r == status(write16(old(self).registers, old(self).memory.memory@, *loc, val)),
    {
        match loc {
            Location16::Immediate(_) => Err(Z80Error::ImmediateStore),
            Location16::Reg(reg) => {
                self.registers.set_reg16(reg, val);
                Ok(())
            },
            Location16::ImmediateIndirect(addr) => self.write_word(*addr as usize, *addr as usize + 1, val),
        }
    }

    /// This processor is `prev` after a state change with `outcome` that
    /// returned `r`.
    pub open spec fn after(self, prev: Self, outcome: Result<(Registers, Seq<u8>), Z80Error>, r: Result<(), Z80Error>) -> bool {
        self.moved(prev, outcome) && r == status(outcome)
    }

    /// `ADD dst, src`, or `ADC dst, src` where `include_carry` holds.
    pub fn add(&mut self, dst: &Location8, src: &Location8, include_carry: bool) -> (r: Result<(), Z80Error>)
        ensures
            final(self).after(*old(self), add_effect(old(self).registers, old(self).memory.memory@, *dst, *src, include_carry), r),
    {
        let a = self.get_loc8(dst)?;
        let b = self.get_loc8(src)?;
        let carry = include_carry && self.registers.get_flag(&StatusFlag::Carry);
        let (sum, f) = alu::add8(a, b, carry, self.registers.f);
        self.set_loc8(dst, sum)?;
        self.registers.f = f;
        Ok(())
    }

    /// `SUB dst, src`, or `SBC` where `include_carry` holds; the result is
    /// stored only where `store_result` holds (`CP` does not store it).
    pub fn subtract(&mut self, dst: &Location8, src: &Location8, include_carry: bool, store_result: bool) -> (r: Result<(), Z80Error>)
        ensures
            final(self).after(*old(self), sub_effect(old(self).registers, old(self).memory.memory@, *dst, *src, include_carry, store_result), r),
    {
        let a = self.get_loc8(dst)?;
        let b = self.get_loc8(src)?;
        let carry = include_carry && self.registers.get_flag(&StatusFlag::Carry);
        let (diff, f) = alu::sub8(a, b, carry, self.registers.f);
        if store_result {
            self.set_loc8(dst, diff)?;
        }
        self.registers.f = f;
        Ok(())
    }

    /// `INC loc`.
    pub fn increment(&mut self, loc: &Location8) -> (r: Result<(), Z80Error>)
        ensures
            final(self).after(*old(self), inc_effect(old(self).registers, old(self).memory.memory@, *loc), r),
    {
        let x = self.get_loc8(loc)?;
        let (sum, f) = alu::inc8(x, self.registers.f);
        self.set_loc8(loc, sum)?;
        self.registers.f = f;
        Ok(())
    }

    /// `DEC loc`.
    pub fn decrement(&mut self, loc: &Location8) -> (r: Result<(), Z80Error>)
        ensures
            final(self).after(*old(self), dec_effect(old(self).registers, old(self).memory.memory@, *loc), r),
    {
        let x = self.get_loc8(loc)?;
        let (diff, f) = alu::dec8(x, self.registers.f);
        self.set_loc8(loc, diff)?;
        self.registers.f = f;
        Ok(())
    }

    /// `AND`, `OR` or `XOR` of the accumulator with `src`.
    pub fn bool_op(&mut self, kind: Logic, src: &Location8) -> (r: Result<(), Z80Error>)
        ensures
            final(self).after(*old(self), logic_effect(old(self).registers, old(self).memory.memory@, kind, *src), r),
    {
        let b = self.get_loc8(src)?;
        let (result, f) = alu::logic(kind, self.registers.a, b, self.registers.f);
        self.registers.a = result;
        self.registers.f = f;
        Ok(())
    }

    /// `CPL`.
    pub fn compliment(&mut self)
        ensures
            final(self).moved(*old(self), Ok((cpl_effect(old(self).registers), old(self).memory.memory@))),
    {
        self.registers.a = 255 - self.registers.a;
        self.registers.set_flag(&StatusFlag::HalfCarry, true);
        self.registers.set_flag(&StatusFlag::AddSubtract, true);
    }

    /// `NEG`.
    pub fn negate(&mut self)
        ensures
            final(self).moved(*old(self), Ok((neg_effect(old(self).registers), old(self).memory.memory@))),
    {
        let a = self.registers.a;
        let result: u8 = if a == 0 { 0 } else { (256 - a as u16) as u8 };
        let f1 = alu::put(alu::put(self.registers.f, StatusFlag::Sign, result >= 128), StatusFlag::Zero, result == 0);
        let f2 = alu::put(f1, StatusFlag::HalfCarry, alu::is_borrow(0, a as u16, 3));
        let f3 = alu::put(alu::put(f2, StatusFlag::ParityOverflow, a == 0x80), StatusFlag::AddSubtract, true);
        self.registers.a = result;
        self.registers.f = alu::put(f3, StatusFlag::Carry, a != 0);
    }

    /// `CCF`.
    pub fn toggle_carry(&mut self)
        ensures
            final(self).moved(*old(self), Ok((ccf_effect(old(self).registers), old(self).memory.memory@))),
    {
        let carry = self.registers.get_flag(&StatusFlag::Carry);
        self.registers.set_flag(&StatusFlag::Carry, !carry);
        self.registers.set_flag(&StatusFlag::AddSubtract, false);
    }

    /// `SCF`.
    pub fn set_carry(&mut self)
        ensures
            final(self).moved(*old(self), Ok((scf_effect(old(self).registers), old(self).memory.memory@))),
    {
        self.registers.set_flag(&StatusFlag::Carry, true);
        self.registers.set_flag(&StatusFlag::AddSubtract, false);
        self.registers.set_flag(&StatusFlag::HalfCarry, false);
    }

    /// A rotate or shift of the byte at `loc`; S, Z and P/V are updated
    /// where `set_szp` holds (the `CB` forms), not for the accumulator forms.
    pub fn rotate(&mut self, kind: Shift, loc: &Location8, set_szp: bool) -> (r: Result<(), Z80Error>)
        ensures
            final(self).after(*old(self), shift_effect(old(self).registers, old(self).memory.memory@, kind, *loc, set_szp), r),
    {
        let v = self.get_loc8(loc)?;
        let carry = self.registers.get_flag(&StatusFlag::Carry);
        let (result, f) = alu::shift(kind, v, carry, self.registers.f, set_szp);
        self.set_loc8(loc, result)?;
        self.registers.f = f;
        Ok(())
    }

    /// `RLD` where `left` holds, else `RRD`.
    pub fn rotate_nibble(&mut self, left: bool) -> (r: Result<(), Z80Error>)
        ensures
            final(self).after(*old(self), nibble_effect(old(self).registers, old(self).memory.memory@, left), r),
    {
        let hl = Location8::RegIndirect(Reg16::HL);
        let m = self.get_loc8(&hl)?;
        let a = self.registers.a;
        let (a2, m2): (u8, u8) = if left {
            ((a / 16) * 16 + m / 16, (m % 16) * 16 + a % 16)
        } else {
            ((a / 16) * 16 + m % 16, m / 16 + (a % 16) * 16)
        };
        let f0 = alu::put(alu::put(self.registers.f, StatusFlag::HalfCarry, false), StatusFlag::AddSubtract, false);
        let f = alu::szp(f0, a2);
        self.set_loc8(&hl, m2)?;
        self.registers.a = a2;
        self.registers.f = f;
        Ok(())
    }

    /// `BIT n, loc`.
    pub fn bit_test(&mut self, n: u8, loc: &Location8) -> (r: Result<(), Z80Error>)
        ensures
            final(self).after(*old(self), bit_effect(old(self).registers, old(self).memory.memory@, n, *loc), r),
    {
        if n >= 8 {
            return Err(Z80Error::InvalidBit(n));
        }
        let v = self.get_loc8(loc)?;
        let f1 = alu::put(self.registers.f, StatusFlag::Zero, v & (1u8 << n) == 0);
        self.registers.f = alu::put(alu::put(f1, StatusFlag::HalfCarry, true), StatusFlag::AddSubtract, false);
        Ok(())
    }

    /// `SET n, loc` where `set` holds, else `RES n, loc`.
    pub fn set_bit(&mut self, n: u8, loc: &Location8, set: bool) -> (r: Result<(), Z80Error>)
        ensures
            final(self).after(*old(self), set_bit_effect(old(self).registers, old(self).memory.memory@, n, *loc, set), r),
    {
        if n >= 8 {
            return Err(Z80Error::InvalidBit(n));
        }
        let v = self.get_loc8(loc)?;
        let result = if set { v | (1u8 << n) } else { v & !(1u8 << n) };
        self.set_loc8(loc, result)
    }

    /// Push a word: its high byte at `SP - 1`, its low byte at `SP - 2`.
    pub fn push_word(&mut self, v: u16) -> (r: Result<(), Z80Error>)
        ensures
            final(self).after(*old(self), push_word(old(self).registers, old(self).memory.memory@, v), r),
    {
        let sp = self.registers.sp;
        let lo = sp.wrapping_sub(2);
        let hi = sp.wrapping_sub(1);
        self.write_word(lo as usize, hi as usize, v)?;
        self.registers.sp = lo;
        Ok(())
    }

    /// The word on top of the stack.
    pub fn top(&self) -> (r: Result<u16, Z80Error>)
        ensures
            r == top_word(self.registers, self.memory.memory@),
    {
        let sp = self.registers.sp;
        self.read_word(sp as usize, sp.wrapping_add(1) as usize)
    }

    /// `PUSH src`.
    pub fn push(&mut self, src: &Location16) -> (r: Result<(), Z80Error>)
        ensures
            final(self).after(*old(self), push_effect(old(self).registers, old(self).memory.memory@, *src), r),
    {
        let v = self.get_loc16(src)?;
        self.push_word(v)
    }

    /// `POP dst`.
    pub fn pop(&mut self, dst: &Location16) -> (r: Result<(), Z80Error>)
        ensures
            final(self).after(*old(self), pop_effect(old(self).registers, old(self).memory.memory@, *dst), r),
    {
        let v = self.top()?;
        let sp = self.registers.sp;
        self.registers.sp = sp.wrapping_add(2);
        match self.set_loc16(dst, v) {
            Ok(()) => Ok(()),
            Err(e) => {
                self.registers.sp = sp;
                Err(e)
            },
        }
    }

    /// Whether a jump condition holds.
    pub fn condition(&self, cond: JumpConditional) -> (r: bool)
        ensures
            r == holds(self.registers, cond),
    {
        match cond {
            JumpConditional::Unconditional => true,
            JumpConditional::NonZero => !self.registers.get_flag(&StatusFlag::Zero),
            JumpConditional::Zero => self.registers.get_flag(&StatusFlag::Zero),
            JumpConditional::NoCarry => !self.registers.get_flag(&StatusFlag::Carry),
            JumpConditional::Carry => self.registers.get_flag(&StatusFlag::Carry),
            JumpConditional::ParityOdd => !self.registers.get_flag(&StatusFlag::ParityOverflow),
            JumpConditional::ParityEven => self.registers.get_flag(&StatusFlag::ParityOverflow),
            JumpConditional::SignPositive => !self.registers.get_flag(&StatusFlag::Sign),
            JumpConditional::SignNegative => self.registers.get_flag(&StatusFlag::Sign),
        }
    }

    /// Execute one of the arithmetic and logic operations.
    fn exec_arith(&mut self, op: Op) -> (r: Result<Option<u16>, Z80Error>)
        requires
            is_arith(op),
        ensures
            final(self).stepped(*old(self), op, r),
    {
        match op {
            Op::ADD8(dst, src) => {
                self.add(&dst, &src, false)?;
                Ok(None)
            },
            Op::ADC(dst, src) => {
                self.add(&dst, &src, true)?;
                Ok(None)
            },
            Op::INC(loc) => {
                self.increment(&loc)?;
                Ok(None)
            },
            Op::SUB8(dst, src) => {
                self.subtract(&dst, &src, false, true)?;
                Ok(None)
            },
            Op::SBC(dst, src) => {
                self.subtract(&dst, &src, true, true)?;
                Ok(None)
            },
            Op::DEC(loc) => {
                self.decrement(&loc)?;
                Ok(None)
            },
            Op::CP(src) => {
                self.subtract(&Location8::Reg(Reg8::A), &src, false, false)?;
                Ok(None)
            },
            Op::AND(src) => {
                self.bool_op(Logic::And, &src)?;
                Ok(None)
            },
            Op::OR(src) => {
                self.bool_op(Logic::Or, &src)?;
                Ok(None)
            },
            Op::XOR(src) => {
                self.bool_op(Logic::Xor, &src)?;
                Ok(None)
            },
            Op::CPL => {
                self.compliment();
                Ok(None)
            },
            Op::NEG => {
                self.negate();
                Ok(None)
            },
            Op::CCF => {
                self.toggle_carry();
                Ok(None)
            },
            Op::SCF => {
                self.set_carry();
                Ok(None)
            },
            _ => Err(Z80Error::Unsupported),
        }
    }

    /// Execute one of the rotates, shifts and single-bit operations.
    fn exec_bits(&mut self, op: Op) -> (r: Result<Option<u16>, Z80Error>)
        requires
            is_bits(op),
        ensures
            final(self).stepped(*old(self), op, r),
    {
        match op {
            Op::RLCA => {
                self.rotate(Shift::Rlc, &Location8::Reg(Reg8::A), false)?;
                Ok(None)
            },
            Op::RLA => {
                self.rotate(Shift::Rl, &Location8::Reg(Reg8::A), false)?;
                Ok(None)
            },
            Op::RRCA => {
                self.rotate(Shift::Rrc, &Location8::Reg(Reg8::A), false)?;
                Ok(None)
            },
            Op::RRA => {
                self.rotate(Shift::Rr, &Location8::Reg(Reg8::A), false)?;
                Ok(None)
            },
            Op::RLC(loc) => {
                self.rotate(Shift::Rlc, &loc, true)?;
                Ok(None)
            },
            Op::RL(loc) => {
                self.rotate(Shift::Rl, &loc, true)?;
                Ok(None)
            },
            Op::RRC(loc) => {
                self.rotate(Shift::Rrc, &loc, true)?;
                Ok(None)
            },
            Op::RR(loc) => {
                self.rotate(Shift::Rr, &loc, true)?;
                Ok(None)
            },
            Op::SLA(loc) => {
                self.rotate(Shift::Sla, &loc, true)?;
                Ok(None)
            },
            Op::SRA(loc) => {
                self.rotate(Shift::Sra, &loc, true)?;
                Ok(None)
            },
            Op::SRL(loc) => {
                self.rotate(Shift::Srl, &loc, true)?;
                Ok(None)
            },
            Op::RLD => {
                self.rotate_nibble(true)?;
                Ok(None)
            },
            Op::RRD => {
                self.rotate_nibble(false)?;
                Ok(None)
            },
            Op::BIT(n, loc) => {
                self.bit_test(n, &loc)?;
                Ok(None)
            },
            Op::SET(n, loc) => {
                self.set_bit(n, &loc, true)?;
                Ok(None)
            },
            Op::RES(n, loc) => {
                self.set_bit(n, &loc, false)?;
                Ok(None)
            },
            _ => Err(Z80Error::Unsupported),
        }
    }

    /// Execute one of the loads, the stack operations, `NOP`, `HALT` and `DAA`.
    fn exec_move(&mut self, op: Op) -> (r: Result<Option<u16>, Z80Error>)
        requires
            is_move(op),
        ensures
            final(self).stepped(*old(self), op, r),
    {
        match op {
            Op::LD8(dst, src) => {
                let v = self.get_loc8(&src)?;
                self.set_loc8(&dst, v)?;
                Ok(None)
            },
            Op::LD16(dst, src) => {
                let v = self.get_loc16(&src)?;
                self.set_loc16(&dst, v)?;
                Ok(None)
            },
            Op::PUSH(src) => {
                self.push(&src)?;
                Ok(None)
            },
            Op::POP(dst) => {
                self.pop(&dst)?;
                Ok(None)
            },
            Op::NOP => Ok(None),
            Op::HALT => {
                self.is_halted = true;
                Ok(None)
            },
            Op::DAA => Err(Z80Error::Unsupported),
            _ => Err(Z80Error::Unsupported),
        }
    }

    /// Execute one of the jumps, calls and returns.
    fn exec_jump(&mut self, op: Op) -> (r: Result<Option<u16>, Z80Error>)
        requires
            is_jump(op),
        ensures
            final(self).stepped(*old(self), op, r),
    {
        match op {
            Op::JP(cond, target) => self.jump(cond, &target),
            Op::JR(cond, e) => self.jump_relative(cond, e),
            Op::DJNZ(e) => self.decrement_jump(e),
            Op::CALL(cond, addr) => self.call(cond, addr),
            Op::RET(cond) => self.ret(cond),
            _ => Err(Z80Error::Unsupported),
        }
    }

    /// `JP cond, target`.
    pub fn jump(&mut self, cond: JumpConditional, target: &Location16) -> (r: Result<Option<u16>, Z80Error>)
        ensures
            final(self).stepped(*old(self), Op::JP(cond, *target), r),
    {
        if self.condition(cond) {
            let t = self.get_loc16(target)?;
            Ok(Some(t))
        } else {
            Ok(None)
        }
    }

    /// `JR cond, e`: relative to the address of the `JR` itself.
    pub fn jump_relative(&mut self, cond: JumpConditional, e: i8) -> (r: Result<Option<u16>, Z80Error>)
        ensures
            final(self).stepped(*old(self), Op::JR(cond, e), r),
    {
        if self.condition(cond) {
            Ok(Some(alu::offset(self.registers.pc, e)))
        } else {
            Ok(None)
        }
    }

    /// `DJNZ e`.
    pub fn decrement_jump(&mut self, e: i8) -> (r: Result<Option<u16>, Z80Error>)
        ensures
            final(self).stepped(*old(self), Op::DJNZ(e), r),
    {
        let b = self.registers.b;
        let b2: u8 = if b == 0 { 0 } else { b - 1 };
        self.registers.b = b2;
        if b2 != 0 {
            Ok(Some(alu::offset(self.registers.pc, e)))
        } else {
            Ok(None)
        }
    }

    /// `CALL cond, addr`.
    pub fn call(&mut self, cond: JumpConditional, addr: u16) -> (r: Result<Option<u16>, Z80Error>)
        ensures
            final(self).stepped(*old(self), Op::CALL(cond, addr), r),
    {
        if self.condition(cond) {
            let ret = alu::advance(self.registers.pc, 3);
            self.push_word(ret)?;
            Ok(Some(addr))
        } else {
            Ok(None)
        }
    }

    /// `RET cond`.
    pub fn ret(&mut self, cond: JumpConditional) -> (r: Result<Option<u16>, Z80Error>)
        ensures
            final(self).stepped(*old(self), Op::RET(cond), r),
    {
        if self.condition(cond) {
            let v = self.top()?;
            self.registers.sp = alu::advance(self.registers.sp, 2);
            Ok(Some(v))
        } else {
            Ok(None)
        }
    }

    /// Install an input peripheral at a port, replacing the one there.
    /// `IN` then reads from it.
    pub fn install_input(&mut self, index: u8, device: I)
        requires
            old(self).wf(),
        ensures
            final(self).wf(),
            final(self).devices.input_at(index) == Some(device),
            forall|p: u8| p != index ==> final(self).devices.input_at(p) == old(self).devices.input_at(p),
            forall|p: u8| final(self).devices.output_at(p) == old(self).devices.output_at(p),
            final(self).state() == old(self).state(),
            final(self).is_halted == old(self).is_halted,
    {
        self.devices.install_input(index, device);
    }

    /// Install an output peripheral at a port, replacing the one there.
    /// `OUT` then writes to it.
    pub fn install_output(&mut self, index: u8, device: O)
        requires
            old(self).wf(),
        ensures
            final(self).wf(),
            final(self).devices.output_at(index) == Some(device),
            forall|p: u8| p != index ==> final(self).devices.output_at(p) == old(self).devices.output_at(p),
            forall|p: u8| final(self).devices.input_at(p) == old(self).devices.input_at(p),
            final(self).state() == old(self).state(),
            final(self).is_halted == old(self).is_halted,
    {
        self.devices.install_output(index, device);
    }

    /// The input peripheral installed at a port.
    pub fn input_device(&self, port: u8) -> (r: Option<&I>)
        requires
            self.wf(),
        ensures
            r is Some <==> self.has_input(port),
            r matches Some(d) ==> self.devices.input_at(port) == Some(*d),
    {
        self.devices.input_device(port)
    }

    /// The output peripheral installed at a port.
    pub fn output_device(&self, port: u8) -> (r: Option<&O>)
        requires
            self.wf(),
        ensures
            r is Some <==> self.has_output(port),
            r matches Some(d) ==> self.devices.output_at(port) == Some(*d),
    {
        self.devices.output_device(port)
    }
}

impl<I: InputDevice, O: OutputDevice> Z80<I, O> {
    /// The bytes that each input peripheral will give, by port.
    pub open spec fn ins(self) -> Map<u8, Seq<u8>> {
        self.devices.pending_map()
    }

    /// The bytes that each output peripheral has taken, by port.
    pub open spec fn outs(self) -> Map<u8, Seq<u8>> {
        self.devices.written_map()
    }

    /// The state that operations act on: registers, memory, and what the
    /// peripherals hold.
    pub open spec fn model(self) -> (Registers, Seq<u8>, Map<u8, Seq<u8>>, Map<u8, Seq<u8>>) {
        (self.registers, self.memory.memory@, self.ins(), self.outs())
    }

    /// This processor is `prev` after executing `op`, which returned `r`:
    /// the state that `exec_model` gives where it succeeds, and the old
    /// state where it fails.
    pub open spec fn executed(self, prev: Self, op: Op, r: Result<Option<u16>, Z80Error>) -> bool {
        &&& self.wf()
        &&& match exec_model(prev.registers, prev.memory.memory@, prev.ins(), prev.outs(), op) {
            Ok((regs, mem, ins, outs, jump)) => {
                &&& r == Ok::<Option<u16>, Z80Error>(jump)
                &&& self.model() == (regs, mem, ins, outs)
                &&& self.is_halted == (prev.is_halted || op == Op::HALT)
            },
            Err(e) => {
                &&& r == Err::<Option<u16>, Z80Error>(e)
                &&& self.model() == prev.model()
                &&& self.is_halted == prev.is_halted
            },
        }
    }

    /// Execute one operation. On success the result is the address to jump
    /// to, or `None` where the run loop moves on to the next instruction.
    /// On failure the registers, the memory and what the peripherals hold
    /// are as they were.
    pub fn exec(&mut self, op: Op) -> (r: Result<Option<u16>, Z80Error>)
        requires
            old(self).wf(),
        ensures
            final(self).executed(*old(self), op, r),
    {
        match op {
            Op::IN(dst, port) => self.exec_in(dst, port),
            Op::OUT(src, port) => self.exec_out(src, port),
            _ => {
                let r = if is_arith_op(&op) {
                    self.exec_arith(op)
                } else if is_bits_op(&op) {
                    self.exec_bits(op)
                } else if is_jump_op(&op) {
                    self.exec_jump(op)
                } else {
                    self.exec_move(op)
                };
                r
            },
        }
    }

    /// `IN dst, port`: the destination is checked first, then the
    /// peripheral at the port gives its next byte, which is stored there.
    fn exec_in(&mut self, dst: Location8, port: Location8) -> (r: Result<Option<u16>, Z80Error>)
        requires
            old(self).wf(),
        ensures
            final(self).executed(*old(self), Op::IN(dst, port), r),
    {
        let p = self.get_loc8(&port)?;
        if self.devices.input_device(p).is_none() {
            return Err(Z80Error::NoInputDevice(p));
        }
        if let Location8::Immediate(_) = dst {
            return Err(Z80Error::ImmediateStore);
        }
        self.get_loc8(&dst)?;
        let ghost prev = *self;
        match self.devices.read_port(p) {
            Some(Some(b)) => {
                self.set_loc8(&dst, b)?;
                Ok(None)
            },
            _ => {
                proof {
                    assert(prev.ins().insert(p, prev.ins()[p]) =~= prev.ins());
                }
                Err(Z80Error::InputUnavailable(p))
            },
        }
    }

    /// `OUT src, port`: the byte at `src` goes to the peripheral at the port.
    fn exec_out(&mut self, src: Location8, port: Location8) -> (r: Result<Option<u16>, Z80Error>)
        requires
            old(self).wf(),
        ensures
            final(self).executed(*old(self), Op::OUT(src, port), r),
    {
        let p = self.get_loc8(&port)?;
        if self.devices.output_device(p).is_none() {
            return Err(Z80Error::NoOutputDevice(p));
        }
        let v = self.get_loc8(&src)?;
        self.devices.write_port(p, v);
        Ok(None)
    }
}

impl Default for Z80<BufInput, BufOutput> {
    fn default() -> (z: Self)
        ensures
            z.registers == Registers::zeroed(),
            z.memory.memory@ == Seq::new(crate::cpu::mem::MEMORY_SIZE as nat, |i: int| 0u8),
            !z.is_halted,
            forall|p: u8| !z.has_input(p) && !z.has_output(p),
            z.wf(),
    {
        Z80::new()
    }
}

} // verus!
