//! Loading a program and running it: fetch four bytes at `PC`, decode,
//! execute, and move `PC` to the jump target or past the instruction.
use super::alu;
use super::io::{InputDevice, OutputDevice};
use super::semantics::{exec_model, wrap16};
use super::Z80;
use crate::cpu::opcodes::{decode_at, opcode};
use crate::cpu::reg::Registers;
use crate::ops::{Op, Z80Error};
use vstd::prelude::*;

verus! {

/// What the instruction at `pc` decodes to, or `None` where `pc` is past
/// the end of memory.
pub open spec fn fetch(mem: Seq<u8>, pc: int) -> Option<Result<(Op, usize), Z80Error>> {
    if 0 <= pc < mem.len() {
        Some(decode_at(mem, pc))
    } else {
        None
    }
}

/// Where execution goes on: the jump target, or past the `n` bytes of the
/// instruction at `pc`.
pub open spec fn next_pc(jump: Option<u16>, pc: u16, n: usize) -> u16 {
    match jump {
        Some(t) => t,
        None => wrap16(pc + n),
    }
}

/// One step of the run loop on registers, memory, and the bytes that the
/// peripherals hold: the new state and whether it executed `HALT`, or the
/// fault that stopped it.
#[verifier::opaque]
pub open spec fn step_model(
    regs: Registers,
    mem: Seq<u8>,
    ins: Map<u8, Seq<u8>>,
    outs: Map<u8, Seq<u8>>,
) -> Result<(Registers, Seq<u8>, Map<u8, Seq<u8>>, Map<u8, Seq<u8>>, bool), Z80Error> {
    match fetch(mem, regs.pc as int) {
        None => Err(Z80Error::OutOfMemory(regs.pc as usize)),
        Some(Err(e)) => Err(e),
        Some(Ok((op, n))) => match exec_model(regs, mem, ins, outs, op) {
            Err(e) => Err(e),
            Ok((r, m, i, o, j)) => Ok((Registers { pc: next_pc(j, regs.pc, n), ..r }, m, i, o, op == Op::HALT)),
        },
    }
}

/// The run loop with at most `fuel` steps: the final state once the halt
/// latch is set, the first fault, or `None` where the steps run out first.
#[verifier::opaque]
pub open spec fn run_from(
    regs: Registers,
    mem: Seq<u8>,
    ins: Map<u8, Seq<u8>>,
    outs: Map<u8, Seq<u8>>,
    halted: bool,
    fuel: nat,
) -> Option<Result<(Registers, Seq<u8>, Map<u8, Seq<u8>>, Map<u8, Seq<u8>>), Z80Error>>
    decreases fuel,
{
    if halted {
        Some(Ok((regs, mem, ins, outs)))
    } else if fuel == 0 {
        None
    } else {
        match step_model(regs, mem, ins, outs) {
            Err(e) => Some(Err(e)),
            Ok((r, m, i, o, h)) => run_from(r, m, i, o, h, (fuel - 1) as nat),
        }
    }
}

/// A halted machine stays where it is.
proof fn lemma_run_halted(regs: Registers, mem: Seq<u8>, ins: Map<u8, Seq<u8>>, outs: Map<u8, Seq<u8>>, fuel: nat)
    ensures
        run_from(regs, mem, ins, outs, true, fuel) == Some(Ok::<(Registers, Seq<u8>, Map<u8, Seq<u8>>, Map<u8, Seq<u8>>), Z80Error>((regs, mem, ins, outs))),
{
    reveal(run_from);
}

/// A running machine with no steps left has no outcome yet.
proof fn lemma_run_no_fuel(regs: Registers, mem: Seq<u8>, ins: Map<u8, Seq<u8>>, outs: Map<u8, Seq<u8>>)
    ensures
        run_from(regs, mem, ins, outs, false, 0) is None,
{
    reveal(run_from);
}

/// A running machine takes one step, then runs on.
proof fn lemma_run_step(regs: Registers, mem: Seq<u8>, ins: Map<u8, Seq<u8>>, outs: Map<u8, Seq<u8>>, fuel: nat)
    ensures
        run_from(regs, mem, ins, outs, false, fuel + 1) == match step_model(regs, mem, ins, outs) {
            Err(e) => Some(Err(e)),
            Ok((r, m, i, o, h)) => run_from(r, m, i, o, h, fuel),
        },
{
    reveal(run_from);
}

impl<I, O> Z80<I, O> {
    /// Copy a program into memory, starting at address 0. A program longer
    /// than the memory is refused and nothing is copied.
    pub fn load(&mut self, program: &[u8]) -> (r: Result<(), Z80Error>)
        ensures
            r is Ok <==> program@.len() <= old(self).memory.memory@.len(),
            r matches Err(e) ==> e == Z80Error::OutOfMemory(old(self).memory.memory@.len() as usize),
            r is Ok ==> final(self).memory.memory@ == program@ + old(self).memory.memory@.subrange(
                program@.len() as int,
                old(self).memory.memory@.len() as int,
            ),
            r is Err ==> final(self).memory.memory@ == old(self).memory.memory@,
            final(self).registers == old(self).registers,
            final(self).is_halted == old(self).is_halted,
            final(self).same_devices(*old(self)),
            old(self).wf() ==> final(self).wf(),
    {
        let n = self.memory.memory.len();
        if program.len() > n {
            return Err(Z80Error::OutOfMemory(n));
        }
        let mut i: usize = 0;
        while i < program.len()
            invariant
                i <= program@.len() <= n,
                self.memory.memory@.len() == n,
                n == old(self).memory.memory@.len(),
                forall|j: int| 0 <= j < i ==> self.memory.memory@[j] == program@[j],
                forall|j: int| i <= j < n ==> self.memory.memory@[j] == old(self).memory.memory@[j],
                self.registers == old(self).registers,
                self.is_halted == old(self).is_halted,
                self.same_devices(*old(self)),
            decreases program@.len() - i,
        {
            self.memory.memory.set(i, program[i]);
            i = i + 1;
        }
        proof {
            assert(self.memory.memory@ =~= program@ + old(self).memory.memory@.subrange(
                program@.len() as int,
                n as int,
            ));
        }
        Ok(())
    }

    /// Decode the instruction at `location`: `None` where `location` is
    /// past the end of memory; windows near the end are padded with zeros.
    pub fn parse_opcode(&self, location: usize) -> (r: Option<Result<(Op, usize), Z80Error>>)
        ensures
            r == fetch(self.memory.memory@, location as int),
            r matches Some(Ok((_, n))) ==> 1 <= n <= 4,
    {
        let mem = &self.memory.memory;
        let len = mem.len();
        if location >= len {
            return None;
        }
        let window: [u8; 4] = [
            mem[location],
            if len - location > 1 { mem[location + 1] } else { 0 },
            if len - location > 2 { mem[location + 2] } else { 0 },
            if len - location > 3 { mem[location + 3] } else { 0 },
        ];
        Some(opcode(window))
    }
}

impl<I: InputDevice, O: OutputDevice> Z80<I, O> {
    /// The run loop from this processor's state with at most `fuel` steps.
    pub open spec fn run_spec(self, fuel: nat) -> Option<Result<(Registers, Seq<u8>, Map<u8, Seq<u8>>, Map<u8, Seq<u8>>), Z80Error>> {
        run_from(self.registers, self.memory.memory@, self.ins(), self.outs(), self.is_halted, fuel)
    }

    /// After `s` steps from `start` that reached `before`, one more step
    /// that reached `after` keeps the run loop's outcome.
    proof fn lemma_loop_step(start: Self, before: Self, after: Self, s: nat)
        requires
            forall|k: nat| k < s ==> #[trigger] start.run_spec(k) is None,
            forall|k: nat| #[trigger] start.run_spec(s + k) == before.run_spec(k),
            !before.is_halted,
            step_model(before.registers, before.memory.memory@, before.ins(), before.outs()) matches Ok((r, m, i, o, h))
                && after.model() == (r, m, i, o) && after.is_halted == h,
        ensures
            forall|k: nat| k < s + 1 ==> #[trigger] start.run_spec(k) is None,
            forall|k: nat| #[trigger] start.run_spec((s + 1) + k) == after.run_spec(k),
    {
        assert forall|k: nat| k < s + 1 implies #[trigger] start.run_spec(k) is None by {
            if k == s {
                assert(start.run_spec(s + 0) == before.run_spec(0));
                lemma_run_no_fuel(before.registers, before.memory.memory@, before.ins(), before.outs());
            }
        }
        assert forall|k: nat| #[trigger] start.run_spec((s + 1) + k) == after.run_spec(k) by {
            assert(start.run_spec(s + (k + 1) as nat) == before.run_spec((k + 1) as nat));
            lemma_run_step(before.registers, before.memory.memory@, before.ins(), before.outs(), k);
        }
    }

    /// After `s` steps from `start` that reached `before`, a step that
    /// failed with `e` makes `e` the run loop's outcome.
    proof fn lemma_loop_fault(start: Self, before: Self, s: nat, e: Z80Error)
        requires
            forall|k: nat| k < s ==> #[trigger] start.run_spec(k) is None,
            forall|k: nat| #[trigger] start.run_spec(s + k) == before.run_spec(k),
            !before.is_halted,
            step_model(before.registers, before.memory.memory@, before.ins(), before.outs()) == Err::<
                (Registers, Seq<u8>, Map<u8, Seq<u8>>, Map<u8, Seq<u8>>, bool),
                Z80Error,
            >(e),
        ensures
            forall|k: nat| #[trigger] start.run_spec(k) is Some ==> start.run_spec(k) == Some(
                Err::<(Registers, Seq<u8>, Map<u8, Seq<u8>>, Map<u8, Seq<u8>>), Z80Error>(e),
            ),
    {
        assert forall|k: nat| #[trigger] start.run_spec(k) is Some implies start.run_spec(k) == Some(
            Err::<(Registers, Seq<u8>, Map<u8, Seq<u8>>, Map<u8, Seq<u8>>), Z80Error>(e),
        ) by {
            if k == s {
                assert(start.run_spec(s + 0) == before.run_spec(0));
                lemma_run_no_fuel(before.registers, before.memory.memory@, before.ins(), before.outs());
            } else if k > s {
                let j = (k - s - 1) as nat;
                assert(start.run_spec(s + (j + 1) as nat) == before.run_spec((j + 1) as nat));
                lemma_run_step(before.registers, before.memory.memory@, before.ins(), before.outs(), j);
            }
        }
    }

    /// After `s` steps from `start` that reached the halted `last`, the run
    /// loop's outcome is `last`.
    proof fn lemma_loop_halted(start: Self, last: Self, s: nat)
        requires
            forall|k: nat| k < s ==> #[trigger] start.run_spec(k) is None,
            forall|k: nat| #[trigger] start.run_spec(s + k) == last.run_spec(k),
            last.is_halted,
        ensures
            forall|k: nat| #[trigger] start.run_spec(k) is Some ==> start.run_spec(k) == Some(
                Ok::<(Registers, Seq<u8>, Map<u8, Seq<u8>>, Map<u8, Seq<u8>>), Z80Error>(last.model()),
            ),
    {
        assert forall|k: nat| #[trigger] start.run_spec(k) is Some implies start.run_spec(k) == Some(
            Ok::<(Registers, Seq<u8>, Map<u8, Seq<u8>>, Map<u8, Seq<u8>>), Z80Error>(last.model()),
        ) by {
            if k >= s {
                let j = (k - s) as nat;
                assert(start.run_spec(s + j) == last.run_spec(j));
                lemma_run_halted(last.registers, last.memory.memory@, last.ins(), last.outs(), j);
            }
        }
    }

    /// After `u64::MAX` steps from `start` that reached the running `last`,
    /// the run loop has no outcome within the budget.
    proof fn lemma_loop_exhausted(start: Self, last: Self, s: nat)
        requires
            s == u64::MAX,
            forall|k: nat| k < s ==> #[trigger] start.run_spec(k) is None,
            forall|k: nat| #[trigger] start.run_spec(s + k) == last.run_spec(k),
            !last.is_halted,
        ensures
            forall|k: nat| k <= u64::MAX ==> #[trigger] start.run_spec(k) is None,
    {
        assert(start.run_spec(s + 0) == last.run_spec(0));
        lemma_run_no_fuel(last.registers, last.memory.memory@, last.ins(), last.outs());
    }

    /// Execute the instruction at `PC`, then move `PC` to the jump target or
    /// past the instruction. On failure nothing changes.
    pub fn step(&mut self) -> (r: Result<(), Z80Error>)
        requires
            old(self).wf(),
        ensures
            final(self).wf(),
            match step_model(old(self).registers, old(self).memory.memory@, old(self).ins(), old(self).outs()) {
                Ok((regs, mem, ins, outs, h)) => {
                    &&& r is Ok
                    &&& final(self).model() == (regs, mem, ins, outs)
                    &&& final(self).is_halted == (old(self).is_halted || h)
                },
                Err(e) => {
                    &&& r == Err::<(), Z80Error>(e)
                    &&& final(self).model() == old(self).model()
                    &&& final(self).is_halted == old(self).is_halted
                },
            },
    {
        reveal(step_model);
        let pc = self.registers.pc;
        match self.parse_opcode(pc as usize) {
            None => Err(Z80Error::OutOfMemory(pc as usize)),
            Some(Err(e)) => Err(e),
            Some(Ok((op, n))) => {
                let target = self.exec(op)?;
                let next = match target {
                    Some(t) => t,
                    None => alu::advance(pc, n as u16),
                };
                self.registers.pc = next;
                Ok(())
            },
        }
    }

    /// Execute instructions until `HALT`, a fault, or a budget of
    /// `u64::MAX` steps runs out. Within that budget the outcome is the one
    /// that the run loop gives: the final state once halted, or the first
    /// fault.
    pub fn run(&mut self) -> (r: Result<(), Z80Error>)
        requires
            old(self).wf(),
        ensures
            final(self).wf(),
            r is Ok ==> final(self).is_halted,
            forall|k: nat|
                k <= u64::MAX && #[trigger] old(self).run_spec(k) is Some ==> match old(self).run_spec(k).unwrap() {
                    Ok((regs, mem, ins, outs)) => r is Ok && final(self).model() == (regs, mem, ins, outs),
                    Err(e) => r == Err::<(), Z80Error>(e),
                },
    {
        let mut budget: u64 = u64::MAX;
        let ghost start = *self;
        let ghost s: nat = 0;
        while !self.is_halted
            invariant
                self.wf(),
                start == *old(self),
                s == u64::MAX - budget,
                forall|k: nat| k < s ==> #[trigger] start.run_spec(k) is None,
                forall|k: nat| #[trigger] start.run_spec(s + k) == self.run_spec(k),
            decreases budget,
        {
            if budget == 0 {
                proof {
                    Self::lemma_loop_exhausted(start, *self, s);
                }
                return Err(Z80Error::StepLimit);
            }
            let ghost before = *self;
            let res = self.step();
            if let Err(e) = res {
                proof {
                    Self::lemma_loop_fault(start, before, s, e);
                }
                return Err(e);
            }
            proof {
                Self::lemma_loop_step(start, before, *self, s);
                s = s + 1;
            }
            budget = budget - 1;
        }
        proof {
            Self::lemma_loop_halted(start, *self, s);
        }
        Ok(())
    }
}

} // verus!
