//! The fetch-decode-execute loop.

use crate::cpu::Cpu;
use crate::laws::{lemma_run_overshoots_little, lemma_step_cycles_bounded};
use crate::mem::Mem;
use crate::opcodes::{decode, OpCode};
use crate::semantics::{budget_left, run, step_spec};
use vstd::prelude::*;

verus! {

impl Cpu {
    /// Carries out one instruction: fetches the opcode byte at the program
    /// counter, decodes it and performs the instruction. An opcode byte that
    /// the opcode table does not know is skipped and handed back; the cycle
    /// of its fetch stays charged.
    pub fn step(&mut self, cycles: &mut i64, memory: &mut Mem) -> (unknown: Option<u8>)
        requires
            old(memory).wf(),
            *old(cycles) >= i64::MIN + 11,
        ensures
            final(memory).wf(),
            *final(self) == step_spec(*old(self), old(memory)@).cpu,
            final(memory)@ == step_spec(*old(self), old(memory)@).image,
            *final(cycles) == *old(cycles) - step_spec(*old(self), old(memory)@).cycles,
            unknown == step_spec(*old(self), old(memory)@).unknown,
    {
        let opcode: u8 = self.fetch_byte(cycles, memory);
        match decode(opcode) {
            OpCode::Instruction(m, mode) => {
                self.perform(m, mode, cycles, memory);
                None
            },
            OpCode::Unknown(byte) => Some(byte),
        }
    }

    /// Runs instructions until the cycle budget is used up. The budget is
    /// tested before each instruction, and an instruction that has started
    /// runs to its end, so the budget that is left is zero or a little less:
    /// never as low as -7.
    /// Hands back the unknown opcode bytes that were skipped, in order.
    pub fn execute(&mut self, cycles: &mut i64, memory: &mut Mem) -> (unknown: Vec<u8>)
        requires
            old(memory).wf(),
        ensures
            final(memory).wf(),
            *final(self) == run(*old(self), old(memory)@, *old(cycles) as int, Seq::empty()).cpu,
            final(memory)@ == run(
                *old(self),
                old(memory)@,
                *old(cycles) as int,
                Seq::empty(),
            ).image,
            *final(cycles) == run(
                *old(self),
                old(memory)@,
                *old(cycles) as int,
                Seq::empty(),
            ).cycles,
            unknown@ == run(*old(self), old(memory)@, *old(cycles) as int, Seq::empty()).unknown,
            *final(cycles) <= 0,
            *old(cycles) > 0 ==> *final(cycles) > -7,
    {
        proof {
            if *cycles > 0 {
                lemma_run_overshoots_little(*self, memory@, *cycles as int, Seq::empty());
            }
        }
        let ghost start = run(*self, memory@, *cycles as int, Seq::empty());
        let mut unknown: Vec<u8> = Vec::new();
        while *cycles > 0
            invariant
                memory.wf(),
                run(*self, memory@, *cycles as int, unknown@) == start,
            decreases budget_left(*cycles as int),
        {
            proof {
                lemma_step_cycles_bounded(*self, memory@);
            }
            match self.step(cycles, memory) {
                Some(byte) => {
                    unknown.push(byte);
                },
                None => {},
            }
        }
        unknown
    }
}

} // verus!
