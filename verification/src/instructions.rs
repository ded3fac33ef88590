//! The instruction handlers: executable code for the work of each
//! instruction, family by family, each held to the mathematical description
//! of that work.

use crate::addressing::pages_differ;
use crate::alu::{
    add_with_carry,
    compare,
    negative,
    overflow_bit,
    rotate_left,
    rotate_right,
    shift_left,
    shift_right,
    subtract_with_borrow,
    wrap8,
    Comparison,
    Shifted,
    Sum,
};
use crate::cpu::{pulled, pushed_status, stack_address, with_zn, write_byte, Cpu, IRQ_VECTOR};
use crate::mem::{high_byte, join_word, low_byte, split_word, word_of, Mem};
use crate::opcodes::{AddrMode, Mnemonic};
use crate::semantics::{
    apply_cpu,
    apply_mem,
    branch_taken,
    instruction_spec,
    is_branch,
    is_jump,
    modifies_operand,
    operand_value,
    operation_cycles,
    reads_operand,
    stores_register,
    writes_operand,
};
use vstd::prelude::*;

verus! {

/// Whether an instruction writes to its operand address, which decides
/// whether an indexed mode charges its extra cycle unconditionally.
pub fn writes_to_operand(m: Mnemonic) -> (writes: bool)
    ensures
        writes == writes_operand(m),
{
    match m {
        Mnemonic::Sta | Mnemonic::Stx | Mnemonic::Sty | Mnemonic::Asl | Mnemonic::Lsr
        | Mnemonic::Rol | Mnemonic::Ror | Mnemonic::Inc | Mnemonic::Dec => true,
        _ => false,
    }
}

impl Cpu {
    /// Reads the operand of an instruction, the accumulator or a memory
    /// cell, and charges one cycle.
    fn operand(&self, mode: AddrMode, address: u16, cycles: &mut i64, memory: &Mem) -> (value: u8)
        requires
            memory.wf(),
            *old(cycles) > i64::MIN,
        ensures
            value == operand_value(mode, *self, address, memory@),
            *final(cycles) == *old(cycles) - 1,
    {
        match mode {
            AddrMode::Accumulator => {
                *cycles = *cycles - 1;
                self.a
            },
            _ => self.read_byte(address, cycles, memory),
        }
    }

    /// Sets C, Z and N from a comparison.
    fn set_comparison(&mut self, outcome: Comparison)
        ensures
            *final(self) == (Cpu {
                c: outcome.carry,
                z: outcome.zero,
                n: outcome.negative,
                ..*old(self)
            }),
    {
        self.c = outcome.carry;
        self.z = outcome.zero;
        self.n = outcome.negative;
    }

    /// Stores the outcome of an addition or subtraction in the accumulator
    /// and sets C, V, Z and N from it.
    fn set_sum(&mut self, outcome: Sum)
        ensures
            *final(self) == with_zn(
                Cpu { a: outcome.result, c: outcome.carry, v: outcome.overflow, ..*old(self) },
                outcome.result,
            ),
    {
        self.a = outcome.result;
        self.c = outcome.carry;
        self.v = outcome.overflow;
        self.set_zero_negative(outcome.result);
    }

    /// The loads, the logical and arithmetic instructions, the comparisons
    /// and the bit test: one read of the operand, then registers and flags.
    fn read_instruction(
        &mut self,
        m: Mnemonic,
        mode: AddrMode,
        address: u16,
        cycles: &mut i64,
        memory: &Mem,
    )
        requires
            reads_operand(m),
            memory.wf(),
            *old(cycles) > i64::MIN,
        ensures
            *final(self) == apply_cpu(m, mode, *old(self), address, memory@),
            memory@ == apply_mem(m, mode, *old(self), address, memory@),
            *final(cycles) == *old(cycles) - operation_cycles(m, mode, *old(self), address),
    {
        let value: u8 = self.operand(mode, address, cycles, memory);
        match m {
            Mnemonic::Lda => {
                self.a = value;
                self.set_zero_negative(value);
            },
            Mnemonic::Ldx => {
                self.x = value;
                self.set_zero_negative(value);
            },
            Mnemonic::Ldy => {
                self.y = value;
                self.set_zero_negative(value);
            },
            Mnemonic::And => {
                self.a = self.a & value;
                self.set_zero_negative(self.a);
            },
            Mnemonic::Ora => {
                self.a = self.a | value;
                self.set_zero_negative(self.a);
            },
            Mnemonic::Eor => {
                self.a = self.a ^ value;
                self.set_zero_negative(self.a);
            },
            Mnemonic::Adc => {
                self.set_sum(add_with_carry(self.a, value, self.c));
            },
            Mnemonic::Sbc => {
                self.set_sum(subtract_with_borrow(self.a, value, self.c));
            },
            Mnemonic::Cmp => {
                self.set_comparison(compare(self.a, value));
            },
            Mnemonic::Cpx => {
                self.set_comparison(compare(self.x, value));
            },
            Mnemonic::Cpy => {
                self.set_comparison(compare(self.y, value));
            },
            _ => {
                self.z = self.a & value == 0;
                self.n = negative(value);
                self.v = overflow_bit(value);
            },
        }
    }

    /// The stores: one write of a register.
    fn store_instruction(
        &mut self,
        m: Mnemonic,
        mode: AddrMode,
        address: u16,
        cycles: &mut i64,
        memory: &mut Mem,
    )
        requires
            stores_register(m),
            old(memory).wf(),
            *old(cycles) > i64::MIN,
        ensures
            final(memory).wf(),
            *final(self) == apply_cpu(m, mode, *old(self), address, old(memory)@),
            final(memory)@ == apply_mem(m, mode, *old(self), address, old(memory)@),
            *final(cycles) == *old(cycles) - operation_cycles(m, mode, *old(self), address),
    {
        let value: u8 = match m {
            Mnemonic::Sta => self.a,
            Mnemonic::Stx => self.x,
            _ => self.y,
        };
        write_byte(value, address, cycles, memory);
    }

    /// The shifts, rotations, increments and decrements of the accumulator
    /// or of a memory cell: read, change, write back.
    fn modify_instruction(
        &mut self,
        m: Mnemonic,
        mode: AddrMode,
        address: u16,
        cycles: &mut i64,
        memory: &mut Mem,
    )
        requires
            modifies_operand(m),
            old(memory).wf(),
            *old(cycles) >= i64::MIN + 3,
        ensures
            final(memory).wf(),
            *final(self) == apply_cpu(m, mode, *old(self), address, old(memory)@),
            final(memory)@ == apply_mem(m, mode, *old(self), address, old(memory)@),
            *final(cycles) == *old(cycles) - operation_cycles(m, mode, *old(self), address),
    {
        let value: u8 = self.operand(mode, address, cycles, memory);
        let result: u8 = match m {
            Mnemonic::Inc => value.wrapping_add(1),
            Mnemonic::Dec => value.wrapping_sub(1),
            _ => {
                let outcome: Shifted = match m {
                    Mnemonic::Asl => shift_left(value),
                    Mnemonic::Lsr => shift_right(value),
                    Mnemonic::Rol => rotate_left(value, self.c),
                    _ => rotate_right(value, self.c),
                };
                self.c = outcome.carry;
                outcome.result
            },
        };
        match mode {
            AddrMode::Accumulator => {
                self.a = result;
            },
            _ => {
                *cycles = *cycles - 1;
                write_byte(result, address, cycles, memory);
            },
        }
        self.set_zero_negative(result);
    }

    /// Whether the flag that the branch `m` tests lets it jump.
    fn branch_condition(&self, m: Mnemonic) -> (taken: bool)
        ensures
            taken == branch_taken(m, *self),
    {
        match m {
            Mnemonic::Bcc => !self.c,
            Mnemonic::Bcs => self.c,
            Mnemonic::Beq => self.z,
            Mnemonic::Bne => !self.z,
            Mnemonic::Bmi => self.n,
            Mnemonic::Bpl => !self.n,
            Mnemonic::Bvc => !self.v,
            Mnemonic::Bvs => self.v,
            _ => false,
        }
    }

    /// The branches: a branch that is taken costs one cycle, and one more
    /// where the target lies in another page than the branch itself.
    fn branch_instruction(&mut self, m: Mnemonic, mode: AddrMode, target: u16, cycles: &mut i64)
        requires
            is_branch(m),
            *old(cycles) >= i64::MIN + 2,
        ensures
            forall|image: Seq<u8>|
                *final(self) == #[trigger] apply_cpu(m, mode, *old(self), target, image),
            *final(cycles) == *old(cycles) - operation_cycles(m, mode, *old(self), target),
    {
        if self.branch_condition(m) {
            let length: u16 = match mode {
                AddrMode::Implied | AddrMode::Accumulator => 1,
                AddrMode::Absolute | AddrMode::AbsoluteX | AddrMode::AbsoluteY
                | AddrMode::Indirect => 3,
                _ => 2,
            };
            let origin: u16 = self.pc.wrapping_sub(length);
            *cycles = *cycles - 1;
            if pages_differ(origin, target) {
                *cycles = *cycles - 1;
            }
            self.pc = target;
        }
    }

    /// The instructions without an operand that work on registers and flags
    /// alone: transfers, increments and decrements of X and Y, flag
    /// operations and NOP. One internal cycle each.
    fn register_instruction(&mut self, m: Mnemonic, mode: AddrMode, cycles: &mut i64)
        requires
            !reads_operand(m),
            !writes_operand(m),
            !is_branch(m),
            !is_jump(m),
            !(m is Pha || m is Php || m is Pla || m is Plp),
            *old(cycles) > i64::MIN,
        ensures
            forall|address: u16, image: Seq<u8>|
                *final(self) == #[trigger] apply_cpu(m, mode, *old(self), address, image),
            forall|address: u16|
                *final(cycles) == *old(cycles) - #[trigger] operation_cycles(
                    m,
                    mode,
                    *old(self),
                    address,
                ),
    {
        *cycles = *cycles - 1;
        match m {
            Mnemonic::Tax => {
                self.x = self.a;
                self.set_zero_negative(self.x);
            },
            Mnemonic::Tay => {
                self.y = self.a;
                self.set_zero_negative(self.y);
            },
            Mnemonic::Txa => {
                self.a = self.x;
                self.set_zero_negative(self.a);
            },
            Mnemonic::Tya => {
                self.a = self.y;
                self.set_zero_negative(self.a);
            },
            Mnemonic::Tsx => {
                self.x = self.sp;
                self.set_zero_negative(self.x);
            },
            Mnemonic::Txs => {
                self.sp = self.x;
            },
            Mnemonic::Inx => {
                self.x = self.x.wrapping_add(1);
                self.set_zero_negative(self.x);
            },
            Mnemonic::Iny => {
                self.y = self.y.wrapping_add(1);
                self.set_zero_negative(self.y);
            },
            Mnemonic::Dex => {
                self.x = self.x.wrapping_sub(1);
                self.set_zero_negative(self.x);
            },
            Mnemonic::Dey => {
                self.y = self.y.wrapping_sub(1);
                self.set_zero_negative(self.y);
            },
            Mnemonic::Clc => {
                self.c = false;
            },
            Mnemonic::Sec => {
                self.c = true;
            },
            Mnemonic::Cld => {
                self.d = false;
            },
            Mnemonic::Sed => {
                self.d = true;
            },
            Mnemonic::Cli => {
                self.i = false;
            },
            Mnemonic::Sei => {
                self.i = true;
            },
            Mnemonic::Clv => {
                self.v = false;
            },
            _ => {},
        }
    }

    /// The status byte as it goes on the stack, bits 4 and 5 both one.
    fn status_for_push(&self) -> (p: u8)
        ensures
            p == pushed_status(*self),
    {
        let mut copy: Cpu = *self;
        copy.b = true;
        copy.status()
    }

    /// PHA, PHP, PLA and PLP.
    fn stack_instruction(
        &mut self,
        m: Mnemonic,
        mode: AddrMode,
        cycles: &mut i64,
        memory: &mut Mem,
    )
        requires
            m is Pha || m is Php || m is Pla || m is Plp,
            old(memory).wf(),
            *old(cycles) >= i64::MIN + 3,
        ensures
            final(memory).wf(),
            forall|address: u16|
                *final(self) == #[trigger] apply_cpu(m, mode, *old(self), address, old(memory)@),
            forall|address: u16|
                final(memory)@ == #[trigger] apply_mem(m, mode, *old(self), address, old(memory)@),
            forall|address: u16|
                *final(cycles) == *old(cycles) - #[trigger] operation_cycles(
                    m,
                    mode,
                    *old(self),
                    address,
                ),
    {
        match m {
            Mnemonic::Pha => {
                *cycles = *cycles - 1;
                self.push(self.a, cycles, memory);
            },
            Mnemonic::Php => {
                *cycles = *cycles - 1;
                let p: u8 = self.status_for_push();
                self.push(p, cycles, memory);
            },
            Mnemonic::Pla => {
                *cycles = *cycles - 2;
                let value: u8 = self.pull(cycles, memory);
                self.a = value;
                self.set_zero_negative(value);
            },
            _ => {
                *cycles = *cycles - 2;
                let p: u8 = self.pull(cycles, memory);
                self.set_status(p);
            },
        }
    }

    /// Pushes a word, the high byte first. Charges two cycles.
    fn push_word(&mut self, value: u16, cycles: &mut i64, memory: &mut Mem)
        requires
            old(memory).wf(),
            *old(cycles) >= i64::MIN + 2,
        ensures
            final(memory).wf(),
            final(memory)@ == old(memory)@.update(
                stack_address(old(self).sp) as int,
                high_byte(value),
            ).update(
                stack_address(wrap8(old(self).sp - 1)) as int,
                low_byte(value),
            ),
            *final(self) == (Cpu { sp: wrap8(old(self).sp - 2), ..*old(self) }),
            *final(cycles) == *old(cycles) - 2,
    {
        let (low, high) = split_word(value);
        self.push(high, cycles, memory);
        self.push(low, cycles, memory);
    }

    /// Pulls a word, the low byte first. Charges two cycles.
    fn pull_word(&mut self, cycles: &mut i64, memory: &Mem) -> (value: u16)
        requires
            memory.wf(),
            *old(cycles) >= i64::MIN + 2,
        ensures
            value == word_of(
                pulled(*old(self), memory@, 1),
                pulled(*old(self), memory@, 2),
            ),
            *final(self) == (Cpu { sp: wrap8(old(self).sp + 2), ..*old(self) }),
            *final(cycles) == *old(cycles) - 2,
    {
        let low: u8 = self.pull(cycles, memory);
        let high: u8 = self.pull(cycles, memory);
        join_word(low, high)
    }

    /// JSR: pushes the address of its own last byte, high byte first, and jumps.
    fn jump_to_subroutine(
        &mut self,
        mode: AddrMode,
        address: u16,
        cycles: &mut i64,
        memory: &mut Mem,
    )
        requires
            old(memory).wf(),
            *old(cycles) >= i64::MIN + 3,
        ensures
            final(memory).wf(),
            *final(self) == apply_cpu(Mnemonic::Jsr, mode, *old(self), address, old(memory)@),
            final(memory)@ == apply_mem(Mnemonic::Jsr, mode, *old(self), address, old(memory)@),
            *final(cycles) == *old(cycles) - operation_cycles(
                Mnemonic::Jsr,
                mode,
                *old(self),
                address,
            ),
    {
        let return_address: u16 = self.pc.wrapping_sub(1);
        self.push_word(return_address, cycles, memory);
        *cycles = *cycles - 1;
        self.pc = address;
    }

    /// RTS: pulls an address, low byte first, and resumes one byte after it.
    fn return_from_subroutine(
        &mut self,
        mode: AddrMode,
        address: u16,
        cycles: &mut i64,
        memory: &mut Mem,
    )
        requires
            old(memory).wf(),
            *old(cycles) >= i64::MIN + 5,
        ensures
            final(memory).wf(),
            *final(self) == apply_cpu(Mnemonic::Rts, mode, *old(self), address, old(memory)@),
            final(memory)@ == apply_mem(Mnemonic::Rts, mode, *old(self), address, old(memory)@),
            *final(cycles) == *old(cycles) - operation_cycles(
                Mnemonic::Rts,
                mode,
                *old(self),
                address,
            ),
    {
        *cycles = *cycles - 3;
        let return_address: u16 = self.pull_word(cycles, memory);
        self.pc = return_address.wrapping_add(1);
    }

    /// RTI: pulls the flags, then the program counter, low byte first.
    fn return_from_interrupt(
        &mut self,
        mode: AddrMode,
        address: u16,
        cycles: &mut i64,
        memory: &mut Mem,
    )
        requires
            old(memory).wf(),
            *old(cycles) >= i64::MIN + 5,
        ensures
            final(memory).wf(),
            *final(self) == apply_cpu(Mnemonic::Rti, mode, *old(self), address, old(memory)@),
            final(memory)@ == apply_mem(Mnemonic::Rti, mode, *old(self), address, old(memory)@),
            *final(cycles) == *old(cycles) - operation_cycles(
                Mnemonic::Rti,
                mode,
                *old(self),
                address,
            ),
    {
        *cycles = *cycles - 2;
        let p: u8 = self.pull(cycles, memory);
        self.set_status(p);
        self.pc = self.pull_word(cycles, memory);
    }

    /// BRK: pushes the return address and the flags, sets I, and jumps
    /// through the interrupt vector.
    fn break_instruction(
        &mut self,
        mode: AddrMode,
        address: u16,
        cycles: &mut i64,
        memory: &mut Mem,
    )
        requires
            old(memory).wf(),
            *old(cycles) >= i64::MIN + 6,
        ensures
            final(memory).wf(),
            *final(self) == apply_cpu(Mnemonic::Brk, mode, *old(self), address, old(memory)@),
            final(memory)@ == apply_mem(Mnemonic::Brk, mode, *old(self), address, old(memory)@),
            *final(cycles) == *old(cycles) - operation_cycles(
                Mnemonic::Brk,
                mode,
                *old(self),
                address,
            ),
    {
        *cycles = *cycles - 1;
        let return_address: u16 = self.pc.wrapping_add(1);
        self.push_word(return_address, cycles, memory);
        let p: u8 = self.status_for_push();
        self.push(p, cycles, memory);
        self.i = true;
        self.pc = self.read_word(IRQ_VECTOR, cycles, memory);
    }

    /// JMP, JSR, RTS, RTI and BRK.
    fn jump_instruction(
        &mut self,
        m: Mnemonic,
        mode: AddrMode,
        address: u16,
        cycles: &mut i64,
        memory: &mut Mem,
    )
        requires
            is_jump(m),
            old(memory).wf(),
            *old(cycles) >= i64::MIN + 6,
        ensures
            final(memory).wf(),
            *final(self) == apply_cpu(m, mode, *old(self), address, old(memory)@),
            final(memory)@ == apply_mem(m, mode, *old(self), address, old(memory)@),
            *final(cycles) == *old(cycles) - operation_cycles(m, mode, *old(self), address),
    {
        match m {
            Mnemonic::Jmp => {
                self.pc = address;
            },
            Mnemonic::Jsr => self.jump_to_subroutine(mode, address, cycles, memory),
            Mnemonic::Rts => self.return_from_subroutine(mode, address, cycles, memory),
            Mnemonic::Rti => self.return_from_interrupt(mode, address, cycles, memory),
            _ => self.break_instruction(mode, address, cycles, memory),
        }
    }

    /// Carries out one documented instruction whose opcode byte has just
    /// been fetched: resolves the operand address in the given mode, does
    /// the work of the instruction, and charges the cycles of both.
    pub fn perform(&mut self, m: Mnemonic, mode: AddrMode, cycles: &mut i64, memory: &mut Mem)
        requires
            old(memory).wf(),
            *old(cycles) >= i64::MIN + 10,
        ensures
            final(memory).wf(),
            *final(self) == instruction_spec(m, mode, *old(self), old(memory)@).cpu,
            final(memory)@ == instruction_spec(m, mode, *old(self), old(memory)@).image,
            *final(cycles) == *old(cycles) - (instruction_spec(
                m,
                mode,
                *old(self),
                old(memory)@,
            ).cycles - 1),
    {
        let writes: bool = writes_to_operand(m);
        let address: u16 = self.resolve(mode, writes, cycles, memory);
        match m {
            Mnemonic::Lda | Mnemonic::Ldx | Mnemonic::Ldy | Mnemonic::Adc | Mnemonic::Sbc
            | Mnemonic::And | Mnemonic::Ora | Mnemonic::Eor | Mnemonic::Cmp | Mnemonic::Cpx
            | Mnemonic::Cpy | Mnemonic::Bit => {
                self.read_instruction(m, mode, address, cycles, memory);
            },
            Mnemonic::Sta | Mnemonic::Stx | Mnemonic::Sty => {
                self.store_instruction(m, mode, address, cycles, memory);
            },
            Mnemonic::Asl | Mnemonic::Lsr | Mnemonic::Rol | Mnemonic::Ror | Mnemonic::Inc
            | Mnemonic::Dec => {
                self.modify_instruction(m, mode, address, cycles, memory);
            },
            Mnemonic::Bcc | Mnemonic::Bcs | Mnemonic::Beq | Mnemonic::Bne | Mnemonic::Bmi
            | Mnemonic::Bpl | Mnemonic::Bvc | Mnemonic::Bvs => {
                self.branch_instruction(m, mode, address, cycles);
            },
            Mnemonic::Pha | Mnemonic::Php | Mnemonic::Pla | Mnemonic::Plp => {
                self.stack_instruction(m, mode, cycles, memory);
            },
            Mnemonic::Jmp | Mnemonic::Jsr | Mnemonic::Rts | Mnemonic::Rti | Mnemonic::Brk => {
                self.jump_instruction(m, mode, address, cycles, memory);
            },
            _ => {
                self.register_instruction(m, mode, cycles);
            },
        }
    }
}

} // verus!
