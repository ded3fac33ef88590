//! What each instruction does, as mathematics: the processor and the memory
//! image after the instruction, and the cycles it takes.
//!
//! `apply_cpu`, `apply_mem` and `operation_cycles` describe the work of an
//! instruction once its operand address is known; `step_spec` puts opcode
//! fetch, decoding, address resolution and that work together, and `run`
//! repeats it while the cycle budget lasts.

use crate::addressing::{
    addressing_cycles,
    effective_address,
    operand_len,
    page_of,
    past_operand,
};
use crate::alu::{
    adc_spec,
    asl_spec,
    bit_six,
    compare_spec,
    is_negative,
    lsr_spec,
    rol_spec,
    ror_spec,
    sbc_spec,
    wrap16,
    wrap8,
    Shifted,
};
use crate::cpu::{pulled, pushed_status, stack_address, with_status, with_zn, Cpu};
use crate::mem::{high_byte, load_word, low_byte, next_address, word_of};
use crate::opcodes::{decode_spec, AddrMode, Mnemonic, OpCode};
use vstd::prelude::*;

verus! {

/// Instructions that read their operand and leave memory alone.
pub open spec fn reads_operand(m: Mnemonic) -> bool {
    match m {
        Mnemonic::Lda | Mnemonic::Ldx | Mnemonic::Ldy | Mnemonic::Adc | Mnemonic::Sbc
        | Mnemonic::And | Mnemonic::Ora | Mnemonic::Eor | Mnemonic::Cmp | Mnemonic::Cpx
        | Mnemonic::Cpy | Mnemonic::Bit => true,
        _ => false,
    }
}

/// Instructions that store a register at their operand address.
pub open spec fn stores_register(m: Mnemonic) -> bool {
    match m {
        Mnemonic::Sta | Mnemonic::Stx | Mnemonic::Sty => true,
        _ => false,
    }
}

/// Instructions that read their operand, change it and write it back.
pub open spec fn modifies_operand(m: Mnemonic) -> bool {
    match m {
        Mnemonic::Asl | Mnemonic::Lsr | Mnemonic::Rol | Mnemonic::Ror | Mnemonic::Inc
        | Mnemonic::Dec => true,
        _ => false,
    }
}

/// Instructions that write to their operand address.
pub open spec fn writes_operand(m: Mnemonic) -> bool {
    stores_register(m) || modifies_operand(m)
}

/// The conditional branches.
pub open spec fn is_branch(m: Mnemonic) -> bool {
    match m {
        Mnemonic::Bcc | Mnemonic::Bcs | Mnemonic::Beq | Mnemonic::Bne | Mnemonic::Bmi
        | Mnemonic::Bpl | Mnemonic::Bvc | Mnemonic::Bvs => true,
        _ => false,
    }
}

/// Instructions that load the program counter from somewhere else than the
/// end of their own bytes.
pub open spec fn is_jump(m: Mnemonic) -> bool {
    match m {
        Mnemonic::Jmp | Mnemonic::Jsr | Mnemonic::Rts | Mnemonic::Rti | Mnemonic::Brk => true,
        _ => false,
    }
}

/// Whether the flag that a branch tests lets it jump.
pub open spec fn branch_taken(m: Mnemonic, cpu: Cpu) -> bool {
    match m {
        Mnemonic::Bcc => !cpu.c,
        Mnemonic::Bcs => cpu.c,
        Mnemonic::Beq => cpu.z,
        Mnemonic::Bne => !cpu.z,
        Mnemonic::Bmi => cpu.n,
        Mnemonic::Bpl => !cpu.n,
        Mnemonic::Bvc => !cpu.v,
        Mnemonic::Bvs => cpu.v,
        _ => false,
    }
}

/// The address of the opcode byte of the instruction whose operand the
/// program counter of `cpu` has just passed.
pub open spec fn instruction_address(mode: AddrMode, cpu: Cpu) -> u16 {
    wrap16(cpu.pc - operand_len(mode) - 1)
}

/// A branch crosses a page when its target lies in another page than the
/// branch instruction itself.
pub open spec fn branch_crosses(mode: AddrMode, cpu: Cpu, target: u16) -> bool {
    page_of(instruction_address(mode, cpu)) != page_of(target)
}

/// The byte that the instruction works on: the accumulator in accumulator
/// mode, the memory cell at the operand address otherwise.
pub open spec fn operand_value(mode: AddrMode, cpu: Cpu, address: u16, image: Seq<u8>) -> u8 {
    if mode is Accumulator {
        cpu.a
    } else {
        image[address as int]
    }
}

/// What a shift or rotation makes of its operand.
pub open spec fn shift_spec(m: Mnemonic, operand: u8, carry: bool) -> Shifted {
    match m {
        Mnemonic::Asl => asl_spec(operand),
        Mnemonic::Lsr => lsr_spec(operand),
        Mnemonic::Rol => rol_spec(operand, carry),
        _ => ror_spec(operand, carry),
    }
}

/// Instructions that produce a result byte, store it in a register or in
/// memory, and set Z and N from it.
pub open spec fn produces_result(m: Mnemonic) -> bool {
    match m {
        Mnemonic::Lda | Mnemonic::Ldx | Mnemonic::Ldy | Mnemonic::Tax | Mnemonic::Tay
        | Mnemonic::Txa | Mnemonic::Tya | Mnemonic::Tsx | Mnemonic::Pla | Mnemonic::And
        | Mnemonic::Ora | Mnemonic::Eor | Mnemonic::Adc | Mnemonic::Sbc | Mnemonic::Asl
        | Mnemonic::Lsr | Mnemonic::Rol | Mnemonic::Ror | Mnemonic::Inc | Mnemonic::Dec
        | Mnemonic::Inx | Mnemonic::Iny | Mnemonic::Dex | Mnemonic::Dey => true,
        _ => false,
    }
}

/// The result byte of an instruction that produces one; 0 for the others.
pub open spec fn result_byte(
    m: Mnemonic,
    mode: AddrMode,
    cpu: Cpu,
    address: u16,
    image: Seq<u8>,
) -> u8 {
    let value = operand_value(mode, cpu, address, image);
    match m {
        Mnemonic::Lda | Mnemonic::Ldx | Mnemonic::Ldy => value,
        Mnemonic::Tax | Mnemonic::Tay => cpu.a,
        Mnemonic::Txa => cpu.x,
        Mnemonic::Tya => cpu.y,
        Mnemonic::Tsx => cpu.sp,
        Mnemonic::Pla => pulled(cpu, image, 1),
        Mnemonic::And => cpu.a & value,
        Mnemonic::Ora => cpu.a | value,
        Mnemonic::Eor => cpu.a ^ value,
        Mnemonic::Adc => adc_spec(cpu.a, value, cpu.c).result,
        Mnemonic::Sbc => sbc_spec(cpu.a, value, cpu.c).result,
        Mnemonic::Asl | Mnemonic::Lsr | Mnemonic::Rol | Mnemonic::Ror => shift_spec(
            m,
            value,
            cpu.c,
        ).result,
        Mnemonic::Inc => wrap8(value + 1),
        Mnemonic::Dec => wrap8(value - 1),
        Mnemonic::Inx => wrap8(cpu.x + 1),
        Mnemonic::Iny => wrap8(cpu.y + 1),
        Mnemonic::Dex => wrap8(cpu.x - 1),
        Mnemonic::Dey => wrap8(cpu.y - 1),
        _ => 0,
    }
}

/// The return address that JSR pushes: the address of the last byte of the
/// JSR instruction, one less than where execution resumes.
pub open spec fn jsr_return(cpu: Cpu) -> u16 {
    wrap16(cpu.pc - 1)
}

/// The return address that BRK pushes: it skips the byte after the opcode.
pub open spec fn brk_return(cpu: Cpu) -> u16 {
    wrap16(cpu.pc + 1)
}

/// The processor after the work of an instruction. `cpu` is the processor
/// with the program counter past the operand bytes, `address` the effective
/// address, `image` the memory before the instruction.
pub open spec fn apply_cpu(
    m: Mnemonic,
    mode: AddrMode,
    cpu: Cpu,
    address: u16,
    image: Seq<u8>,
) -> Cpu {
    let value = operand_value(mode, cpu, address, image);
    let r = result_byte(m, mode, cpu, address, image);
    match m {
        Mnemonic::Lda | Mnemonic::Txa | Mnemonic::Tya | Mnemonic::And | Mnemonic::Ora
        | Mnemonic::Eor => with_zn(Cpu { a: r, ..cpu }, r),
        Mnemonic::Ldx | Mnemonic::Tax | Mnemonic::Tsx | Mnemonic::Inx | Mnemonic::Dex => with_zn(
            Cpu { x: r, ..cpu },
            r,
        ),
        Mnemonic::Ldy | Mnemonic::Tay | Mnemonic::Iny | Mnemonic::Dey => with_zn(
            Cpu { y: r, ..cpu },
            r,
        ),
        Mnemonic::Sta | Mnemonic::Stx | Mnemonic::Sty | Mnemonic::Nop => cpu,
        Mnemonic::Txs => Cpu { sp: cpu.x, ..cpu },
        Mnemonic::Pha | Mnemonic::Php => Cpu { sp: wrap8(cpu.sp - 1), ..cpu },
        Mnemonic::Pla => with_zn(Cpu { a: r, sp: wrap8(cpu.sp + 1), ..cpu }, r),
        Mnemonic::Plp => with_status(Cpu { sp: wrap8(cpu.sp + 1), ..cpu }, pulled(cpu, image, 1)),
        Mnemonic::Adc => with_zn(
            Cpu {
                a: r,
                c: adc_spec(cpu.a, value, cpu.c).carry,
                v: adc_spec(cpu.a, value, cpu.c).overflow,
                ..cpu
            },
            r,
        ),
        Mnemonic::Sbc => with_zn(
            Cpu {
                a: r,
                c: sbc_spec(cpu.a, value, cpu.c).carry,
                v: sbc_spec(cpu.a, value, cpu.c).overflow,
                ..cpu
            },
            r,
        ),
        Mnemonic::Cmp => Cpu {
            c: compare_spec(cpu.a, value).carry,
            z: compare_spec(cpu.a, value).zero,
            n: compare_spec(cpu.a, value).negative,
            ..cpu
        },
        Mnemonic::Cpx => Cpu {
            c: compare_spec(cpu.x, value).carry,
            z: compare_spec(cpu.x, value).zero,
            n: compare_spec(cpu.x, value).negative,
            ..cpu
        },
        Mnemonic::Cpy => Cpu {
            c: compare_spec(cpu.y, value).carry,
            z: compare_spec(cpu.y, value).zero,
            n: compare_spec(cpu.y, value).negative,
            ..cpu
        },
        Mnemonic::Bit => Cpu {
            z: cpu.a & value == 0,
            n: is_negative(value),
            v: bit_six(value),
            ..cpu
        },
        Mnemonic::Asl | Mnemonic::Lsr | Mnemonic::Rol | Mnemonic::Ror => with_zn(
            Cpu {
                a: if mode is Accumulator {
                    r
                } else {
                    cpu.a
                },
                c: shift_spec(m, value, cpu.c).carry,
                ..cpu
            },
            r,
        ),
        Mnemonic::Inc | Mnemonic::Dec => with_zn(
            Cpu {
                a: if mode is Accumulator {
                    r
                } else {
                    cpu.a
                },
                ..cpu
            },
            r,
        ),
        Mnemonic::Bcc | Mnemonic::Bcs | Mnemonic::Beq | Mnemonic::Bne | Mnemonic::Bmi
        | Mnemonic::Bpl | Mnemonic::Bvc | Mnemonic::Bvs => if branch_taken(m, cpu) {
            Cpu { pc: address, ..cpu }
        } else {
            cpu
        },
        Mnemonic::Clc => Cpu { c: false, ..cpu },
        Mnemonic::Sec => Cpu { c: true, ..cpu },
        Mnemonic::Cld => Cpu { d: false, ..cpu },
        Mnemonic::Sed => Cpu { d: true, ..cpu },
        Mnemonic::Cli => Cpu { i: false, ..cpu },
        Mnemonic::Sei => Cpu { i: true, ..cpu },
        Mnemonic::Clv => Cpu { v: false, ..cpu },
        Mnemonic::Jmp => Cpu { pc: address, ..cpu },
        Mnemonic::Jsr => Cpu { pc: address, sp: wrap8(cpu.sp - 2), ..cpu },
        Mnemonic::Rts => Cpu {
            pc: wrap16(word_of(pulled(cpu, image, 1), pulled(cpu, image, 2)) + 1),
            sp: wrap8(cpu.sp + 2),
            ..cpu
        },
        Mnemonic::Rti => with_status(
            Cpu {
                pc: word_of(pulled(cpu, image, 2), pulled(cpu, image, 3)),
                sp: wrap8(cpu.sp + 3),
                ..cpu
            },
            pulled(cpu, image, 1),
        ),
        Mnemonic::Brk => Cpu {
            pc: load_word(image, 0xFFFE),
            sp: wrap8(cpu.sp - 3),
            i: true,
            ..cpu
        },
    }
}

/// The memory image after the work of an instruction; the parameters are
/// those of `apply_cpu`.
pub open spec fn apply_mem(
    m: Mnemonic,
    mode: AddrMode,
    cpu: Cpu,
    address: u16,
    image: Seq<u8>,
) -> Seq<u8> {
    let r = result_byte(m, mode, cpu, address, image);
    match m {
        Mnemonic::Sta => image.update(address as int, cpu.a),
        Mnemonic::Stx => image.update(address as int, cpu.x),
        Mnemonic::Sty => image.update(address as int, cpu.y),
        Mnemonic::Asl | Mnemonic::Lsr | Mnemonic::Rol | Mnemonic::Ror | Mnemonic::Inc
        | Mnemonic::Dec => if mode is Accumulator {
            image
        } else {
            image.update(address as int, r)
        },
        Mnemonic::Pha => image.update(stack_address(cpu.sp) as int, cpu.a),
        Mnemonic::Php => image.update(stack_address(cpu.sp) as int, pushed_status(cpu)),
        Mnemonic::Jsr => image.update(
            stack_address(cpu.sp) as int,
            high_byte(jsr_return(cpu)),
        ).update(stack_address(wrap8(cpu.sp - 1)) as int, low_byte(jsr_return(cpu))),
        Mnemonic::Brk => image.update(
            stack_address(cpu.sp) as int,
            high_byte(brk_return(cpu)),
        ).update(stack_address(wrap8(cpu.sp - 1)) as int, low_byte(brk_return(cpu))).update(
            stack_address(wrap8(cpu.sp - 2)) as int,
            pushed_status(cpu),
        ),
        _ => image,
    }
}

/// Cycles that the work of an instruction takes once its operand address is
/// resolved; the parameters are those of `apply_cpu`.
pub open spec fn operation_cycles(m: Mnemonic, mode: AddrMode, cpu: Cpu, address: u16) -> int {
    match m {
        Mnemonic::Asl | Mnemonic::Lsr | Mnemonic::Rol | Mnemonic::Ror | Mnemonic::Inc
        | Mnemonic::Dec => if mode is Accumulator {
            1
        } else {
            3
        },
        Mnemonic::Bcc | Mnemonic::Bcs | Mnemonic::Beq | Mnemonic::Bne | Mnemonic::Bmi
        | Mnemonic::Bpl | Mnemonic::Bvc | Mnemonic::Bvs => if !branch_taken(m, cpu) {
            0
        } else if branch_crosses(mode, cpu, address) {
            2
        } else {
            1
        },
        Mnemonic::Jmp => 0,
        Mnemonic::Pha | Mnemonic::Php => 2,
        Mnemonic::Pla | Mnemonic::Plp | Mnemonic::Jsr => 3,
        Mnemonic::Rts | Mnemonic::Rti => 5,
        Mnemonic::Brk => 6,
        _ => 1,
    }
}

/// The outcome of one instruction.
pub struct Step {
    /// The processor after the instruction.
    pub cpu: Cpu,
    /// The memory image after the instruction.
    pub image: Seq<u8>,
    /// The cycles the instruction took, opcode fetch included.
    pub cycles: int,
    /// The opcode byte, where the opcode table does not know it.
    pub unknown: Option<u8>,
}

/// The processor right after the opcode fetch: the program counter points
/// at the byte after the opcode.
pub open spec fn fetched(cpu: Cpu) -> Cpu {
    Cpu { pc: next_address(cpu.pc), ..cpu }
}

/// One documented instruction in full: operand resolution, then the work.
/// `cpu` is the processor right after the opcode fetch.
pub open spec fn instruction_spec(m: Mnemonic, mode: AddrMode, cpu: Cpu, image: Seq<u8>) -> Step {
    let address = effective_address(mode, cpu, image);
    let next = past_operand(mode, cpu);
    Step {
        cpu: apply_cpu(m, mode, next, address, image),
        image: apply_mem(m, mode, next, address, image),
        cycles: 1 + addressing_cycles(mode, writes_operand(m), cpu, image) + operation_cycles(
            m,
            mode,
            next,
            address,
        ),
        unknown: None,
    }
}

/// One turn of the fetch-decode-execute loop. A byte that the opcode table
/// does not know is skipped: it costs the cycle of its fetch, changes nothing
/// else, and is reported.
pub open spec fn step_spec(cpu: Cpu, image: Seq<u8>) -> Step {
    let opcode = image[cpu.pc as int];
    match decode_spec(opcode) {
        OpCode::Instruction(m, mode) => instruction_spec(m, mode, fetched(cpu), image),
        OpCode::Unknown(byte) => Step {
            cpu: fetched(cpu),
            image: image,
            cycles: 1,
            unknown: Some(byte),
        },
    }
}

/// The outcome of a run of the fetch-decode-execute loop.
pub struct Run {
    /// The processor when the loop stopped.
    pub cpu: Cpu,
    /// The memory image when the loop stopped.
    pub image: Seq<u8>,
    /// What is left of the cycle budget: zero or less.
    pub cycles: int,
    /// The unknown opcode bytes that the loop skipped, in the order met.
    pub unknown: Seq<u8>,
}

/// The part of a cycle budget that still lets an instruction start.
pub open spec fn budget_left(cycles: int) -> nat {
    if cycles > 0 {
        cycles as nat
    } else {
        0
    }
}

/// The fetch-decode-execute loop: instructions are carried out one after
/// the other while the budget is positive. The budget is looked at between
/// instructions only, so the last instruction may take it below zero.
/// `unknown` collects the opcode bytes that were skipped.
pub open spec fn run(cpu: Cpu, image: Seq<u8>, cycles: int, unknown: Seq<u8>) -> Run
    decreases budget_left(cycles),
{
    if cycles <= 0 {
        Run { cpu, image, cycles, unknown }
    } else {
        let step = step_spec(cpu, image);
        run(
            step.cpu,
            step.image,
            cycles - step.cycles,
            match step.unknown {
                Some(byte) => unknown.push(byte),
                None => unknown,
            },
        )
    }
}

} // verus!
