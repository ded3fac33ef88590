//! What holds of every instruction and of every run: the program counter
//! and the cycle counts of the documented instruction set, the flags that
//! follow a result, arithmetic modulo 256, and the discipline of the stack.

use crate::addressing::{effective_address, operand_len, page_crossed, past_operand};
use crate::alu::{
    adc_spec,
    asl_spec,
    carry_in,
    is_negative,
    lemma_sbc_is_subtraction,
    lemma_wrap8_is_modulo,
    rol_spec,
    wrap16,
    wrap8,
};
use crate::cpu::{after_pull, after_push, pulled, stack_address, Cpu};
use crate::mem::{load_word, word_of};
use crate::opcodes::{decode_spec, lemma_table_is_supported, supports, AddrMode, Mnemonic, OpCode};
use crate::semantics::{
    apply_cpu,
    apply_mem,
    branch_crosses,
    branch_taken,
    budget_left,
    fetched,
    instruction_spec,
    is_branch,
    is_jump,
    modifies_operand,
    operand_value,
    produces_result,
    reads_operand,
    result_byte,
    run,
    step_spec,
    stores_register,
};
use vstd::prelude::*;

verus! {

/// The length of an instruction in bytes: the opcode and its operand.
pub open spec fn instruction_len(mode: AddrMode) -> int {
    1 + operand_len(mode)
}

/// The cycles that the data sheet gives for an instruction in a mode,
/// before the adjustments for page crossings and branches.
pub open spec fn documented_cycles(m: Mnemonic, mode: AddrMode) -> int {
    if reads_operand(m) {
        match mode {
            AddrMode::Immediate => 2,
            AddrMode::ZeroPage => 3,
            AddrMode::ZeroPageX | AddrMode::ZeroPageY | AddrMode::Absolute | AddrMode::AbsoluteX
            | AddrMode::AbsoluteY => 4,
            AddrMode::IndirectY => 5,
            _ => 6,
        }
    } else if stores_register(m) {
        match mode {
            AddrMode::ZeroPage => 3,
            AddrMode::ZeroPageX | AddrMode::ZeroPageY | AddrMode::Absolute => 4,
            AddrMode::AbsoluteX | AddrMode::AbsoluteY => 5,
            _ => 6,
        }
    } else if modifies_operand(m) {
        match mode {
            AddrMode::Accumulator => 2,
            AddrMode::ZeroPage => 5,
            AddrMode::ZeroPageX | AddrMode::Absolute => 6,
            _ => 7,
        }
    } else {
        match m {
            Mnemonic::Jmp => if mode is Absolute {
                3
            } else {
                5
            },
            Mnemonic::Pha | Mnemonic::Php => 3,
            Mnemonic::Pla | Mnemonic::Plp => 4,
            Mnemonic::Jsr | Mnemonic::Rts | Mnemonic::Rti => 6,
            Mnemonic::Brk => 7,
            _ => 2,
        }
    }
}

/// The cycles that an instruction takes on top of the documented ones: one
/// for an indexed read that crosses a page, one for a branch that is taken
/// and a second one where that branch crosses a page. `cpu` is the processor
/// right after the opcode fetch.
pub open spec fn cycle_adjustment(m: Mnemonic, mode: AddrMode, cpu: Cpu, image: Seq<u8>) -> int {
    if reads_operand(m) {
        if page_crossed(mode, cpu, image) {
            1
        } else {
            0
        }
    } else if is_branch(m) && branch_taken(m, cpu) {
        if branch_crosses(mode, past_operand(mode, cpu), effective_address(mode, cpu, image)) {
            2
        } else {
            1
        }
    } else {
        0
    }
}

/// The register or memory cell in which an instruction that produces a
/// result stores it, read from the state after the instruction.
pub open spec fn destination_byte(
    m: Mnemonic,
    mode: AddrMode,
    cpu: Cpu,
    image: Seq<u8>,
    address: u16,
) -> u8 {
    match m {
        Mnemonic::Ldx | Mnemonic::Tax | Mnemonic::Tsx | Mnemonic::Inx | Mnemonic::Dex => cpu.x,
        Mnemonic::Ldy | Mnemonic::Tay | Mnemonic::Iny | Mnemonic::Dey => cpu.y,
        Mnemonic::Asl | Mnemonic::Lsr | Mnemonic::Rol | Mnemonic::Ror | Mnemonic::Inc
        | Mnemonic::Dec => if mode is Accumulator {
            cpu.a
        } else {
            image[address as int]
        },
        _ => cpu.a,
    }
}

/// An instruction that neither jumps nor branches leaves the program counter
/// at the byte after its own bytes, one to three bytes further, modulo
/// 65,536. A branch that is not taken does the same.
pub proof fn lemma_pc_advances_by_length(cpu: Cpu, image: Seq<u8>, m: Mnemonic, mode: AddrMode)
    requires
        decode_spec(image[cpu.pc as int]) == OpCode::Instruction(m, mode),
        !is_jump(m),
        !(is_branch(m) && branch_taken(m, cpu)),
    ensures
        1 <= instruction_len(mode) <= 3,
        step_spec(cpu, image).cpu.pc == wrap16(cpu.pc + instruction_len(mode)),
{
}

/// A byte that is no documented opcode moves the program counter by one,
/// costs one cycle and changes nothing else.
pub proof fn lemma_unknown_opcode_is_skipped(cpu: Cpu, image: Seq<u8>)
    requires
        decode_spec(image[cpu.pc as int]) is Unknown,
    ensures
        step_spec(cpu, image).cpu == (Cpu { pc: wrap16(cpu.pc + 1), ..cpu }),
        step_spec(cpu, image).image == image,
        step_spec(cpu, image).cycles == 1,
        step_spec(cpu, image).unknown == Some(image[cpu.pc as int]),
{
}

/// Every documented instruction takes the cycles that the data sheet gives
/// for it, plus one for an indexed read that crosses a page, plus one for a
/// branch that is taken and one more where that branch crosses a page. That
/// is between two and seven cycles.
pub proof fn lemma_cycles_are_documented(cpu: Cpu, image: Seq<u8>, m: Mnemonic, mode: AddrMode)
    requires
        decode_spec(image[cpu.pc as int]) == OpCode::Instruction(m, mode),
    ensures
        step_spec(cpu, image).cycles == documented_cycles(m, mode) + cycle_adjustment(
            m,
            mode,
            fetched(cpu),
            image,
        ),
        2 <= step_spec(cpu, image).cycles <= 7,
{
    lemma_table_is_supported(image[cpu.pc as int]);
    lemma_supported_cycles(m, mode, fetched(cpu), image);
}

/// The documented cycles, for each instruction in each mode that the opcode
/// table pairs it with. `cpu` is the processor right after the opcode fetch.
pub proof fn lemma_supported_cycles(m: Mnemonic, mode: AddrMode, cpu: Cpu, image: Seq<u8>)
    requires
        supports(m, mode),
    ensures
        instruction_spec(m, mode, cpu, image).cycles == documented_cycles(m, mode)
            + cycle_adjustment(m, mode, cpu, image),
        2 <= instruction_spec(m, mode, cpu, image).cycles <= 7,
{
}

/// An instruction that writes to an indexed address pays for the index
/// whether or not a page is crossed: its cycles do not depend on the index
/// register.
pub proof fn lemma_writes_pay_always(cpu: Cpu, image: Seq<u8>, m: Mnemonic, mode: AddrMode)
    requires
        decode_spec(image[cpu.pc as int]) == OpCode::Instruction(m, mode),
        stores_register(m) || modifies_operand(m),
    ensures
        step_spec(cpu, image).cycles == documented_cycles(m, mode),
{
}

/// After an instruction that produces a result byte, Z says that the byte
/// is zero, N is its bit 7, and the byte stands in its destination.
pub proof fn lemma_flags_follow_result(
    m: Mnemonic,
    mode: AddrMode,
    cpu: Cpu,
    address: u16,
    image: Seq<u8>,
)
    requires
        produces_result(m),
        image.len() == 65536,
    ensures
        apply_cpu(m, mode, cpu, address, image).z == (result_byte(m, mode, cpu, address, image)
            == 0),
        apply_cpu(m, mode, cpu, address, image).n == is_negative(
            result_byte(m, mode, cpu, address, image),
        ),
        destination_byte(
            m,
            mode,
            apply_cpu(m, mode, cpu, address, image),
            apply_mem(m, mode, cpu, address, image),
            address,
        ) == result_byte(m, mode, cpu, address, image),
{
}

/// The same of a whole turn of the loop: after a documented instruction
/// that produces a result byte, Z and N follow that byte and the byte stands
/// in the register or memory cell that the instruction writes.
pub proof fn lemma_step_flags_follow_result(cpu: Cpu, image: Seq<u8>, m: Mnemonic, mode: AddrMode)
    requires
        decode_spec(image[cpu.pc as int]) == OpCode::Instruction(m, mode),
        produces_result(m),
        image.len() == 65536,
    ensures
        ({
            let address = effective_address(mode, fetched(cpu), image);
            let r = result_byte(m, mode, past_operand(mode, fetched(cpu)), address, image);
            let after = step_spec(cpu, image);
            &&& after.cpu.z == (r == 0)
            &&& after.cpu.n == is_negative(r)
            &&& destination_byte(m, mode, after.cpu, after.image, address) == r
        }),
{
    lemma_flags_follow_result(
        m,
        mode,
        past_operand(mode, fetched(cpu)),
        effective_address(mode, fetched(cpu), image),
        image,
    );
}

/// The result byte of each arithmetic instruction, which is the byte that
/// the instruction stores, is the mathematical result modulo 256.
pub proof fn lemma_arithmetic_is_modular(
    m: Mnemonic,
    mode: AddrMode,
    cpu: Cpu,
    address: u16,
    image: Seq<u8>,
)
    ensures
        ({
            let value = operand_value(mode, cpu, address, image);
            let r = result_byte(m, mode, cpu, address, image);
            match m {
                Mnemonic::Adc => r == (cpu.a + value + carry_in(cpu.c)) % 256,
                Mnemonic::Sbc => r == (cpu.a - value - (1 - carry_in(cpu.c))) % 256,
                Mnemonic::Inc => r == (value + 1) % 256,
                Mnemonic::Dec => r == (value - 1) % 256,
                Mnemonic::Inx => r == (cpu.x + 1) % 256,
                Mnemonic::Iny => r == (cpu.y + 1) % 256,
                Mnemonic::Dex => r == (cpu.x - 1) % 256,
                Mnemonic::Dey => r == (cpu.y - 1) % 256,
                Mnemonic::Asl => r == (2 * value) % 256,
                Mnemonic::Rol => r == (2 * value + carry_in(cpu.c)) % 256,
                _ => true,
            }
        }),
{
    let value = operand_value(mode, cpu, address, image);
    match m {
        Mnemonic::Adc => {
            reveal(adc_spec);
            lemma_wrap8_is_modulo(cpu.a + value + carry_in(cpu.c));
        },
        Mnemonic::Sbc => {
            lemma_sbc_is_subtraction(cpu.a, value, cpu.c);
            lemma_wrap8_is_modulo(cpu.a - value - (1 - carry_in(cpu.c)));
        },
        Mnemonic::Inc => lemma_wrap8_is_modulo(value + 1),
        Mnemonic::Dec => lemma_wrap8_is_modulo(value - 1),
        Mnemonic::Inx => lemma_wrap8_is_modulo(cpu.x + 1),
        Mnemonic::Iny => lemma_wrap8_is_modulo(cpu.y + 1),
        Mnemonic::Dex => lemma_wrap8_is_modulo(cpu.x - 1),
        Mnemonic::Dey => lemma_wrap8_is_modulo(cpu.y - 1),
        Mnemonic::Asl => {
            reveal(asl_spec);
            lemma_wrap8_is_modulo(2 * value);
        },
        Mnemonic::Rol => {
            reveal(rol_spec);
            lemma_wrap8_is_modulo(2 * value + carry_in(cpu.c));
        },
        _ => {},
    }
}

/// An indirect jump whose pointer ends in 0xFF takes the high byte of its
/// target from the first cell of the pointer's own page, not from the next
/// page.
pub proof fn lemma_indirect_jump_stays_in_page(cpu: Cpu, image: Seq<u8>)
    requires
        decode_spec(image[cpu.pc as int]) == OpCode::Instruction(Mnemonic::Jmp, AddrMode::Indirect),
        load_word(image, fetched(cpu).pc) % 256 == 0xFF,
    ensures
        ({
            let pointer = load_word(image, fetched(cpu).pc);
            step_spec(cpu, image).cpu.pc == word_of(
                image[pointer as int],
                image[(pointer / 256) * 256],
            )
        }),
{
    reveal(effective_address);
}

/// One use of the stack: a push of a byte, or a pull.
pub enum StackOp {
    Push(u8),
    Pull,
}

/// What the processor's stack has done after a sequence of pushes and pulls.
pub struct StackRun {
    /// The processor afterwards.
    pub cpu: Cpu,
    /// The memory image afterwards.
    pub image: Seq<u8>,
    /// The bytes that the pulls handed back, in order.
    pub pulled: Seq<u8>,
}

/// The processor's stack at work: each push writes at `0x0100 | SP` and
/// lowers the stack pointer, each pull raises it and reads at `0x0100 | SP`.
pub open spec fn stack_run(cpu: Cpu, image: Seq<u8>, ops: Seq<StackOp>) -> StackRun
    decreases ops.len(),
{
    if ops.len() == 0 {
        StackRun { cpu, image, pulled: Seq::empty() }
    } else {
        let before = stack_run(cpu, image, ops.drop_last());
        match ops.last() {
            StackOp::Push(value) => StackRun {
                cpu: after_push(before.cpu),
                image: before.image.update(stack_address(before.cpu.sp) as int, value),
                pulled: before.pulled,
            },
            StackOp::Pull => StackRun {
                cpu: after_pull(before.cpu),
                image: before.image,
                pulled: before.pulled.push(pulled(before.cpu, before.image, 1)),
            },
        }
    }
}

/// What an ideal stack has done after the same sequence.
pub struct Lifo {
    /// The bytes on the stack, the oldest first.
    pub stack: Seq<u8>,
    /// The bytes that the pulls handed back, in order.
    pub pulled: Seq<u8>,
    /// Whether the sequence stayed inside what the processor's stack can
    /// hold: no pull from an empty stack, never more than 256 bytes on it.
    pub fits: bool,
}

/// An ideal last-in, first-out stack that starts empty.
pub open spec fn lifo_run(ops: Seq<StackOp>) -> Lifo
    decreases ops.len(),
{
    if ops.len() == 0 {
        Lifo { stack: Seq::empty(), pulled: Seq::empty(), fits: true }
    } else {
        let before = lifo_run(ops.drop_last());
        match ops.last() {
            StackOp::Push(value) => Lifo {
                stack: before.stack.push(value),
                pulled: before.pulled,
                fits: before.fits && before.stack.len() < 256,
            },
            StackOp::Pull => Lifo {
                stack: before.stack.drop_last(),
                pulled: before.pulled.push(before.stack.last()),
                fits: before.fits && before.stack.len() > 0,
            },
        }
    }
}

/// A pull right after a push hands back the byte that was pushed, from the
/// cell `0x0100 | SP`, and the stack pointer is where it was.
pub proof fn lemma_pull_undoes_push(cpu: Cpu, image: Seq<u8>, value: u8)
    requires
        image.len() == 65536,
    ensures
        pulled(after_push(cpu), image.update(stack_address(cpu.sp) as int, value), 1) == value,
        after_pull(after_push(cpu)) == cpu,
        0x0100 <= stack_address(cpu.sp) <= 0x01FF,
{
}

/// The stack cell `j` places below the one that the stack pointer `sp`
/// points to, modulo 256.
pub open spec fn cell(image: Seq<u8>, sp: u8, j: int) -> u8 {
    image[stack_address(wrap8(sp - j)) as int]
}

/// While a sequence of pushes and pulls fits, the byte that stands at
/// depth `j` of the ideal stack stands in the cell `0x0100 | (SP0 - j)`,
/// where SP0 is the stack pointer at the start.
proof fn lemma_stack_cells(cpu: Cpu, image: Seq<u8>, ops: Seq<StackOp>)
    requires
        image.len() == 65536,
        lifo_run(ops).fits,
    ensures
        lifo_run(ops).stack.len() <= 256,
        stack_run(cpu, image, ops).image.len() == 65536,
        stack_run(cpu, image, ops).cpu == (Cpu {
            sp: wrap8(cpu.sp - lifo_run(ops).stack.len()),
            ..cpu
        }),
        stack_run(cpu, image, ops).pulled == lifo_run(ops).pulled,
        forall|j: int|
            0 <= j < lifo_run(ops).stack.len() ==> cell(stack_run(cpu, image, ops).image, cpu.sp, j)
                == #[trigger] lifo_run(ops).stack[j],
    decreases ops.len(),
{
    if ops.len() > 0 {
        lemma_stack_cells(cpu, image, ops.drop_last());
        let ideal = lifo_run(ops.drop_last());
        let before = stack_run(cpu, image, ops.drop_last());
        let after = stack_run(cpu, image, ops);
        match ops.last() {
            StackOp::Push(value) => {
                assert forall|j: int| 0 <= j < lifo_run(ops).stack.len() implies cell(
                    after.image,
                    cpu.sp,
                    j,
                ) == #[trigger] lifo_run(ops).stack[j] by {
                    if j < ideal.stack.len() {
                        assert(ideal.stack[j] == lifo_run(ops).stack[j]);
                    }
                }
            },
            StackOp::Pull => {
                let top = ideal.stack.len() - 1;
                assert(cell(before.image, cpu.sp, top) == ideal.stack[top]);
                assert forall|j: int| 0 <= j < lifo_run(ops).stack.len() implies cell(
                    after.image,
                    cpu.sp,
                    j,
                ) == #[trigger] lifo_run(ops).stack[j] by {
                    assert(ideal.stack[j] == lifo_run(ops).stack[j]);
                }
            },
        }
    }
}

/// The stack is last in, first out. Whatever sequence of pushes and pulls
/// runs, as long as it never pulls more than was pushed and never holds more
/// than 256 bytes, every pull hands back what an ideal stack would; and when
/// the pushes and pulls are balanced, the stack pointer is back where it
/// started and no register has changed.
pub proof fn lemma_stack_is_lifo(cpu: Cpu, image: Seq<u8>, ops: Seq<StackOp>)
    requires
        image.len() == 65536,
        lifo_run(ops).fits,
    ensures
        stack_run(cpu, image, ops).pulled == lifo_run(ops).pulled,
        stack_run(cpu, image, ops).cpu.sp == wrap8(cpu.sp - lifo_run(ops).stack.len()),
        lifo_run(ops).stack.len() == 0 ==> stack_run(cpu, image, ops).cpu == cpu,
{
    lemma_stack_cells(cpu, image, ops);
}

/// Every turn of the loop takes between one and seven cycles.
pub proof fn lemma_step_cycles_bounded(cpu: Cpu, image: Seq<u8>)
    ensures
        1 <= step_spec(cpu, image).cycles <= 7,
{
    match decode_spec(image[cpu.pc as int]) {
        OpCode::Instruction(m, mode) => {
            lemma_cycles_are_documented(cpu, image, m, mode);
        },
        OpCode::Unknown(_) => {},
    }
}

/// A run that starts with a positive budget ends with a budget of zero or
/// less and above -7: the last instruction overshoots by less than its own
/// cycles.
pub proof fn lemma_run_overshoots_little(cpu: Cpu, image: Seq<u8>, cycles: int, unknown: Seq<u8>)
    requires
        cycles > -7,
    ensures
        -7 < run(cpu, image, cycles, unknown).cycles,
        run(cpu, image, cycles, unknown).cycles <= 0 || cycles <= 0,
    decreases budget_left(cycles),
{
    if cycles > 0 {
        let step = step_spec(cpu, image);
        lemma_step_cycles_bounded(cpu, image);
        lemma_run_overshoots_little(
            step.cpu,
            step.image,
            cycles - step.cycles,
            match step.unknown {
                Some(byte) => unknown.push(byte),
                None => unknown,
            },
        );
    }
}

} // verus!
