//! Addressing modes: how the bytes that follow an opcode become an effective
//! address, and what that costs in cycles.
//!
//! The functions here look at the processor as it is right after the opcode
//! byte has been fetched: the program counter points at the first operand
//! byte.

use crate::alu::{offset_address, signed, wrap16, wrap8};
use crate::cpu::{indirect_word, zero_page_word, Cpu};
use crate::mem::{load_word, Mem};
use crate::opcodes::AddrMode;
use vstd::prelude::*;

verus! {

/// Number of operand bytes that follow the opcode.
pub open spec fn operand_len(mode: AddrMode) -> int {
    match mode {
        AddrMode::Implied | AddrMode::Accumulator => 0,
        AddrMode::Absolute | AddrMode::AbsoluteX | AddrMode::AbsoluteY | AddrMode::Indirect => 2,
        _ => 1,
    }
}

/// The operand byte, for the modes that have one.
pub open spec fn operand_byte(cpu: Cpu, image: Seq<u8>) -> u8 {
    image[cpu.pc as int]
}

/// The operand word, for the modes that have one.
pub open spec fn operand_word(cpu: Cpu, image: Seq<u8>) -> u16 {
    load_word(image, cpu.pc)
}

/// The 256-byte page that an address lies in.
pub open spec fn page_of(address: u16) -> int {
    address as int / 256
}

/// The address before the index register is added, for the three modes that
/// add one to a 16-bit base; for every other mode, the effective address.
pub open spec fn base_address(mode: AddrMode, cpu: Cpu, image: Seq<u8>) -> u16 {
    match mode {
        AddrMode::AbsoluteX | AddrMode::AbsoluteY => operand_word(cpu, image),
        AddrMode::IndirectY => zero_page_word(image, operand_byte(cpu, image)),
        _ => effective_address(mode, cpu, image),
    }
}

/// The address that the instruction works on. For an immediate operand this
/// is the address of the operand byte itself, for a branch it is the branch
/// target; the modes without an operand give 0.
#[verifier::opaque]
pub open spec fn effective_address(mode: AddrMode, cpu: Cpu, image: Seq<u8>) -> u16 {
    match mode {
        AddrMode::Implied | AddrMode::Accumulator => 0,
        AddrMode::Immediate => cpu.pc,
        AddrMode::ZeroPage => operand_byte(cpu, image) as u16,
        AddrMode::ZeroPageX => wrap8(operand_byte(cpu, image) + cpu.x) as u16,
        AddrMode::ZeroPageY => wrap8(operand_byte(cpu, image) + cpu.y) as u16,
        AddrMode::Absolute => operand_word(cpu, image),
        AddrMode::AbsoluteX => wrap16(operand_word(cpu, image) + cpu.x),
        AddrMode::AbsoluteY => wrap16(operand_word(cpu, image) + cpu.y),
        AddrMode::Indirect => indirect_word(image, operand_word(cpu, image)),
        AddrMode::IndirectX => zero_page_word(image, wrap8(operand_byte(cpu, image) + cpu.x)),
        AddrMode::IndirectY => wrap16(zero_page_word(image, operand_byte(cpu, image)) + cpu.y),
        AddrMode::Relative => wrap16(cpu.pc + 1 + signed(operand_byte(cpu, image))),
    }
}

/// An indexed access crosses a page when the effective address lies in
/// another page than the address before indexing.
pub open spec fn page_crossed(mode: AddrMode, cpu: Cpu, image: Seq<u8>) -> bool {
    page_of(base_address(mode, cpu, image)) != page_of(effective_address(mode, cpu, image))
}

/// The extra cycle of the three 16-bit indexed modes: an instruction that
/// writes pays it always, one that only reads pays it on a page crossing.
pub open spec fn index_penalty(mode: AddrMode, writes: bool, cpu: Cpu, image: Seq<u8>) -> int {
    match mode {
        AddrMode::AbsoluteX | AddrMode::AbsoluteY | AddrMode::IndirectY => if writes
            || page_crossed(mode, cpu, image) {
            1
        } else {
            0
        },
        _ => 0,
    }
}

/// Cycles that resolving the operand address costs, after the opcode fetch
/// and before the instruction touches its operand. The fetch of an immediate
/// operand is the instruction's own read and counts there.
pub open spec fn addressing_cycles(mode: AddrMode, writes: bool, cpu: Cpu, image: Seq<u8>) -> int {
    match mode {
        AddrMode::Implied | AddrMode::Accumulator | AddrMode::Immediate => 0,
        AddrMode::ZeroPage | AddrMode::Relative => 1,
        AddrMode::ZeroPageX | AddrMode::ZeroPageY | AddrMode::Absolute => 2,
        AddrMode::AbsoluteX | AddrMode::AbsoluteY => 2 + index_penalty(mode, writes, cpu, image),
        AddrMode::IndirectY => 3 + index_penalty(mode, writes, cpu, image),
        AddrMode::Indirect | AddrMode::IndirectX => 4,
    }
}

/// The processor with its program counter moved past the operand bytes.
pub open spec fn past_operand(mode: AddrMode, cpu: Cpu) -> Cpu {
    Cpu { pc: wrap16(cpu.pc + operand_len(mode)), ..cpu }
}

/// Whether two addresses lie in different pages.
pub fn pages_differ(first: u16, second: u16) -> (differ: bool)
    ensures
        differ == (page_of(first) != page_of(second)),
{
    assert(first & 0xFF00 == (first / 256) * 256) by (bit_vector);
    assert(second & 0xFF00 == (second / 256) * 256) by (bit_vector);
    first & 0xFF00 != second & 0xFF00
}

impl Cpu {
    /// Adds an index register to a 16-bit base address and charges the extra
    /// cycle where it is due.
    fn index_address(base: u16, index: u8, writes: bool, cycles: &mut i64) -> (address: u16)
        requires
            *old(cycles) > i64::MIN,
        ensures
            address == wrap16(base + index),
            *final(cycles) == *old(cycles) - if writes || page_of(base) != page_of(address) {
                1int
            } else {
                0int
            },
    {
        let address: u16 = base.wrapping_add(index as u16);
        if writes || pages_differ(base, address) {
            *cycles = *cycles - 1;
        }
        address
    }

    /// Fetches the operand bytes of an instruction in the given mode and
    /// resolves them to the effective address, charging the cycles of the
    /// mode. `writes` says whether the instruction writes to that address.
    pub fn resolve(
        &mut self,
        mode: AddrMode,
        writes: bool,
        cycles: &mut i64,
        memory: &Mem,
    ) -> (address: u16)
        requires
            memory.wf(),
            *old(cycles) >= i64::MIN + 4,
        ensures
            address == effective_address(mode, *old(self), memory@),
            *final(self) == past_operand(mode, *old(self)),
            *final(cycles) == *old(cycles) - addressing_cycles(mode, writes, *old(self), memory@),
    {
        reveal(effective_address);
        match mode {
            AddrMode::Implied | AddrMode::Accumulator => 0,
            AddrMode::Immediate => {
                let address: u16 = self.pc;
                self.pc = self.pc.wrapping_add(1);
                address
            },
            AddrMode::ZeroPage => {
                let operand: u8 = self.fetch_byte(cycles, memory);
                operand as u16
            },
            AddrMode::ZeroPageX => {
                let operand: u8 = self.fetch_byte(cycles, memory);
                *cycles = *cycles - 1;
                operand.wrapping_add(self.x) as u16
            },
            AddrMode::ZeroPageY => {
                let operand: u8 = self.fetch_byte(cycles, memory);
                *cycles = *cycles - 1;
                operand.wrapping_add(self.y) as u16
            },
            AddrMode::Absolute => self.fetch_word(cycles, memory),
            AddrMode::AbsoluteX => {
                let base: u16 = self.fetch_word(cycles, memory);
                Self::index_address(base, self.x, writes, cycles)
            },
            AddrMode::AbsoluteY => {
                let base: u16 = self.fetch_word(cycles, memory);
                Self::index_address(base, self.y, writes, cycles)
            },
            AddrMode::Indirect => {
                let pointer: u16 = self.fetch_word(cycles, memory);
                self.read_indirect_word(pointer, cycles, memory)
            },
            AddrMode::IndirectX => {
                let operand: u8 = self.fetch_byte(cycles, memory);
                *cycles = *cycles - 1;
                self.read_zero_page_word(operand.wrapping_add(self.x), cycles, memory)
            },
            AddrMode::IndirectY => {
                let operand: u8 = self.fetch_byte(cycles, memory);
                let base: u16 = self.read_zero_page_word(operand, cycles, memory);
                Self::index_address(base, self.y, writes, cycles)
            },
            AddrMode::Relative => {
                let offset: u8 = self.fetch_byte(cycles, memory);
                offset_address(self.pc, offset)
            },
        }
    }
}

} // verus!
