//! The processor: its registers and flags, the reset sequence, the helpers
//! that move bytes between processor and memory while charging cycles, and
//! the fetch-decode-execute loop.

use crate::alu::{is_negative, negative, wrap16, wrap8};
use crate::mem::{join_word, load_word, next_address, split_word, word_of, zeroed, Mem};
use vstd::prelude::*;

verus! {

/// The architectural state of the processor. The stack lives in page 0x01:
/// the cell that `sp` points to is `0x0100 | sp`.
#[derive(Clone, Copy, Debug, PartialEq, Eq, Structural)]
pub struct Cpu {
    /// Program counter.
    pub pc: u16,
    /// Stack pointer.
    pub sp: u8,
    /// Accumulator.
    pub a: u8,
    /// Index register X.
    pub x: u8,
    /// Index register Y.
    pub y: u8,
    /// Carry flag.
    pub c: bool,
    /// Zero flag.
    pub z: bool,
    /// Interrupt-disable flag.
    pub i: bool,
    /// Decimal-mode flag.
    pub d: bool,
    /// Break flag.
    pub b: bool,
    /// Overflow flag.
    pub v: bool,
    /// Negative flag.
    pub n: bool,
}

/// Address of the reset vector, the word that `reset` loads into the program
/// counter.
pub const RESET_VECTOR: u16 = 0xFFFC;

/// Address of the interrupt vector, the word that BRK loads into the program
/// counter.
pub const IRQ_VECTOR: u16 = 0xFFFE;

/// The address of the stack cell that the stack pointer `sp` points to.
pub open spec fn stack_address(sp: u8) -> u16 {
    (0x0100 + sp) as u16
}

/// The processor after a byte was pushed: the stack pointer is one lower,
/// modulo 256.
pub open spec fn after_push(cpu: Cpu) -> Cpu {
    Cpu { sp: wrap8(cpu.sp - 1), ..cpu }
}

/// The processor after a byte was pulled: the stack pointer is one higher,
/// modulo 256.
pub open spec fn after_pull(cpu: Cpu) -> Cpu {
    Cpu { sp: wrap8(cpu.sp + 1), ..cpu }
}

/// The stack cell that the `k`-th pull from now reads, `k` from 1.
pub open spec fn pulled(cpu: Cpu, image: Seq<u8>, k: int) -> u8 {
    image[stack_address(wrap8(cpu.sp + k)) as int]
}

/// The processor with Z and N set from a result byte: Z iff the byte is
/// zero, N iff its bit 7 is one.
pub open spec fn with_zn(cpu: Cpu, result: u8) -> Cpu {
    Cpu { z: result == 0, n: is_negative(result), ..cpu }
}

/// A flag as the bit it contributes to the status byte.
pub open spec fn flag_bit(flag: bool) -> int {
    if flag {
        1
    } else {
        0
    }
}

/// The status byte P in the layout `N V 1 B D I Z C`, bit 7 down to bit 0.
pub open spec fn status_byte(cpu: Cpu) -> u8 {
    (128 * flag_bit(cpu.n) + 64 * flag_bit(cpu.v) + 32 + 16 * flag_bit(cpu.b) + 8 * flag_bit(
        cpu.d,
    ) + 4 * flag_bit(cpu.i) + 2 * flag_bit(cpu.z) + flag_bit(cpu.c)) as u8
}

/// The status byte as the stack receives it: with bits 4 and 5 both one.
pub open spec fn pushed_status(cpu: Cpu) -> u8 {
    status_byte(Cpu { b: true, ..cpu })
}

/// Whether the bit of the given weight (1, 2, 4, ... 128) is set in a byte.
#[verifier::opaque]
pub open spec fn bit_of(value: u8, weight: int) -> bool {
    (value as int / weight) % 2 == 1
}

/// The processor with its flags replaced from a status byte pulled off the
/// stack. Bits 4 and 5 of the byte are discarded: the break flag stays.
pub open spec fn with_status(cpu: Cpu, p: u8) -> Cpu {
    Cpu {
        n: bit_of(p, 128),
        v: bit_of(p, 64),
        d: bit_of(p, 8),
        i: bit_of(p, 4),
        z: bit_of(p, 2),
        c: bit_of(p, 1),
        ..cpu
    }
}

/// The state that `reset` leaves the processor in, given the word that the
/// reset vector holds.
pub open spec fn reset_state(vector: u16) -> Cpu {
    Cpu {
        pc: vector,
        sp: 0xFF,
        a: 0,
        x: 0,
        y: 0,
        c: false,
        z: false,
        i: true,
        d: false,
        b: false,
        v: false,
        n: false,
    }
}

/// The memory image that `reset` leaves: every cell zero but the two of the
/// reset vector, which keep what the caller stored there.
pub open spec fn reset_image(image: Seq<u8>) -> Seq<u8> {
    zeroed().update(0xFFFC, image[0xFFFC]).update(0xFFFD, image[0xFFFD])
}

/// The little-endian word at the page-zero address `pointer`; its high byte
/// comes from `pointer + 1` modulo 256, so the word never leaves page zero.
pub open spec fn zero_page_word(image: Seq<u8>, pointer: u8) -> u16 {
    word_of(image[pointer as int], image[wrap8(pointer + 1) as int])
}

/// The address after `pointer` inside the page of `pointer`: after the last
/// cell of a page comes the first cell of the same page.
pub open spec fn same_page_successor(pointer: u16) -> u16 {
    if pointer % 256 == 255 {
        (pointer - 255) as u16
    } else {
        (pointer + 1) as u16
    }
}

/// The word that an indirect jump reads at `pointer`: the low byte from
/// `pointer`, the high byte from its successor inside the same page.
pub open spec fn indirect_word(image: Seq<u8>, pointer: u16) -> u16 {
    word_of(image[pointer as int], image[same_page_successor(pointer) as int])
}

/// Writes a byte to memory and charges one cycle.
pub fn write_byte(value: u8, address: u16, cycles: &mut i64, memory: &mut Mem)
    requires
        old(memory).wf(),
        *old(cycles) > i64::MIN,
    ensures
        final(memory).wf(),
        final(memory)@ == old(memory)@.update(address as int, value),
        *final(cycles) == *old(cycles) - 1,
{
    memory.set(address, value);
    *cycles = *cycles - 1;
}

impl Cpu {
    /// A processor before its reset: registers zero, every flag set.
    pub fn new() -> (cpu: Cpu)
        ensures
            cpu == (Cpu {
                pc: 0,
                sp: 0,
                a: 0,
                x: 0,
                y: 0,
                c: true,
                z: true,
                i: true,
                d: true,
                b: true,
                v: true,
                n: true,
            }),
    {
        Cpu {
            pc: 0,
            sp: 0,
            a: 0,
            x: 0,
            y: 0,
            c: true,
            z: true,
            i: true,
            d: true,
            b: true,
            v: true,
            n: true,
        }
    }

    /// Resets processor and memory. Memory becomes all zero except for the
    /// reset vector at 0xFFFC/0xFFFD, which keeps the caller's two bytes; the
    /// program counter is loaded from that vector, the stack pointer is 0xFF,
    /// the registers are zero and every flag is clear but I.
    pub fn reset(&mut self, memory: &mut Mem)
        requires
            old(memory).wf(),
        ensures
            final(memory).wf(),
            final(memory)@ == reset_image(old(memory)@),
            *final(self) == reset_state(load_word(final(memory)@, 0xFFFC)),
            final(self).pc == final(memory)@[0xFFFC] + 256 * final(memory)@[0xFFFD],
    {
        let low: u8 = memory.get(RESET_VECTOR);
        let high: u8 = memory.get(RESET_VECTOR + 1);
        memory.init();
        memory.set(RESET_VECTOR, low);
        memory.set(RESET_VECTOR + 1, high);
        self.pc = join_word(low, high);
        self.sp = 0xFF;
        self.a = 0;
        self.x = 0;
        self.y = 0;
        self.c = false;
        self.z = false;
        self.i = true;
        self.d = false;
        self.b = false;
        self.v = false;
        self.n = false;
    }

    /// Reads the byte at the program counter, advances the program counter
    /// by one and charges one cycle.
    pub fn fetch_byte(&mut self, cycles: &mut i64, memory: &Mem) -> (data: u8)
        requires
            memory.wf(),
            *old(cycles) > i64::MIN,
        ensures
            data == memory@[old(self).pc as int],
            *final(self) == (Cpu { pc: next_address(old(self).pc), ..*old(self) }),
            *final(cycles) == *old(cycles) - 1,
    {
        let data: u8 = memory.get(self.pc);
        self.pc = self.pc.wrapping_add(1);
        *cycles = *cycles - 1;
        data
    }

    /// Reads the little-endian word at the program counter, advances the
    /// program counter by two and charges two cycles.
    pub fn fetch_word(&mut self, cycles: &mut i64, memory: &Mem) -> (data: u16)
        requires
            memory.wf(),
            *old(cycles) >= i64::MIN + 2,
        ensures
            data == load_word(memory@, old(self).pc),
            *final(self) == (Cpu { pc: wrap16(old(self).pc + 2), ..*old(self) }),
            *final(cycles) == *old(cycles) - 2,
    {
        let low: u8 = self.fetch_byte(cycles, memory);
        let high: u8 = self.fetch_byte(cycles, memory);
        join_word(low, high)
    }

    /// Reads the byte at `address` and charges one cycle.
    pub fn read_byte(&self, address: u16, cycles: &mut i64, memory: &Mem) -> (data: u8)
        requires
            memory.wf(),
            *old(cycles) > i64::MIN,
        ensures
            data == memory@[address as int],
            *final(cycles) == *old(cycles) - 1,
    {
        let data: u8 = memory.get(address);
        *cycles = *cycles - 1;
        data
    }

    /// Reads the little-endian word at `address` as two byte reads, the
    /// second one at the address that follows, and charges two cycles.
    pub fn read_word(&self, address: u16, cycles: &mut i64, memory: &Mem) -> (data: u16)
        requires
            memory.wf(),
            *old(cycles) >= i64::MIN + 2,
        ensures
            data == load_word(memory@, address),
            *final(cycles) == *old(cycles) - 2,
    {
        let low: u8 = self.read_byte(address, cycles, memory);
        let high: u8 = self.read_byte(address.wrapping_add(1), cycles, memory);
        join_word(low, high)
    }

    /// Reads the word that a page-zero pointer holds, without leaving page
    /// zero, and charges two cycles.
    pub fn read_zero_page_word(&self, pointer: u8, cycles: &mut i64, memory: &Mem) -> (data: u16)
        requires
            memory.wf(),
            *old(cycles) >= i64::MIN + 2,
        ensures
            data == zero_page_word(memory@, pointer),
            *final(cycles) == *old(cycles) - 2,
    {
        let low: u8 = self.read_byte(pointer as u16, cycles, memory);
        let high: u8 = self.read_byte(pointer.wrapping_add(1) as u16, cycles, memory);
        join_word(low, high)
    }

    /// Reads the word that an indirect jump finds at `pointer`: where the
    /// pointer's low byte is 0xFF, the high byte comes from the start of the
    /// same page, not from the next page. Charges two cycles.
    pub fn read_indirect_word(&self, pointer: u16, cycles: &mut i64, memory: &Mem) -> (data: u16)
        requires
            memory.wf(),
            *old(cycles) >= i64::MIN + 2,
        ensures
            data == indirect_word(memory@, pointer),
            *final(cycles) == *old(cycles) - 2,
    {
        let (pointer_low, pointer_high) = split_word(pointer);
        let successor: u16 = join_word(pointer_low.wrapping_add(1), pointer_high);
        let low: u8 = self.read_byte(pointer, cycles, memory);
        let high: u8 = self.read_byte(successor, cycles, memory);
        join_word(low, high)
    }

    /// Sets Z and N from a result byte.
    pub fn set_zero_negative(&mut self, result: u8)
        ensures
            *final(self) == with_zn(*old(self), result),
    {
        self.z = result == 0;
        self.n = negative(result);
    }

    /// Pushes a byte: writes it at `0x0100 | SP`, then decrements the stack
    /// pointer modulo 256. Charges one cycle.
    pub fn push(&mut self, value: u8, cycles: &mut i64, memory: &mut Mem)
        requires
            old(memory).wf(),
            *old(cycles) > i64::MIN,
        ensures
            final(memory).wf(),
            final(memory)@ == old(memory)@.update(stack_address(old(self).sp) as int, value),
            *final(self) == after_push(*old(self)),
            *final(cycles) == *old(cycles) - 1,
    {
        write_byte(value, 0x0100 + self.sp as u16, cycles, memory);
        self.sp = self.sp.wrapping_sub(1);
    }

    /// Pulls a byte: increments the stack pointer modulo 256, then reads at
    /// `0x0100 | SP`. Charges one cycle.
    pub fn pull(&mut self, cycles: &mut i64, memory: &Mem) -> (value: u8)
        requires
            memory.wf(),
            *old(cycles) > i64::MIN,
        ensures
            value == pulled(*old(self), memory@, 1),
            *final(self) == after_pull(*old(self)),
            *final(cycles) == *old(cycles) - 1,
    {
        self.sp = self.sp.wrapping_add(1);
        self.read_byte(0x0100 + self.sp as u16, cycles, memory)
    }

    /// The status byte P, `N V 1 B D I Z C`.
    pub fn status(&self) -> (p: u8)
        ensures
            p == status_byte(*self),
    {
        let mut p: u8 = 0x20;
        if self.n {
            p = p + 0x80;
        }
        if self.v {
            p = p + 0x40;
        }
        if self.b {
            p = p + 0x10;
        }
        if self.d {
            p = p + 0x08;
        }
        if self.i {
            p = p + 0x04;
        }
        if self.z {
            p = p + 0x02;
        }
        if self.c {
            p = p + 0x01;
        }
        p
    }

    /// Replaces the flags from a status byte; its bits 4 and 5 are ignored.
    pub fn set_status(&mut self, p: u8)
        ensures
            *final(self) == with_status(*old(self), p),
    {
        reveal(bit_of);
        assert(p & 0x80 != 0 <==> (p / 128) % 2 == 1) by (bit_vector);
        assert(p & 0x40 != 0 <==> (p / 64) % 2 == 1) by (bit_vector);
        assert(p & 0x08 != 0 <==> (p / 8) % 2 == 1) by (bit_vector);
        assert(p & 0x04 != 0 <==> (p / 4) % 2 == 1) by (bit_vector);
        assert(p & 0x02 != 0 <==> (p / 2) % 2 == 1) by (bit_vector);
        assert(p & 0x01 != 0 <==> (p / 1) % 2 == 1) by (bit_vector);
        self.n = p & 0x80 != 0;
        self.v = p & 0x40 != 0;
        self.d = p & 0x08 != 0;
        self.i = p & 0x04 != 0;
        self.z = p & 0x02 != 0;
        self.c = p & 0x01 != 0;
    }
}

} // verus!
