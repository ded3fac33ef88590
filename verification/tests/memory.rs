use mos6502::cpu::{write_byte, Cpu};
use mos6502::mem::{join_word, split_word, Mem, MAX_MEM};

#[test]
fn new_memory_is_zero_filled() {
    let mem = Mem::new();
    assert_eq!(mem.data.len(), MAX_MEM);
    assert_eq!(MAX_MEM, 64 * 1024);
    assert!(mem.data.iter().all(|b| *b == 0));
}

#[test]
fn init_clears_memory() {
    let mut mem = Mem::new();
    mem.set(0x1234, 0xAB);
    mem.set(0xFFFF, 0x01);
    mem.init();
    assert_eq!(mem.data.len(), 65536);
    assert!(mem.data.iter().all(|b| *b == 0));
}

#[test]
fn init_makes_an_empty_image_whole() {
    let mut mem = Mem { data: Vec::new() };
    mem.init();
    assert_eq!(mem.data.len(), 65536);
}

#[test]
fn set_then_get() {
    let mut mem = Mem::new();
    mem.set(0x0000, 0x11);
    mem.set(0xFFFF, 0x22);
    assert_eq!(mem.get(0x0000), 0x11);
    assert_eq!(mem.get(0xFFFF), 0x22);
    assert_eq!(mem.get(0x0001), 0x00);
}

#[test]
fn write_word_is_little_endian_and_costs_two_cycles() {
    let mut mem = Mem::new();
    let mut cycles: i64 = 5;
    mem.wtire_word(0xBEEF, 0x1234, &mut cycles);
    assert_eq!(mem.get(0x1234), 0xEF);
    assert_eq!(mem.get(0x1235), 0xBE);
    assert_eq!(cycles, 3);
}

#[test]
fn write_word_wraps_at_the_end_of_memory() {
    let mut mem = Mem::new();
    let mut cycles: i64 = 2;
    mem.wtire_word(0xBEEF, 0xFFFF, &mut cycles);
    assert_eq!(mem.get(0xFFFF), 0xEF);
    assert_eq!(mem.get(0x0000), 0xBE);
    assert_eq!(cycles, 0);
}

#[test]
fn write_byte_costs_one_cycle() {
    let mut mem = Mem::new();
    let mut cycles: i64 = 5;
    write_byte(0xAB, 0x1234, &mut cycles, &mut mem);
    assert_eq!(mem.get(0x1234), 0xAB);
    assert_eq!(cycles, 4);
}

#[test]
fn words_split_and_join() {
    assert_eq!(split_word(0xBEEF), (0xEF, 0xBE));
    assert_eq!(join_word(0xEF, 0xBE), 0xBEEF);
    assert_eq!(split_word(0x00FF), (0xFF, 0x00));
    assert_eq!(join_word(0x00, 0x01), 0x0100);
}

#[test]
fn fetch_byte_advances_pc_and_costs_one_cycle() {
    let mut mem = Mem::new();
    mem.set(0x0200, 0x77);
    let mut cpu = Cpu::new();
    cpu.pc = 0x0200;
    let mut cycles: i64 = 3;
    assert_eq!(cpu.fetch_byte(&mut cycles, &mem), 0x77);
    assert_eq!(cpu.pc, 0x0201);
    assert_eq!(cycles, 2);
}

#[test]
fn fetch_byte_wraps_pc() {
    let mut mem = Mem::new();
    mem.set(0xFFFF, 0x77);
    let mut cpu = Cpu::new();
    cpu.pc = 0xFFFF;
    let mut cycles: i64 = 1;
    assert_eq!(cpu.fetch_byte(&mut cycles, &mem), 0x77);
    assert_eq!(cpu.pc, 0x0000);
    assert_eq!(cycles, 0);
}

#[test]
fn fetch_word_is_little_endian_and_costs_two_cycles() {
    let mut mem = Mem::new();
    mem.set(0x0200, 0x34);
    mem.set(0x0201, 0x12);
    let mut cpu = Cpu::new();
    cpu.pc = 0x0200;
    let mut cycles: i64 = 3;
    assert_eq!(cpu.fetch_word(&mut cycles, &mem), 0x1234);
    assert_eq!(cpu.pc, 0x0202);
    assert_eq!(cycles, 1);
}

#[test]
fn read_byte_and_read_word() {
    let mut mem = Mem::new();
    mem.set(0x1000, 0x34);
    mem.set(0x1001, 0x12);
    mem.set(0xFFFF, 0xCD);
    mem.set(0x0000, 0xAB);
    let cpu = Cpu::new();
    let mut cycles: i64 = 10;
    assert_eq!(cpu.read_byte(0x1000, &mut cycles, &mem), 0x34);
    assert_eq!(cycles, 9);
    assert_eq!(cpu.read_word(0x1000, &mut cycles, &mem), 0x1234);
    assert_eq!(cycles, 7);
    assert_eq!(cpu.read_word(0xFFFF, &mut cycles, &mem), 0xABCD);
    assert_eq!(cycles, 5);
}

#[test]
fn zero_page_word_wraps_inside_page_zero() {
    let mut mem = Mem::new();
    mem.set(0x00FF, 0x34);
    mem.set(0x0000, 0x12);
    mem.set(0x0100, 0x99);
    let cpu = Cpu::new();
    let mut cycles: i64 = 2;
    assert_eq!(cpu.read_zero_page_word(0xFF, &mut cycles, &mem), 0x1234);
    assert_eq!(cycles, 0);
}

#[test]
fn indirect_word_wraps_inside_its_page() {
    let mut mem = Mem::new();
    mem.set(0x12FF, 0x34);
    mem.set(0x1200, 0x12);
    mem.set(0x1300, 0x99);
    let cpu = Cpu::new();
    let mut cycles: i64 = 4;
    assert_eq!(cpu.read_indirect_word(0x12FF, &mut cycles, &mem), 0x1234);
    mem.set(0x1210, 0x78);
    mem.set(0x1211, 0x56);
    assert_eq!(cpu.read_indirect_word(0x1210, &mut cycles, &mem), 0x5678);
    assert_eq!(cycles, 0);
}

#[test]
fn push_and_pull_are_balanced() {
    let mut mem = Mem::new();
    let mut cpu = Cpu::new();
    cpu.sp = 0xFF;
    let mut cycles: i64 = 6;
    cpu.push(0x11, &mut cycles, &mut mem);
    cpu.push(0x22, &mut cycles, &mut mem);
    cpu.push(0x33, &mut cycles, &mut mem);
    assert_eq!(cpu.sp, 0xFC);
    assert_eq!(mem.get(0x01FF), 0x11);
    assert_eq!(mem.get(0x01FE), 0x22);
    assert_eq!(mem.get(0x01FD), 0x33);
    assert_eq!(cpu.pull(&mut cycles, &mem), 0x33);
    assert_eq!(cpu.pull(&mut cycles, &mem), 0x22);
    assert_eq!(cpu.pull(&mut cycles, &mem), 0x11);
    assert_eq!(cpu.sp, 0xFF);
    assert_eq!(cycles, 0);
}

#[test]
fn stack_pointer_wraps_inside_page_one() {
    let mut mem = Mem::new();
    let mut cpu = Cpu::new();
    cpu.sp = 0x00;
    let mut cycles: i64 = 2;
    cpu.push(0x11, &mut cycles, &mut mem);
    assert_eq!(cpu.sp, 0xFF);
    assert_eq!(mem.get(0x0100), 0x11);
    assert_eq!(mem.get(0x0000), 0x00);
    cpu.sp = 0xFF;
    mem.set(0x0100, 0x44);
    assert_eq!(cpu.pull(&mut cycles, &mem), 0x44);
    assert_eq!(cpu.sp, 0x00);
}

#[test]
fn two_hundred_fifty_six_pushes_come_back_in_reverse() {
    let mut mem = Mem::new();
    let mut cpu = Cpu::new();
    cpu.sp = 0x37;
    let mut cycles: i64 = 512;
    for k in 0..=255u8 {
        cpu.push(k, &mut cycles, &mut mem);
    }
    assert_eq!(cpu.sp, 0x37);
    for k in (0..=255u8).rev() {
        assert_eq!(cpu.pull(&mut cycles, &mem), k);
    }
    assert_eq!(cpu.sp, 0x37);
    assert_eq!(cycles, 0);
}

#[test]
fn status_byte_layout() {
    let mut cpu = Cpu::new();
    cpu.reset(&mut Mem::new());
    cpu.i = false;
    assert_eq!(cpu.status(), 0b0010_0000);
    cpu.c = true;
    assert_eq!(cpu.status(), 0b0010_0001);
    cpu.z = true;
    assert_eq!(cpu.status(), 0b0010_0011);
    cpu.i = true;
    assert_eq!(cpu.status(), 0b0010_0111);
    cpu.d = true;
    assert_eq!(cpu.status(), 0b0010_1111);
    cpu.b = true;
    assert_eq!(cpu.status(), 0b0011_1111);
    cpu.v = true;
    assert_eq!(cpu.status(), 0b0111_1111);
    cpu.n = true;
    assert_eq!(cpu.status(), 0b1111_1111);
}

#[test]
fn set_status_ignores_bits_four_and_five() {
    let mut cpu = Cpu::new();
    cpu.reset(&mut Mem::new());
    cpu.set_status(0b1101_0101);
    assert!(cpu.n && cpu.v && cpu.i && cpu.c);
    assert!(!cpu.d && !cpu.z);
    assert!(!cpu.b);
    cpu.b = true;
    cpu.set_status(0b0000_1010);
    assert!(cpu.d && cpu.z);
    assert!(!cpu.n && !cpu.v && !cpu.i && !cpu.c);
    assert!(cpu.b);
}

#[test]
fn set_zero_negative_follows_the_byte() {
    let mut cpu = Cpu::new();
    cpu.set_zero_negative(0x00);
    assert!(cpu.z && !cpu.n);
    cpu.set_zero_negative(0x80);
    assert!(!cpu.z && cpu.n);
    cpu.set_zero_negative(0x7F);
    assert!(!cpu.z && !cpu.n);
    cpu.set_zero_negative(0xFF);
    assert!(!cpu.z && cpu.n);
}
