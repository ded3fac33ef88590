use mos6502::cpu::Cpu;
use mos6502::mem::Mem;

/// A processor after its reset, with the program counter moved to `start`,
/// and a memory image that holds `bytes`.
fn machine(start: u16, bytes: &[(u16, u8)]) -> (Cpu, Mem) {
    let mut mem = Mem::new();
    let mut cpu = Cpu::new();
    cpu.reset(&mut mem);
    for (address, value) in bytes {
        mem.set(*address, *value);
    }
    cpu.pc = start;
    (cpu, mem)
}

#[test]
fn lda_immediate() {
    let (mut cpu, mut mem) = machine(0xFFFC, &[(0xFFFC, 0xA9), (0xFFFD, 0x84)]);
    let mut cycles: i64 = 2;
    let unknown = cpu.execute(&mut cycles, &mut mem);
    assert_eq!(cpu.a, 0x84);
    assert!(cpu.n);
    assert!(!cpu.z);
    assert_eq!(cpu.pc, 0xFFFE);
    assert_eq!(cycles, 0);
    assert!(unknown.is_empty());
}

#[test]
fn lda_zero_page() {
    let (mut cpu, mut mem) = machine(0xFFFC, &[(0xFFFC, 0xA5), (0xFFFD, 0x42), (0x0042, 0x37)]);
    let mut cycles: i64 = 3;
    cpu.execute(&mut cycles, &mut mem);
    assert_eq!(cpu.a, 0x37);
    assert!(!cpu.z);
    assert!(!cpu.n);
    assert_eq!(cpu.pc, 0xFFFE);
    assert_eq!(cycles, 0);
}

#[test]
fn jsr_then_lda() {
    let (mut cpu, mut mem) = machine(
        0xFFFC,
        &[(0xFFFC, 0x20), (0xFFFD, 0x42), (0xFFFE, 0x42), (0x4242, 0xA9), (0x4243, 0x84)],
    );
    assert_eq!(cpu.sp, 0xFF);
    let mut cycles: i64 = 8;
    cpu.execute(&mut cycles, &mut mem);
    assert_eq!(cpu.pc, 0x4244);
    assert_eq!(cpu.a, 0x84);
    assert_eq!(mem.get(0x01FE), 0xFE);
    assert_eq!(mem.get(0x01FF), 0xFF);
    assert_eq!(cpu.sp, 0xFD);
    assert_eq!(cycles, 0);
}

#[test]
fn sta_absolute_x_with_page_cross() {
    let (mut cpu, mut mem) = machine(0xFFFC, &[(0xFFFC, 0x9D), (0xFFFD, 0xFF), (0xFFFE, 0x20)]);
    cpu.x = 0x01;
    cpu.a = 0x5A;
    let mut cycles: i64 = 5;
    cpu.execute(&mut cycles, &mut mem);
    assert_eq!(mem.get(0x2100), 0x5A);
    assert_eq!(mem.get(0x2100), cpu.a);
    assert_eq!(cycles, 0);
}

#[test]
fn sta_absolute_x_without_page_cross_costs_the_same() {
    let (mut cpu, mut mem) = machine(0xFFFC, &[(0xFFFC, 0x9D), (0xFFFD, 0x00), (0xFFFE, 0x20)]);
    cpu.x = 0x01;
    cpu.a = 0x5A;
    let mut cycles: i64 = 5;
    cpu.execute(&mut cycles, &mut mem);
    assert_eq!(mem.get(0x2001), 0x5A);
    assert_eq!(cycles, 0);
}

#[test]
fn adc_overflow() {
    let (mut cpu, mut mem) = machine(0x0200, &[(0x0200, 0x69), (0x0201, 0x50)]);
    cpu.a = 0x50;
    cpu.c = false;
    let mut cycles: i64 = 2;
    cpu.execute(&mut cycles, &mut mem);
    assert_eq!(cpu.a, 0xA0);
    assert!(cpu.v);
    assert!(cpu.n);
    assert!(!cpu.z);
    assert!(!cpu.c);
}

#[test]
fn branch_taken_with_page_cross() {
    let (mut cpu, mut mem) = machine(0x00FE, &[(0x00FE, 0xF0), (0x00FF, 0x02)]);
    cpu.z = true;
    let mut cycles: i64 = 4;
    cpu.execute(&mut cycles, &mut mem);
    assert_eq!(cpu.pc, 0x0102);
    assert_eq!(cycles, 0);
}

#[test]
fn reset_loads_pc_from_the_reset_vector() {
    let mut mem = Mem::new();
    mem.set(0xFFFC, 0x34);
    mem.set(0xFFFD, 0x12);
    mem.set(0x0042, 0x99);
    let mut cpu = Cpu::new();
    cpu.reset(&mut mem);
    assert_eq!(cpu.pc, 0x1234);
    assert_eq!(cpu.pc, mem.get(0xFFFC) as u16 | ((mem.get(0xFFFD) as u16) << 8));
    assert_eq!(cpu.sp, 0xFF);
    assert_eq!((cpu.a, cpu.x, cpu.y), (0, 0, 0));
    assert!(cpu.i);
    assert!(!cpu.c && !cpu.z && !cpu.d && !cpu.b && !cpu.v && !cpu.n);
    assert_eq!(mem.get(0x0042), 0);
    assert_eq!(mem.data.len(), 65536);
    assert_eq!(mem.data.iter().filter(|b| **b != 0).count(), 2);
}

#[test]
fn new_processor_has_every_flag_set() {
    let cpu = Cpu::new();
    assert_eq!((cpu.pc, cpu.sp, cpu.a, cpu.x, cpu.y), (0, 0, 0, 0, 0));
    assert!(cpu.c && cpu.z && cpu.i && cpu.d && cpu.b && cpu.v && cpu.n);
}

#[test]
fn jmp_indirect_reads_high_byte_from_same_page() {
    let (mut cpu, mut mem) = machine(
        0x0200,
        &[(0x0200, 0x6C), (0x0201, 0xFF), (0x0202, 0x30), (0x30FF, 0x80), (0x3000, 0x50), (0x3100, 0x40)],
    );
    let mut cycles: i64 = 5;
    cpu.execute(&mut cycles, &mut mem);
    assert_eq!(cpu.pc, 0x5080);
    assert_eq!(cycles, 0);
}

#[test]
fn jmp_indirect_inside_a_page() {
    let (mut cpu, mut mem) =
        machine(0x0200, &[(0x0200, 0x6C), (0x0201, 0x10), (0x0202, 0x30), (0x3010, 0x80), (0x3011, 0x50)]);
    let mut cycles: i64 = 5;
    cpu.execute(&mut cycles, &mut mem);
    assert_eq!(cpu.pc, 0x5080);
    assert_eq!(cycles, 0);
}

#[test]
fn unknown_opcode_is_reported_and_skipped() {
    let (mut cpu, mut mem) = machine(0x0200, &[(0x0200, 0x02), (0x0201, 0xFF), (0x0202, 0xEA)]);
    let before = cpu;
    let mut cycles: i64 = 3;
    let unknown = cpu.execute(&mut cycles, &mut mem);
    assert_eq!(unknown, vec![0x02, 0xFF]);
    assert_eq!(cpu.pc, 0x0203);
    assert_eq!(cycles, -1);
    assert_eq!(cpu.a, before.a);
    assert_eq!(cpu.sp, before.sp);
}

#[test]
fn execute_with_no_budget_does_nothing() {
    let (mut cpu, mut mem) = machine(0x0200, &[(0x0200, 0xA9), (0x0201, 0x01)]);
    let before = cpu;
    let mut cycles: i64 = 0;
    let unknown = cpu.execute(&mut cycles, &mut mem);
    assert_eq!(cpu, before);
    assert_eq!(cycles, 0);
    assert!(unknown.is_empty());
    let mut negative: i64 = -5;
    cpu.execute(&mut negative, &mut mem);
    assert_eq!(cpu, before);
    assert_eq!(negative, -5);
}

#[test]
fn started_instruction_runs_to_its_end() {
    let (mut cpu, mut mem) = machine(0x0200, &[(0x0200, 0x00), (0xFFFE, 0x00), (0xFFFF, 0x80)]);
    let mut cycles: i64 = 1;
    cpu.execute(&mut cycles, &mut mem);
    assert_eq!(cycles, -6);
    assert_eq!(cpu.pc, 0x8000);
}

#[test]
fn step_runs_one_instruction() {
    let (mut cpu, mut mem) = machine(0x0200, &[(0x0200, 0xA2), (0x0201, 0x00), (0x0202, 0xE8)]);
    let mut cycles: i64 = 100;
    assert_eq!(cpu.step(&mut cycles, &mut mem), None);
    assert_eq!(cpu.x, 0);
    assert!(cpu.z);
    assert_eq!(cpu.pc, 0x0202);
    assert_eq!(cycles, 98);
    assert_eq!(cpu.step(&mut cycles, &mut mem), None);
    assert_eq!(cpu.x, 1);
    assert!(!cpu.z);
    assert_eq!(cycles, 96);
    mem.set(0x0203, 0x03);
    assert_eq!(cpu.step(&mut cycles, &mut mem), Some(0x03));
    assert_eq!(cycles, 95);
}
