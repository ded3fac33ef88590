use mos6502::alu::{
    add_with_carry, compare, negative, offset_address, overflow_bit, rotate_left, rotate_right,
    shift_left, shift_right, subtract_with_borrow, Comparison, Shifted, Sum,
};

#[test]
fn add_with_carry_exact_values() {
    assert_eq!(add_with_carry(0x50, 0x50, false), Sum { result: 0xA0, carry: false, overflow: true });
    assert_eq!(add_with_carry(0x01, 0x01, false), Sum { result: 0x02, carry: false, overflow: false });
    assert_eq!(add_with_carry(0x01, 0x01, true), Sum { result: 0x03, carry: false, overflow: false });
    assert_eq!(add_with_carry(0xFF, 0x01, false), Sum { result: 0x00, carry: true, overflow: false });
    assert_eq!(add_with_carry(0xFF, 0xFF, true), Sum { result: 0xFF, carry: true, overflow: false });
    assert_eq!(add_with_carry(0x80, 0x80, false), Sum { result: 0x00, carry: true, overflow: true });
    assert_eq!(add_with_carry(0x7F, 0x00, true), Sum { result: 0x80, carry: false, overflow: true });
    assert_eq!(add_with_carry(0xD0, 0x90, false), Sum { result: 0x60, carry: true, overflow: true });
}

#[test]
fn add_with_carry_is_the_sum_modulo_256() {
    for a in 0..=255u16 {
        for m in 0..=255u16 {
            for c in 0..=1u16 {
                let out = add_with_carry(a as u8, m as u8, c == 1);
                let sum = a + m + c;
                assert_eq!(out.result as u16, sum % 256);
                assert_eq!(out.carry, sum > 255);
                let signed = (a as u8 as i8) as i32 + (m as u8 as i8) as i32 + c as i32;
                assert_eq!(out.overflow, !(-128..=127).contains(&signed));
            }
        }
    }
}

#[test]
fn subtract_with_borrow_exact_values() {
    assert_eq!(subtract_with_borrow(0x50, 0x10, true), Sum { result: 0x40, carry: true, overflow: false });
    assert_eq!(subtract_with_borrow(0x50, 0x10, false), Sum { result: 0x3F, carry: true, overflow: false });
    assert_eq!(subtract_with_borrow(0x00, 0x01, true), Sum { result: 0xFF, carry: false, overflow: false });
    assert_eq!(subtract_with_borrow(0x80, 0x01, true), Sum { result: 0x7F, carry: true, overflow: true });
    assert_eq!(subtract_with_borrow(0x7F, 0xFF, true), Sum { result: 0x80, carry: false, overflow: true });
    assert_eq!(subtract_with_borrow(0x00, 0x00, false), Sum { result: 0xFF, carry: false, overflow: false });
}

#[test]
fn subtract_with_borrow_is_the_difference_modulo_256() {
    for a in 0..=255i32 {
        for m in 0..=255i32 {
            for c in 0..=1i32 {
                let out = subtract_with_borrow(a as u8, m as u8, c == 1);
                let difference = a - m - (1 - c);
                assert_eq!(out.result as i32, difference.rem_euclid(256));
                assert_eq!(out.carry, difference >= 0);
            }
        }
    }
}

#[test]
fn compare_sets_carry_zero_negative() {
    assert_eq!(compare(0x10, 0x10), Comparison { carry: true, zero: true, negative: false });
    assert_eq!(compare(0x20, 0x10), Comparison { carry: true, zero: false, negative: false });
    assert_eq!(compare(0x10, 0x20), Comparison { carry: false, zero: false, negative: true });
    assert_eq!(compare(0xFF, 0x00), Comparison { carry: true, zero: false, negative: true });
    assert_eq!(compare(0x00, 0xFF), Comparison { carry: false, zero: false, negative: false });
}

#[test]
fn shifts_and_rotations() {
    assert_eq!(shift_left(0x81), Shifted { result: 0x02, carry: true });
    assert_eq!(shift_left(0x40), Shifted { result: 0x80, carry: false });
    assert_eq!(shift_right(0x81), Shifted { result: 0x40, carry: true });
    assert_eq!(shift_right(0x02), Shifted { result: 0x01, carry: false });
    assert_eq!(rotate_left(0x81, false), Shifted { result: 0x02, carry: true });
    assert_eq!(rotate_left(0x40, true), Shifted { result: 0x81, carry: false });
    assert_eq!(rotate_right(0x81, false), Shifted { result: 0x40, carry: true });
    assert_eq!(rotate_right(0x02, true), Shifted { result: 0x81, carry: false });
}

#[test]
fn shifts_and_rotations_on_every_byte() {
    for m in 0..=255u16 {
        let b = m as u8;
        assert_eq!(shift_left(b), Shifted { result: ((2 * m) % 256) as u8, carry: m >= 128 });
        assert_eq!(shift_right(b), Shifted { result: (m / 2) as u8, carry: m % 2 == 1 });
        for c in 0..=1u16 {
            assert_eq!(
                rotate_left(b, c == 1),
                Shifted { result: ((2 * m + c) % 256) as u8, carry: m >= 128 }
            );
            assert_eq!(
                rotate_right(b, c == 1),
                Shifted { result: (128 * c + m / 2) as u8, carry: m % 2 == 1 }
            );
        }
    }
}

#[test]
fn bit_seven_and_bit_six() {
    assert!(negative(0x80));
    assert!(negative(0xFF));
    assert!(!negative(0x7F));
    assert!(!negative(0x00));
    assert!(overflow_bit(0x40));
    assert!(overflow_bit(0xC0));
    assert!(!overflow_bit(0x80));
    assert!(!overflow_bit(0x3F));
}

#[test]
fn offsets_are_signed() {
    assert_eq!(offset_address(0x0100, 0x02), 0x0102);
    assert_eq!(offset_address(0x0100, 0x7F), 0x017F);
    assert_eq!(offset_address(0x0100, 0x80), 0x0080);
    assert_eq!(offset_address(0x0100, 0xFF), 0x00FF);
    assert_eq!(offset_address(0x0000, 0xFF), 0xFFFF);
    assert_eq!(offset_address(0xFFFF, 0x01), 0x0000);
}
