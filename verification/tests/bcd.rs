use mos6502::{bcd_add, bcd_add_digit};

#[test]
fn test_bcd_add() {
    assert_eq!((0x98, true), bcd_add(0x99, 0x99));
}

#[test]
fn bcd_digit_simple() {
    assert_eq!((8, false), bcd_add_digit(5, 3, false));
    assert_eq!((9, false), bcd_add_digit(5, 3, true));
}

#[test]
fn bcd_digit_correction() {
    assert_eq!((2, true), bcd_add_digit(5, 7, false));
    assert_eq!((8, true), bcd_add_digit(9, 9, false));
    assert_eq!((9, true), bcd_add_digit(9, 9, true));
    assert_eq!((0, true), bcd_add_digit(9, 0, true));
}

#[test]
fn bcd_add_no_carry() {
    assert_eq!((0x12, false), bcd_add(0x05, 0x07));
    assert_eq!((0x79, false), bcd_add(0x34, 0x45));
    assert_eq!((0x00, false), bcd_add(0x00, 0x00));
}

#[test]
fn bcd_add_boundary_carry() {
    assert_eq!((0x00, true), bcd_add(0x99, 0x01));
    assert_eq!((0x00, true), bcd_add(0x50, 0x50));
    assert_eq!((0x21, true), bcd_add(0x76, 0x45));
}
