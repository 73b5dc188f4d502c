use mos6502::SystemState;

#[test]
fn zero_page_indexed_never_carries_into_page_one() {
    let mut sys = SystemState::default();
    sys.cpu_state.pch = 0x02;
    sys.memory[0x201] = 0xff;
    sys.memory[0x01] = 0xab;
    sys.memory[0x101] = 0xcd;
    assert_eq!(0xab, sys.get_zero_page_byte_indexed(0x02));
}

#[test]
fn zero_page_pointer_high_byte_wraps_to_zero() {
    let mut sys = SystemState::default();
    sys.memory[1] = 0xff;
    sys.memory[0xff] = 0x34;
    sys.memory[0x00] = 0x12;
    sys.memory[0x100] = 0x77;
    sys.memory[0x1234] = 0x5a;
    assert_eq!((0x5a, false), sys.get_zero_page_byte_indirect_indexed(0));
}

#[test]
fn zero_page_indexed_indirect_pointer_wraps() {
    let mut sys = SystemState::default();
    sys.memory[1] = 0xfe;
    sys.memory[0xff] = 0x34;
    sys.memory[0x00] = 0x12;
    sys.memory[0x100] = 0x77;
    sys.memory[0x1234] = 0x5a;
    assert_eq!(0x5a, sys.get_zero_page_byte_indexed_indirect(0x01));
}

#[test]
fn absolute_indexed_page_cross() {
    let mut sys = SystemState::default();
    sys.memory[1] = 0xff;
    sys.memory[2] = 0x00;
    assert_eq!((0x0100, true), sys.get_absolute_addr_indexed(0x01));
}

#[test]
fn absolute_indexed_no_cross() {
    let mut sys = SystemState::default();
    sys.memory[1] = 0x10;
    sys.memory[2] = 0x20;
    assert_eq!((0x2015, false), sys.get_absolute_addr_indexed(0x05));
}

#[test]
fn absolute_indexed_wraps_at_top_of_address_space() {
    let mut sys = SystemState::default();
    sys.memory[1] = 0xff;
    sys.memory[2] = 0xff;
    assert_eq!((0x0000, true), sys.get_absolute_addr_indexed(0x01));
}

#[test]
fn increment_pc_carries_into_high_byte() {
    let mut sys = SystemState::default();
    sys.cpu_state.pcl = 0xff;
    sys.cpu_state.pch = 0x12;
    let carry = sys.increment_pc(2);
    assert!(carry);
    assert_eq!(0x13, sys.cpu_state.pch);
    assert_eq!(0x01, sys.cpu_state.pcl);
}

#[test]
fn increment_pc_wraps_at_top() {
    let mut sys = SystemState::default();
    sys.cpu_state.pcl = 0xff;
    sys.cpu_state.pch = 0xff;
    sys.increment_pc(1);
    assert_eq!(0x00, sys.cpu_state.pch);
    assert_eq!(0x00, sys.cpu_state.pcl);
}

#[test]
fn decrement_pc_borrows_from_high_byte() {
    let mut sys = SystemState::default();
    sys.cpu_state.pcl = 0x00;
    sys.cpu_state.pch = 0x01;
    let borrow = sys.decrement_pc(1);
    assert!(borrow);
    assert_eq!(0x00, sys.cpu_state.pch);
    assert_eq!(0xff, sys.cpu_state.pcl);
}

#[test]
fn immediate_fetch_wraps_at_top_of_address_space() {
    let mut sys = SystemState::default();
    sys.cpu_state.pch = 0xff;
    sys.cpu_state.pcl = 0xff;
    sys.memory[0x0000] = 0x42;
    assert_eq!(0x42, sys.get_immediate_byte(1));
}
