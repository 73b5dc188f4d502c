use mos6502::{emulate_op, SystemState, UnsupportedOpcode};

#[test]
fn adc_immediate_binary() {
    let mut sys = SystemState::default();
    sys.memory[0] = 0x69;
    sys.memory[1] = 0x10;
    sys.cpu_state.a = 0x20;
    assert_eq!(Ok(2), emulate_op(&mut sys));
    assert_eq!(0x30, sys.cpu_state.a);
    assert!(!sys.cpu_state.carry);
    assert!(!sys.cpu_state.zero);
    assert!(!sys.cpu_state.negative);
    assert_eq!(0x02, sys.cpu_state.pcl);
    assert_eq!(0x00, sys.cpu_state.pch);
}

#[test]
fn adc_adds_carry_in_after_operand() {
    let mut sys = SystemState::default();
    sys.memory[0] = 0x69;
    sys.memory[1] = 0x01;
    sys.cpu_state.a = 0x01;
    sys.cpu_state.carry = true;
    assert_eq!(Ok(2), emulate_op(&mut sys));
    assert_eq!(0x03, sys.cpu_state.a);
    assert!(!sys.cpu_state.carry);
}

#[test]
fn adc_binary_carry_out() {
    let mut sys = SystemState::default();
    sys.memory[0] = 0x69;
    sys.memory[1] = 0xff;
    sys.cpu_state.a = 0x01;
    assert_eq!(Ok(2), emulate_op(&mut sys));
    assert_eq!(0x00, sys.cpu_state.a);
    assert!(sys.cpu_state.carry);
    assert!(sys.cpu_state.zero);
    assert!(!sys.cpu_state.negative);
}

#[test]
fn adc_sets_overflow_when_result_turns_negative() {
    let mut sys = SystemState::default();
    sys.memory[0] = 0x69;
    sys.memory[1] = 0x01;
    sys.cpu_state.a = 0x7f;
    assert_eq!(Ok(2), emulate_op(&mut sys));
    assert_eq!(0x80, sys.cpu_state.a);
    assert!(sys.cpu_state.negative);
    assert!(sys.cpu_state.signed_overflow);
}

#[test]
fn adc_decimal_renormalizes_and_carries() {
    let mut sys = SystemState::default();
    sys.memory[0] = 0x69;
    sys.memory[1] = 0x99;
    sys.cpu_state.a = 0x99;
    sys.cpu_state.decimal_mode = true;
    assert_eq!(Ok(2), emulate_op(&mut sys));
    assert_eq!(0x98, sys.cpu_state.a);
    assert!(sys.cpu_state.carry);
    assert!(sys.cpu_state.a & 0x0f <= 9);
    assert!(sys.cpu_state.a >> 4 <= 9);
}

#[test]
fn adc_decimal_adds_carry_in() {
    let mut sys = SystemState::default();
    sys.memory[0] = 0x69;
    sys.memory[1] = 0x05;
    sys.cpu_state.a = 0x26;
    sys.cpu_state.decimal_mode = true;
    sys.cpu_state.carry = true;
    assert_eq!(Ok(2), emulate_op(&mut sys));
    assert_eq!(0x32, sys.cpu_state.a);
    assert!(!sys.cpu_state.carry);
}

#[test]
fn adc_absolute_cycles() {
    let mut sys = SystemState::default();
    sys.memory[0] = 0x6d;
    sys.memory[1] = 0x34;
    sys.memory[2] = 0x12;
    sys.memory[0x1234] = 0x05;
    sys.cpu_state.a = 0x01;
    assert_eq!(Ok(4), emulate_op(&mut sys));
    assert_eq!(0x06, sys.cpu_state.a);
    assert_eq!(0x03, sys.cpu_state.pcl);
}

#[test]
fn adc_absolute_indexed_page_cross_costs_one_more() {
    let mut sys = SystemState::default();
    sys.memory[0] = 0x7d;
    sys.memory[1] = 0xff;
    sys.memory[2] = 0x00;
    sys.memory[0x0100] = 0x07;
    sys.cpu_state.x = 0x01;
    assert_eq!(Ok(5), emulate_op(&mut sys));
    assert_eq!(0x07, sys.cpu_state.a);
}

#[test]
fn adc_indirect_indexed_cycles() {
    let mut sys = SystemState::default();
    sys.memory[0] = 0x71;
    sys.memory[1] = 0x20;
    sys.memory[0x20] = 0x10;
    sys.memory[0x21] = 0x30;
    sys.memory[0x3011] = 0x09;
    sys.cpu_state.y = 0x01;
    assert_eq!(Ok(5), emulate_op(&mut sys));
    assert_eq!(0x09, sys.cpu_state.a);
}

#[test]
fn adc_indirect_indexed_page_cross_costs_one_more() {
    let mut sys = SystemState::default();
    sys.memory[0] = 0x71;
    sys.memory[1] = 0x20;
    sys.memory[0x20] = 0xff;
    sys.memory[0x21] = 0x00;
    sys.memory[0x0100] = 0x09;
    sys.cpu_state.y = 0x01;
    assert_eq!(Ok(6), emulate_op(&mut sys));
    assert_eq!(0x09, sys.cpu_state.a);
}

#[test]
fn and_immediate_zero_result() {
    let mut sys = SystemState::default();
    sys.memory[0] = 0x29;
    sys.memory[1] = 0x0f;
    sys.cpu_state.a = 0xf0;
    assert_eq!(Ok(2), emulate_op(&mut sys));
    assert_eq!(0x00, sys.cpu_state.a);
    assert!(sys.cpu_state.zero);
    assert!(!sys.cpu_state.negative);
}

#[test]
fn and_flags_independent_of_prior_flags() {
    let mut with_flags_set = SystemState::default();
    with_flags_set.memory[0] = 0x29;
    with_flags_set.memory[1] = 0x80;
    with_flags_set.cpu_state.a = 0xff;
    with_flags_set.cpu_state.negative = false;
    with_flags_set.cpu_state.zero = true;

    let mut with_flags_clear = SystemState::default();
    with_flags_clear.memory[0] = 0x29;
    with_flags_clear.memory[1] = 0x80;
    with_flags_clear.cpu_state.a = 0xff;
    with_flags_clear.cpu_state.negative = true;
    with_flags_clear.cpu_state.zero = false;

    emulate_op(&mut with_flags_set).unwrap();
    emulate_op(&mut with_flags_clear).unwrap();
    assert_eq!(0x80, with_flags_set.cpu_state.a);
    assert!(with_flags_set.cpu_state.negative);
    assert!(!with_flags_set.cpu_state.zero);
    assert_eq!(
        (with_flags_set.cpu_state.negative, with_flags_set.cpu_state.zero),
        (with_flags_clear.cpu_state.negative, with_flags_clear.cpu_state.zero)
    );
}

#[test]
fn and_indexed_indirect_cycles() {
    let mut sys = SystemState::default();
    sys.memory[0] = 0x21;
    sys.memory[1] = 0x10;
    sys.memory[0x12] = 0x34;
    sys.memory[0x13] = 0x12;
    sys.memory[0x1234] = 0xff;
    sys.cpu_state.x = 0x02;
    sys.cpu_state.a = 0x3c;
    assert_eq!(Ok(6), emulate_op(&mut sys));
    assert_eq!(0x3c, sys.cpu_state.a);
}

#[test]
fn asl_accumulator_captures_carry() {
    let mut sys = SystemState::default();
    sys.memory[0] = 0x0a;
    sys.cpu_state.a = 0x80;
    assert_eq!(Ok(2), emulate_op(&mut sys));
    assert_eq!(0x00, sys.cpu_state.a);
    assert!(sys.cpu_state.carry);
    assert!(sys.cpu_state.zero);
    assert!(!sys.cpu_state.negative);
    assert_eq!(0x01, sys.cpu_state.pcl);
}

#[test]
fn asl_zero_page_writes_back() {
    let mut sys = SystemState::default();
    sys.memory[0] = 0x06;
    sys.memory[1] = 0x10;
    sys.memory[0x10] = 0x41;
    assert_eq!(Ok(5), emulate_op(&mut sys));
    assert_eq!(0x82, sys.memory[0x10]);
    assert!(sys.cpu_state.negative);
    assert!(!sys.cpu_state.zero);
    assert!(!sys.cpu_state.carry);
    assert_eq!(0x02, sys.cpu_state.pcl);
}

#[test]
fn asl_absolute_indexed_flat_cost() {
    let mut sys = SystemState::default();
    sys.memory[0] = 0x1e;
    sys.memory[1] = 0x00;
    sys.memory[2] = 0x20;
    sys.memory[0x2005] = 0xc0;
    sys.cpu_state.x = 0x05;
    assert_eq!(Ok(7), emulate_op(&mut sys));
    assert_eq!(0x80, sys.memory[0x2005]);
    assert!(sys.cpu_state.carry);
    assert!(sys.cpu_state.negative);
}

#[test]
fn bit_never_mutates_accumulator() {
    let mut sys = SystemState::default();
    sys.memory[0] = 0x24;
    sys.memory[1] = 0x10;
    sys.memory[0x10] = 0xc0;
    sys.cpu_state.a = 0x0f;
    assert_eq!(Ok(3), emulate_op(&mut sys));
    assert_eq!(0x0f, sys.cpu_state.a);
    assert!(sys.cpu_state.negative);
    assert!(sys.cpu_state.signed_overflow);
    assert!(sys.cpu_state.zero);
}

#[test]
fn bit_absolute_sets_overflow_from_bit_six() {
    let mut sys = SystemState::default();
    sys.memory[0] = 0x2c;
    sys.memory[1] = 0x34;
    sys.memory[2] = 0x12;
    sys.memory[0x1234] = 0x40;
    sys.cpu_state.a = 0x40;
    assert_eq!(Ok(4), emulate_op(&mut sys));
    assert_eq!(0x40, sys.cpu_state.a);
    assert!(!sys.cpu_state.negative);
    assert!(sys.cpu_state.signed_overflow);
    assert!(!sys.cpu_state.zero);
}

#[test]
fn branch_not_taken_advances_two_and_costs_two() {
    let mut sys = SystemState::default();
    sys.memory[0] = 0xd0;
    sys.memory[1] = 0x40;
    sys.cpu_state.zero = true;
    assert_eq!(Ok(2), emulate_op(&mut sys));
    assert_eq!(0x02, sys.cpu_state.pcl);
    assert_eq!(0x00, sys.cpu_state.pch);
}

#[test]
fn branch_taken_no_cross_costs_three() {
    let mut sys = SystemState::default();
    sys.memory[0] = 0xd0;
    sys.memory[1] = 0x05;
    sys.cpu_state.zero = false;
    assert_eq!(Ok(3), emulate_op(&mut sys));
    assert_eq!(0x07, sys.cpu_state.pcl);
    assert_eq!(0x00, sys.cpu_state.pch);
}

#[test]
fn branch_taken_page_cross_costs_four() {
    let mut sys = SystemState::default();
    sys.cpu_state.pcl = 0xf0;
    sys.memory[0xf0] = 0xd0;
    sys.memory[0xf1] = 0x20;
    sys.cpu_state.zero = false;
    assert_eq!(Ok(4), emulate_op(&mut sys));
    assert_eq!(0x01, sys.cpu_state.pch);
    assert_eq!(0x12, sys.cpu_state.pcl);
}

#[test]
fn branch_backward_displacement() {
    let mut sys = SystemState::default();
    sys.cpu_state.pcl = 0x10;
    sys.memory[0x10] = 0xf0;
    sys.memory[0x11] = 0xfb;
    sys.cpu_state.zero = true;
    assert_eq!(Ok(3), emulate_op(&mut sys));
    assert_eq!(0x0d, sys.cpu_state.pcl);
    assert_eq!(0x00, sys.cpu_state.pch);
}

#[test]
fn branch_backward_page_cross() {
    let mut sys = SystemState::default();
    sys.cpu_state.pcl = 0x10;
    sys.memory[0x10] = 0xf0;
    sys.memory[0x11] = 0x85;
    sys.cpu_state.zero = true;
    assert_eq!(Ok(4), emulate_op(&mut sys));
    assert_eq!(0x97, sys.cpu_state.pcl);
    assert_eq!(0xff, sys.cpu_state.pch);
}

#[test]
fn branch_conditions_follow_their_flags() {
    let mut bcc_taken = SystemState::default();
    bcc_taken.memory[0] = 0x90;
    bcc_taken.memory[1] = 0x02;
    bcc_taken.cpu_state.carry = false;
    assert_eq!(Ok(3), emulate_op(&mut bcc_taken));
    assert_eq!(0x04, bcc_taken.cpu_state.pcl);

    let mut bcs_not_taken = SystemState::default();
    bcs_not_taken.memory[0] = 0xb0;
    bcs_not_taken.memory[1] = 0x02;
    bcs_not_taken.cpu_state.carry = false;
    assert_eq!(Ok(2), emulate_op(&mut bcs_not_taken));
    assert_eq!(0x02, bcs_not_taken.cpu_state.pcl);

    let mut bmi_taken = SystemState::default();
    bmi_taken.memory[0] = 0x30;
    bmi_taken.memory[1] = 0x03;
    bmi_taken.cpu_state.negative = true;
    assert_eq!(Ok(3), emulate_op(&mut bmi_taken));
    assert_eq!(0x05, bmi_taken.cpu_state.pcl);

    let mut bpl_not_taken = SystemState::default();
    bpl_not_taken.memory[0] = 0x10;
    bpl_not_taken.memory[1] = 0x03;
    bpl_not_taken.cpu_state.negative = true;
    assert_eq!(Ok(2), emulate_op(&mut bpl_not_taken));
    assert_eq!(0x02, bpl_not_taken.cpu_state.pcl);
}

#[test]
fn unsupported_opcode_is_reported_and_state_unchanged() {
    let mut sys = SystemState::default();
    sys.memory[0] = 0x00;
    sys.cpu_state.a = 0x55;
    assert_eq!(Err(UnsupportedOpcode { opcode: 0x00 }), emulate_op(&mut sys));
    assert_eq!(0x55, sys.cpu_state.a);
    assert_eq!(0x00, sys.cpu_state.pcl);
    assert_eq!(0x00, sys.cpu_state.pch);
}

#[test]
fn program_counter_wraps_at_top_of_address_space() {
    let mut sys = SystemState::default();
    sys.cpu_state.pch = 0xff;
    sys.cpu_state.pcl = 0xff;
    sys.memory[0xffff] = 0x69;
    sys.memory[0x0000] = 0x05;
    assert_eq!(Ok(2), emulate_op(&mut sys));
    assert_eq!(0x05, sys.cpu_state.a);
    assert_eq!(0x00, sys.cpu_state.pch);
    assert_eq!(0x01, sys.cpu_state.pcl);
}

#[test]
fn adc_mode_cycle_table() {
    let mut zp = SystemState::default();
    zp.memory[0] = 0x65;
    zp.memory[1] = 0x10;
    zp.memory[0x10] = 0x02;
    zp.cpu_state.a = 0x01;
    assert_eq!(Ok(3), emulate_op(&mut zp));
    assert_eq!(0x03, zp.cpu_state.a);

    let mut zp_x = SystemState::default();
    zp_x.memory[0] = 0x75;
    zp_x.memory[1] = 0x10;
    zp_x.memory[0x15] = 0x02;
    zp_x.cpu_state.x = 0x05;
    assert_eq!(Ok(4), emulate_op(&mut zp_x));
    assert_eq!(0x02, zp_x.cpu_state.a);

    let mut abs_y = SystemState::default();
    abs_y.memory[0] = 0x79;
    abs_y.memory[1] = 0x00;
    abs_y.memory[2] = 0x30;
    abs_y.memory[0x3002] = 0x09;
    abs_y.cpu_state.y = 0x02;
    assert_eq!(Ok(4), emulate_op(&mut abs_y));
    assert_eq!(0x09, abs_y.cpu_state.a);

    let mut zp_x_ind = SystemState::default();
    zp_x_ind.memory[0] = 0x61;
    zp_x_ind.memory[1] = 0x30;
    zp_x_ind.memory[0x31] = 0x00;
    zp_x_ind.memory[0x32] = 0x40;
    zp_x_ind.memory[0x4000] = 0x08;
    zp_x_ind.cpu_state.x = 0x01;
    assert_eq!(Ok(6), emulate_op(&mut zp_x_ind));
    assert_eq!(0x08, zp_x_ind.cpu_state.a);
}

#[test]
fn and_mode_cycle_table() {
    let mut zp = SystemState::default();
    zp.memory[0] = 0x25;
    zp.memory[1] = 0x10;
    zp.memory[0x10] = 0x0f;
    zp.cpu_state.a = 0xff;
    assert_eq!(Ok(3), emulate_op(&mut zp));
    assert_eq!(0x0f, zp.cpu_state.a);

    let mut abs = SystemState::default();
    abs.memory[0] = 0x2d;
    abs.memory[1] = 0x34;
    abs.memory[2] = 0x12;
    abs.memory[0x1234] = 0xf0;
    abs.cpu_state.a = 0x3f;
    assert_eq!(Ok(4), emulate_op(&mut abs));
    assert_eq!(0x30, abs.cpu_state.a);

    let mut zp_x = SystemState::default();
    zp_x.memory[0] = 0x35;
    zp_x.memory[1] = 0x10;
    zp_x.memory[0x13] = 0x0c;
    zp_x.cpu_state.x = 0x03;
    zp_x.cpu_state.a = 0x0f;
    assert_eq!(Ok(4), emulate_op(&mut zp_x));
    assert_eq!(0x0c, zp_x.cpu_state.a);

    let mut abs_y_cross = SystemState::default();
    abs_y_cross.memory[0] = 0x39;
    abs_y_cross.memory[1] = 0xff;
    abs_y_cross.memory[2] = 0x00;
    abs_y_cross.memory[0x0100] = 0xff;
    abs_y_cross.cpu_state.y = 0x01;
    abs_y_cross.cpu_state.a = 0x55;
    assert_eq!(Ok(5), emulate_op(&mut abs_y_cross));
    assert_eq!(0x55, abs_y_cross.cpu_state.a);

    let mut abs_x = SystemState::default();
    abs_x.memory[0] = 0x3d;
    abs_x.memory[1] = 0x00;
    abs_x.memory[2] = 0x20;
    abs_x.memory[0x2001] = 0x81;
    abs_x.cpu_state.x = 0x01;
    abs_x.cpu_state.a = 0xff;
    assert_eq!(Ok(4), emulate_op(&mut abs_x));
    assert_eq!(0x81, abs_x.cpu_state.a);
    assert!(abs_x.cpu_state.negative);
}

#[test]
fn asl_absolute_writes_back() {
    let mut sys = SystemState::default();
    sys.memory[0] = 0x0e;
    sys.memory[1] = 0x34;
    sys.memory[2] = 0x12;
    sys.memory[0x1234] = 0x01;
    assert_eq!(Ok(6), emulate_op(&mut sys));
    assert_eq!(0x02, sys.memory[0x1234]);
    assert!(!sys.cpu_state.carry);
    assert!(!sys.cpu_state.zero);
}

#[test]
fn asl_zero_page_indexed_wraps_within_zero_page() {
    let mut sys = SystemState::default();
    sys.cpu_state.pch = 0x02;
    sys.memory[0x200] = 0x16;
    sys.memory[0x201] = 0xff;
    sys.memory[0x01] = 0x21;
    sys.memory[0x101] = 0x7f;
    sys.cpu_state.x = 0x02;
    assert_eq!(Ok(6), emulate_op(&mut sys));
    assert_eq!(0x42, sys.memory[0x01]);
    assert_eq!(0x7f, sys.memory[0x101]);
}

#[test]
fn default_state_is_all_zero() {
    let sys = SystemState::default();
    assert_eq!(0, sys.cpu_state.a);
    assert_eq!(0, sys.cpu_state.x);
    assert_eq!(0, sys.cpu_state.y);
    assert_eq!(0, sys.cpu_state.pch);
    assert_eq!(0, sys.cpu_state.pcl);
    assert!(!sys.cpu_state.negative);
    assert!(!sys.cpu_state.signed_overflow);
    assert!(!sys.cpu_state.decimal_mode);
    assert!(!sys.cpu_state.zero);
    assert!(!sys.cpu_state.carry);
    assert!(sys.memory.iter().all(|b| *b == 0));
}
