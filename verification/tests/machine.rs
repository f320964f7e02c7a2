use sap1::emulator::Sap1;

fn ticks(m: &mut Sap1, n: usize) {
    let mut i = 0;
    while i < n {
        m.clock_tick();
        i += 1;
    }
}

#[test]
fn new_machine_is_reset() {
    let m = Sap1::new();
    assert_eq!(m.reg_a, 0);
    assert_eq!(m.reg_b, 0);
    assert_eq!(m.alu_out, 0);
    assert_eq!(m.output, 0);
    assert_eq!(m.pc, 0);
    assert_eq!(m.cf, false);
    assert_eq!(m.zf, true);
    assert_eq!(m.hlt, false);
    assert_eq!(m.t_step, 0);
    assert_eq!(m.bus, 0);
    assert_eq!(m.mar, 0);
    assert_eq!(m.ir, 0);
    for i in 0..256 {
        assert_eq!(m.memory[i], 0);
    }
}

#[test]
fn load_program_copies_bytes_and_preserves_rest() {
    let mut m = Sap1::new();
    m.load_program(&[1, 2, 3]);
    assert_eq!(m.memory[0], 1);
    assert_eq!(m.memory[1], 2);
    assert_eq!(m.memory[2], 3);
    assert_eq!(m.memory[3], 0);
    assert_eq!(m.memory[255], 0);
    assert_eq!(m.pc, 0);
    assert_eq!(m.t_step, 0);
}

#[test]
fn fetch_latches_instruction_and_advances_pc() {
    let mut m = Sap1::new();
    m.load_program(&[0x20, 7]);
    m.clock_tick();
    // Fetch step 0: the program counter is latched into the address register.
    assert!(m.control_word.CO && m.control_word.MI);
    assert_eq!(m.mar, 0);
    assert_eq!(m.t_step, 1);
    m.clock_tick();
    // Fetch step 1: the addressed byte becomes the instruction register.
    assert_eq!(m.ir, 0x20);
    assert_eq!(m.pc, 1);
    assert_eq!(m.t_step, 2);
}

#[test]
fn nop_takes_three_ticks() {
    let mut m = Sap1::new();
    m.load_program(&[0x00]);
    ticks(&mut m, 3);
    assert_eq!(m.pc, 1);
    assert_eq!(m.t_step, 0);
    assert!(!m.hlt);
}

#[test]
fn load_a_immediate() {
    let mut m = Sap1::new();
    m.load_program(&[0x20, 7]);
    ticks(&mut m, 5);
    assert_eq!(m.reg_a, 7);
    assert_eq!(m.reg_b, 0);
    assert_eq!(m.pc, 2);
    assert_eq!(m.t_step, 0);
}

#[test]
fn load_a_indirect() {
    let mut m = Sap1::new();
    m.load_program(&[0x10, 3, 0x00, 42]);
    ticks(&mut m, 6);
    assert_eq!(m.reg_a, 42);
    assert_eq!(m.pc, 2);
    assert_eq!(m.t_step, 0);
}

#[test]
fn load_b_immediate() {
    let mut m = Sap1::new();
    m.load_program(&[0x40, 9]);
    ticks(&mut m, 5);
    assert_eq!(m.reg_b, 9);
    assert_eq!(m.reg_a, 0);
    assert_eq!(m.pc, 2);
    assert_eq!(m.t_step, 0);
}

#[test]
fn load_b_indirect() {
    let mut m = Sap1::new();
    m.load_program(&[0x30, 3, 0x00, 42]);
    ticks(&mut m, 6);
    assert_eq!(m.reg_b, 42);
    assert_eq!(m.reg_a, 0);
    assert_eq!(m.pc, 2);
    assert_eq!(m.t_step, 0);
}

#[test]
fn add_immediate_wraps_and_sets_carry() {
    let mut m = Sap1::new();
    m.load_program(&[0x20, 250, 0x60, 10]);
    ticks(&mut m, 5);
    assert_eq!(m.reg_a, 250);
    // Through the ADD's arithmetic microstep: 250 + 10 wraps to 4 with carry.
    ticks(&mut m, 5);
    assert_eq!(m.reg_a, 4);
    assert_eq!(m.cf, true);
    assert_eq!(m.zf, false);
    assert_eq!(m.t_step, 5);
    // The cycle's closing pulse recomputes the flags from the new registers.
    ticks(&mut m, 1);
    assert_eq!(m.reg_a, 4);
    assert_eq!(m.t_step, 0);
    assert_eq!(m.cf, false);
    assert_eq!(m.pc, 4);
}

#[test]
fn add_indirect_reads_memory_operand() {
    let mut m = Sap1::new();
    m.load_program(&[0x20, 7, 0x50, 4, 30]);
    ticks(&mut m, 5 + 7);
    assert_eq!(m.reg_a, 37);
    assert_eq!(m.reg_b, 30);
    assert_eq!(m.pc, 4);
    assert_eq!(m.t_step, 0);
}

#[test]
fn sub_immediate_borrows() {
    let mut m = Sap1::new();
    m.load_program(&[0x20, 3, 0x80, 5]);
    ticks(&mut m, 5);
    assert_eq!(m.reg_a, 3);
    // Through the SUB's arithmetic microstep: 3 - 5 wraps to 254 with borrow.
    ticks(&mut m, 5);
    assert_eq!(m.reg_a, 254);
    assert_eq!(m.cf, true);
    assert_eq!(m.zf, false);
    assert_eq!(m.t_step, 5);
    ticks(&mut m, 1);
    assert_eq!(m.reg_a, 254);
    assert_eq!(m.t_step, 0);
    assert_eq!(m.pc, 4);
}

#[test]
fn sub_indirect_reads_memory_operand() {
    let mut m = Sap1::new();
    m.load_program(&[0x20, 7, 0x70, 4, 30]);
    ticks(&mut m, 5 + 6);
    // After the arithmetic microstep: 7 - 30 wraps to 233 with borrow.
    assert_eq!(m.reg_a, 233);
    assert_eq!(m.cf, true);
    ticks(&mut m, 1);
    assert_eq!(m.t_step, 0);
    assert_eq!(m.pc, 4);
}

#[test]
fn store_a_writes_the_named_cell() {
    let mut m = Sap1::new();
    m.load_program(&[0x20, 77, 0x90, 200]);
    ticks(&mut m, 5 + 6);
    assert_eq!(m.memory[200], 77);
    assert_eq!(m.reg_a, 77);
    assert_eq!(m.pc, 4);
    assert_eq!(m.t_step, 0);
}

#[test]
fn jump_is_unconditional() {
    let mut m = Sap1::new();
    m.load_program(&[0xA0, 42]);
    ticks(&mut m, 5);
    assert_eq!(m.pc, 42);
    assert_eq!(m.t_step, 0);
}

#[test]
fn compare_immediate_zero_with_zero_sets_zero_flag() {
    let mut m = Sap1::new();
    m.load_program(&[0xC0, 0]);
    ticks(&mut m, 5);
    assert_eq!(m.zf, true);
    assert_eq!(m.reg_a, 0);
    assert_eq!(m.reg_b, 0);
    assert_eq!(m.pc, 2);
    assert_eq!(m.t_step, 0);
}

#[test]
fn compare_immediate_equal_at_128_keeps_zero_flag() {
    // 128 + 128 is zero modulo 256, so the closing pulse's recompute agrees
    // with the comparison and the zero flag survives the cycle.
    let mut m = Sap1::new();
    m.load_program(&[0x20, 128, 0xC0, 128]);
    ticks(&mut m, 5 + 5);
    assert_eq!(m.reg_a, 128);
    assert_eq!(m.zf, true);
    assert_eq!(m.t_step, 0);
}

#[test]
fn compare_immediate_equal_nonzero_flag_is_overwritten() {
    // The flags are recomputed on every pulse: the equality verdict of
    // COMPARE does not survive the cycle's closing pulse unless the sum of
    // accumulator and operand is also zero modulo 256.
    let mut m = Sap1::new();
    m.load_program(&[0x20, 5, 0xC0, 5]);
    ticks(&mut m, 5 + 5);
    assert_eq!(m.reg_a, 5);
    assert_eq!(m.reg_b, 5);
    assert_eq!(m.zf, false);
    assert_eq!(m.t_step, 0);
}

#[test]
fn compare_indirect_loads_b_without_touching_a() {
    let mut m = Sap1::new();
    m.load_program(&[0x20, 9, 0xB0, 4, 33]);
    ticks(&mut m, 5 + 6);
    assert_eq!(m.reg_a, 9);
    assert_eq!(m.reg_b, 33);
    assert_eq!(m.pc, 4);
    assert_eq!(m.t_step, 0);
}

#[test]
fn branch_if_not_zero_falls_through_on_zero() {
    // With accumulator and B both zero the recomputed zero flag is set at
    // the decision pulse, so the branch only moves past its operand.
    let mut m = Sap1::new();
    m.load_program(&[0xD0, 10]);
    ticks(&mut m, 5);
    assert_eq!(m.pc, 2);
    assert_eq!(m.t_step, 0);
}

#[test]
fn branch_if_not_zero_jumps_on_nonzero() {
    let mut m = Sap1::new();
    m.load_program(&[0x20, 1, 0xD0, 10]);
    ticks(&mut m, 5 + 5);
    assert_eq!(m.pc, 10);
    assert_eq!(m.t_step, 0);
}

#[test]
fn jump_if_zero_jumps_on_zero() {
    let mut m = Sap1::new();
    m.load_program(&[0xE0, 9]);
    ticks(&mut m, 5);
    assert_eq!(m.pc, 9);
    assert_eq!(m.t_step, 0);
}

#[test]
fn jump_if_zero_falls_through_on_nonzero() {
    let mut m = Sap1::new();
    m.load_program(&[0x20, 1, 0xE0, 9]);
    ticks(&mut m, 5 + 5);
    assert_eq!(m.pc, 4);
    assert_eq!(m.t_step, 0);
}

#[test]
fn jump_if_carry_falls_through_without_carry() {
    let mut m = Sap1::new();
    m.load_program(&[0xF0, 9]);
    ticks(&mut m, 5);
    assert_eq!(m.pc, 2);
    assert_eq!(m.t_step, 0);
}

#[test]
fn jump_if_carry_jumps_on_carry() {
    // 200 + 100 overflows 8 bits, so the recomputed carry flag is set at
    // the decision pulse.
    let mut m = Sap1::new();
    m.load_program(&[0x20, 200, 0x40, 100, 0xF0, 50]);
    ticks(&mut m, 5 + 5 + 5);
    assert_eq!(m.pc, 50);
    assert_eq!(m.t_step, 0);
}

#[test]
fn increment_adds_b_to_the_named_cell() {
    let mut m = Sap1::new();
    m.load_program(&[0x40, 1, 0xF1, 4, 9]);
    ticks(&mut m, 5 + 8);
    assert_eq!(m.memory[4], 10);
    assert_eq!(m.reg_a, 10);
    assert_eq!(m.reg_b, 1);
    assert_eq!(m.pc, 4);
    assert_eq!(m.t_step, 0);
}

#[test]
fn decrement_subtracts_b_from_the_named_cell() {
    let mut m = Sap1::new();
    m.load_program(&[0x40, 1, 0xF2, 4, 9]);
    ticks(&mut m, 5 + 8);
    assert_eq!(m.memory[4], 8);
    assert_eq!(m.reg_a, 8);
    assert_eq!(m.reg_b, 1);
    assert_eq!(m.pc, 4);
    assert_eq!(m.t_step, 0);
}

#[test]
fn unassigned_extended_opcode_is_skipped() {
    let mut m = Sap1::new();
    m.load_program(&[0xF7]);
    ticks(&mut m, 3);
    assert_eq!(m.pc, 1);
    assert_eq!(m.t_step, 0);
    assert!(!m.hlt);
}

#[test]
fn microstep_counter_stays_in_range() {
    let mut m = Sap1::new();
    m.load_program(&[0x40, 1, 0xF1, 8, 0x00, 0xFF]);
    for _ in 0..40 {
        m.clock_tick();
        assert!(m.t_step <= 7);
    }
}
