use sap1::emulator::Sap1;

fn ticks(m: &mut Sap1, n: usize) {
    let mut i = 0;
    while i < n {
        m.clock_tick();
        i += 1;
    }
}

fn run_to_halt(m: &mut Sap1, limit: usize) {
    let mut i = 0;
    while !m.hlt && i < limit {
        m.clock_tick();
        i += 1;
    }
    assert!(m.hlt, "program did not halt within {} pulses", limit);
}

#[test]
fn load_then_output_yields_the_value() {
    let mut m = Sap1::new();
    m.load_program(&[0x20, 99, 0xF3]);
    ticks(&mut m, 5 + 4);
    assert_eq!(m.output, 99);
    assert_eq!(m.t_step, 0);
    assert!(!m.hlt);
}

#[test]
fn halt_freezes_the_machine() {
    let mut m = Sap1::new();
    m.load_program(&[0x20, 7, 0xFF]);
    ticks(&mut m, 5 + 4);
    assert!(m.hlt);
    assert_eq!(m.t_step, 0);
    assert_eq!(m.reg_a, 7);
    let reg_a = m.reg_a;
    let reg_b = m.reg_b;
    let pc = m.pc;
    let output = m.output;
    let memory = m.memory;
    // Erroneously issued pulses after the halt change nothing.
    ticks(&mut m, 10);
    assert_eq!(m.reg_a, reg_a);
    assert_eq!(m.reg_b, reg_b);
    assert_eq!(m.pc, pc);
    assert_eq!(m.output, output);
    assert!(m.hlt);
    assert_eq!(m.t_step, 0);
    let mut i = 0;
    while i < 256 {
        assert_eq!(m.memory[i], memory[i]);
        i += 1;
    }
}

#[test]
fn run_to_halt_leaves_memory_intact_outside_write_targets() {
    let program: [u8; 5] = [0x20, 55, 0x90, 100, 0xFF];
    let mut m = Sap1::new();
    m.load_program(&program);
    run_to_halt(&mut m, 1000);
    // The program image is unchanged.
    let mut i = 0;
    while i < program.len() {
        assert_eq!(m.memory[i], program[i]);
        i += 1;
    }
    // The one store target holds the stored value.
    assert_eq!(m.memory[100], 55);
    // Every other cell still holds its originally loaded byte (zero).
    let mut j = program.len();
    while j < 256 {
        if j != 100 {
            assert_eq!(m.memory[j], 0);
        }
        j += 1;
    }
}

#[test]
fn arithmetic_program_outputs_sum() {
    // Load 10, add 5 through the ALU, show it, halt.
    let mut m = Sap1::new();
    m.load_program(&[0x20, 10, 0x60, 5, 0xF3, 0xFF]);
    run_to_halt(&mut m, 1000);
    assert_eq!(m.output, 15);
    assert_eq!(m.reg_a, 15);
    assert_eq!(m.pc, 6);
}

#[test]
fn store_and_reload_round_trip() {
    // Store the accumulator, clear it, load it back from memory.
    let mut m = Sap1::new();
    m.load_program(&[0x20, 123, 0x90, 50, 0x20, 0, 0x10, 50, 0xFF]);
    run_to_halt(&mut m, 1000);
    assert_eq!(m.reg_a, 123);
    assert_eq!(m.memory[50], 123);
}

#[test]
fn countdown_with_decrement() {
    // B = 1; decrement the counter cell three times; halt.
    let mut m = Sap1::new();
    m.load_program(&[0x40, 1, 0xF2, 9, 0xF2, 9, 0xF2, 9, 0xFF, 3]);
    run_to_halt(&mut m, 1000);
    assert_eq!(m.memory[9], 0);
    assert_eq!(m.reg_a, 0);
}

#[test]
fn every_cycle_returns_to_the_boundary() {
    // One instruction of each length; after each full cycle the microstep
    // counter is back at zero.
    let mut m = Sap1::new();
    m.load_program(&[0x00, 0x20, 7, 0x60, 1, 0x40, 1, 0xF1, 20, 0x90, 21, 0xF3, 0xFF]);
    let lengths: [usize; 8] = [3, 5, 6, 5, 8, 6, 4, 4];
    let mut k = 0;
    while k < lengths.len() {
        ticks(&mut m, lengths[k]);
        assert_eq!(m.t_step, 0, "cycle {} did not end at the boundary", k);
        k += 1;
    }
    assert!(m.hlt);
}
