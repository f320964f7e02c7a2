use sap1::disasm::{decode_t_step, dissasemble_byte};
use sap1::emulator::ControlWord;

#[test]
fn control_word_default_is_all_clear() {
    let w = ControlWord::default();
    for bit in w.to_array() {
        assert!(!bit);
    }
}

#[test]
fn to_array_orders_the_signals_as_named() {
    let mut w = ControlWord::default();
    w.HLT = true;
    w.PR = true;
    w.FLG = true;
    let bits = w.to_array();
    let names = ControlWord::signal_names();
    assert_eq!(names.len(), bits.len());
    for i in 0..16 {
        let expected = names[i] == "HLT" || names[i] == "PR" || names[i] == "FLG";
        assert_eq!(bits[i], expected);
    }
}

#[test]
fn signal_names_are_in_display_order() {
    let names = ControlWord::signal_names();
    assert_eq!(
        names,
        ["HLT", "MI", "RI", "RO", "II", "PR", "AI", "AO", "EO", "SU", "BI", "OI", "CE", "CO",
            "J", "FLG"]
    );
}

#[test]
fn dissasemble_primary_opcodes() {
    let mem: [u8; 15] = [
        0x05, 0x10, 0x2A, 0x33, 0x41, 0x50, 0x6F, 0x70, 0x88, 0x90, 0xA1, 0xB2, 0xC3, 0xD4,
        0xE5,
    ];
    let expected: [(&str, bool); 15] = [
        ("NOP", false),
        ("LDA $", true),
        ("LDA #", true),
        ("LDB $", true),
        ("LDB #", true),
        ("ADD $", true),
        ("ADD #", true),
        ("SUB $", true),
        ("SUB #", true),
        ("STA", true),
        ("JMP", true),
        ("CMP $", true),
        ("CMP #", true),
        ("BNE", true),
        ("JPZ", true),
    ];
    for i in 0..15 {
        let (mnemonic, two_byte) = dissasemble_byte(&mem, i);
        assert_eq!(mnemonic, expected[i].0);
        assert_eq!(two_byte, expected[i].1);
    }
}

#[test]
fn dissasemble_extended_opcodes() {
    let mem: [u8; 6] = [0xF0, 0xF1, 0xF2, 0xF3, 0xFF, 0xF7];
    let expected: [(&str, bool); 6] = [
        ("JPC", true),
        ("INC", true),
        ("DEC", true),
        ("OUT", false),
        ("HLT", false),
        ("???", false),
    ];
    for i in 0..6 {
        let (mnemonic, two_byte) = dissasemble_byte(&mem, i);
        assert_eq!(mnemonic, expected[i].0);
        assert_eq!(two_byte, expected[i].1);
    }
}

#[test]
fn decode_t_step_is_one_hot() {
    assert_eq!(decode_t_step(0), 0);
    assert_eq!(decode_t_step(1), 64);
    assert_eq!(decode_t_step(2), 32);
    assert_eq!(decode_t_step(3), 16);
    assert_eq!(decode_t_step(4), 8);
    assert_eq!(decode_t_step(5), 4);
    assert_eq!(decode_t_step(6), 2);
    assert_eq!(decode_t_step(7), 1);
    assert_eq!(decode_t_step(8), 0);
    assert_eq!(decode_t_step(255), 0);
}
