//! Display helpers: the disassembly of one instruction byte and the one-hot
//! rendering of the microstep counter.  These duplicate the opcode table of
//! the microcode ROM for display purposes only.

use vstd::prelude::*;
use vstd::string::StringExecFns;

verus! {

/// The mnemonic shown for one instruction byte.
pub open spec fn spec_mnemonic(byte: u8) -> Seq<char> {
    let op = byte >> 4;
    if op == 0x0 {
        "NOP"@
    } else if op == 0x1 {
        "LDA $"@
    } else if op == 0x2 {
        "LDA #"@
    } else if op == 0x3 {
        "LDB $"@
    } else if op == 0x4 {
        "LDB #"@
    } else if op == 0x5 {
        "ADD $"@
    } else if op == 0x6 {
        "ADD #"@
    } else if op == 0x7 {
        "SUB $"@
    } else if op == 0x8 {
        "SUB #"@
    } else if op == 0x9 {
        "STA"@
    } else if op == 0xA {
        "JMP"@
    } else if op == 0xB {
        "CMP $"@
    } else if op == 0xC {
        "CMP #"@
    } else if op == 0xD {
        "BNE"@
    } else if op == 0xE {
        "JPZ"@
    } else if byte == 0xF0 {
        "JPC"@
    } else if byte == 0xF1 {
        "INC"@
    } else if byte == 0xF2 {
        "DEC"@
    } else if byte == 0xF3 {
        "OUT"@
    } else if byte == 0xFF {
        "HLT"@
    } else {
        "???"@
    }
}

/// Whether the instruction byte is followed by an operand byte, so that the
/// instruction occupies two memory cells.
pub open spec fn spec_is_two_byte(byte: u8) -> bool {
    let op = byte >> 4;
    if op == 0x0 {
        false
    } else if op <= 0xE {
        true
    } else {
        byte == 0xF0 || byte == 0xF1 || byte == 0xF2
    }
}

/// Maps the byte at `address` to its display mnemonic and to whether it
/// occupies two memory cells (opcode plus operand).
pub fn dissasemble_byte(memory: &[u8], address: usize) -> (r: (String, bool))
    requires
        address < memory@.len(),
    ensures
        r.0@ == spec_mnemonic(memory@[address as int]),
        r.1 == spec_is_two_byte(memory@[address as int]),
{
    let byte = memory[address];
    let opcode = byte >> 4;

    if opcode == 0x0 {
        (String::from_str("NOP"), false)
    } else if opcode == 0x1 {
        (String::from_str("LDA $"), true)
    } else if opcode == 0x2 {
        (String::from_str("LDA #"), true)
    } else if opcode == 0x3 {
        (String::from_str("LDB $"), true)
    } else if opcode == 0x4 {
        (String::from_str("LDB #"), true)
    } else if opcode == 0x5 {
        (String::from_str("ADD $"), true)
    } else if opcode == 0x6 {
        (String::from_str("ADD #"), true)
    } else if opcode == 0x7 {
        (String::from_str("SUB $"), true)
    } else if opcode == 0x8 {
        (String::from_str("SUB #"), true)
    } else if opcode == 0x9 {
        (String::from_str("STA"), true)
    } else if opcode == 0xA {
        (String::from_str("JMP"), true)
    } else if opcode == 0xB {
        (String::from_str("CMP $"), true)
    } else if opcode == 0xC {
        (String::from_str("CMP #"), true)
    } else if opcode == 0xD {
        (String::from_str("BNE"), true)
    } else if opcode == 0xE {
        (String::from_str("JPZ"), true)
    } else if byte == 0xF0 {
        (String::from_str("JPC"), true)
    } else if byte == 0xF1 {
        (String::from_str("INC"), true)
    } else if byte == 0xF2 {
        (String::from_str("DEC"), true)
    } else if byte == 0xF3 {
        (String::from_str("OUT"), false)
    } else if byte == 0xFF {
        (String::from_str("HLT"), false)
    } else {
        (String::from_str("???"), false)
    }
}

/// The one-hot display value of the microstep counter: microstep `t` in
/// 1..=7 lights bit `7 - t`; microstep 0 and out-of-range values light none.
pub open spec fn spec_decode_t_step(t_step: u8) -> u8 {
    if t_step == 0 {
        0
    } else if t_step == 1 {
        64
    } else if t_step == 2 {
        32
    } else if t_step == 3 {
        16
    } else if t_step == 4 {
        8
    } else if t_step == 5 {
        4
    } else if t_step == 6 {
        2
    } else if t_step == 7 {
        1
    } else {
        0
    }
}

/// Maps the microstep counter to its one-hot display value.
pub fn decode_t_step(t_step: u8) -> (r: u8)
    ensures
        r == spec_decode_t_step(t_step),
{
    if t_step == 0 {
        0
    } else if t_step == 1 {
        64
    } else if t_step == 2 {
        32
    } else if t_step == 3 {
        16
    } else if t_step == 4 {
        8
    } else if t_step == 5 {
        4
    } else if t_step == 6 {
        2
    } else if t_step == 7 {
        1
    } else {
        0
    }
}

} // verus!
