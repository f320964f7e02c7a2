//! Mathematical model of the machine.
//!
//! [`MState`] mirrors every field of the executable machine with memory as a
//! sequence of bytes.  [`spec_decode`] is the microcode table: the pure map
//! from (instruction register, microstep, flags) to a control word.
//! [`spec_apply`] is the datapath semantics: what one control word does to the
//! state, in the fixed per-pulse evaluation order (ALU and flags first, then
//! bus output enables, then input latches, then the program counter, the
//! microstep counter and the halt latch).  [`spec_tick`] combines the two into
//! the meaning of one clock pulse, and [`spec_run`] iterates it.

use vstd::prelude::*;

use crate::emulator::{ClockMode, ControlWord};

verus! {

/// The machine state as the specifications see it.
#[verifier::ext_equal]
pub struct MState {
    pub reg_a: u8,
    pub reg_b: u8,
    pub alu_out: u8,
    pub output: u8,
    pub pc: u8,
    pub memory: Seq<u8>,
    pub cf: bool,
    pub zf: bool,
    pub hlt: bool,
    pub t_step: u8,
    pub bus: u8,
    pub mar: u8,
    pub ir: u8,
    pub clock_mode: ClockMode,
    pub control_word: ControlWord,
}

/// A well-formed state has exactly the machine's 256 bytes of memory.
/// The view of the executable machine always satisfies this.
pub open spec fn wf(s: MState) -> bool {
    s.memory.len() == 256
}

/// 8-bit addition with wraparound.
pub open spec fn wrap_add(a: u8, b: u8) -> u8 {
    if a + b > 255 {
        (a + b - 256) as u8
    } else {
        (a + b) as u8
    }
}

/// 8-bit subtraction with wraparound.
pub open spec fn wrap_sub(a: u8, b: u8) -> u8 {
    if a - b < 0 {
        (a - b + 256) as u8
    } else {
        (a - b) as u8
    }
}

/// The carry flag of an 8-bit addition: the true sum does not fit in 8 bits.
pub open spec fn carry_add(a: u8, b: u8) -> bool {
    a + b > 255
}

/// The borrow flag of an 8-bit subtraction: the true difference is negative.
pub open spec fn borrow_sub(a: u8, b: u8) -> bool {
    a < b
}

/// The microcode table: the control word for one clock pulse, selected by the
/// instruction register's high nibble (with the low nibble as a sub-opcode
/// under the 0xF escape), the microstep, and - for the conditional jumps -
/// the current flags.
///
/// Microsteps 0 and 1 are the fetch, shared by every instruction.  Every
/// unassigned (opcode, microstep) pair decodes to step-reset alone, so a
/// malformed instruction is silently skipped and the cycle ends.
pub open spec fn spec_decode(ir: u8, t_step: u8, zf: bool, cf: bool) -> ControlWord {
    let none = ControlWord::spec_clear();
    if t_step == 0 {
        // Fetch: the program counter is latched into the address register.
        ControlWord { CO: true, MI: true, ..none }
    } else if t_step == 1 {
        // Fetch: the addressed byte becomes the instruction; the counter advances.
        ControlWord { RO: true, II: true, CE: true, ..none }
    } else {
        let op = ir >> 4;
        if op == 0x1 {
            // LOAD-A indirect
            if t_step == 2 {
                ControlWord { CO: true, MI: true, ..none }
            } else if t_step == 3 {
                ControlWord { RO: true, MI: true, ..none }
            } else if t_step == 4 {
                ControlWord { RO: true, AI: true, CE: true, ..none }
            } else {
                ControlWord { PR: true, ..none }
            }
        } else if op == 0x2 {
            // LOAD-A immediate
            if t_step == 2 {
                ControlWord { CO: true, MI: true, ..none }
            } else if t_step == 3 {
                ControlWord { RO: true, AI: true, CE: true, ..none }
            } else {
                ControlWord { PR: true, ..none }
            }
        } else if op == 0x3 {
            // LOAD-B indirect
            if t_step == 2 {
                ControlWord { CO: true, MI: true, ..none }
            } else if t_step == 3 {
                ControlWord { RO: true, MI: true, ..none }
            } else if t_step == 4 {
                ControlWord { RO: true, BI: true, CE: true, ..none }
            } else {
                ControlWord { PR: true, ..none }
            }
        } else if op == 0x4 {
            // LOAD-B immediate
            if t_step == 2 {
                ControlWord { CO: true, MI: true, ..none }
            } else if t_step == 3 {
                ControlWord { RO: true, BI: true, CE: true, ..none }
            } else {
                ControlWord { PR: true, ..none }
            }
        } else if op == 0x5 {
            // ADD indirect
            if t_step == 2 {
                ControlWord { CO: true, MI: true, ..none }
            } else if t_step == 3 {
                ControlWord { RO: true, MI: true, ..none }
            } else if t_step == 4 {
                ControlWord { RO: true, BI: true, ..none }
            } else if t_step == 5 {
                ControlWord { EO: true, AI: true, CE: true, ..none }
            } else {
                ControlWord { PR: true, ..none }
            }
        } else if op == 0x6 {
            // ADD immediate
            if t_step == 2 {
                ControlWord { CO: true, MI: true, ..none }
            } else if t_step == 3 {
                ControlWord { RO: true, BI: true, ..none }
            } else if t_step == 4 {
                ControlWord { EO: true, AI: true, CE: true, ..none }
            } else {
                ControlWord { PR: true, ..none }
            }
        } else if op == 0x7 {
            // SUB indirect
            if t_step == 2 {
                ControlWord { CO: true, MI: true, ..none }
            } else if t_step == 3 {
                ControlWord { RO: true, MI: true, ..none }
            } else if t_step == 4 {
                ControlWord { RO: true, BI: true, SU: true, ..none }
            } else if t_step == 5 {
                ControlWord { EO: true, AI: true, SU: true, CE: true, ..none }
            } else {
                ControlWord { PR: true, ..none }
            }
        } else if op == 0x8 {
            // SUB immediate
            if t_step == 2 {
                ControlWord { CO: true, MI: true, ..none }
            } else if t_step == 3 {
                ControlWord { RO: true, BI: true, SU: true, ..none }
            } else if t_step == 4 {
                ControlWord { EO: true, AI: true, SU: true, CE: true, ..none }
            } else {
                ControlWord { PR: true, ..none }
            }
        } else if op == 0x9 {
            // STORE-A
            if t_step == 2 {
                ControlWord { CO: true, MI: true, ..none }
            } else if t_step == 3 {
                ControlWord { RO: true, MI: true, CE: true, ..none }
            } else if t_step == 4 {
                ControlWord { AO: true, RI: true, ..none }
            } else {
                ControlWord { PR: true, ..none }
            }
        } else if op == 0xA {
            // JUMP: the flag gate of an unconditional jump is permanently true.
            if t_step == 2 {
                ControlWord { CO: true, MI: true, ..none }
            } else if t_step == 3 {
                ControlWord { RO: true, J: true, FLG: true, ..none }
            } else {
                ControlWord { PR: true, ..none }
            }
        } else if op == 0xB {
            // COMPARE indirect
            if t_step == 2 {
                ControlWord { CO: true, MI: true, ..none }
            } else if t_step == 3 {
                ControlWord { RO: true, MI: true, ..none }
            } else if t_step == 4 {
                ControlWord { RO: true, BI: true, SU: true, CE: true, ..none }
            } else {
                ControlWord { PR: true, ..none }
            }
        } else if op == 0xC {
            // COMPARE immediate
            if t_step == 2 {
                ControlWord { CO: true, MI: true, ..none }
            } else if t_step == 3 {
                ControlWord { RO: true, BI: true, SU: true, CE: true, ..none }
            } else {
                ControlWord { PR: true, ..none }
            }
        } else if op == 0xD {
            // BRANCH-IF-NOT-ZERO
            if t_step == 2 {
                ControlWord { CO: true, MI: true, ..none }
            } else if t_step == 3 {
                ControlWord { RO: true, J: true, FLG: !zf, ..none }
            } else {
                ControlWord { PR: true, ..none }
            }
        } else if op == 0xE {
            // JUMP-IF-ZERO
            if t_step == 2 {
                ControlWord { CO: true, MI: true, ..none }
            } else if t_step == 3 {
                ControlWord { RO: true, J: true, FLG: zf, ..none }
            } else {
                ControlWord { PR: true, ..none }
            }
        } else if op == 0xF {
            let sub = ir & 0x0F;
            if sub == 0x0 {
                // JUMP-IF-CARRY
                if t_step == 2 {
                    ControlWord { CO: true, MI: true, ..none }
                } else if t_step == 3 {
                    ControlWord { RO: true, J: true, FLG: cf, ..none }
                } else {
                    ControlWord { PR: true, ..none }
                }
            } else if sub == 0x1 {
                // INCREMENT at address
                if t_step == 2 {
                    ControlWord { CO: true, MI: true, ..none }
                } else if t_step == 3 {
                    ControlWord { RO: true, MI: true, CE: true, ..none }
                } else if t_step == 4 {
                    ControlWord { RO: true, AI: true, ..none }
                } else if t_step == 5 {
                    ControlWord { EO: true, AI: true, ..none }
                } else if t_step == 6 {
                    ControlWord { RI: true, AO: true, ..none }
                } else {
                    ControlWord { PR: true, ..none }
                }
            } else if sub == 0x2 {
                // DECREMENT at address
                if t_step == 2 {
                    ControlWord { CO: true, MI: true, ..none }
                } else if t_step == 3 {
                    ControlWord { RO: true, MI: true, CE: true, ..none }
                } else if t_step == 4 {
                    ControlWord { RO: true, AI: true, ..none }
                } else if t_step == 5 {
                    ControlWord { EO: true, AI: true, SU: true, ..none }
                } else if t_step == 6 {
                    ControlWord { RI: true, AO: true, ..none }
                } else {
                    ControlWord { PR: true, ..none }
                }
            } else if sub == 0x3 {
                // OUTPUT
                if t_step == 2 {
                    ControlWord { AO: true, OI: true, ..none }
                } else {
                    ControlWord { PR: true, ..none }
                }
            } else if sub == 0xF {
                // HALT: the halt line at the penultimate step, step-reset at the last.
                if t_step == 2 {
                    ControlWord { HLT: true, ..none }
                } else {
                    ControlWord { PR: true, ..none }
                }
            } else {
                ControlWord { PR: true, ..none }
            }
        } else {
            // NOP and every unassigned opcode: reset the microstep counter.
            ControlWord { PR: true, ..none }
        }
    }
}

/// The datapath semantics of one control word, in the fixed per-pulse order:
/// 1. the ALU result and both flags are recomputed from the current registers
///    (on every pulse, whether or not the instruction uses the ALU);
/// 2. at most one output enable drives the bus (last-applied wins);
/// 3. the input latches take the bus value, the address register before the
///    memory cell it addresses;
/// 4. counter-enable increments the program counter;
/// 5. jump sets the program counter from the bus when the flag gate holds,
///    and to the sequential successor when it does not;
/// 6. step-reset returns the microstep counter to zero;
/// 7. the halt line latches the (monotonic) halt flag.
pub open spec fn spec_apply(s: MState, w: ControlWord) -> MState {
    let alu = if w.SU {
        wrap_sub(s.reg_a, s.reg_b)
    } else {
        wrap_add(s.reg_a, s.reg_b)
    };
    let carry = if w.SU {
        borrow_sub(s.reg_a, s.reg_b)
    } else {
        carry_add(s.reg_a, s.reg_b)
    };
    let bus_co = if w.CO {
        s.pc
    } else {
        s.bus
    };
    let bus_ro = if w.RO {
        s.memory[s.mar as int]
    } else {
        bus_co
    };
    let bus_ao = if w.AO {
        s.reg_a
    } else {
        bus_ro
    };
    let bus = if w.EO {
        alu
    } else {
        bus_ao
    };
    let mar = if w.MI {
        bus
    } else {
        s.mar
    };
    let memory = if w.RI {
        s.memory.update(mar as int, bus)
    } else {
        s.memory
    };
    let ir = if w.II {
        bus
    } else {
        s.ir
    };
    let reg_a = if w.AI {
        bus
    } else {
        s.reg_a
    };
    let reg_b = if w.BI {
        bus
    } else {
        s.reg_b
    };
    let output = if w.OI {
        bus
    } else {
        s.output
    };
    let pc_ce = if w.CE {
        wrap_add(s.pc, 1)
    } else {
        s.pc
    };
    let pc = if w.J {
        if w.FLG {
            bus
        } else {
            wrap_add(pc_ce, 1)
        }
    } else {
        pc_ce
    };
    let t_step = if w.PR {
        0
    } else {
        s.t_step
    };
    let hlt = s.hlt || w.HLT;
    MState {
        reg_a,
        reg_b,
        alu_out: alu,
        output,
        pc,
        memory,
        cf: carry,
        zf: alu == 0,
        hlt,
        t_step,
        bus,
        mar,
        ir,
        ..s
    }
}

/// One clock pulse.  A machine that has halted and wound its cycle down to the
/// instruction boundary ignores further pulses; otherwise the control word for
/// the current microstep is decoded, recorded, and applied to the state with
/// the microstep counter already advanced.
pub open spec fn spec_tick(s: MState) -> MState {
    if s.hlt && s.t_step == 0 {
        s
    } else {
        let w = spec_decode(s.ir, s.t_step, s.zf, s.cf);
        spec_apply(
            MState { t_step: wrap_add(s.t_step, 1), control_word: w, ..s },
            w,
        )
    }
}

/// `n` clock pulses.
pub open spec fn spec_run(s: MState, n: nat) -> MState
    decreases n,
{
    if n == 0 {
        s
    } else {
        spec_tick(spec_run(s, (n - 1) as nat))
    }
}

/// A state at an instruction boundary: the microstep counter is at zero and
/// the machine has not halted, so the next pulse begins a fetch.
pub open spec fn at_boundary(s: MState) -> bool {
    s.t_step == 0 && !s.hlt
}

/// How many clock pulses one full cycle of the given instruction byte takes:
/// two fetch microsteps plus the instruction's execute microsteps.
pub open spec fn cycle_ticks(ir: u8) -> nat {
    let op = ir >> 4;
    if op == 0x1 {
        6
    } else if op == 0x2 {
        5
    } else if op == 0x3 {
        6
    } else if op == 0x4 {
        5
    } else if op == 0x5 {
        7
    } else if op == 0x6 {
        6
    } else if op == 0x7 {
        7
    } else if op == 0x8 {
        6
    } else if op == 0x9 {
        6
    } else if op == 0xA {
        5
    } else if op == 0xB {
        6
    } else if op == 0xC {
        5
    } else if op == 0xD {
        5
    } else if op == 0xE {
        5
    } else if op == 0xF {
        let sub = ir & 0x0F;
        if sub == 0x0 {
            5
        } else if sub == 0x1 {
            8
        } else if sub == 0x2 {
            8
        } else if sub == 0x3 {
            4
        } else if sub == 0xF {
            4
        } else {
            // An unassigned sub-opcode resets at its first execute step.
            3
        }
    } else {
        // NOP and every unassigned opcode: fetch plus one reset step.
        3
    }
}

/// The state of a freshly built machine: everything zero, except the zero
/// flag, which starts true because the accumulator starts at zero.
pub open spec fn spec_init() -> MState {
    MState {
        reg_a: 0,
        reg_b: 0,
        alu_out: 0,
        output: 0,
        pc: 0,
        memory: Seq::new(256, |i: int| 0u8),
        cf: false,
        zf: true,
        hlt: false,
        t_step: 0,
        bus: 0,
        mar: 0,
        ir: 0,
        clock_mode: ClockMode::STEP,
        control_word: ControlWord::spec_clear(),
    }
}

} // verus!
