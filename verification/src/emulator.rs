//! The executable machine: the register file, the microcode ROM and the
//! signal interpreter that applies one control word per clock pulse.
//!
//! Every mutating operation is specified against the model in [`crate::model`]:
//! one call to [`Sap1::clock_tick`] performs exactly one [`spec_tick`] on the
//! machine's view.

use vstd::prelude::*;

use crate::model::{spec_apply, spec_decode, spec_init, spec_tick, MState};

verus! {

/// Whether a front panel advances the clock continuously or one pulse at a
/// time.  This is driver policy: the core never reads it.
#[derive(Clone, Copy, Debug)]
pub enum ClockMode {
    RUN,
    STEP,
}

/// One vector of control signals: what the control unit tells the datapath to
/// do during a single clock pulse.
#[allow(non_snake_case)]
#[derive(Debug, Clone, Copy, PartialEq, Eq, Structural)]
pub struct ControlWord {
    /// Halt the clock.
    pub HLT: bool,
    /// Memory address register in.
    pub MI: bool,
    /// Memory (RAM) in.
    pub RI: bool,
    /// Memory (RAM) out.
    pub RO: bool,
    /// Instruction register in.
    pub II: bool,
    /// Microstep (program ring) reset.
    pub PR: bool,
    /// A register in.
    pub AI: bool,
    /// A register out.
    pub AO: bool,
    /// ALU result out.
    pub EO: bool,
    /// ALU subtract mode.
    pub SU: bool,
    /// B register in.
    pub BI: bool,
    /// Output register in.
    pub OI: bool,
    /// Program counter enable (increment).
    pub CE: bool,
    /// Program counter out.
    pub CO: bool,
    /// Jump: load the program counter from the bus, gated by FLG.
    pub J: bool,
    /// Flag gate: the condition under which a jump is taken.
    pub FLG: bool,
}

impl ControlWord {
    /// The control word with every signal deasserted.
    pub open spec fn spec_clear() -> ControlWord {
        ControlWord {
            HLT: false,
            MI: false,
            RI: false,
            RO: false,
            II: false,
            PR: false,
            AI: false,
            AO: false,
            EO: false,
            SU: false,
            BI: false,
            OI: false,
            CE: false,
            CO: false,
            J: false,
            FLG: false,
        }
    }

    /// The sixteen signals in display order.
    pub fn to_array(&self) -> (r: [bool; 16])
        ensures
            r@ == seq![
                self.HLT,
                self.MI,
                self.RI,
                self.RO,
                self.II,
                self.PR,
                self.AI,
                self.AO,
                self.EO,
                self.SU,
                self.BI,
                self.OI,
                self.CE,
                self.CO,
                self.J,
                self.FLG,
            ],
    {
        let r = [
            self.HLT,
            self.MI,
            self.RI,
            self.RO,
            self.II,
            self.PR,
            self.AI,
            self.AO,
            self.EO,
            self.SU,
            self.BI,
            self.OI,
            self.CE,
            self.CO,
            self.J,
            self.FLG,
        ];
        proof {
            assert(r@ =~= seq![
                self.HLT,
                self.MI,
                self.RI,
                self.RO,
                self.II,
                self.PR,
                self.AI,
                self.AO,
                self.EO,
                self.SU,
                self.BI,
                self.OI,
                self.CE,
                self.CO,
                self.J,
                self.FLG,
            ]);
        }
        r
    }

    /// The signal names, in the same order as [`ControlWord::to_array`].
    pub fn signal_names() -> (r: [&'static str; 16])
        ensures
            r@ == seq![
                "HLT", "MI", "RI", "RO", "II", "PR", "AI", "AO", "EO", "SU", "BI", "OI", "CE",
                "CO", "J", "FLG",
            ],
    {
        let r = [
            "HLT", "MI", "RI", "RO", "II", "PR", "AI", "AO", "EO", "SU", "BI", "OI", "CE", "CO",
            "J", "FLG",
        ];
        proof {
            assert(r@ =~= seq![
                "HLT", "MI", "RI", "RO", "II", "PR", "AI", "AO", "EO", "SU", "BI", "OI", "CE",
                "CO", "J", "FLG",
            ]);
        }
        r
    }
}

impl Default for ControlWord {
    /// Every signal deasserted.
    fn default() -> (r: Self)
        ensures
            r == ControlWord::spec_clear(),
    {
        ControlWord {
            HLT: false,
            MI: false,
            RI: false,
            RO: false,
            II: false,
            PR: false,
            AI: false,
            AO: false,
            EO: false,
            SU: false,
            BI: false,
            OI: false,
            CE: false,
            CO: false,
            J: false,
            FLG: false,
        }
    }
}

/// The machine: registers, flags, memory, the observability latches and the
/// most recently applied control word.
pub struct Sap1 {
    /// A (accumulator) register.
    pub reg_a: u8,
    /// B (secondary) register.
    pub reg_b: u8,
    /// ALU output, recomputed on every clock pulse.
    pub alu_out: u8,
    /// Output register.
    pub output: u8,
    /// Program counter.
    pub pc: u8,
    /// Memory: 256 bytes, addressed by one byte.
    pub memory: [u8; 256],
    /// Carry (or borrow) flag.
    pub cf: bool,
    /// Zero flag.
    pub zf: bool,
    /// Halt flag; once set it stays set.
    pub hlt: bool,
    /// Microstep counter within the current instruction cycle.
    pub t_step: u8,
    /// The shared bus, kept for observability.
    pub bus: u8,
    /// Memory address register.
    pub mar: u8,
    /// Instruction register.
    pub ir: u8,
    /// Front-panel clock mode; policy only.
    pub clock_mode: ClockMode,
    /// The control word most recently applied.
    pub control_word: ControlWord,
}

impl View for Sap1 {
    type V = MState;

    open spec fn view(&self) -> MState {
        MState {
            reg_a: self.reg_a,
            reg_b: self.reg_b,
            alu_out: self.alu_out,
            output: self.output,
            pc: self.pc,
            memory: self.memory@,
            cf: self.cf,
            zf: self.zf,
            hlt: self.hlt,
            t_step: self.t_step,
            bus: self.bus,
            mar: self.mar,
            ir: self.ir,
            clock_mode: self.clock_mode,
            control_word: self.control_word,
        }
    }
}

impl Sap1 {
    /// A machine at reset: everything zeroed except the zero flag, which is
    /// true because the accumulator holds zero.
    pub fn new() -> (r: Self)
        ensures
            r@ == spec_init(),
    {
        let r = Sap1 {
            reg_a: 0,
            reg_b: 0,
            alu_out: 0,
            output: 0,
            pc: 0,
            memory: [0; 256],
            cf: false,
            zf: true,
            hlt: false,
            t_step: 0,
            bus: 0,
            mar: 0,
            ir: 0,
            clock_mode: ClockMode::STEP,
            control_word: ControlWord::default(),
        };
        proof {
            assert(r@.memory =~= spec_init().memory);
            assert(r@ =~= spec_init());
        }
        r
    }

    /// Copies a program into the low end of memory, leaving the rest of
    /// memory and every register untouched.
    pub fn load_program(&mut self, program: &[u8])
        requires
            program@.len() <= 256,
        ensures
            final(self)@ == (MState {
                memory: program@ + old(self)@.memory.skip(program@.len() as int),
                ..old(self)@
            }),
    {
        let mut mem = self.memory;
        let mut i: usize = 0;
        while i < program.len()
            invariant
                i <= program@.len(),
                program@.len() <= 256,
                forall|j: int| 0 <= j < i ==> mem@[j] == program@[j],
                forall|j: int| i <= j < 256 ==> mem@[j] == self.memory@[j],
            decreases program@.len() - i,
        {
            mem[i] = program[i];
            i = i + 1;
        }
        self.memory = mem;
        proof {
            assert(self@.memory =~= program@ + old(self)@.memory.skip(program@.len() as int));
            assert(self@ =~= (MState {
                memory: program@ + old(self)@.memory.skip(program@.len() as int),
                ..old(self)@
            }));
        }
    }

    /// One clock pulse: decode the control word for the current instruction
    /// register and microstep, record it, advance the microstep counter, and
    /// apply the word to the datapath.  A machine that has halted and wound
    /// its cycle down to the instruction boundary ignores further pulses.
    pub fn clock_tick(&mut self)
        ensures
            final(self)@ == spec_tick(old(self)@),
    {
        if self.hlt && self.t_step == 0 {
            return;
        }
        let control = self.get_control_word(self.ir, self.t_step);
        self.control_word = control;
        self.t_step = self.t_step.wrapping_add(1);
        self.execute_control_word(&control);
        proof {
            assert(self@ =~= spec_tick(old(self)@));
        }
    }

    /// The microcode ROM: see [`spec_decode`] for the table it implements.
    fn get_control_word(&self, opcode: u8, t_step: u8) -> (r: ControlWord)
        ensures
            r == spec_decode(opcode, t_step, self.zf, self.cf),
    {
        let none = ControlWord::default();
        if t_step == 0 {
            ControlWord { CO: true, MI: true, ..none }
        } else if t_step == 1 {
            ControlWord { RO: true, II: true, CE: true, ..none }
        } else {
            let op = opcode >> 4;
            if op == 0x1 {
                if t_step == 2 {
                    ControlWord { CO: true, MI: true, ..none }
                } else if t_step == 3 {
                    ControlWord { RO: true, MI: true, ..none }
                } else if t_step == 4 {
                    ControlWord { RO: true, AI: true, CE: true, ..none }
                } else {
                    ControlWord { PR: true, ..none }
                }
            } else if op == 0x2 {
                if t_step == 2 {
                    ControlWord { CO: true, MI: true, ..none }
                } else if t_step == 3 {
                    ControlWord { RO: true, AI: true, CE: true, ..none }
                } else {
                    ControlWord { PR: true, ..none }
                }
            } else if op == 0x3 {
                if t_step == 2 {
                    ControlWord { CO: true, MI: true, ..none }
                } else if t_step == 3 {
                    ControlWord { RO: true, MI: true, ..none }
                } else if t_step == 4 {
                    ControlWord { RO: true, BI: true, CE: true, ..none }
                } else {
                    ControlWord { PR: true, ..none }
                }
            } else if op == 0x4 {
                if t_step == 2 {
                    ControlWord { CO: true, MI: true, ..none }
                } else if t_step == 3 {
                    ControlWord { RO: true, BI: true, CE: true, ..none }
                } else {
                    ControlWord { PR: true, ..none }
                }
            } else if op == 0x5 {
                if t_step == 2 {
                    ControlWord { CO: true, MI: true, ..none }
                } else if t_step == 3 {
                    ControlWord { RO: true, MI: true, ..none }
                } else if t_step == 4 {
                    ControlWord { RO: true, BI: true, ..none }
                } else if t_step == 5 {
                    ControlWord { EO: true, AI: true, CE: true, ..none }
                } else {
                    ControlWord { PR: true, ..none }
                }
            } else if op == 0x6 {
                if t_step == 2 {
                    ControlWord { CO: true, MI: true, ..none }
                } else if t_step == 3 {
                    ControlWord { RO: true, BI: true, ..none }
                } else if t_step == 4 {
                    ControlWord { EO: true, AI: true, CE: true, ..none }
                } else {
                    ControlWord { PR: true, ..none }
                }
            } else if op == 0x7 {
                if t_step == 2 {
                    ControlWord { CO: true, MI: true, ..none }
                } else if t_step == 3 {
                    ControlWord { RO: true, MI: true, ..none }
                } else if t_step == 4 {
                    ControlWord { RO: true, BI: true, SU: true, ..none }
                } else if t_step == 5 {
                    ControlWord { EO: true, AI: true, SU: true, CE: true, ..none }
                } else {
                    ControlWord { PR: true, ..none }
                }
            } else if op == 0x8 {
                if t_step == 2 {
                    ControlWord { CO: true, MI: true, ..none }
                } else if t_step == 3 {
                    ControlWord { RO: true, BI: true, SU: true, ..none }
                } else if t_step == 4 {
                    ControlWord { EO: true, AI: true, SU: true, CE: true, ..none }
                } else {
                    ControlWord { PR: true, ..none }
                }
            } else if op == 0x9 {
                if t_step == 2 {
                    ControlWord { CO: true, MI: true, ..none }
                } else if t_step == 3 {
                    ControlWord { RO: true, MI: true, CE: true, ..none }
                } else if t_step == 4 {
                    ControlWord { AO: true, RI: true, ..none }
                } else {
                    ControlWord { PR: true, ..none }
                }
            } else if op == 0xA {
                if t_step == 2 {
                    ControlWord { CO: true, MI: true, ..none }
                } else if t_step == 3 {
                    ControlWord { RO: true, J: true, FLG: true, ..none }
                } else {
                    ControlWord { PR: true, ..none }
                }
            } else if op == 0xB {
                if t_step == 2 {
                    ControlWord { CO: true, MI: true, ..none }
                } else if t_step == 3 {
                    ControlWord { RO: true, MI: true, ..none }
                } else if t_step == 4 {
                    ControlWord { RO: true, BI: true, SU: true, CE: true, ..none }
                } else {
                    ControlWord { PR: true, ..none }
                }
            } else if op == 0xC {
                if t_step == 2 {
                    ControlWord { CO: true, MI: true, ..none }
                } else if t_step == 3 {
                    ControlWord { RO: true, BI: true, SU: true, CE: true, ..none }
                } else {
                    ControlWord { PR: true, ..none }
                }
            } else if op == 0xD {
                if t_step == 2 {
                    ControlWord { CO: true, MI: true, ..none }
                } else if t_step == 3 {
                    ControlWord { RO: true, J: true, FLG: !self.zf, ..none }
                } else {
                    ControlWord { PR: true, ..none }
                }
            } else if op == 0xE {
                if t_step == 2 {
                    ControlWord { CO: true, MI: true, ..none }
                } else if t_step == 3 {
                    ControlWord { RO: true, J: true, FLG: self.zf, ..none }
                } else {
                    ControlWord { PR: true, ..none }
                }
            } else if op == 0xF {
                let sub = opcode & 0x0F;
                if sub == 0x0 {
                    if t_step == 2 {
                        ControlWord { CO: true, MI: true, ..none }
                    } else if t_step == 3 {
                        ControlWord { RO: true, J: true, FLG: self.cf, ..none }
                    } else {
                        ControlWord { PR: true, ..none }
                    }
                } else if sub == 0x1 {
                    if t_step == 2 {
                        ControlWord { CO: true, MI: true, ..none }
                    } else if t_step == 3 {
                        ControlWord { RO: true, MI: true, CE: true, ..none }
                    } else if t_step == 4 {
                        ControlWord { RO: true, AI: true, ..none }
                    } else if t_step == 5 {
                        ControlWord { EO: true, AI: true, ..none }
                    } else if t_step == 6 {
                        ControlWord { RI: true, AO: true, ..none }
                    } else {
                        ControlWord { PR: true, ..none }
                    }
                } else if sub == 0x2 {
                    if t_step == 2 {
                        ControlWord { CO: true, MI: true, ..none }
                    } else if t_step == 3 {
                        ControlWord { RO: true, MI: true, CE: true, ..none }
                    } else if t_step == 4 {
                        ControlWord { RO: true, AI: true, ..none }
                    } else if t_step == 5 {
                        ControlWord { EO: true, AI: true, SU: true, ..none }
                    } else if t_step == 6 {
                        ControlWord { RI: true, AO: true, ..none }
                    } else {
                        ControlWord { PR: true, ..none }
                    }
                } else if sub == 0x3 {
                    if t_step == 2 {
                        ControlWord { AO: true, OI: true, ..none }
                    } else {
                        ControlWord { PR: true, ..none }
                    }
                } else if sub == 0xF {
                    if t_step == 2 {
                        ControlWord { HLT: true, ..none }
                    } else {
                        ControlWord { PR: true, ..none }
                    }
                } else {
                    ControlWord { PR: true, ..none }
                }
            } else {
                ControlWord { PR: true, ..none }
            }
        }
    }

    /// The signal interpreter: applies one control word to the datapath in
    /// the fixed evaluation order of [`spec_apply`].
    #[verifier::rlimit(100)]
    fn execute_control_word(&mut self, control: &ControlWord)
        ensures
            final(self)@ == spec_apply(old(self)@, *control),
    {
        // The ALU result and the flags, recomputed on every pulse.
        let alu: u8;
        let carry: bool;
        if control.SU {
            alu = self.reg_a.wrapping_sub(self.reg_b);
            carry = self.reg_a < self.reg_b;
        } else {
            alu = self.reg_a.wrapping_add(self.reg_b);
            carry = (self.reg_a as u16) + (self.reg_b as u16) > 255;
        }

        // The bus: at most one output enable is expected; last-applied wins.
        let mut bus = self.bus;
        if control.CO {
            bus = self.pc;
        }
        if control.RO {
            bus = self.memory[self.mar as usize];
        }
        if control.AO {
            bus = self.reg_a;
        }
        if control.EO {
            bus = alu;
        }

        // The input latches; the address register before the memory cell it
        // addresses.
        let mar = if control.MI {
            bus
        } else {
            self.mar
        };

        // The program counter: increment, then the (gated) jump.
        let mut pc = self.pc;
        if control.CE {
            pc = pc.wrapping_add(1);
        }
        if control.J {
            if control.FLG {
                pc = bus;
            } else {
                pc = pc.wrapping_add(1);
            }
        }

        self.alu_out = alu;
        self.cf = carry;
        self.zf = alu == 0;
        self.bus = bus;
        self.mar = mar;
        if control.RI {
            self.memory[mar as usize] = bus;
        }
        self.ir = if control.II {
            bus
        } else {
            self.ir
        };
        self.reg_a = if control.AI {
            bus
        } else {
            self.reg_a
        };
        self.reg_b = if control.BI {
            bus
        } else {
            self.reg_b
        };
        self.output = if control.OI {
            bus
        } else {
            self.output
        };
        self.pc = pc;
        // The microstep counter and the (monotonic) halt latch.
        self.t_step = if control.PR {
            0
        } else {
            self.t_step
        };
        self.hlt = self.hlt || control.HLT;

        proof {
            assert(self@ =~= spec_apply(old(self)@, *control));
        }
    }
}

} // verus!
