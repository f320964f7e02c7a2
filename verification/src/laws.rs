//! Machine-wide guarantees, proved on top of the per-instruction lemmas of
//! [`crate::cycles`].

use vstd::prelude::*;

use crate::cycles::{
    lemma_add_immediate, lemma_add_indirect, lemma_branch_if_not_zero, lemma_compare_immediate,
    lemma_compare_indirect, lemma_decrement, lemma_halt_instruction, lemma_increment,
    lemma_jump, lemma_jump_if_carry, lemma_jump_if_zero, lemma_load_a_immediate,
    lemma_load_a_indirect, lemma_load_b_immediate, lemma_load_b_indirect, lemma_nop,
    lemma_output, lemma_run_split, lemma_store_a, lemma_sub_immediate, lemma_sub_indirect,
    lemma_unassigned_extended,
};
use crate::disasm::spec_is_two_byte;
use crate::model::{
    at_boundary, cycle_ticks, spec_decode, spec_run, spec_tick, wf, wrap_add, MState,
};

verus! {

/// The halt flag is monotonic: once set, no pulse ever clears it.
pub proof fn lemma_halt_monotonic(s: MState)
    ensures
        s.hlt ==> spec_tick(s).hlt,
{
}

/// A machine that has halted and wound its cycle down to the instruction
/// boundary ignores every further pulse: no number of pulses changes any
/// register, flag or memory cell.
pub proof fn lemma_halted_machine_ignores_pulses(s: MState, n: nat)
    requires
        s.hlt,
        s.t_step == 0,
    ensures
        spec_run(s, n) == s,
    decreases n,
{
    if n > 0 {
        lemma_halted_machine_ignores_pulses(s, (n - 1) as nat);
    }
}

/// The microstep counter stays in range: after any pulse, from any state, it
/// is at most 7 (every microcode row beyond microstep 6 asserts step-reset).
pub proof fn lemma_microstep_bounded(s: MState)
    ensures
        spec_tick(s).t_step <= 7,
{
}

/// One pulse keeps the memory size and changes at most the one cell that the
/// address register selects, and only when the decoded control word asserts
/// the ram-in signal.
pub proof fn lemma_tick_memory_frame(s: MState)
    requires
        wf(s),
    ensures
        spec_tick(s).memory.len() == s.memory.len(),
        forall|i: int|
            0 <= i < s.memory.len() && spec_tick(s).memory[i] != s.memory[i] ==> {
                &&& i == spec_tick(s).mar as int
                &&& spec_decode(s.ir, s.t_step, s.zf, s.cf).RI
            },
{
}

/// Only the store microsteps of STORE-A, INCREMENT and DECREMENT assert the
/// ram-in signal: no other instruction, and no fetch pulse, can write memory.
pub proof fn lemma_ram_in_rows(ir: u8, t_step: u8, zf: bool, cf: bool)
    ensures
        spec_decode(ir, t_step, zf, cf).RI ==> {
            ||| (ir >> 4 == 0x9 && t_step == 4)
            ||| (ir >> 4 == 0xF && (ir & 0x0F == 0x1 || ir & 0x0F == 0x2) && t_step == 6)
        },
{
}

/// A pulse on a well-formed state leaves a well-formed state.
pub proof fn lemma_tick_preserves_wf(s: MState)
    requires
        wf(s),
    ensures
        wf(spec_tick(s)),
{
    lemma_tick_memory_frame(s);
}

/// Any number of pulses keeps the state well formed: the machine's 256 bytes
/// of memory are never grown or shrunk.
pub proof fn lemma_run_preserves_wf(s: MState, n: nat)
    requires
        wf(s),
    ensures
        wf(spec_run(s, n)),
    decreases n,
{
    if n > 0 {
        lemma_run_preserves_wf(s, (n - 1) as nat);
        lemma_tick_preserves_wf(spec_run(s, (n - 1) as nat));
    }
}

/// Every instruction cycle ends at the instruction boundary: from a state
/// about to fetch, exactly two-plus-execute-count pulses (the cycle length of
/// the fetched byte) leave the microstep counter at zero, leave the machine
/// halted exactly when the instruction was HALT, and - for every instruction
/// that is not a jump or branch - advance the program counter past the
/// instruction's one or two bytes.
pub proof fn lemma_cycle_resets_microstep(s: MState)
    requires
        wf(s),
        at_boundary(s),
    ensures
        ({
            let b = s.memory[s.pc as int];
            let t = spec_run(s, cycle_ticks(b));
            &&& t.t_step == 0
            &&& t.hlt == (b >> 4 == 0xF && b & 0x0F == 0xF)
            &&& wf(t)
            &&& (b >> 4 != 0xA && b >> 4 != 0xD && b >> 4 != 0xE && !(b >> 4 == 0xF && b & 0x0F
                == 0x0)) ==> t.pc == if spec_is_two_byte(b) {
                wrap_add(wrap_add(s.pc, 1), 1)
            } else {
                wrap_add(s.pc, 1)
            }
        }),
{
    let b = s.memory[s.pc as int];
    let op = b >> 4;
    assert(b >> 4 <= 0xF) by (bit_vector);
    if op == 0x0 {
        lemma_nop(s);
    } else if op == 0x1 {
        lemma_load_a_indirect(s);
    } else if op == 0x2 {
        lemma_load_a_immediate(s);
    } else if op == 0x3 {
        lemma_load_b_indirect(s);
    } else if op == 0x4 {
        lemma_load_b_immediate(s);
    } else if op == 0x5 {
        lemma_add_indirect(s);
    } else if op == 0x6 {
        lemma_add_immediate(s);
    } else if op == 0x7 {
        lemma_sub_indirect(s);
    } else if op == 0x8 {
        lemma_sub_immediate(s);
    } else if op == 0x9 {
        lemma_store_a(s);
    } else if op == 0xA {
        lemma_jump(s);
    } else if op == 0xB {
        lemma_compare_indirect(s);
    } else if op == 0xC {
        lemma_compare_immediate(s);
    } else if op == 0xD {
        lemma_branch_if_not_zero(s);
    } else if op == 0xE {
        lemma_jump_if_zero(s);
    } else {
        let sub = b & 0x0F;
        if sub == 0x0 {
            lemma_jump_if_carry(s);
        } else if sub == 0x1 {
            assert((b >> 4 == 0xF && b & 0x0F == 0x1) ==> b == 0xF1) by (bit_vector);
            lemma_increment(s);
        } else if sub == 0x2 {
            assert((b >> 4 == 0xF && b & 0x0F == 0x2) ==> b == 0xF2) by (bit_vector);
            lemma_decrement(s);
        } else if sub == 0x3 {
            assert((b >> 4 == 0xF && b & 0x0F == 0x3) ==> b == 0xF3) by (bit_vector);
            lemma_output(s);
        } else if sub == 0xF {
            assert((b >> 4 == 0xF && b & 0x0F == 0xF) ==> b == 0xFF) by (bit_vector);
            lemma_halt_instruction(s);
        } else {
            assert((b >> 4 == 0xF && b & 0x0F != 0x0 && b & 0x0F != 0x1 && b & 0x0F != 0x2)
                ==> (b != 0xF0 && b != 0xF1 && b != 0xF2)) by (bit_vector);
            lemma_unassigned_extended(s);
        }
    }
}

/// Loading a value into the accumulator and then outputting it puts exactly
/// that value in the output register: an immediate LOAD-A of `v` followed by
/// OUTPUT ends, after the OUTPUT instruction's two execute microsteps, with
/// `output == v`.
pub proof fn lemma_load_then_output(s: MState)
    requires
        wf(s),
        at_boundary(s),
        s.memory[s.pc as int] >> 4 == 0x2,
        s.memory[wrap_add(wrap_add(s.pc, 1), 1) as int] == 0xF3,
    ensures
        ({
            let t = spec_run(s, 9);
            &&& t.output == s.memory[wrap_add(s.pc, 1) as int]
            &&& t.t_step == 0
            &&& t.hlt == false
        }),
{
    lemma_load_a_immediate(s);
    let u = spec_run(s, 5);
    assert(0xF3u8 >> 4 == 0xF && 0xF3u8 & 0x0F == 0x3) by (bit_vector);
    lemma_output(u);
    lemma_run_split(s, 5, 4);
}

/// COMPARE immediate with equal operands leaves the accumulator untouched
/// and ends the cycle with the zero flag set.  Because every pulse
/// recomputes the flags, the subtraction's verdict survives the cycle's
/// closing pulse - which re-adds the operand to the accumulator - only
/// where that sum is also zero modulo 256, so this law asks for it.
pub proof fn lemma_compare_immediate_equal(s: MState)
    requires
        wf(s),
        at_boundary(s),
        s.memory[s.pc as int] >> 4 == 0xC,
        s.memory[wrap_add(s.pc, 1) as int] == s.reg_a,
        wrap_add(s.reg_a, s.reg_a) == 0,
    ensures
        ({
            let t = spec_run(s, 5);
            &&& t.zf == true
            &&& t.reg_a == s.reg_a
            &&& t.t_step == 0
        }),
{
    lemma_compare_immediate(s);
}

/// BRANCH-IF-NOT-ZERO falls through when the zero flag it reads is set.
/// The flag at the decision pulse is the recomputed `A + B == 0 (mod 256)`,
/// not the flag the instruction began with; with it set, the program
/// counter only moves past the operand byte.
pub proof fn lemma_branch_if_not_zero_falls_through(s: MState)
    requires
        wf(s),
        at_boundary(s),
        s.memory[s.pc as int] >> 4 == 0xD,
        wrap_add(s.reg_a, s.reg_b) == 0,
    ensures
        spec_run(s, 5).pc == wrap_add(wrap_add(s.pc, 1), 1),
        spec_run(s, 5).zf == true,
{
    lemma_branch_if_not_zero(s);
}

/// BRANCH-IF-NOT-ZERO jumps when the zero flag it reads is clear: the
/// program counter receives the operand byte.
pub proof fn lemma_branch_if_not_zero_jumps(s: MState)
    requires
        wf(s),
        at_boundary(s),
        s.memory[s.pc as int] >> 4 == 0xD,
        wrap_add(s.reg_a, s.reg_b) != 0,
    ensures
        spec_run(s, 5).pc == s.memory[wrap_add(s.pc, 1) as int],
        spec_run(s, 5).zf == false,
{
    lemma_branch_if_not_zero(s);
}

} // verus!
