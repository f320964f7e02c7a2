//! Per-instruction cycle lemmas: for each opcode, exactly what one full
//! instruction cycle does to a machine state at an instruction boundary.
//!
//! Every lemma takes a well-formed state `s` whose next pulse begins a fetch,
//! assumes only which instruction byte the program counter addresses, and
//! pins down the registers, the flags, the memory and the counters after the
//! cycle's last microstep.  The flags at the end of a cycle always come from the ALU
//! recompute of the final (step-reset) pulse - an addition of the final
//! register contents - not from the instruction's own arithmetic step; the
//! arithmetic lemmas therefore also describe the state right after their
//! arithmetic microstep, where the carry and zero flags reflect the operation
//! itself.

use vstd::prelude::*;

use crate::model::{
    at_boundary, borrow_sub, carry_add, spec_run, spec_tick, wf, wrap_add, wrap_sub, MState,
};

verus! {

/// Running `m + n` pulses is running `m` pulses and then `n` more.
pub proof fn lemma_run_split(s: MState, m: nat, n: nat)
    ensures
        spec_run(s, m + n) == spec_run(spec_run(s, m), n),
    decreases n,
{
    if n == 0 {
    } else {
        lemma_run_split(s, m, (n - 1) as nat);
    }
}

/// The two fetch pulses shared by every instruction: the byte the program
/// counter addresses becomes the instruction register, the program counter
/// advances, and the flags are recomputed from the (unchanged) registers.
pub proof fn lemma_fetch(s: MState)
    requires
        wf(s),
        at_boundary(s),
    ensures
        ({
            let f = spec_run(s, 2);
            &&& f.t_step == 2
            &&& f.ir == s.memory[s.pc as int]
            &&& f.pc == wrap_add(s.pc, 1)
            &&& f.mar == s.pc
            &&& f.bus == s.memory[s.pc as int]
            &&& f.memory == s.memory
            &&& f.reg_a == s.reg_a
            &&& f.reg_b == s.reg_b
            &&& f.output == s.output
            &&& f.hlt == false
            &&& f.alu_out == wrap_add(s.reg_a, s.reg_b)
            &&& f.cf == carry_add(s.reg_a, s.reg_b)
            &&& f.zf == (wrap_add(s.reg_a, s.reg_b) == 0)
            &&& f.clock_mode == s.clock_mode
        }),
{
    let s1 = spec_tick(s);
    assert(s1.t_step == 1 && s1.mar == s.pc && s1.bus == s.pc && s1.pc == s.pc && s1.ir == s.ir
        && s1.memory == s.memory && s1.reg_a == s.reg_a && s1.reg_b == s.reg_b
        && s1.output == s.output && s1.hlt == false && s1.clock_mode == s.clock_mode);
    let s2 = spec_tick(s1);
    assert(s2.t_step == 2 && s2.mar == s.pc && s2.bus == s.memory[s.pc as int]
        && s2.ir == s.memory[s.pc as int] && s2.pc == wrap_add(s.pc, 1) && s2.memory == s.memory
        && s2.reg_a == s.reg_a && s2.reg_b == s.reg_b && s2.output == s.output
        && s2.hlt == false && s2.alu_out == wrap_add(s.reg_a, s.reg_b)
        && s2.cf == carry_add(s.reg_a, s.reg_b)
        && s2.zf == (wrap_add(s.reg_a, s.reg_b) == 0) && s2.clock_mode == s.clock_mode);
    assert(spec_run(s, 2) == s2) by {
        reveal_with_fuel(spec_run, 3);
    }
}

/// NOP (high nibble 0x0): one execute microstep that only resets the
/// microstep counter; the program counter moves past the instruction byte.
pub proof fn lemma_nop(s: MState)
    requires
        wf(s),
        at_boundary(s),
        s.memory[s.pc as int] >> 4 == 0x0,
    ensures
        ({
            let t = spec_run(s, 3);
            &&& t.t_step == 0
            &&& t.pc == wrap_add(s.pc, 1)
            &&& t.reg_a == s.reg_a
            &&& t.reg_b == s.reg_b
            &&& t.memory == s.memory
            &&& t.ir == s.memory[s.pc as int]
            &&& t.output == s.output
            &&& t.hlt == false
            &&& t.cf == carry_add(s.reg_a, s.reg_b)
            &&& t.zf == (wrap_add(s.reg_a, s.reg_b) == 0)
            &&& t.clock_mode == s.clock_mode
        }),
{
    lemma_fetch(s);
    let s2 = spec_run(s, 2);
    let s3 = spec_tick(s2);
    assert(s3.t_step == 0 && s3.pc == wrap_add(s.pc, 1) && s3.reg_a == s.reg_a
        && s3.reg_b == s.reg_b && s3.memory == s.memory && s3.ir == s2.ir
        && s3.output == s.output && s3.hlt == false && s3.cf == carry_add(s.reg_a, s.reg_b)
        && s3.zf == (wrap_add(s.reg_a, s.reg_b) == 0) && s3.clock_mode == s.clock_mode);
    assert(spec_run(s, 3) == s3) by {
        reveal_with_fuel(spec_run, 4);
    }
}

/// LOAD-A indirect (high nibble 0x1): the accumulator receives the byte at
/// the address named by the operand byte; the program counter moves past
/// both bytes.
pub proof fn lemma_load_a_indirect(s: MState)
    requires
        wf(s),
        at_boundary(s),
        s.memory[s.pc as int] >> 4 == 0x1,
    ensures
        ({
            let addr = s.memory[wrap_add(s.pc, 1) as int];
            let v = s.memory[addr as int];
            let t = spec_run(s, 6);
            &&& t.reg_a == v
            &&& t.reg_b == s.reg_b
            &&& t.pc == wrap_add(wrap_add(s.pc, 1), 1)
            &&& t.t_step == 0
            &&& t.hlt == false
            &&& t.memory == s.memory
            &&& t.ir == s.memory[s.pc as int]
            &&& t.output == s.output
            &&& t.cf == carry_add(v, s.reg_b)
            &&& t.zf == (wrap_add(v, s.reg_b) == 0)
            &&& t.clock_mode == s.clock_mode
        }),
{
    let addr = s.memory[wrap_add(s.pc, 1) as int];
    let v = s.memory[addr as int];
    lemma_fetch(s);
    let s2 = spec_run(s, 2);
    let s3 = spec_tick(s2);
    assert(s3.t_step == 3 && s3.mar == wrap_add(s.pc, 1) && s3.pc == wrap_add(s.pc, 1)
        && s3.ir == s2.ir && s3.memory == s.memory && s3.reg_a == s.reg_a
        && s3.reg_b == s.reg_b && s3.output == s.output && s3.hlt == false
        && s3.clock_mode == s.clock_mode);
    let s4 = spec_tick(s3);
    assert(s4.t_step == 4 && s4.bus == addr && s4.mar == addr && s4.pc == wrap_add(s.pc, 1)
        && s4.ir == s2.ir && s4.memory == s.memory && s4.reg_a == s.reg_a
        && s4.reg_b == s.reg_b && s4.output == s.output && s4.hlt == false
        && s4.clock_mode == s.clock_mode);
    let s5 = spec_tick(s4);
    assert(s5.t_step == 5 && s5.bus == v && s5.reg_a == v && s5.reg_b == s.reg_b
        && s5.pc == wrap_add(wrap_add(s.pc, 1), 1) && s5.ir == s2.ir && s5.memory == s.memory
        && s5.output == s.output && s5.hlt == false && s5.clock_mode == s.clock_mode);
    let s6 = spec_tick(s5);
    assert(s6.t_step == 0 && s6.reg_a == v && s6.reg_b == s.reg_b
        && s6.pc == wrap_add(wrap_add(s.pc, 1), 1) && s6.ir == s2.ir && s6.memory == s.memory
        && s6.output == s.output && s6.hlt == false && s6.cf == carry_add(v, s.reg_b)
        && s6.zf == (wrap_add(v, s.reg_b) == 0) && s6.clock_mode == s.clock_mode);
    assert(spec_run(s, 6) == s6) by {
        reveal_with_fuel(spec_run, 7);
    }
}

/// LOAD-A immediate (high nibble 0x2): the accumulator receives the operand
/// byte itself.
pub proof fn lemma_load_a_immediate(s: MState)
    requires
        wf(s),
        at_boundary(s),
        s.memory[s.pc as int] >> 4 == 0x2,
    ensures
        ({
            let d = s.memory[wrap_add(s.pc, 1) as int];
            let t = spec_run(s, 5);
            &&& t.reg_a == d
            &&& t.reg_b == s.reg_b
            &&& t.pc == wrap_add(wrap_add(s.pc, 1), 1)
            &&& t.t_step == 0
            &&& t.hlt == false
            &&& t.memory == s.memory
            &&& t.ir == s.memory[s.pc as int]
            &&& t.output == s.output
            &&& t.cf == carry_add(d, s.reg_b)
            &&& t.zf == (wrap_add(d, s.reg_b) == 0)
            &&& t.clock_mode == s.clock_mode
        }),
{
    let d = s.memory[wrap_add(s.pc, 1) as int];
    lemma_fetch(s);
    let s2 = spec_run(s, 2);
    let s3 = spec_tick(s2);
    assert(s3.t_step == 3 && s3.mar == wrap_add(s.pc, 1) && s3.pc == wrap_add(s.pc, 1)
        && s3.ir == s2.ir && s3.memory == s.memory && s3.reg_a == s.reg_a
        && s3.reg_b == s.reg_b && s3.output == s.output && s3.hlt == false
        && s3.clock_mode == s.clock_mode);
    let s4 = spec_tick(s3);
    assert(s4.t_step == 4 && s4.bus == d && s4.reg_a == d && s4.reg_b == s.reg_b
        && s4.pc == wrap_add(wrap_add(s.pc, 1), 1) && s4.ir == s2.ir && s4.memory == s.memory
        && s4.output == s.output && s4.hlt == false && s4.clock_mode == s.clock_mode);
    let s5 = spec_tick(s4);
    assert(s5.t_step == 0 && s5.reg_a == d && s5.reg_b == s.reg_b
        && s5.pc == wrap_add(wrap_add(s.pc, 1), 1) && s5.ir == s2.ir && s5.memory == s.memory
        && s5.output == s.output && s5.hlt == false && s5.cf == carry_add(d, s.reg_b)
        && s5.zf == (wrap_add(d, s.reg_b) == 0) && s5.clock_mode == s.clock_mode);
    assert(spec_run(s, 5) == s5) by {
        reveal_with_fuel(spec_run, 6);
    }
}

/// LOAD-B indirect (high nibble 0x3): the B register receives the byte at
/// the address named by the operand byte.
pub proof fn lemma_load_b_indirect(s: MState)
    requires
        wf(s),
        at_boundary(s),
        s.memory[s.pc as int] >> 4 == 0x3,
    ensures
        ({
            let addr = s.memory[wrap_add(s.pc, 1) as int];
            let v = s.memory[addr as int];
            let t = spec_run(s, 6);
            &&& t.reg_a == s.reg_a
            &&& t.reg_b == v
            &&& t.pc == wrap_add(wrap_add(s.pc, 1), 1)
            &&& t.t_step == 0
            &&& t.hlt == false
            &&& t.memory == s.memory
            &&& t.ir == s.memory[s.pc as int]
            &&& t.output == s.output
            &&& t.cf == carry_add(s.reg_a, v)
            &&& t.zf == (wrap_add(s.reg_a, v) == 0)
            &&& t.clock_mode == s.clock_mode
        }),
{
    let addr = s.memory[wrap_add(s.pc, 1) as int];
    let v = s.memory[addr as int];
    lemma_fetch(s);
    let s2 = spec_run(s, 2);
    let s3 = spec_tick(s2);
    assert(s3.t_step == 3 && s3.mar == wrap_add(s.pc, 1) && s3.pc == wrap_add(s.pc, 1)
        && s3.ir == s2.ir && s3.memory == s.memory && s3.reg_a == s.reg_a
        && s3.reg_b == s.reg_b && s3.output == s.output && s3.hlt == false
        && s3.clock_mode == s.clock_mode);
    let s4 = spec_tick(s3);
    assert(s4.t_step == 4 && s4.bus == addr && s4.mar == addr && s4.pc == wrap_add(s.pc, 1)
        && s4.ir == s2.ir && s4.memory == s.memory && s4.reg_a == s.reg_a
        && s4.reg_b == s.reg_b && s4.output == s.output && s4.hlt == false
        && s4.clock_mode == s.clock_mode);
    let s5 = spec_tick(s4);
    assert(s5.t_step == 5 && s5.bus == v && s5.reg_a == s.reg_a && s5.reg_b == v
        && s5.pc == wrap_add(wrap_add(s.pc, 1), 1) && s5.ir == s2.ir && s5.memory == s.memory
        && s5.output == s.output && s5.hlt == false && s5.clock_mode == s.clock_mode);
    let s6 = spec_tick(s5);
    assert(s6.t_step == 0 && s6.reg_a == s.reg_a && s6.reg_b == v
        && s6.pc == wrap_add(wrap_add(s.pc, 1), 1) && s6.ir == s2.ir && s6.memory == s.memory
        && s6.output == s.output && s6.hlt == false && s6.cf == carry_add(s.reg_a, v)
        && s6.zf == (wrap_add(s.reg_a, v) == 0) && s6.clock_mode == s.clock_mode);
    assert(spec_run(s, 6) == s6) by {
        reveal_with_fuel(spec_run, 7);
    }
}

/// LOAD-B immediate (high nibble 0x4): the B register receives the operand
/// byte itself.
pub proof fn lemma_load_b_immediate(s: MState)
    requires
        wf(s),
        at_boundary(s),
        s.memory[s.pc as int] >> 4 == 0x4,
    ensures
        ({
            let d = s.memory[wrap_add(s.pc, 1) as int];
            let t = spec_run(s, 5);
            &&& t.reg_a == s.reg_a
            &&& t.reg_b == d
            &&& t.pc == wrap_add(wrap_add(s.pc, 1), 1)
            &&& t.t_step == 0
            &&& t.hlt == false
            &&& t.memory == s.memory
            &&& t.ir == s.memory[s.pc as int]
            &&& t.output == s.output
            &&& t.cf == carry_add(s.reg_a, d)
            &&& t.zf == (wrap_add(s.reg_a, d) == 0)
            &&& t.clock_mode == s.clock_mode
        }),
{
    let d = s.memory[wrap_add(s.pc, 1) as int];
    lemma_fetch(s);
    let s2 = spec_run(s, 2);
    let s3 = spec_tick(s2);
    assert(s3.t_step == 3 && s3.mar == wrap_add(s.pc, 1) && s3.pc == wrap_add(s.pc, 1)
        && s3.ir == s2.ir && s3.memory == s.memory && s3.reg_a == s.reg_a
        && s3.reg_b == s.reg_b && s3.output == s.output && s3.hlt == false
        && s3.clock_mode == s.clock_mode);
    let s4 = spec_tick(s3);
    assert(s4.t_step == 4 && s4.bus == d && s4.reg_a == s.reg_a && s4.reg_b == d
        && s4.pc == wrap_add(wrap_add(s.pc, 1), 1) && s4.ir == s2.ir && s4.memory == s.memory
        && s4.output == s.output && s4.hlt == false && s4.clock_mode == s.clock_mode);
    let s5 = spec_tick(s4);
    assert(s5.t_step == 0 && s5.reg_a == s.reg_a && s5.reg_b == d
        && s5.pc == wrap_add(wrap_add(s.pc, 1), 1) && s5.ir == s2.ir && s5.memory == s.memory
        && s5.output == s.output && s5.hlt == false && s5.cf == carry_add(s.reg_a, d)
        && s5.zf == (wrap_add(s.reg_a, d) == 0) && s5.clock_mode == s.clock_mode);
    assert(spec_run(s, 5) == s5) by {
        reveal_with_fuel(spec_run, 6);
    }
}

/// ADD indirect (high nibble 0x5): the accumulator receives `A + v` for the
/// byte `v` at the address named by the operand; after the arithmetic
/// microstep the flags are those of that addition.
pub proof fn lemma_add_indirect(s: MState)
    requires
        wf(s),
        at_boundary(s),
        s.memory[s.pc as int] >> 4 == 0x5,
    ensures
        ({
            let addr = s.memory[wrap_add(s.pc, 1) as int];
            let v = s.memory[addr as int];
            let a1 = wrap_add(s.reg_a, v);
            let m = spec_run(s, 6);
            let t = spec_run(s, 7);
            &&& m.reg_a == a1
            &&& m.cf == carry_add(s.reg_a, v)
            &&& m.zf == (a1 == 0)
            &&& m.t_step == 6
            &&& t.reg_a == a1
            &&& t.reg_b == v
            &&& t.pc == wrap_add(wrap_add(s.pc, 1), 1)
            &&& t.t_step == 0
            &&& t.hlt == false
            &&& t.memory == s.memory
            &&& t.ir == s.memory[s.pc as int]
            &&& t.output == s.output
            &&& t.cf == carry_add(a1, v)
            &&& t.zf == (wrap_add(a1, v) == 0)
            &&& t.clock_mode == s.clock_mode
        }),
{
    let addr = s.memory[wrap_add(s.pc, 1) as int];
    let v = s.memory[addr as int];
    let a1 = wrap_add(s.reg_a, v);
    lemma_fetch(s);
    let s2 = spec_run(s, 2);
    let s3 = spec_tick(s2);
    assert(s3.t_step == 3 && s3.mar == wrap_add(s.pc, 1) && s3.pc == wrap_add(s.pc, 1)
        && s3.ir == s2.ir && s3.memory == s.memory && s3.reg_a == s.reg_a
        && s3.reg_b == s.reg_b && s3.output == s.output && s3.hlt == false
        && s3.clock_mode == s.clock_mode);
    let s4 = spec_tick(s3);
    assert(s4.t_step == 4 && s4.bus == addr && s4.mar == addr && s4.pc == wrap_add(s.pc, 1)
        && s4.ir == s2.ir && s4.memory == s.memory && s4.reg_a == s.reg_a
        && s4.reg_b == s.reg_b && s4.output == s.output && s4.hlt == false
        && s4.clock_mode == s.clock_mode);
    let s5 = spec_tick(s4);
    assert(s5.t_step == 5 && s5.bus == v && s5.reg_b == v && s5.reg_a == s.reg_a
        && s5.mar == addr && s5.pc == wrap_add(s.pc, 1) && s5.ir == s2.ir
        && s5.memory == s.memory && s5.output == s.output && s5.hlt == false
        && s5.clock_mode == s.clock_mode);
    let s6 = spec_tick(s5);
    assert(s6.t_step == 6 && s6.alu_out == a1 && s6.reg_a == a1 && s6.reg_b == v
        && s6.cf == carry_add(s.reg_a, v) && s6.zf == (a1 == 0)
        && s6.pc == wrap_add(wrap_add(s.pc, 1), 1) && s6.ir == s2.ir && s6.memory == s.memory
        && s6.output == s.output && s6.hlt == false && s6.clock_mode == s.clock_mode);
    let s7 = spec_tick(s6);
    assert(s7.t_step == 0 && s7.reg_a == a1 && s7.reg_b == v
        && s7.pc == wrap_add(wrap_add(s.pc, 1), 1) && s7.ir == s2.ir && s7.memory == s.memory
        && s7.output == s.output && s7.hlt == false && s7.cf == carry_add(a1, v)
        && s7.zf == (wrap_add(a1, v) == 0) && s7.clock_mode == s.clock_mode);
    assert(spec_run(s, 6) == s6 && spec_run(s, 7) == s7) by {
        reveal_with_fuel(spec_run, 8);
    }
}

/// ADD immediate (high nibble 0x6): after its arithmetic microstep the
/// accumulator holds `A + d` for the operand byte `d`, with the carry and
/// zero flags of that addition; the final step-reset pulse then recomputes
/// the flags once more from the new registers.
pub proof fn lemma_add_immediate(s: MState)
    requires
        wf(s),
        at_boundary(s),
        s.memory[s.pc as int] >> 4 == 0x6,
    ensures
        ({
            let d = s.memory[wrap_add(s.pc, 1) as int];
            let a1 = wrap_add(s.reg_a, d);
            let m = spec_run(s, 5);
            let t = spec_run(s, 6);
            &&& m.reg_a == a1
            &&& m.cf == carry_add(s.reg_a, d)
            &&& m.zf == (a1 == 0)
            &&& m.t_step == 5
            &&& t.reg_a == a1
            &&& t.reg_b == d
            &&& t.pc == wrap_add(wrap_add(s.pc, 1), 1)
            &&& t.t_step == 0
            &&& t.hlt == false
            &&& t.memory == s.memory
            &&& t.ir == s.memory[s.pc as int]
            &&& t.output == s.output
            &&& t.alu_out == wrap_add(a1, d)
            &&& t.cf == carry_add(a1, d)
            &&& t.zf == (wrap_add(a1, d) == 0)
            &&& t.clock_mode == s.clock_mode
        }),
{
    let d = s.memory[wrap_add(s.pc, 1) as int];
    let a1 = wrap_add(s.reg_a, d);
    lemma_fetch(s);
    let s2 = spec_run(s, 2);
    let s3 = spec_tick(s2);
    assert(s3.t_step == 3 && s3.mar == wrap_add(s.pc, 1) && s3.bus == wrap_add(s.pc, 1)
        && s3.pc == wrap_add(s.pc, 1) && s3.ir == s2.ir && s3.memory == s.memory
        && s3.reg_a == s.reg_a && s3.reg_b == s.reg_b && s3.output == s.output
        && s3.hlt == false && s3.clock_mode == s.clock_mode);
    let s4 = spec_tick(s3);
    assert(s4.t_step == 4 && s4.bus == d && s4.reg_b == d && s4.reg_a == s.reg_a
        && s4.mar == wrap_add(s.pc, 1) && s4.pc == wrap_add(s.pc, 1) && s4.ir == s2.ir
        && s4.memory == s.memory && s4.output == s.output && s4.hlt == false
        && s4.clock_mode == s.clock_mode);
    let s5 = spec_tick(s4);
    assert(s5.t_step == 5 && s5.alu_out == a1 && s5.reg_a == a1 && s5.reg_b == d
        && s5.cf == carry_add(s.reg_a, d) && s5.zf == (a1 == 0) && s5.bus == a1
        && s5.mar == wrap_add(s.pc, 1) && s5.pc == wrap_add(wrap_add(s.pc, 1), 1)
        && s5.ir == s2.ir && s5.memory == s.memory && s5.output == s.output && s5.hlt == false
        && s5.clock_mode == s.clock_mode);
    let s6 = spec_tick(s5);
    assert(s6.t_step == 0 && s6.reg_a == a1 && s6.reg_b == d
        && s6.pc == wrap_add(wrap_add(s.pc, 1), 1) && s6.ir == s2.ir && s6.memory == s.memory
        && s6.output == s.output && s6.hlt == false && s6.alu_out == wrap_add(a1, d)
        && s6.cf == carry_add(a1, d) && s6.zf == (wrap_add(a1, d) == 0)
        && s6.clock_mode == s.clock_mode);
    assert(spec_run(s, 5) == s5 && spec_run(s, 6) == s6) by {
        reveal_with_fuel(spec_run, 7);
    }
}

/// SUB indirect (high nibble 0x7): the accumulator receives `A - v` for the
/// byte `v` at the address named by the operand; after the arithmetic
/// microstep the carry flag is the borrow of that subtraction.
pub proof fn lemma_sub_indirect(s: MState)
    requires
        wf(s),
        at_boundary(s),
        s.memory[s.pc as int] >> 4 == 0x7,
    ensures
        ({
            let addr = s.memory[wrap_add(s.pc, 1) as int];
            let v = s.memory[addr as int];
            let a1 = wrap_sub(s.reg_a, v);
            let m = spec_run(s, 6);
            let t = spec_run(s, 7);
            &&& m.reg_a == a1
            &&& m.cf == borrow_sub(s.reg_a, v)
            &&& m.zf == (a1 == 0)
            &&& m.t_step == 6
            &&& t.reg_a == a1
            &&& t.reg_b == v
            &&& t.pc == wrap_add(wrap_add(s.pc, 1), 1)
            &&& t.t_step == 0
            &&& t.hlt == false
            &&& t.memory == s.memory
            &&& t.ir == s.memory[s.pc as int]
            &&& t.output == s.output
            &&& t.cf == carry_add(a1, v)
            &&& t.zf == (wrap_add(a1, v) == 0)
            &&& t.clock_mode == s.clock_mode
        }),
{
    let addr = s.memory[wrap_add(s.pc, 1) as int];
    let v = s.memory[addr as int];
    let a1 = wrap_sub(s.reg_a, v);
    lemma_fetch(s);
    let s2 = spec_run(s, 2);
    let s3 = spec_tick(s2);
    assert(s3.t_step == 3 && s3.mar == wrap_add(s.pc, 1) && s3.pc == wrap_add(s.pc, 1)
        && s3.ir == s2.ir && s3.memory == s.memory && s3.reg_a == s.reg_a
        && s3.reg_b == s.reg_b && s3.output == s.output && s3.hlt == false
        && s3.clock_mode == s.clock_mode);
    let s4 = spec_tick(s3);
    assert(s4.t_step == 4 && s4.bus == addr && s4.mar == addr && s4.pc == wrap_add(s.pc, 1)
        && s4.ir == s2.ir && s4.memory == s.memory && s4.reg_a == s.reg_a
        && s4.reg_b == s.reg_b && s4.output == s.output && s4.hlt == false
        && s4.clock_mode == s.clock_mode);
    let s5 = spec_tick(s4);
    assert(s5.t_step == 5 && s5.bus == v && s5.reg_b == v && s5.reg_a == s.reg_a
        && s5.mar == addr && s5.pc == wrap_add(s.pc, 1) && s5.ir == s2.ir
        && s5.memory == s.memory && s5.output == s.output && s5.hlt == false
        && s5.clock_mode == s.clock_mode);
    let s6 = spec_tick(s5);
    assert(s6.t_step == 6 && s6.alu_out == a1 && s6.reg_a == a1 && s6.reg_b == v
        && s6.cf == borrow_sub(s.reg_a, v) && s6.zf == (a1 == 0)
        && s6.pc == wrap_add(wrap_add(s.pc, 1), 1) && s6.ir == s2.ir && s6.memory == s.memory
        && s6.output == s.output && s6.hlt == false && s6.clock_mode == s.clock_mode);
    let s7 = spec_tick(s6);
    assert(s7.t_step == 0 && s7.reg_a == a1 && s7.reg_b == v
        && s7.pc == wrap_add(wrap_add(s.pc, 1), 1) && s7.ir == s2.ir && s7.memory == s.memory
        && s7.output == s.output && s7.hlt == false && s7.cf == carry_add(a1, v)
        && s7.zf == (wrap_add(a1, v) == 0) && s7.clock_mode == s.clock_mode);
    assert(spec_run(s, 6) == s6 && spec_run(s, 7) == s7) by {
        reveal_with_fuel(spec_run, 8);
    }
}

/// SUB immediate (high nibble 0x8): the accumulator receives `A - d` for the
/// operand byte `d`; after the arithmetic microstep the carry flag is the
/// borrow of that subtraction.
pub proof fn lemma_sub_immediate(s: MState)
    requires
        wf(s),
        at_boundary(s),
        s.memory[s.pc as int] >> 4 == 0x8,
    ensures
        ({
            let d = s.memory[wrap_add(s.pc, 1) as int];
            let a1 = wrap_sub(s.reg_a, d);
            let m = spec_run(s, 5);
            let t = spec_run(s, 6);
            &&& m.reg_a == a1
            &&& m.cf == borrow_sub(s.reg_a, d)
            &&& m.zf == (a1 == 0)
            &&& m.t_step == 5
            &&& t.reg_a == a1
            &&& t.reg_b == d
            &&& t.pc == wrap_add(wrap_add(s.pc, 1), 1)
            &&& t.t_step == 0
            &&& t.hlt == false
            &&& t.memory == s.memory
            &&& t.ir == s.memory[s.pc as int]
            &&& t.output == s.output
            &&& t.cf == carry_add(a1, d)
            &&& t.zf == (wrap_add(a1, d) == 0)
            &&& t.clock_mode == s.clock_mode
        }),
{
    let d = s.memory[wrap_add(s.pc, 1) as int];
    let a1 = wrap_sub(s.reg_a, d);
    lemma_fetch(s);
    let s2 = spec_run(s, 2);
    let s3 = spec_tick(s2);
    assert(s3.t_step == 3 && s3.mar == wrap_add(s.pc, 1) && s3.pc == wrap_add(s.pc, 1)
        && s3.ir == s2.ir && s3.memory == s.memory && s3.reg_a == s.reg_a
        && s3.reg_b == s.reg_b && s3.output == s.output && s3.hlt == false
        && s3.clock_mode == s.clock_mode);
    let s4 = spec_tick(s3);
    assert(s4.t_step == 4 && s4.bus == d && s4.reg_b == d && s4.reg_a == s.reg_a
        && s4.mar == wrap_add(s.pc, 1) && s4.pc == wrap_add(s.pc, 1) && s4.ir == s2.ir
        && s4.memory == s.memory && s4.output == s.output && s4.hlt == false
        && s4.clock_mode == s.clock_mode);
    let s5 = spec_tick(s4);
    assert(s5.t_step == 5 && s5.alu_out == a1 && s5.reg_a == a1 && s5.reg_b == d
        && s5.cf == borrow_sub(s.reg_a, d) && s5.zf == (a1 == 0) && s5.bus == a1
        && s5.pc == wrap_add(wrap_add(s.pc, 1), 1) && s5.ir == s2.ir && s5.memory == s.memory
        && s5.output == s.output && s5.hlt == false && s5.clock_mode == s.clock_mode);
    let s6 = spec_tick(s5);
    assert(s6.t_step == 0 && s6.reg_a == a1 && s6.reg_b == d
        && s6.pc == wrap_add(wrap_add(s.pc, 1), 1) && s6.ir == s2.ir && s6.memory == s.memory
        && s6.output == s.output && s6.hlt == false && s6.cf == carry_add(a1, d)
        && s6.zf == (wrap_add(a1, d) == 0) && s6.clock_mode == s.clock_mode);
    assert(spec_run(s, 5) == s5 && spec_run(s, 6) == s6) by {
        reveal_with_fuel(spec_run, 7);
    }
}

/// STORE-A (high nibble 0x9): the accumulator is written to the address
/// named by the operand byte; no register changes.
pub proof fn lemma_store_a(s: MState)
    requires
        wf(s),
        at_boundary(s),
        s.memory[s.pc as int] >> 4 == 0x9,
    ensures
        ({
            let addr = s.memory[wrap_add(s.pc, 1) as int];
            let t = spec_run(s, 6);
            &&& t.memory == s.memory.update(addr as int, s.reg_a)
            &&& t.reg_a == s.reg_a
            &&& t.reg_b == s.reg_b
            &&& t.pc == wrap_add(wrap_add(s.pc, 1), 1)
            &&& t.t_step == 0
            &&& t.hlt == false
            &&& t.ir == s.memory[s.pc as int]
            &&& t.output == s.output
            &&& t.cf == carry_add(s.reg_a, s.reg_b)
            &&& t.zf == (wrap_add(s.reg_a, s.reg_b) == 0)
            &&& t.clock_mode == s.clock_mode
        }),
{
    let addr = s.memory[wrap_add(s.pc, 1) as int];
    lemma_fetch(s);
    let s2 = spec_run(s, 2);
    let s3 = spec_tick(s2);
    assert(s3.t_step == 3 && s3.mar == wrap_add(s.pc, 1) && s3.pc == wrap_add(s.pc, 1)
        && s3.ir == s2.ir && s3.memory == s.memory && s3.reg_a == s.reg_a
        && s3.reg_b == s.reg_b && s3.output == s.output && s3.hlt == false
        && s3.clock_mode == s.clock_mode);
    let s4 = spec_tick(s3);
    assert(s4.t_step == 4 && s4.bus == addr && s4.mar == addr
        && s4.pc == wrap_add(wrap_add(s.pc, 1), 1) && s4.ir == s2.ir && s4.memory == s.memory
        && s4.reg_a == s.reg_a && s4.reg_b == s.reg_b && s4.output == s.output
        && s4.hlt == false && s4.clock_mode == s.clock_mode);
    let s5 = spec_tick(s4);
    assert(s5.t_step == 5 && s5.bus == s.reg_a
        && s5.memory == s.memory.update(addr as int, s.reg_a) && s5.mar == addr
        && s5.reg_a == s.reg_a && s5.reg_b == s.reg_b
        && s5.pc == wrap_add(wrap_add(s.pc, 1), 1) && s5.ir == s2.ir && s5.output == s.output
        && s5.hlt == false && s5.clock_mode == s.clock_mode);
    let s6 = spec_tick(s5);
    assert(s6.t_step == 0 && s6.memory == s.memory.update(addr as int, s.reg_a)
        && s6.reg_a == s.reg_a && s6.reg_b == s.reg_b
        && s6.pc == wrap_add(wrap_add(s.pc, 1), 1) && s6.ir == s2.ir && s6.output == s.output
        && s6.hlt == false && s6.cf == carry_add(s.reg_a, s.reg_b)
        && s6.zf == (wrap_add(s.reg_a, s.reg_b) == 0) && s6.clock_mode == s.clock_mode);
    assert(spec_run(s, 6) == s6) by {
        reveal_with_fuel(spec_run, 7);
    }
}

/// JUMP (high nibble 0xA): the program counter receives the operand byte
/// unconditionally; nothing else changes.
pub proof fn lemma_jump(s: MState)
    requires
        wf(s),
        at_boundary(s),
        s.memory[s.pc as int] >> 4 == 0xA,
    ensures
        ({
            let target = s.memory[wrap_add(s.pc, 1) as int];
            let t = spec_run(s, 5);
            &&& t.pc == target
            &&& t.reg_a == s.reg_a
            &&& t.reg_b == s.reg_b
            &&& t.t_step == 0
            &&& t.hlt == false
            &&& t.memory == s.memory
            &&& t.ir == s.memory[s.pc as int]
            &&& t.output == s.output
            &&& t.cf == carry_add(s.reg_a, s.reg_b)
            &&& t.zf == (wrap_add(s.reg_a, s.reg_b) == 0)
            &&& t.clock_mode == s.clock_mode
        }),
{
    let target = s.memory[wrap_add(s.pc, 1) as int];
    lemma_fetch(s);
    let s2 = spec_run(s, 2);
    let s3 = spec_tick(s2);
    assert(s3.t_step == 3 && s3.mar == wrap_add(s.pc, 1) && s3.pc == wrap_add(s.pc, 1)
        && s3.ir == s2.ir && s3.memory == s.memory && s3.reg_a == s.reg_a
        && s3.reg_b == s.reg_b && s3.output == s.output && s3.hlt == false
        && s3.clock_mode == s.clock_mode);
    let s4 = spec_tick(s3);
    assert(s4.t_step == 4 && s4.bus == target && s4.pc == target && s4.ir == s2.ir
        && s4.memory == s.memory && s4.reg_a == s.reg_a && s4.reg_b == s.reg_b
        && s4.output == s.output && s4.hlt == false && s4.clock_mode == s.clock_mode);
    let s5 = spec_tick(s4);
    assert(s5.t_step == 0 && s5.pc == target && s5.reg_a == s.reg_a && s5.reg_b == s.reg_b
        && s5.ir == s2.ir && s5.memory == s.memory && s5.output == s.output && s5.hlt == false
        && s5.cf == carry_add(s.reg_a, s.reg_b) && s5.zf == (wrap_add(s.reg_a, s.reg_b) == 0)
        && s5.clock_mode == s.clock_mode);
    assert(spec_run(s, 5) == s5) by {
        reveal_with_fuel(spec_run, 6);
    }
}

/// COMPARE indirect (high nibble 0xB): the accumulator is untouched and the
/// B register receives the byte `v` at the address named by the operand.
/// The subtraction that sets the flags happens on the same pulse that loads
/// `v`, so it still uses the B register's previous contents; the closing
/// step-reset pulse then recomputes the flags as the addition `A + v`.
pub proof fn lemma_compare_indirect(s: MState)
    requires
        wf(s),
        at_boundary(s),
        s.memory[s.pc as int] >> 4 == 0xB,
    ensures
        ({
            let addr = s.memory[wrap_add(s.pc, 1) as int];
            let v = s.memory[addr as int];
            let m = spec_run(s, 5);
            let t = spec_run(s, 6);
            &&& m.zf == (s.reg_a == s.reg_b)
            &&& m.cf == borrow_sub(s.reg_a, s.reg_b)
            &&& m.reg_a == s.reg_a
            &&& m.t_step == 5
            &&& t.reg_a == s.reg_a
            &&& t.reg_b == v
            &&& t.pc == wrap_add(wrap_add(s.pc, 1), 1)
            &&& t.t_step == 0
            &&& t.hlt == false
            &&& t.memory == s.memory
            &&& t.ir == s.memory[s.pc as int]
            &&& t.output == s.output
            &&& t.cf == carry_add(s.reg_a, v)
            &&& t.zf == (wrap_add(s.reg_a, v) == 0)
            &&& t.clock_mode == s.clock_mode
        }),
{
    let addr = s.memory[wrap_add(s.pc, 1) as int];
    let v = s.memory[addr as int];
    lemma_fetch(s);
    let s2 = spec_run(s, 2);
    let s3 = spec_tick(s2);
    assert(s3.t_step == 3 && s3.mar == wrap_add(s.pc, 1) && s3.pc == wrap_add(s.pc, 1)
        && s3.ir == s2.ir && s3.memory == s.memory && s3.reg_a == s.reg_a
        && s3.reg_b == s.reg_b && s3.output == s.output && s3.hlt == false
        && s3.clock_mode == s.clock_mode);
    let s4 = spec_tick(s3);
    assert(s4.t_step == 4 && s4.bus == addr && s4.mar == addr && s4.pc == wrap_add(s.pc, 1)
        && s4.ir == s2.ir && s4.memory == s.memory && s4.reg_a == s.reg_a
        && s4.reg_b == s.reg_b && s4.output == s.output && s4.hlt == false
        && s4.clock_mode == s.clock_mode);
    let s5 = spec_tick(s4);
    assert(s5.t_step == 5 && s5.bus == v && s5.reg_b == v && s5.reg_a == s.reg_a
        && s5.alu_out == wrap_sub(s.reg_a, s.reg_b) && s5.cf == borrow_sub(s.reg_a, s.reg_b)
        && s5.zf == (wrap_sub(s.reg_a, s.reg_b) == 0)
        && s5.pc == wrap_add(wrap_add(s.pc, 1), 1) && s5.ir == s2.ir && s5.memory == s.memory
        && s5.output == s.output && s5.hlt == false && s5.clock_mode == s.clock_mode);
    assert(s5.zf == (s.reg_a == s.reg_b));
    let s6 = spec_tick(s5);
    assert(s6.t_step == 0 && s6.reg_a == s.reg_a && s6.reg_b == v
        && s6.pc == wrap_add(wrap_add(s.pc, 1), 1) && s6.ir == s2.ir && s6.memory == s.memory
        && s6.output == s.output && s6.hlt == false && s6.cf == carry_add(s.reg_a, v)
        && s6.zf == (wrap_add(s.reg_a, v) == 0) && s6.clock_mode == s.clock_mode);
    assert(spec_run(s, 5) == s5 && spec_run(s, 6) == s6) by {
        reveal_with_fuel(spec_run, 7);
    }
}

/// COMPARE immediate (high nibble 0xC): the accumulator is untouched and the
/// B register receives the operand byte `d`.  The subtraction that sets the
/// flags happens on the same pulse that loads `d`, so it still uses the B
/// register's previous contents; the closing step-reset pulse then
/// recomputes the flags as the addition `A + d`.
pub proof fn lemma_compare_immediate(s: MState)
    requires
        wf(s),
        at_boundary(s),
        s.memory[s.pc as int] >> 4 == 0xC,
    ensures
        ({
            let d = s.memory[wrap_add(s.pc, 1) as int];
            let m = spec_run(s, 4);
            let t = spec_run(s, 5);
            &&& m.zf == (s.reg_a == s.reg_b)
            &&& m.cf == borrow_sub(s.reg_a, s.reg_b)
            &&& m.reg_a == s.reg_a
            &&& m.t_step == 4
            &&& t.reg_a == s.reg_a
            &&& t.reg_b == d
            &&& t.pc == wrap_add(wrap_add(s.pc, 1), 1)
            &&& t.t_step == 0
            &&& t.hlt == false
            &&& t.memory == s.memory
            &&& t.ir == s.memory[s.pc as int]
            &&& t.output == s.output
            &&& t.cf == carry_add(s.reg_a, d)
            &&& t.zf == (wrap_add(s.reg_a, d) == 0)
            &&& t.clock_mode == s.clock_mode
        }),
{
    let d = s.memory[wrap_add(s.pc, 1) as int];
    lemma_fetch(s);
    let s2 = spec_run(s, 2);
    let s3 = spec_tick(s2);
    assert(s3.t_step == 3 && s3.mar == wrap_add(s.pc, 1) && s3.pc == wrap_add(s.pc, 1)
        && s3.ir == s2.ir && s3.memory == s.memory && s3.reg_a == s.reg_a
        && s3.reg_b == s.reg_b && s3.output == s.output && s3.hlt == false
        && s3.clock_mode == s.clock_mode);
    let s4 = spec_tick(s3);
    assert(s4.t_step == 4 && s4.bus == d && s4.reg_b == d && s4.reg_a == s.reg_a
        && s4.alu_out == wrap_sub(s.reg_a, s.reg_b) && s4.cf == borrow_sub(s.reg_a, s.reg_b)
        && s4.zf == (wrap_sub(s.reg_a, s.reg_b) == 0)
        && s4.pc == wrap_add(wrap_add(s.pc, 1), 1) && s4.ir == s2.ir && s4.memory == s.memory
        && s4.output == s.output && s4.hlt == false && s4.clock_mode == s.clock_mode);
    assert(s4.zf == (s.reg_a == s.reg_b));
    let s5 = spec_tick(s4);
    assert(s5.t_step == 0 && s5.reg_a == s.reg_a && s5.reg_b == d
        && s5.pc == wrap_add(wrap_add(s.pc, 1), 1) && s5.ir == s2.ir && s5.memory == s.memory
        && s5.output == s.output && s5.hlt == false && s5.cf == carry_add(s.reg_a, d)
        && s5.zf == (wrap_add(s.reg_a, d) == 0) && s5.clock_mode == s.clock_mode);
    assert(spec_run(s, 4) == s4 && spec_run(s, 5) == s5) by {
        reveal_with_fuel(spec_run, 6);
    }
}

/// BRANCH-IF-NOT-ZERO (high nibble 0xD): because the flags are recomputed on
/// every pulse, the zero flag the branch actually reads at its decision
/// pulse is `A + B == 0 (mod 256)` over the registers as they stand, not the
/// flag that was set when the instruction began.  When that flag is true the
/// program counter only moves past the operand; when it is false the
/// program counter receives the operand byte.
pub proof fn lemma_branch_if_not_zero(s: MState)
    requires
        wf(s),
        at_boundary(s),
        s.memory[s.pc as int] >> 4 == 0xD,
    ensures
        ({
            let target = s.memory[wrap_add(s.pc, 1) as int];
            let zero_at_decision = wrap_add(s.reg_a, s.reg_b) == 0;
            let t = spec_run(s, 5);
            &&& t.pc == if zero_at_decision {
                wrap_add(wrap_add(s.pc, 1), 1)
            } else {
                target
            }
            &&& t.reg_a == s.reg_a
            &&& t.reg_b == s.reg_b
            &&& t.t_step == 0
            &&& t.hlt == false
            &&& t.memory == s.memory
            &&& t.ir == s.memory[s.pc as int]
            &&& t.output == s.output
            &&& t.zf == zero_at_decision
            &&& t.cf == carry_add(s.reg_a, s.reg_b)
            &&& t.clock_mode == s.clock_mode
        }),
{
    let target = s.memory[wrap_add(s.pc, 1) as int];
    let zero_at_decision = wrap_add(s.reg_a, s.reg_b) == 0;
    lemma_fetch(s);
    let s2 = spec_run(s, 2);
    let s3 = spec_tick(s2);
    assert(s3.t_step == 3 && s3.mar == wrap_add(s.pc, 1) && s3.pc == wrap_add(s.pc, 1)
        && s3.ir == s2.ir && s3.memory == s.memory && s3.reg_a == s.reg_a
        && s3.reg_b == s.reg_b && s3.output == s.output && s3.hlt == false
        && s3.zf == zero_at_decision && s3.clock_mode == s.clock_mode);
    let s4 = spec_tick(s3);
    assert(s4.t_step == 4 && s4.bus == target && s4.pc == (if zero_at_decision {
        wrap_add(wrap_add(s.pc, 1), 1)
    } else {
        target
    }) && s4.ir == s2.ir && s4.memory == s.memory && s4.reg_a == s.reg_a
        && s4.reg_b == s.reg_b && s4.output == s.output && s4.hlt == false
        && s4.clock_mode == s.clock_mode);
    let s5 = spec_tick(s4);
    assert(s5.t_step == 0 && s5.pc == s4.pc && s5.reg_a == s.reg_a && s5.reg_b == s.reg_b
        && s5.ir == s2.ir && s5.memory == s.memory && s5.output == s.output && s5.hlt == false
        && s5.zf == zero_at_decision && s5.cf == carry_add(s.reg_a, s.reg_b)
        && s5.clock_mode == s.clock_mode);
    assert(spec_run(s, 5) == s5) by {
        reveal_with_fuel(spec_run, 6);
    }
}

/// JUMP-IF-ZERO (high nibble 0xE): taken exactly when the recomputed zero
/// flag at the decision pulse - `A + B == 0 (mod 256)` - is true.
pub proof fn lemma_jump_if_zero(s: MState)
    requires
        wf(s),
        at_boundary(s),
        s.memory[s.pc as int] >> 4 == 0xE,
    ensures
        ({
            let target = s.memory[wrap_add(s.pc, 1) as int];
            let zero_at_decision = wrap_add(s.reg_a, s.reg_b) == 0;
            let t = spec_run(s, 5);
            &&& t.pc == if zero_at_decision {
                target
            } else {
                wrap_add(wrap_add(s.pc, 1), 1)
            }
            &&& t.reg_a == s.reg_a
            &&& t.reg_b == s.reg_b
            &&& t.t_step == 0
            &&& t.hlt == false
            &&& t.memory == s.memory
            &&& t.ir == s.memory[s.pc as int]
            &&& t.output == s.output
            &&& t.zf == zero_at_decision
            &&& t.cf == carry_add(s.reg_a, s.reg_b)
            &&& t.clock_mode == s.clock_mode
        }),
{
    let target = s.memory[wrap_add(s.pc, 1) as int];
    let zero_at_decision = wrap_add(s.reg_a, s.reg_b) == 0;
    lemma_fetch(s);
    let s2 = spec_run(s, 2);
    let s3 = spec_tick(s2);
    assert(s3.t_step == 3 && s3.mar == wrap_add(s.pc, 1) && s3.pc == wrap_add(s.pc, 1)
        && s3.ir == s2.ir && s3.memory == s.memory && s3.reg_a == s.reg_a
        && s3.reg_b == s.reg_b && s3.output == s.output && s3.hlt == false
        && s3.zf == zero_at_decision && s3.clock_mode == s.clock_mode);
    let s4 = spec_tick(s3);
    assert(s4.t_step == 4 && s4.bus == target && s4.pc == (if zero_at_decision {
        target
    } else {
        wrap_add(wrap_add(s.pc, 1), 1)
    }) && s4.ir == s2.ir && s4.memory == s.memory && s4.reg_a == s.reg_a
        && s4.reg_b == s.reg_b && s4.output == s.output && s4.hlt == false
        && s4.clock_mode == s.clock_mode);
    let s5 = spec_tick(s4);
    assert(s5.t_step == 0 && s5.pc == s4.pc && s5.reg_a == s.reg_a && s5.reg_b == s.reg_b
        && s5.ir == s2.ir && s5.memory == s.memory && s5.output == s.output && s5.hlt == false
        && s5.zf == zero_at_decision && s5.cf == carry_add(s.reg_a, s.reg_b)
        && s5.clock_mode == s.clock_mode);
    assert(spec_run(s, 5) == s5) by {
        reveal_with_fuel(spec_run, 6);
    }
}

/// JUMP-IF-CARRY (byte 0xF0): taken exactly when the recomputed carry flag
/// at the decision pulse - the carry of `A + B` - is true.
pub proof fn lemma_jump_if_carry(s: MState)
    requires
        wf(s),
        at_boundary(s),
        s.memory[s.pc as int] >> 4 == 0xF,
        s.memory[s.pc as int] & 0x0F == 0x0,
    ensures
        ({
            let target = s.memory[wrap_add(s.pc, 1) as int];
            let carry_at_decision = carry_add(s.reg_a, s.reg_b);
            let t = spec_run(s, 5);
            &&& t.pc == if carry_at_decision {
                target
            } else {
                wrap_add(wrap_add(s.pc, 1), 1)
            }
            &&& t.reg_a == s.reg_a
            &&& t.reg_b == s.reg_b
            &&& t.t_step == 0
            &&& t.hlt == false
            &&& t.memory == s.memory
            &&& t.ir == s.memory[s.pc as int]
            &&& t.output == s.output
            &&& t.cf == carry_at_decision
            &&& t.zf == (wrap_add(s.reg_a, s.reg_b) == 0)
            &&& t.clock_mode == s.clock_mode
        }),
{
    let target = s.memory[wrap_add(s.pc, 1) as int];
    let carry_at_decision = carry_add(s.reg_a, s.reg_b);
    lemma_fetch(s);
    let s2 = spec_run(s, 2);
    let s3 = spec_tick(s2);
    assert(s3.t_step == 3 && s3.mar == wrap_add(s.pc, 1) && s3.pc == wrap_add(s.pc, 1)
        && s3.ir == s2.ir && s3.memory == s.memory && s3.reg_a == s.reg_a
        && s3.reg_b == s.reg_b && s3.output == s.output && s3.hlt == false
        && s3.cf == carry_at_decision && s3.clock_mode == s.clock_mode);
    let s4 = spec_tick(s3);
    assert(s4.t_step == 4 && s4.bus == target && s4.pc == (if carry_at_decision {
        target
    } else {
        wrap_add(wrap_add(s.pc, 1), 1)
    }) && s4.ir == s2.ir && s4.memory == s.memory && s4.reg_a == s.reg_a
        && s4.reg_b == s.reg_b && s4.output == s.output && s4.hlt == false
        && s4.clock_mode == s.clock_mode);
    let s5 = spec_tick(s4);
    assert(s5.t_step == 0 && s5.pc == s4.pc && s5.reg_a == s.reg_a && s5.reg_b == s.reg_b
        && s5.ir == s2.ir && s5.memory == s.memory && s5.output == s.output && s5.hlt == false
        && s5.cf == carry_at_decision && s5.zf == (wrap_add(s.reg_a, s.reg_b) == 0)
        && s5.clock_mode == s.clock_mode);
    assert(spec_run(s, 5) == s5) by {
        reveal_with_fuel(spec_run, 6);
    }
}

/// INCREMENT at address (byte 0xF1): the cell named by the operand receives
/// its old value plus the B register (the datapath has no constant-one
/// source, so the increment is by whatever B holds - one, if the program
/// loaded one into B first); the accumulator is clobbered with the result.
/// After the arithmetic microstep the flags are those of that addition.
pub proof fn lemma_increment(s: MState)
    requires
        wf(s),
        at_boundary(s),
        s.memory[s.pc as int] >> 4 == 0xF,
        s.memory[s.pc as int] & 0x0F == 0x1,
    ensures
        ({
            let addr = s.memory[wrap_add(s.pc, 1) as int];
            let v = s.memory[addr as int];
            let r = wrap_add(v, s.reg_b);
            let m = spec_run(s, 6);
            let t = spec_run(s, 8);
            &&& m.reg_a == r
            &&& m.cf == carry_add(v, s.reg_b)
            &&& m.zf == (r == 0)
            &&& m.t_step == 6
            &&& t.memory == s.memory.update(addr as int, r)
            &&& t.reg_a == r
            &&& t.reg_b == s.reg_b
            &&& t.pc == wrap_add(wrap_add(s.pc, 1), 1)
            &&& t.t_step == 0
            &&& t.hlt == false
            &&& t.ir == s.memory[s.pc as int]
            &&& t.output == s.output
            &&& t.cf == carry_add(r, s.reg_b)
            &&& t.zf == (wrap_add(r, s.reg_b) == 0)
            &&& t.clock_mode == s.clock_mode
        }),
{
    let addr = s.memory[wrap_add(s.pc, 1) as int];
    let v = s.memory[addr as int];
    let r = wrap_add(v, s.reg_b);
    lemma_fetch(s);
    let s2 = spec_run(s, 2);
    let s3 = spec_tick(s2);
    assert(s3.t_step == 3 && s3.mar == wrap_add(s.pc, 1) && s3.pc == wrap_add(s.pc, 1)
        && s3.ir == s2.ir && s3.memory == s.memory && s3.reg_a == s.reg_a
        && s3.reg_b == s.reg_b && s3.output == s.output && s3.hlt == false
        && s3.clock_mode == s.clock_mode);
    let s4 = spec_tick(s3);
    assert(s4.t_step == 4 && s4.bus == addr && s4.mar == addr
        && s4.pc == wrap_add(wrap_add(s.pc, 1), 1) && s4.ir == s2.ir && s4.memory == s.memory
        && s4.reg_a == s.reg_a && s4.reg_b == s.reg_b && s4.output == s.output
        && s4.hlt == false && s4.clock_mode == s.clock_mode);
    let s5 = spec_tick(s4);
    assert(s5.t_step == 5 && s5.bus == v && s5.reg_a == v && s5.reg_b == s.reg_b
        && s5.mar == addr && s5.pc == s4.pc && s5.ir == s2.ir && s5.memory == s.memory
        && s5.output == s.output && s5.hlt == false && s5.clock_mode == s.clock_mode);
    let s6 = spec_tick(s5);
    assert(s6.t_step == 6 && s6.alu_out == r && s6.reg_a == r && s6.reg_b == s.reg_b
        && s6.cf == carry_add(v, s.reg_b) && s6.zf == (r == 0) && s6.bus == r
        && s6.mar == addr && s6.pc == s4.pc && s6.ir == s2.ir && s6.memory == s.memory
        && s6.output == s.output && s6.hlt == false && s6.clock_mode == s.clock_mode);
    let s7 = spec_tick(s6);
    assert(s7.t_step == 7 && s7.bus == r && s7.memory == s.memory.update(addr as int, r)
        && s7.reg_a == r && s7.reg_b == s.reg_b && s7.mar == addr && s7.pc == s4.pc
        && s7.ir == s2.ir && s7.output == s.output && s7.hlt == false
        && s7.clock_mode == s.clock_mode);
    let s8 = spec_tick(s7);
    assert(s8.t_step == 0 && s8.memory == s.memory.update(addr as int, r) && s8.reg_a == r
        && s8.reg_b == s.reg_b && s8.pc == s4.pc && s8.ir == s2.ir && s8.output == s.output
        && s8.hlt == false && s8.cf == carry_add(r, s.reg_b)
        && s8.zf == (wrap_add(r, s.reg_b) == 0) && s8.clock_mode == s.clock_mode);
    assert(spec_run(s, 6) == s6 && spec_run(s, 8) == s8) by {
        reveal_with_fuel(spec_run, 9);
    }
}

/// DECREMENT at address (byte 0xF2): the cell named by the operand receives
/// its old value minus the B register (one, if the program loaded one into
/// B first); the accumulator is clobbered with the result.  After the
/// arithmetic microstep the carry flag is the borrow of that subtraction.
pub proof fn lemma_decrement(s: MState)
    requires
        wf(s),
        at_boundary(s),
        s.memory[s.pc as int] >> 4 == 0xF,
        s.memory[s.pc as int] & 0x0F == 0x2,
    ensures
        ({
            let addr = s.memory[wrap_add(s.pc, 1) as int];
            let v = s.memory[addr as int];
            let r = wrap_sub(v, s.reg_b);
            let m = spec_run(s, 6);
            let t = spec_run(s, 8);
            &&& m.reg_a == r
            &&& m.cf == borrow_sub(v, s.reg_b)
            &&& m.zf == (r == 0)
            &&& m.t_step == 6
            &&& t.memory == s.memory.update(addr as int, r)
            &&& t.reg_a == r
            &&& t.reg_b == s.reg_b
            &&& t.pc == wrap_add(wrap_add(s.pc, 1), 1)
            &&& t.t_step == 0
            &&& t.hlt == false
            &&& t.ir == s.memory[s.pc as int]
            &&& t.output == s.output
            &&& t.cf == carry_add(r, s.reg_b)
            &&& t.zf == (wrap_add(r, s.reg_b) == 0)
            &&& t.clock_mode == s.clock_mode
        }),
{
    let addr = s.memory[wrap_add(s.pc, 1) as int];
    let v = s.memory[addr as int];
    let r = wrap_sub(v, s.reg_b);
    lemma_fetch(s);
    let s2 = spec_run(s, 2);
    let s3 = spec_tick(s2);
    assert(s3.t_step == 3 && s3.mar == wrap_add(s.pc, 1) && s3.pc == wrap_add(s.pc, 1)
        && s3.ir == s2.ir && s3.memory == s.memory && s3.reg_a == s.reg_a
        && s3.reg_b == s.reg_b && s3.output == s.output && s3.hlt == false
        && s3.clock_mode == s.clock_mode);
    let s4 = spec_tick(s3);
    assert(s4.t_step == 4 && s4.bus == addr && s4.mar == addr
        && s4.pc == wrap_add(wrap_add(s.pc, 1), 1) && s4.ir == s2.ir && s4.memory == s.memory
        && s4.reg_a == s.reg_a && s4.reg_b == s.reg_b && s4.output == s.output
        && s4.hlt == false && s4.clock_mode == s.clock_mode);
    let s5 = spec_tick(s4);
    assert(s5.t_step == 5 && s5.bus == v && s5.reg_a == v && s5.reg_b == s.reg_b
        && s5.mar == addr && s5.pc == s4.pc && s5.ir == s2.ir && s5.memory == s.memory
        && s5.output == s.output && s5.hlt == false && s5.clock_mode == s.clock_mode);
    let s6 = spec_tick(s5);
    assert(s6.t_step == 6 && s6.alu_out == r && s6.reg_a == r && s6.reg_b == s.reg_b
        && s6.cf == borrow_sub(v, s.reg_b) && s6.zf == (r == 0) && s6.bus == r
        && s6.mar == addr && s6.pc == s4.pc && s6.ir == s2.ir && s6.memory == s.memory
        && s6.output == s.output && s6.hlt == false && s6.clock_mode == s.clock_mode);
    let s7 = spec_tick(s6);
    assert(s7.t_step == 7 && s7.bus == r && s7.memory == s.memory.update(addr as int, r)
        && s7.reg_a == r && s7.reg_b == s.reg_b && s7.mar == addr && s7.pc == s4.pc
        && s7.ir == s2.ir && s7.output == s.output && s7.hlt == false
        && s7.clock_mode == s.clock_mode);
    let s8 = spec_tick(s7);
    assert(s8.t_step == 0 && s8.memory == s.memory.update(addr as int, r) && s8.reg_a == r
        && s8.reg_b == s.reg_b && s8.pc == s4.pc && s8.ir == s2.ir && s8.output == s.output
        && s8.hlt == false && s8.cf == carry_add(r, s.reg_b)
        && s8.zf == (wrap_add(r, s.reg_b) == 0) && s8.clock_mode == s.clock_mode);
    assert(spec_run(s, 6) == s6 && spec_run(s, 8) == s8) by {
        reveal_with_fuel(spec_run, 9);
    }
}

/// OUTPUT (byte 0xF3): the output register receives the accumulator after
/// the instruction's two execute microsteps; it is a one-byte instruction,
/// so the program counter moves by one.
pub proof fn lemma_output(s: MState)
    requires
        wf(s),
        at_boundary(s),
        s.memory[s.pc as int] >> 4 == 0xF,
        s.memory[s.pc as int] & 0x0F == 0x3,
    ensures
        ({
            let t = spec_run(s, 4);
            &&& t.output == s.reg_a
            &&& t.reg_a == s.reg_a
            &&& t.reg_b == s.reg_b
            &&& t.pc == wrap_add(s.pc, 1)
            &&& t.t_step == 0
            &&& t.hlt == false
            &&& t.memory == s.memory
            &&& t.ir == s.memory[s.pc as int]
            &&& t.cf == carry_add(s.reg_a, s.reg_b)
            &&& t.zf == (wrap_add(s.reg_a, s.reg_b) == 0)
            &&& t.clock_mode == s.clock_mode
        }),
{
    lemma_fetch(s);
    let s2 = spec_run(s, 2);
    let s3 = spec_tick(s2);
    assert(s3.t_step == 3 && s3.bus == s.reg_a && s3.output == s.reg_a && s3.reg_a == s.reg_a
        && s3.reg_b == s.reg_b && s3.pc == wrap_add(s.pc, 1) && s3.ir == s2.ir
        && s3.memory == s.memory && s3.hlt == false && s3.clock_mode == s.clock_mode);
    let s4 = spec_tick(s3);
    assert(s4.t_step == 0 && s4.output == s.reg_a && s4.reg_a == s.reg_a
        && s4.reg_b == s.reg_b && s4.pc == wrap_add(s.pc, 1) && s4.ir == s2.ir
        && s4.memory == s.memory && s4.hlt == false && s4.cf == carry_add(s.reg_a, s.reg_b)
        && s4.zf == (wrap_add(s.reg_a, s.reg_b) == 0) && s4.clock_mode == s.clock_mode);
    assert(spec_run(s, 4) == s4) by {
        reveal_with_fuel(spec_run, 5);
    }
}

/// HALT (byte 0xFF): the halt line is asserted at the penultimate microstep
/// and the step-reset at the last, so after the full cycle the machine is
/// halted at an instruction boundary with every register, the memory and
/// the output untouched.
pub proof fn lemma_halt_instruction(s: MState)
    requires
        wf(s),
        at_boundary(s),
        s.memory[s.pc as int] >> 4 == 0xF,
        s.memory[s.pc as int] & 0x0F == 0xF,
    ensures
        ({
            let t = spec_run(s, 4);
            &&& t.hlt == true
            &&& t.t_step == 0
            &&& t.reg_a == s.reg_a
            &&& t.reg_b == s.reg_b
            &&& t.pc == wrap_add(s.pc, 1)
            &&& t.memory == s.memory
            &&& t.ir == s.memory[s.pc as int]
            &&& t.output == s.output
            &&& t.clock_mode == s.clock_mode
        }),
{
    lemma_fetch(s);
    let s2 = spec_run(s, 2);
    let s3 = spec_tick(s2);
    assert(s3.t_step == 3 && s3.hlt == true && s3.reg_a == s.reg_a && s3.reg_b == s.reg_b
        && s3.pc == wrap_add(s.pc, 1) && s3.ir == s2.ir && s3.memory == s.memory
        && s3.output == s.output && s3.clock_mode == s.clock_mode);
    let s4 = spec_tick(s3);
    assert(s4.t_step == 0 && s4.hlt == true && s4.reg_a == s.reg_a && s4.reg_b == s.reg_b
        && s4.pc == wrap_add(s.pc, 1) && s4.ir == s2.ir && s4.memory == s.memory
        && s4.output == s.output && s4.clock_mode == s.clock_mode);
    assert(spec_run(s, 4) == s4) by {
        reveal_with_fuel(spec_run, 5);
    }
}

/// An unassigned sub-opcode under the 0xF escape decodes to step-reset alone
/// at its first execute step: the malformed instruction is skipped as a
/// one-byte no-op.
pub proof fn lemma_unassigned_extended(s: MState)
    requires
        wf(s),
        at_boundary(s),
        s.memory[s.pc as int] >> 4 == 0xF,
        s.memory[s.pc as int] & 0x0F != 0x0,
        s.memory[s.pc as int] & 0x0F != 0x1,
        s.memory[s.pc as int] & 0x0F != 0x2,
        s.memory[s.pc as int] & 0x0F != 0x3,
        s.memory[s.pc as int] & 0x0F != 0xF,
    ensures
        ({
            let t = spec_run(s, 3);
            &&& t.t_step == 0
            &&& t.pc == wrap_add(s.pc, 1)
            &&& t.reg_a == s.reg_a
            &&& t.reg_b == s.reg_b
            &&& t.memory == s.memory
            &&& t.ir == s.memory[s.pc as int]
            &&& t.output == s.output
            &&& t.hlt == false
            &&& t.clock_mode == s.clock_mode
        }),
{
    lemma_fetch(s);
    let s2 = spec_run(s, 2);
    let s3 = spec_tick(s2);
    assert(s3.t_step == 0 && s3.pc == wrap_add(s.pc, 1) && s3.reg_a == s.reg_a
        && s3.reg_b == s.reg_b && s3.memory == s.memory && s3.ir == s2.ir
        && s3.output == s.output && s3.hlt == false && s3.clock_mode == s.clock_mode);
    assert(spec_run(s, 3) == s3) by {
        reveal_with_fuel(spec_run, 4);
    }
}

} // verus!
