//! Properties of the machine that hold of every state, proved from the model.

use vstd::prelude::*;
use crate::alu::{
    arithmetic_carry, arithmetic_value, branch_taken, to_signed,
};
use crate::encoding::{Instruction, decode_spec, lemma_decode_ranges, sign_extend5_spec};
use crate::machine::{EngineError, Fault, Outcome, State, operand, run_from, run_spec, step_spec};
use crate::opcode::{
    ADD, DIV, LDR, NEG, NOP, STR, defines_zero, is_arithmetic, is_branch, is_defined, is_logical,
};

verus! {

/// The instruction that the next cycle of `s` fetches.
pub open spec fn fetched(s: State) -> Instruction
    recommends
        s.pc < s.memory.len(),
{
    decode_spec(s.memory[s.pc as int])
}

/// The second operand of the instruction that the next cycle of `s` fetches.
pub open spec fn fetched_operand(s: State) -> u8
    recommends
        s.pc < s.memory.len(),
{
    operand(fetched(s), s.registers)
}

/// An opcode outside the defined set stops the cycle with `UnknownOpcode`, and
/// a run that begins there ends at once, in cycle 0, with the state untouched.
pub proof fn lemma_unknown_opcode(s: State, steps: usize)
    requires
        s.pc < s.memory.len(),
        !is_defined(fetched(s).opcode),
    ensures
        step_spec(s) == Err::<State, Fault>(Fault::UnknownOpcode),
        steps > 0 ==> run_spec(s, steps) == (Outcome {
            state: s,
            result: Err(EngineError { fault: Fault::UnknownOpcode, cycle: 0 }),
        }),
{
}

/// DIV with a second operand of zero stops the cycle with `DivisionByZero`, and
/// a run that begins there ends at once with every register as it was.
pub proof fn lemma_division_by_zero(s: State, steps: usize)
    requires
        s.pc < s.memory.len(),
        fetched(s).opcode == DIV,
        fetched_operand(s) == 0,
    ensures
        step_spec(s) == Err::<State, Fault>(Fault::DivisionByZero),
        steps > 0 ==> run_spec(s, steps) == (Outcome {
            state: s,
            result: Err(EngineError { fault: Fault::DivisionByZero, cycle: 0 }),
        }),
{
}

/// A run that stops early stops before its budget is used up, in the state in
/// which the failing cycle began, and reports the fault of that very cycle.
pub proof fn lemma_run_fault(s: State, done: usize, steps: usize)
    requires
        run_from(s, done, steps).result is Err,
    ensures
        done <= run_from(s, done, steps).result->Err_0.cycle < steps,
        step_spec(run_from(s, done, steps).state) == Err::<State, Fault>(
            run_from(s, done, steps).result->Err_0.fault,
        ),
    decreases steps - done,
{
    if done < steps {
        match step_spec(s) {
            Ok(next) => {
                lemma_run_fault(next, (done + 1) as usize, steps);
            },
            Err(_) => {},
        }
    }
}

/// Counting the cycles of a run from `done + by` instead of `done` changes
/// nothing but the cycle number that a fault is reported with.
proof fn lemma_run_shift(s: State, done: usize, steps: usize, by: usize)
    requires
        done <= steps,
        steps + by <= usize::MAX,
    ensures
        run_from(s, (done + by) as usize, (steps + by) as usize).state == run_from(
            s,
            done,
            steps,
        ).state,
        match run_from(s, done, steps).result {
            Ok(()) => run_from(s, (done + by) as usize, (steps + by) as usize).result is Ok,
            Err(e) => run_from(s, (done + by) as usize, (steps + by) as usize).result == Err::<
                (),
                EngineError,
            >(EngineError { fault: e.fault, cycle: (e.cycle + by) as usize }) && e.cycle < steps,
        },
    decreases steps - done,
{
    if done < steps {
        match step_spec(s) {
            Ok(next) => {
                lemma_run_shift(next, (done + 1) as usize, steps, by);
            },
            Err(_) => {},
        }
    }
}

/// Two runs in a row are one run of the summed budget: if the first `a` cycles
/// succeed, a run of `a + b` cycles ends in the state in which `b` more cycles
/// from there end, and fails if and only if they fail, in cycle `a` plus theirs.
pub proof fn lemma_run_twice(s: State, a: usize, b: usize)
    requires
        a + b <= usize::MAX,
        run_spec(s, a).result is Ok,
    ensures
        run_spec(s, (a + b) as usize).state == run_spec(run_spec(s, a).state, b).state,
        match run_spec(run_spec(s, a).state, b).result {
            Ok(()) => run_spec(s, (a + b) as usize).result is Ok,
            Err(e) => run_spec(s, (a + b) as usize).result == Err::<(), EngineError>(
                EngineError { fault: e.fault, cycle: (a + e.cycle) as usize },
            ),
        },
    decreases a,
{
    lemma_run_shift(run_spec(s, a).state, 0, b, 0);
    if a > 0 {
        let next = step_spec(s)->Ok_0;
        lemma_run_shift(next, 0, (a - 1) as usize, 1);
        lemma_run_shift(next, 0, (a - 1 + b) as usize, 1);
        lemma_run_twice(next, (a - 1) as usize, b);
    }
}

/// A fault is final: a run that stopped early ends the same way however much
/// larger its budget is.
pub proof fn lemma_run_fault_is_final(s: State, done: usize, a: usize, b: usize)
    requires
        a + b <= usize::MAX,
        run_from(s, done, a).result is Err,
    ensures
        run_from(s, done, (a + b) as usize) == run_from(s, done, a),
    decreases a - done,
{
    if done < a {
        match step_spec(s) {
            Ok(next) => {
                lemma_run_fault_is_final(next, (done + 1) as usize, a, b);
            },
            Err(_) => {},
        }
    }
}

/// ADD sets Carry exactly when the unsigned sum exceeds 255, and writes the sum
/// modulo 256.
pub proof fn lemma_add(x: u8, y: u8)
    ensures
        arithmetic_carry(ADD, x, y) <==> x + y > 255,
        arithmetic_value(ADD, x, y) == (x + y) % 256,
{
}

/// NEG writes the two's-complement negation of its operand, cut to eight bits,
/// whatever the first operand is.
pub proof fn lemma_neg(x: u8, y: u8)
    ensures
        arithmetic_value(NEG, x, y) == (256 - y) % 256,
        (arithmetic_value(NEG, x, y) + y) % 256 == 0,
{
}

/// After an instruction that defines the Zero flag, the flag is set exactly
/// when the value just written to the destination register is 0.
pub proof fn lemma_zero_flag(s: State)
    requires
        s.wf(),
        s.pc < s.memory.len(),
        defines_zero(fetched(s).opcode),
        step_spec(s) is Ok,
    ensures
        step_spec(s)->Ok_0.flags.zero <==> step_spec(s)->Ok_0.registers[fetched(s).dest as int]
            == 0,
{
    lemma_decode_ranges(s.memory[s.pc as int]);
}

/// After an arithmetic instruction, Negative is the top bit of the value
/// written and Overflow is set exactly when Negative and Zero differ.
pub proof fn lemma_arithmetic_flags(s: State)
    requires
        s.wf(),
        s.pc < s.memory.len(),
        is_arithmetic(fetched(s).opcode),
        step_spec(s) is Ok,
    ensures
        ({
            let t = step_spec(s)->Ok_0;
            &&& t.flags.negative <==> t.registers[fetched(s).dest as int] >= 128
            &&& t.flags.overflow <==> (t.flags.negative != t.flags.zero)
            &&& t.flags.carry <==> arithmetic_carry(
                fetched(s).opcode,
                s.registers[fetched(s).src1 as int],
                fetched_operand(s),
            )
        }),
{
    lemma_decode_ranges(s.memory[s.pc as int]);
}

/// A logical, shift or load instruction leaves Carry, Negative and Overflow as
/// they were.
pub proof fn lemma_logical_keeps_flags(s: State)
    requires
        s.pc < s.memory.len(),
        is_logical(fetched(s).opcode) || fetched(s).opcode == LDR,
        step_spec(s) is Ok,
    ensures
        step_spec(s)->Ok_0.flags.carry == s.flags.carry,
        step_spec(s)->Ok_0.flags.negative == s.flags.negative,
        step_spec(s)->Ok_0.flags.overflow == s.flags.overflow,
{
}

/// An immediate operand, read as signed, is the sign-extended five-bit field,
/// and since the immediate flag is its top bit it lies in -16..=-1.
pub proof fn lemma_immediate_operand(word: u16, registers: Seq<u8>)
    requires
        decode_spec(word).is_imm,
    ensures
        to_signed(operand(decode_spec(word), registers)) == sign_extend5_spec(
            decode_spec(word).src2,
        ),
        -16 <= sign_extend5_spec(decode_spec(word).src2) <= -1,
{
    lemma_decode_ranges(word);
}

/// A branch that is taken moves the program counter by the signed operand plus
/// one, relative to its own address; one that is not taken moves it by one. A
/// taken branch faults exactly when its target is no address of memory.
/// Either way registers, flags and memory stay as they were.
pub proof fn lemma_branch(s: State)
    requires
        s.pc < s.memory.len(),
        is_branch(fetched(s).opcode),
    ensures
        ({
            let taken = branch_taken(fetched(s).opcode, s.flags);
            let target = s.pc + 1 + to_signed(fetched_operand(s));
            &&& !taken ==> step_spec(s) == Ok::<State, Fault>(State { pc: s.pc + 1, ..s })
            &&& taken && 0 <= target < s.memory.len() ==> step_spec(s) == Ok::<State, Fault>(
                State { pc: target as nat, ..s },
            )
            &&& taken && !(0 <= target < s.memory.len()) ==> step_spec(s) == Err::<State, Fault>(
                Fault::AddressOutOfRange,
            )
        }),
{
}

/// NOP changes nothing but the program counter, which it advances by one.
pub proof fn lemma_nop(s: State)
    requires
        s.pc < s.memory.len(),
        fetched(s).opcode == NOP,
    ensures
        step_spec(s) == Ok::<State, Fault>(State { pc: s.pc + 1, ..s }),
{
}

/// No cycle changes the size of memory or the number of registers, every
/// instruction but a taken branch advances the program counter by exactly one,
/// and only STR writes to memory.
pub proof fn lemma_step_frame(s: State)
    requires
        s.wf(),
        step_spec(s) is Ok,
    ensures
        step_spec(s)->Ok_0.wf(),
        step_spec(s)->Ok_0.memory.len() == s.memory.len(),
        !is_branch(fetched(s).opcode) ==> step_spec(s)->Ok_0.pc == s.pc + 1,
        fetched(s).opcode != STR ==> step_spec(s)->Ok_0.memory == s.memory,
        !defines_zero(fetched(s).opcode) ==> step_spec(s)->Ok_0.registers == s.registers
            && step_spec(s)->Ok_0.flags == s.flags,
{
    lemma_decode_ranges(s.memory[s.pc as int]);
}

/// A value stored with STR and loaded again with LDR from the same address,
/// while nothing wrote to that address in between, arrives unchanged: the
/// loaded register holds what the stored register held. If the stored register
/// was not written in between either, the two registers end up equal.
///
/// `s` is the state before the store, `v` the state before the load.
pub proof fn lemma_store_then_load(s: State, v: State)
    requires
        s.wf(),
        v.wf(),
        s.pc < s.memory.len(),
        fetched(s).opcode == STR,
        step_spec(s) is Ok,
        v.pc < v.memory.len(),
        fetched(v).opcode == LDR,
        fetched_operand(v) == fetched_operand(s),
        v.memory.len() == s.memory.len(),
        v.memory[fetched_operand(s) as int] == step_spec(s)->Ok_0.memory[fetched_operand(s) as int],
    ensures
        step_spec(v) is Ok,
        step_spec(v)->Ok_0.registers[fetched(v).dest as int] == s.registers[(fetched(s).src2
            % 8) as int],
        v.registers[(fetched(s).src2 % 8) as int] == s.registers[(fetched(s).src2 % 8) as int]
            ==> step_spec(v)->Ok_0.registers[(fetched(s).src2 % 8) as int] == step_spec(
            v,
        )->Ok_0.registers[fetched(v).dest as int],
{
    lemma_decode_ranges(s.memory[s.pc as int]);
    lemma_decode_ranges(v.memory[v.pc as int]);
}

/// A run of no cycles succeeds and changes nothing.
pub proof fn lemma_run_zero(s: State)
    ensures
        run_spec(s, 0) == (Outcome { state: s, result: Ok(()) }),
{
}

} // verus!
