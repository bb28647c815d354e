//! The machine as a mathematical object: its state, and what one
//! fetch-decode-execute cycle and a run of several cycles do to it.

use vstd::prelude::*;
use crate::alu::{
    Flags, arithmetic_carry, arithmetic_flags, arithmetic_value, branch_taken, logical_value,
    to_byte, to_signed,
};
use crate::encoding::{Instruction, decode_spec, sign_extend5_spec};
use crate::opcode::{DIV, LDR, NOP, STR, is_arithmetic, is_branch, is_logical};

verus! {

/// Why a cycle could not be carried out.
#[derive(Clone, Copy, Debug, PartialEq, Eq, Structural)]
pub enum Fault {
    /// The opcode field selects no instruction.
    UnknownOpcode,
    /// DIV with a second operand of zero.
    DivisionByZero,
    /// The program counter, a load or store address, or the target of a taken
    /// branch lies outside memory.
    AddressOutOfRange,
}

/// A fault together with the cycle of the run, counted from zero, that met it.
#[derive(Clone, Copy, Debug, PartialEq, Eq, Structural)]
pub struct EngineError {
    pub fault: Fault,
    pub cycle: usize,
}

/// The five shapes the result of an instruction can take.
#[derive(Clone, Copy, Debug, PartialEq, Eq, Structural)]
pub enum Effect {
    /// Nothing changes but the program counter.
    Nothing,
    /// The destination register and all four flags are written.
    Arithmetic { value: u8, carry: bool },
    /// The destination register and the Zero flag are written.
    Register { value: u8 },
    /// The program counter moves by the displacement if `taken`.
    Branch { taken: bool },
    /// A register is written to memory.
    Store,
}

/// Everything that can be observed of the machine between two cycles.
pub struct State {
    pub memory: Seq<u16>,
    pub registers: Seq<u8>,
    pub flags: Flags,
    pub pc: nat,
}

impl State {
    /// There are eight registers.
    pub open spec fn wf(self) -> bool {
        self.registers.len() == 8
    }
}

/// The machine at power-on: `image` at the bottom of a memory of `mem_size`
/// words that is zero elsewhere, registers and flags cleared, execution about
/// to start at address 0.
pub open spec fn initial_state(mem_size: nat, image: Seq<u16>) -> State {
    State {
        memory: Seq::new(
            mem_size,
            |i: int|
                if i < image.len() {
                    image[i]
                } else {
                    0u16
                },
        ),
        registers: Seq::new(8, |i: int| 0u8),
        flags: Flags { zero: false, carry: false, negative: false, overflow: false },
        pc: 0,
    }
}

/// The second operand: the sign-extended five-bit field as a byte if the
/// immediate flag is set, else the register that the low three bits name.
pub open spec fn operand(ins: Instruction, registers: Seq<u8>) -> u8 {
    if ins.is_imm {
        to_byte(sign_extend5_spec(ins.src2))
    } else {
        registers[(ins.src2 % 8) as int]
    }
}

/// What the instruction `op` yields on operands `x` and `y`, or the fault that
/// stops it before anything is written.
pub open spec fn evaluate_spec(op: u8, x: u8, y: u8, flags: Flags, memory: Seq<u16>) -> Result<
    Effect,
    Fault,
> {
    if op == NOP {
        Ok(Effect::Nothing)
    } else if is_arithmetic(op) {
        if op == DIV && y == 0 {
            Err(Fault::DivisionByZero)
        } else {
            Ok(
                Effect::Arithmetic {
                    value: arithmetic_value(op, x, y),
                    carry: arithmetic_carry(op, x, y),
                },
            )
        }
    } else if is_logical(op) {
        Ok(Effect::Register { value: logical_value(op, x, y) })
    } else if is_branch(op) {
        Ok(Effect::Branch { taken: branch_taken(op, flags) })
    } else if op == LDR {
        if y < memory.len() {
            Ok(Effect::Register { value: (memory[y as int] % 256) as u8 })
        } else {
            Err(Fault::AddressOutOfRange)
        }
    } else if op == STR {
        Ok(Effect::Store)
    } else {
        Err(Fault::UnknownOpcode)
    }
}

/// The state after `effect` has been carried out and the program counter
/// advanced, or the fault that leaves the state as it was.
///
/// A taken branch lands on `pc + 1 + y`, `y` read as signed; the target must be
/// an address of memory. A store writes the register named by the low three
/// bits of the second-operand field to address `y`.
pub open spec fn apply_spec(s: State, ins: Instruction, y: u8, effect: Effect) -> Result<
    State,
    Fault,
> {
    match effect {
        Effect::Nothing => Ok(State { pc: s.pc + 1, ..s }),
        Effect::Arithmetic { value, carry } => Ok(
            State {
                registers: s.registers.update(ins.dest as int, value),
                flags: arithmetic_flags(value, carry),
                pc: s.pc + 1,
                ..s
            },
        ),
        Effect::Register { value } => Ok(
            State {
                registers: s.registers.update(ins.dest as int, value),
                flags: Flags { zero: value == 0, ..s.flags },
                pc: s.pc + 1,
                ..s
            },
        ),
        Effect::Branch { taken } => {
            if !taken {
                Ok(State { pc: s.pc + 1, ..s })
            } else if 0 <= s.pc + 1 + to_signed(y) < s.memory.len() {
                Ok(State { pc: (s.pc + 1 + to_signed(y)) as nat, ..s })
            } else {
                Err(Fault::AddressOutOfRange)
            }
        },
        Effect::Store => {
            if y < s.memory.len() {
                Ok(
                    State {
                        memory: s.memory.update(y as int, s.registers[(ins.src2 % 8) as int] as u16),
                        pc: s.pc + 1,
                        ..s
                    },
                )
            } else {
                Err(Fault::AddressOutOfRange)
            }
        },
    }
}

/// One cycle: fetch the word at the program counter, decode it, read the
/// operands, evaluate, apply. A fault leaves no trace in the state.
pub open spec fn step_spec(s: State) -> Result<State, Fault> {
    if s.pc >= s.memory.len() {
        Err(Fault::AddressOutOfRange)
    } else {
        let ins = decode_spec(s.memory[s.pc as int]);
        let x = s.registers[ins.src1 as int];
        let y = operand(ins, s.registers);
        match evaluate_spec(ins.opcode, x, y, s.flags, s.memory) {
            Ok(effect) => apply_spec(s, ins, y, effect),
            Err(fault) => Err(fault),
        }
    }
}

/// Where a run ends: the state it leaves, and either success or the fault with
/// the cycle that met it.
pub struct Outcome {
    pub state: State,
    pub result: Result<(), EngineError>,
}

/// The rest of a run of `steps` cycles of which `done` are behind: cycle
/// after cycle until the budget is used up or a cycle faults.
pub open spec fn run_from(s: State, done: usize, steps: usize) -> Outcome
    decreases steps - done,
{
    if done >= steps {
        Outcome { state: s, result: Ok(()) }
    } else {
        match step_spec(s) {
            Ok(next) => run_from(next, (done + 1) as usize, steps),
            Err(fault) => Outcome { state: s, result: Err(EngineError { fault, cycle: done }) },
        }
    }
}

/// A run of up to `steps` cycles from `s`.
pub open spec fn run_spec(s: State, steps: usize) -> Outcome {
    run_from(s, 0, steps)
}

} // verus!
