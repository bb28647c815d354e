//! The executable machine.

use vstd::prelude::*;
use crate::alu::{Flags, compute_arithmetic, compute_logical, test_condition};
use crate::encoding::{Instruction, decode, lemma_decode_ranges, sign_extend5};
use crate::machine::{
    Effect, EngineError, Fault, Outcome, State, apply_spec, evaluate_spec, initial_state, operand,
    run_from, run_spec, step_spec,
};
use crate::opcode::{ADD, AND, ASR, BEQ, BLS, DIV, LDR, LSL, NEG, NOP, NOT, STR};

verus! {

/// Works out what the instruction `op` yields on operands `x` and `y`, without
/// changing anything.
pub fn evaluate(op: u8, x: u8, y: u8, flags: Flags, memory: &Vec<u16>) -> (r: Result<Effect, Fault>)
    ensures
        r == evaluate_spec(op, x, y, flags, memory@),
{
    if op == NOP {
        Ok(Effect::Nothing)
    } else if ADD <= op && op <= NEG {
        if op == DIV && y == 0 {
            Err(Fault::DivisionByZero)
        } else {
            let (value, carry) = compute_arithmetic(op, x, y);
            Ok(Effect::Arithmetic { value, carry })
        }
    } else if (AND <= op && op <= NOT) || (LSL <= op && op <= ASR) {
        Ok(Effect::Register { value: compute_logical(op, x, y) })
    } else if BEQ <= op && op <= BLS {
        Ok(Effect::Branch { taken: test_condition(op, flags) })
    } else if op == LDR {
        if (y as usize) < memory.len() {
            let word: u16 = memory[y as usize];
            assert((word & 255) == word % 256) by (bit_vector);
            Ok(Effect::Register { value: (word & 255) as u8 })
        } else {
            Err(Fault::AddressOutOfRange)
        }
    } else if op == STR {
        Ok(Effect::Store)
    } else {
        Err(Fault::UnknownOpcode)
    }
}

/// The register that the low three bits of `field` name.
fn register_index(field: u8) -> (index: u8)
    ensures
        index == field % 8,
{
    assert(field & 7 == field % 8) by (bit_vector);
    field & 7
}

/// The machine: a memory of 16-bit words, eight 8-bit registers, four flags
/// and a program counter.
pub struct Engine {
    memory: Vec<u16>,
    registers: [u8; 8],
    flags: Flags,
    pc: usize,
}

impl View for Engine {
    type V = State;

    closed spec fn view(&self) -> State {
        State {
            memory: self.memory@,
            registers: self.registers@,
            flags: self.flags,
            pc: self.pc as nat,
        }
    }
}

impl Engine {
    /// Creates a machine with `mem_size` words of memory that hold `image`
    /// from address 0 on and zero above it. An image that does not fit is
    /// refused.
    pub fn new(mem_size: usize, image: &Vec<u16>) -> (r: Result<Engine, Fault>)
        ensures
            match r {
                Ok(engine) => image.len() <= mem_size && engine@ == initial_state(
                    mem_size as nat,
                    image@,
                ),
                Err(fault) => image.len() > mem_size && fault == Fault::AddressOutOfRange,
            },
    {
        if image.len() > mem_size {
            return Err(Fault::AddressOutOfRange);
        }
        let mut memory: Vec<u16> = Vec::new();
        let mut i: usize = 0;
        while i < mem_size
            invariant
                i <= mem_size,
                memory.len() == i,
                forall|k: int|
                    0 <= k < i ==> memory[k] == (if k < image.len() {
                        image[k]
                    } else {
                        0u16
                    }),
            decreases mem_size - i,
        {
            let word: u16 = if i < image.len() {
                image[i]
            } else {
                0
            };
            memory.push(word);
            i += 1;
        }
        let engine = Engine {
            memory,
            registers: [0u8; 8],
            flags: Flags { zero: false, carry: false, negative: false, overflow: false },
            pc: 0,
        };
        assert(engine@.memory =~= initial_state(mem_size as nat, image@).memory);
        assert(engine@.registers =~= initial_state(mem_size as nat, image@).registers);
        Ok(engine)
    }

    /// The program counter: the address of the next instruction.
    pub fn pc(&self) -> (pc: usize)
        ensures
            pc == self@.pc,
    {
        self.pc
    }

    /// The condition flags.
    pub fn flags(&self) -> (flags: Flags)
        ensures
            flags == self@.flags,
    {
        self.flags
    }

    /// The eight registers.
    pub fn registers(&self) -> (registers: &[u8; 8])
        ensures
            registers@ == self@.registers,
    {
        &self.registers
    }

    /// The whole memory.
    pub fn memory(&self) -> (memory: &Vec<u16>)
        ensures
            memory@ == self@.memory,
    {
        &self.memory
    }

    /// There are always eight registers.
    pub proof fn lemma_view_wf(&self)
        ensures
            self@.wf(),
    {
    }

    /// The second operand of `ins`.
    fn read_operand(&self, ins: Instruction) -> (y: u8)
        requires
            ins.src2 < 32,
            ins.is_imm <==> ins.src2 >= 16,
        ensures
            y == operand(ins, self@.registers),
    {
        if ins.is_imm {
            let value: i8 = sign_extend5(ins.src2);
            assert(value as u8 == (value as int + 256) % 256) by (bit_vector)
                requires
                    -16 <= value < 0,
            ;
            value as u8
        } else {
            self.registers[register_index(ins.src2) as usize]
        }
    }

    /// Carries out `effect` and advances the program counter.
    fn apply(&mut self, ins: Instruction, y: u8, effect: Effect) -> (r: Result<(), Fault>)
        requires
            old(self).pc < old(self).memory.len(),
            ins.dest < 8,
        ensures
            match r {
                Ok(()) => apply_spec(old(self)@, ins, y, effect) == Ok::<State, Fault>(
                    final(self)@,
                ),
                Err(fault) => apply_spec(old(self)@, ins, y, effect) == Err::<State, Fault>(fault)
                    && final(self)@ == old(self)@,
            },
    {
        let next: usize = self.pc + 1;
        match effect {
            Effect::Nothing => {
                self.pc = next;
            },
            Effect::Arithmetic { value, carry } => {
                self.registers[ins.dest as usize] = value;
                self.flags = Flags {
                    zero: value == 0,
                    carry,
                    negative: value >= 128,
                    overflow: (value >= 128) != (value == 0),
                };
                self.pc = next;
            },
            Effect::Register { value } => {
                self.registers[ins.dest as usize] = value;
                self.flags.zero = value == 0;
                self.pc = next;
            },
            Effect::Branch { taken } => {
                if !taken {
                    self.pc = next;
                } else if y < 128 {
                    if (y as usize) < self.memory.len() - next {
                        self.pc = next + y as usize;
                    } else {
                        return Err(Fault::AddressOutOfRange);
                    }
                } else {
                    let back: usize = 256 - y as usize;
                    if back <= next {
                        self.pc = next - back;
                    } else {
                        return Err(Fault::AddressOutOfRange);
                    }
                }
            },
            Effect::Store => {
                if (y as usize) < self.memory.len() {
                    let value: u16 = self.registers[register_index(ins.src2) as usize] as u16;
                    self.memory[y as usize] = value;
                    self.pc = next;
                } else {
                    return Err(Fault::AddressOutOfRange);
                }
            },
        }
        Ok(())
    }

    /// Executes one cycle. On a fault nothing has changed.
    pub fn step(&mut self) -> (r: Result<(), Fault>)
        ensures
            match r {
                Ok(()) => step_spec(old(self)@) == Ok::<State, Fault>(final(self)@),
                Err(fault) => step_spec(old(self)@) == Err::<State, Fault>(fault) && final(self)@
                    == old(self)@,
            },
    {
        if self.pc >= self.memory.len() {
            return Err(Fault::AddressOutOfRange);
        }
        let word: u16 = self.memory[self.pc];
        let ins = decode(word);
        proof {
            lemma_decode_ranges(word);
        }
        let x: u8 = self.registers[ins.src1 as usize];
        let y: u8 = self.read_operand(ins);
        match evaluate(ins.opcode, x, y, self.flags, &self.memory) {
            Ok(effect) => self.apply(ins, y, effect),
            Err(fault) => Err(fault),
        }
    }

    /// Executes up to `steps` cycles and stops at the first fault, which it
    /// reports with the number of the cycle that met it.
    pub fn run(&mut self, steps: usize) -> (r: Result<(), EngineError>)
        ensures
            run_spec(old(self)@, steps) == (Outcome { state: final(self)@, result: r }),
            steps == 0 ==> r is Ok && final(self)@ == old(self)@,
    {
        let mut done: usize = 0;
        while done < steps
            invariant
                done <= steps,
                run_from(self@, done, steps) == run_spec(old(self)@, steps),
            decreases steps - done,
        {
            match self.step() {
                Ok(()) => {},
                Err(fault) => {
                    return Err(EngineError { fault, cycle: done });
                },
            }
            done += 1;
        }
        Ok(())
    }
}

} // verus!
