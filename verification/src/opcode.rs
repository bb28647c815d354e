//! The numeric opcodes and the families they fall into.

use vstd::prelude::*;

verus! {

pub const NOP: u8 = 0;

pub const ADD: u8 = 1;
pub const SUB: u8 = 2;
pub const MUL: u8 = 3;
pub const DIV: u8 = 4;
pub const NEG: u8 = 5;

pub const AND: u8 = 6;
pub const OR: u8 = 7;
pub const XOR: u8 = 8;
pub const NOT: u8 = 9;

pub const BEQ: u8 = 10;
pub const BNEQ: u8 = 11;
pub const BLT: u8 = 12;
pub const BLE: u8 = 13;
pub const BGT: u8 = 14;
pub const BGE: u8 = 15;
pub const B: u8 = 16;

pub const BCS: u8 = 17;
pub const BCC: u8 = 18;
pub const BMI: u8 = 19;
pub const BPL: u8 = 20;
pub const BVS: u8 = 21;
pub const BVC: u8 = 22;
pub const BHI: u8 = 23;
pub const BLS: u8 = 24;

pub const LSL: u8 = 25;
pub const LSR: u8 = 26;
pub const ASR: u8 = 27;

pub const LDR: u8 = 28;
pub const STR: u8 = 29;

/// The opcode selects one of the thirty instructions of the machine.
pub open spec fn is_defined(op: u8) -> bool {
    op <= STR
}

/// ADD, SUB, MUL, DIV, NEG: write a register and all four flags.
pub open spec fn is_arithmetic(op: u8) -> bool {
    ADD <= op <= NEG
}

/// AND, OR, XOR, NOT and the three shifts: write a register and the Zero flag.
pub open spec fn is_logical(op: u8) -> bool {
    AND <= op <= NOT || LSL <= op <= ASR
}

/// The fifteen branches: read the flags, write nothing but the program counter.
pub open spec fn is_branch(op: u8) -> bool {
    BEQ <= op <= BLS
}

/// The instructions that define the Zero flag from the value they write.
pub open spec fn defines_zero(op: u8) -> bool {
    is_arithmetic(op) || is_logical(op) || op == LDR
}

} // verus!
