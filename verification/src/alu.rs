//! What each instruction family computes from its two operands and the flags.

use vstd::prelude::*;
use vstd::arithmetic::div_mod::{
    lemma_basic_div, lemma_fundamental_div_mod_converse, lemma_mod_multiples_basic,
};
use vstd::arithmetic::power2::{lemma2_to64, lemma_pow2_adds, lemma_pow2_pos, pow2};
use crate::opcode::{
    ADD, AND, B, BCC, BCS, BEQ, BGE, BGT, BHI, BLE, BLT, BMI, BNEQ, BPL, BVC, BVS, DIV, LSL, LSR,
    MUL, NOT, OR, SUB, XOR, is_arithmetic, is_branch, is_logical,
};

verus! {

/// The four condition flags.
#[derive(Clone, Copy, Debug, PartialEq, Eq, Structural)]
pub struct Flags {
    pub zero: bool,
    pub carry: bool,
    pub negative: bool,
    pub overflow: bool,
}

/// The low eight bits of `v`, as an unsigned byte.
pub open spec fn to_byte(v: int) -> u8 {
    (v % 256) as u8
}

/// The byte `b` read as a two's-complement number, in -128..=127.
pub open spec fn to_signed(b: u8) -> int {
    if b >= 128 {
        b - 256
    } else {
        b as int
    }
}

/// The result of an arithmetic instruction over the integers, before it is
/// cut down to eight bits. Both operands are taken unsigned.
pub open spec fn arithmetic_exact(op: u8, x: u8, y: u8) -> int
    recommends
        is_arithmetic(op),
        op == DIV ==> y != 0,
{
    if op == ADD {
        x + y
    } else if op == SUB {
        x - y
    } else if op == MUL {
        x * y
    } else if op == DIV {
        x as int / y as int
    } else {
        0 - y
    }
}

/// The byte an arithmetic instruction writes: the exact result, wrapped.
pub open spec fn arithmetic_value(op: u8, x: u8, y: u8) -> u8 {
    to_byte(arithmetic_exact(op, x, y))
}

/// Carry: the exact result does not fit in an unsigned byte.
pub open spec fn arithmetic_carry(op: u8, x: u8, y: u8) -> bool {
    arithmetic_exact(op, x, y) < 0 || arithmetic_exact(op, x, y) > 255
}

/// The flags after an arithmetic instruction that wrote `value`.
/// Overflow is set exactly when Negative and Zero differ.
pub open spec fn arithmetic_flags(value: u8, carry: bool) -> Flags {
    Flags { zero: value == 0, carry, negative: value >= 128, overflow: (value >= 128) != (value == 0) }
}

/// `x` shifted left by `n` places; the bits that leave the byte are lost.
pub open spec fn shift_left(x: u8, n: u8) -> u8 {
    if n >= 8 {
        0
    } else {
        x << n
    }
}

/// `x` shifted right by `n` places, zeros coming in at the top.
pub open spec fn shift_right(x: u8, n: u8) -> u8 {
    if n >= 8 {
        0
    } else {
        x >> n
    }
}

/// `x` shifted right by `n` places, copies of its sign bit coming in at the top.
pub open spec fn shift_right_signed(x: u8, n: u8) -> u8 {
    if n >= 8 {
        if x >= 128 {
            255
        } else {
            0
        }
    } else if x >= 128 {
        !((!x) >> n)
    } else {
        x >> n
    }
}

/// The shifts as arithmetic, for every number of places: a left shift
/// multiplies by a power of two and wraps, a right shift divides by it, and a
/// signed right shift divides the byte read as signed, rounding down.
pub proof fn lemma_shifts_are_arithmetic(x: u8, n: u8)
    ensures
        shift_left(x, n) == (x * pow2(n as nat)) % 256,
        shift_right(x, n) == x as int / pow2(n as nat) as int,
        to_signed(shift_right_signed(x, n)) == to_signed(x) / pow2(n as nat) as int,
{
    lemma2_to64();
    if n < 8 {
        let p: u16 = 1u16 << n;
        let left = x << n;
        let right = x >> n;
        let signed = if x >= 128 {
            !((!x) >> n)
        } else {
            x >> n
        };
        assert((n == 0 ==> p == 1) && (n == 1 ==> p == 2) && (n == 2 ==> p == 4) && (n == 3 ==> p
            == 8) && (n == 4 ==> p == 16) && (n == 5 ==> p == 32) && (n == 6 ==> p == 64) && (n == 7
            ==> p == 128)) by (bit_vector)
            requires
                n < 8,
                p == 1u16 << n,
        ;
        assert(p == pow2(n as nat));
        assert(left == (x * p) % 256 && right == x / (p as u8) && (x < 128 ==> signed == x / (
        p as u8)) && (x >= 128 ==> signed >= 128 && (signed - 256) * p <= x - 256 < (signed - 256)
            * p + p)) by (bit_vector)
            requires
                n < 8,
                p == 1u16 << n,
                left == x << n,
                right == x >> n,
                signed == if x >= 128 {
                    !((!x) >> n)
                } else {
                    x >> n
                },
        ;
        if x >= 128 {
            lemma_fundamental_div_mod_converse(
                x - 256,
                p as int,
                signed - 256,
                x - 256 - (signed - 256) * p,
            );
        }
    } else {
        let k = pow2((n - 8) as nat) as int;
        let d = pow2(n as nat) as int;
        lemma_pow2_adds(8, (n - 8) as nat);
        lemma_pow2_pos((n - 8) as nat);
        assert(d == 256 * k && d >= 256) by (nonlinear_arith)
            requires
                d == 256 * k,
                k > 0,
        ;
        assert(x * d == (x * k) * 256) by (nonlinear_arith)
            requires
                d == 256 * k,
        ;
        lemma_mod_multiples_basic(x * k, 256);
        lemma_basic_div(x as int, d);
        if x >= 128 {
            lemma_fundamental_div_mod_converse(x - 256, d, -1, x - 256 + d);
        }
    }
}

/// The byte a logical or shift instruction writes. NOT ignores `x`.
pub open spec fn logical_value(op: u8, x: u8, y: u8) -> u8
    recommends
        is_logical(op),
{
    if op == AND {
        x & y
    } else if op == OR {
        x | y
    } else if op == XOR {
        x ^ y
    } else if op == NOT {
        !y
    } else if op == LSL {
        shift_left(x, y)
    } else if op == LSR {
        shift_right(x, y)
    } else {
        shift_right_signed(x, y)
    }
}

/// Whether the branch `op` is taken under `flags`.
pub open spec fn branch_taken(op: u8, flags: Flags) -> bool
    recommends
        is_branch(op),
{
    if op == BEQ {
        flags.zero
    } else if op == BNEQ {
        !flags.zero
    } else if op == BLT {
        flags.negative != flags.overflow
    } else if op == BLE {
        !flags.zero && flags.negative == flags.overflow
    } else if op == BGT {
        flags.zero && flags.negative == flags.overflow
    } else if op == BGE {
        flags.negative == flags.overflow
    } else if op == B {
        true
    } else if op == BCS {
        flags.carry
    } else if op == BCC {
        !flags.carry
    } else if op == BMI {
        flags.negative
    } else if op == BPL {
        !flags.negative
    } else if op == BVS {
        flags.overflow
    } else if op == BVC {
        !flags.overflow
    } else if op == BHI {
        flags.carry && !flags.zero
    } else {
        !(flags.carry && !flags.zero)
    }
}

/// Computes the byte and the carry of an arithmetic instruction.
pub(crate) fn compute_arithmetic(op: u8, x: u8, y: u8) -> (r: (u8, bool))
    requires
        is_arithmetic(op),
        op == DIV ==> y != 0,
    ensures
        r.0 == arithmetic_value(op, x, y),
        r.1 == arithmetic_carry(op, x, y),
{
    if op == ADD {
        let sum: u16 = x as u16 + y as u16;
        assert((sum & 255) == sum % 256) by (bit_vector);
        ((sum & 255) as u8, sum > 255)
    } else if op == SUB {
        if x >= y {
            (x - y, false)
        } else {
            let wrapped: u16 = 256 + x as u16 - y as u16;
            (wrapped as u8, true)
        }
    } else if op == MUL {
        assert(x * y <= 255 * 255) by (nonlinear_arith)
            requires
                x <= 255,
                y <= 255,
        ;
        let product: u16 = x as u16 * y as u16;
        assert((product & 255) == product % 256) by (bit_vector);
        ((product & 255) as u8, product > 255)
    } else if op == DIV {
        let quotient: u8 = x / y;
        assert(0 <= x as int / y as int <= x) by (nonlinear_arith)
            requires
                y > 0,
                x >= 0,
        ;
        (quotient, false)
    } else {
        if y == 0 {
            (0, false)
        } else {
            let wrapped: u16 = 256 - y as u16;
            (wrapped as u8, true)
        }
    }
}

/// Computes the byte of a logical or shift instruction.
pub(crate) fn compute_logical(op: u8, x: u8, y: u8) -> (value: u8)
    requires
        is_logical(op),
    ensures
        value == logical_value(op, x, y),
{
    if op == AND {
        x & y
    } else if op == OR {
        x | y
    } else if op == XOR {
        x ^ y
    } else if op == NOT {
        !y
    } else if op == LSL {
        if y >= 8 {
            0
        } else {
            x << y
        }
    } else if op == LSR {
        if y >= 8 {
            0
        } else {
            x >> y
        }
    } else {
        if y >= 8 {
            if x >= 128 {
                255
            } else {
                0
            }
        } else if x >= 128 {
            !((!x) >> y)
        } else {
            x >> y
        }
    }
}

/// Evaluates the condition of a branch.
pub(crate) fn test_condition(op: u8, flags: Flags) -> (taken: bool)
    requires
        is_branch(op),
    ensures
        taken == branch_taken(op, flags),
{
    if op == BEQ {
        flags.zero
    } else if op == BNEQ {
        !flags.zero
    } else if op == BLT {
        flags.negative != flags.overflow
    } else if op == BLE {
        !flags.zero && flags.negative == flags.overflow
    } else if op == BGT {
        flags.zero && flags.negative == flags.overflow
    } else if op == BGE {
        flags.negative == flags.overflow
    } else if op == B {
        true
    } else if op == BCS {
        flags.carry
    } else if op == BCC {
        !flags.carry
    } else if op == BMI {
        flags.negative
    } else if op == BPL {
        !flags.negative
    } else if op == BVS {
        flags.overflow
    } else if op == BVC {
        !flags.overflow
    } else if op == BHI {
        flags.carry && !flags.zero
    } else {
        !(flags.carry && !flags.zero)
    }
}

} // verus!
