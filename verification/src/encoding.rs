//! The layout of an instruction word and the two directions through it.
//!
//! | bits  | field                                   |
//! |-------|-----------------------------------------|
//! | 15-11 | opcode                                  |
//! | 10-8  | destination register                    |
//! | 7-5   | first source register                   |
//! | 4     | immediate flag                          |
//! | 4-0   | second source register, or an immediate |
//!
//! The immediate flag is the top bit of the five-bit second-operand field, so
//! an immediate, read as a five-bit two's-complement number, is never positive.

use vstd::prelude::*;

verus! {

/// The fields of one instruction word.
#[derive(Clone, Copy, Debug, PartialEq, Eq, Structural)]
pub struct Instruction {
    pub opcode: u8,
    pub dest: u8,
    pub src1: u8,
    pub is_imm: bool,
    pub src2: u8,
}

/// The fields of `word`, read off arithmetically.
pub open spec fn decode_spec(word: u16) -> Instruction {
    Instruction {
        opcode: (word / 2048) as u8,
        dest: (word / 256 % 8) as u8,
        src1: (word / 32 % 8) as u8,
        is_imm: word / 16 % 2 == 1,
        src2: (word % 32) as u8,
    }
}

/// Splits an instruction word into its fields.
pub fn decode(word: u16) -> (ins: Instruction)
    ensures
        ins == decode_spec(word),
{
    assert((word >> 11) == word / 2048) by (bit_vector);
    assert(((word >> 8) & 7) == word / 256 % 8) by (bit_vector);
    assert(((word >> 5) & 7) == word / 32 % 8) by (bit_vector);
    assert(((word >> 4) & 1) == word / 16 % 2) by (bit_vector);
    assert((word & 31) == word % 32) by (bit_vector);
    Instruction {
        opcode: (word >> 11) as u8,
        dest: ((word >> 8) & 7) as u8,
        src1: ((word >> 5) & 7) as u8,
        is_imm: (word >> 4) & 1 == 1,
        src2: (word & 31) as u8,
    }
}

/// The five-bit field `field` read as a two's-complement number, in -16..=15.
/// Bits above the fifth are ignored.
pub open spec fn sign_extend5_spec(field: u8) -> int {
    if field % 32 >= 16 {
        field % 32 - 32
    } else {
        (field % 32) as int
    }
}

/// Widens the five-bit two's-complement number in the low bits of `field` to
/// eight bits.
pub fn sign_extend5(field: u8) -> (value: i8)
    ensures
        value == sign_extend5_spec(field),
{
    let low: u8 = field & 31;
    assert(low == field % 32) by (bit_vector)
        requires
            low == field & 31,
    ;
    if low >= 16 {
        low as i8 - 32
    } else {
        low as i8
    }
}

/// The word that holds the four fields, each reduced to the width of its slot:
/// five bits of `opcode`, three of `dest`, three of `src1`, five of `src2`.
pub open spec fn encode_spec(opcode: u8, dest: u8, src1: u8, src2: u8) -> u16 {
    ((opcode % 32) * 2048 + (dest % 8) * 256 + (src1 % 8) * 32 + src2 % 32) as u16
}

/// Packs one instruction into a word. No field is validated: what does not fit
/// its slot is masked off.
pub fn encode(opcode: u8, dest: u8, src1: u8, src2: u8) -> (word: u16)
    ensures
        word == encode_spec(opcode, dest, src1, src2),
{
    let word: u16 = ((opcode as u16 & 31) << 11) | ((dest as u16 & 7) << 8) | ((src1 as u16 & 7)
        << 5) | (src2 as u16 & 31);
    assert(word == (opcode % 32) * 2048 + (dest % 8) * 256 + (src1 % 8) * 32 + src2 % 32)
        by (bit_vector)
        requires
            word == ((opcode as u16 & 31) << 11) | ((dest as u16 & 7) << 8) | ((src1 as u16 & 7)
                << 5) | (src2 as u16 & 31),
    ;
    word
}

/// The words of a program: one per instruction, in order.
pub open spec fn assemble_spec(program: Seq<(u8, u8, u8, u8)>) -> Seq<u16> {
    Seq::new(
        program.len(),
        |i: int| encode_spec(program[i].0, program[i].1, program[i].2, program[i].3),
    )
}

/// Encodes a sequence of `(opcode, dest, src1, src2)` tuples into memory words.
pub fn assemble(program: &Vec<(u8, u8, u8, u8)>) -> (words: Vec<u16>)
    ensures
        words@ == assemble_spec(program@),
{
    let mut words: Vec<u16> = Vec::new();
    let mut i: usize = 0;
    while i < program.len()
        invariant
            i <= program.len(),
            words.len() == i,
            forall|k: int|
                0 <= k < i ==> words[k] == encode_spec(
                    program[k].0,
                    program[k].1,
                    program[k].2,
                    program[k].3,
                ),
        decreases program.len() - i,
    {
        let t = program[i];
        words.push(encode(t.0, t.1, t.2, t.3));
        i += 1;
    }
    assert(words@ =~= assemble_spec(program@));
    words
}

/// Decoding an encoded instruction gives back each field, reduced to the width
/// of its slot; the immediate flag is the top bit of the second-operand field.
pub proof fn lemma_decode_encode(opcode: u8, dest: u8, src1: u8, src2: u8)
    ensures
        decode_spec(encode_spec(opcode, dest, src1, src2)) == (Instruction {
            opcode: opcode % 32,
            dest: dest % 8,
            src1: src1 % 8,
            is_imm: src2 % 32 >= 16,
            src2: src2 % 32,
        }),
{
    let a: u16 = (opcode % 32) as u16;
    let b: u16 = (dest % 8) as u16;
    let c: u16 = (src1 % 8) as u16;
    let d: u16 = (src2 % 32) as u16;
    let word: u16 = encode_spec(opcode, dest, src1, src2);
    assert(word == a * 2048 + b * 256 + c * 32 + d);
    assert(word / 2048 == a && word / 256 % 8 == b && word / 32 % 8 == c && word % 32 == d && (word
        / 16 % 2 == 1 <==> d >= 16)) by (bit_vector)
        requires
            a < 32,
            b < 8,
            c < 8,
            d < 32,
            word == a * 2048 + b * 256 + c * 32 + d,
    ;
}

/// Every word is the encoding of its own fields: the layout loses nothing.
pub proof fn lemma_encode_decode(word: u16)
    ensures
        ({
            let ins = decode_spec(word);
            encode_spec(ins.opcode, ins.dest, ins.src1, ins.src2) == word
        }),
{
    let a: u16 = word / 2048;
    let b: u16 = word / 256 % 8;
    let c: u16 = word / 32 % 8;
    let d: u16 = word % 32;
    assert(a < 32 && b < 8 && c < 8 && d < 32 && word == a * 2048 + b * 256 + c * 32 + d)
        by (bit_vector)
        requires
            a == word / 2048,
            b == word / 256 % 8,
            c == word / 32 % 8,
            d == word % 32,
    ;
}

/// The fields of a decoded word lie within their slots, and the immediate flag
/// is set exactly when the second-operand field is 16 or more.
pub proof fn lemma_decode_ranges(word: u16)
    ensures
        decode_spec(word).opcode < 32,
        decode_spec(word).dest < 8,
        decode_spec(word).src1 < 8,
        decode_spec(word).src2 < 32,
        decode_spec(word).is_imm <==> decode_spec(word).src2 >= 16,
{
}

} // verus!
