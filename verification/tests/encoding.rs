use isa_sim::encoding::{assemble, decode, encode, sign_extend5, Instruction};
use isa_sim::opcode::{
    ADD, AND, ASR, B, BCC, BCS, BEQ, BGE, BGT, BHI, BLE, BLS, BLT, BMI, BNEQ, BPL, BVC, BVS, DIV,
    LDR, LSL, LSR, MUL, NEG, NOP, NOT, OR, STR, SUB, XOR,
};

#[test]
fn opcodes_are_numbered_in_order() {
    let all = [
        NOP, ADD, SUB, MUL, DIV, NEG, AND, OR, XOR, NOT, BEQ, BNEQ, BLT, BLE, BGT, BGE, B, BCS,
        BCC, BMI, BPL, BVS, BVC, BHI, BLS, LSL, LSR, ASR, LDR, STR,
    ];
    for (i, op) in all.iter().enumerate() {
        assert_eq!(*op as usize, i);
    }
}

#[test]
fn encode_places_each_field() {
    assert_eq!(encode(LDR, 6, 0, 0), 0b11100_110_000_00000);
    assert_eq!(encode(LDR, 6, 0, 0), 58880);
    assert_eq!(encode(ADD, 0, 1, 2), 2082);
    assert_eq!(encode(STR, 0, 0, 5), 59397);
    assert_eq!(encode(NOP, 0, 0, 0), 0);
    assert_eq!(encode(1, 0, 0, 0), 1 << 11);
    assert_eq!(encode(0, 1, 0, 0), 1 << 8);
    assert_eq!(encode(0, 0, 1, 0), 1 << 5);
    assert_eq!(encode(0, 0, 0, 1), 1);
    assert_eq!(encode(0, 0, 0, 16), 1 << 4);
}

#[test]
fn encode_masks_what_does_not_fit() {
    assert_eq!(encode(0xff, 0xff, 0xff, 0xff), 0xffff);
    assert_eq!(encode(32, 8, 8, 32), 0);
    assert_eq!(encode(33, 9, 10, 35), encode(1, 1, 2, 3));
}

#[test]
fn decode_reads_each_field() {
    assert_eq!(
        decode(0b11100_110_101_01011),
        Instruction { opcode: 28, dest: 6, src1: 5, is_imm: false, src2: 0b01011 }
    );
    assert_eq!(
        decode(0xffff),
        Instruction { opcode: 31, dest: 7, src1: 7, is_imm: true, src2: 31 }
    );
    assert_eq!(decode(0), Instruction { opcode: 0, dest: 0, src1: 0, is_imm: false, src2: 0 });
}

#[test]
fn decode_inverts_encode_on_every_word() {
    for word in 0..=u16::MAX {
        let ins = decode(word);
        assert!(ins.opcode < 32 && ins.dest < 8 && ins.src1 < 8 && ins.src2 < 32);
        assert_eq!(ins.is_imm, ins.src2 >= 16);
        assert_eq!(encode(ins.opcode, ins.dest, ins.src1, ins.src2), word);
    }
}

#[test]
fn immediate_with_only_the_flag_bit_is_minus_sixteen() {
    let ins = decode(encode(ADD, 0, 0, 0b10000));
    assert!(ins.is_imm);
    assert_eq!(ins.src2, 0b10000);
    assert_eq!(sign_extend5(ins.src2), -16);
}

#[test]
fn sign_extend5_covers_the_whole_range() {
    assert_eq!(sign_extend5(0), 0);
    assert_eq!(sign_extend5(1), 1);
    assert_eq!(sign_extend5(15), 15);
    assert_eq!(sign_extend5(16), -16);
    assert_eq!(sign_extend5(17), -15);
    assert_eq!(sign_extend5(31), -1);
    assert_eq!(sign_extend5(0b111_10000), -16);
    assert_eq!(sign_extend5(0b111_01111), 15);
}

#[test]
fn every_immediate_is_negative() {
    for word in 0..=u16::MAX {
        let ins = decode(word);
        if ins.is_imm {
            let v = sign_extend5(ins.src2);
            assert!((-16..=-1).contains(&v));
        }
    }
}

#[test]
fn assemble_encodes_in_order() {
    let words = assemble(&vec![(LDR, 6, 0, 0), (LDR, 7, 0, 1), (ADD, 0, 1, 2), (STR, 0, 0, 5)]);
    assert_eq!(words, vec![58880, 59137, 2082, 59397]);
    assert_eq!(assemble(&Vec::new()), Vec::<u16>::new());
}
