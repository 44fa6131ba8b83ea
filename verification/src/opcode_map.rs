//! The RV32I base opcode map, stated on the bits of the instruction word:
//! which major opcode, `funct3` and `funct7` each operation has, where each
//! register number and each immediate bit lies, and which words are valid.
//! The laws here tie the encoder, the decoder and the instruction's opcode
//! to this map.
use crate::decode::decode_spec;
use crate::encode::encode_spec;
use crate::error::{DecodeError, EncodeError};
use crate::format::{
    b_imm_bits, field, i_imm_bits, i_imm_value, j_imm_bits, s_imm_bits, u_imm_bits, signed_value,
};
use crate::instruction::{
    lemma_fence_bits_round_trip, BranchCond, FenceSet, ImmOp, Instruction, LoadWidth, RegOp,
    StoreWidth,
};
use crate::opcode::Opcode;
use crate::round_trip::{lemma_decode_encoding, lemma_signed_low_bits};
use vstd::arithmetic::power2::lemma2_to64;
use vstd::prelude::*;

verus! {

broadcast use {crate::register::lemma_reg_number, crate::register::lemma_reg_at};

/// `imm[11:0]` of an I-type word: `inst[31:20]`.
pub open spec fn i_pattern(w: u32) -> u32 {
    w >> 20
}

/// `imm[11:0]` of an S-type word: `inst[31:25]` then `inst[11:7]`.
pub open spec fn s_pattern(w: u32) -> u32 {
    ((w >> 25) << 5) | ((w >> 7) & 0x1f)
}

/// `imm[12:1]` of a B-type word, with `imm[0] = 0`: `imm[12] = inst[31]`,
/// `imm[11] = inst[7]`, `imm[10:5] = inst[30:25]`, `imm[4:1] = inst[11:8]`.
pub open spec fn b_pattern(w: u32) -> u32 {
    ((w >> 31) << 12) | (((w >> 7) & 1) << 11) | (((w >> 25) & 0x3f) << 5) | (((w >> 8) & 0xf) << 1)
}

/// `imm[20:1]` of a J-type word, with `imm[0] = 0`: `imm[20] = inst[31]`,
/// `imm[19:12] = inst[19:12]`, `imm[11] = inst[20]`, `imm[10:1] = inst[30:21]`.
pub open spec fn j_pattern(w: u32) -> u32 {
    ((w >> 31) << 20) | (((w >> 12) & 0xff) << 12) | (((w >> 20) & 1) << 11) | (((w >> 21)
        & 0x3ff) << 1)
}

/// `imm[31:12]` of a U-type word, low 12 bits clear: `inst[31:12]`.
pub open spec fn u_pattern(w: u32) -> u32 {
    w & 0xffff_f000
}

/// `w` is the word of `insn` in the RV32I base opcode map: major opcode
/// `inst[6:0]`, `rd = inst[11:7]`, `funct3 = inst[14:12]`,
/// `rs1 = inst[19:15]`, `rs2 = inst[24:20]`, `funct7 = inst[31:25]`, and
/// the immediate's low bits in the format's layout.
pub open spec fn opcode_map_word(insn: Instruction, w: u32) -> bool {
    let opc = w & 0x7f;
    let rd = (w >> 7) & 0x1f;
    let f3 = (w >> 12) & 7;
    let rs1 = (w >> 15) & 0x1f;
    let rs2 = (w >> 20) & 0x1f;
    let f7 = w >> 25;
    match insn {
        Instruction::Lui { rd: d, imm } => opc == 0x37 && rd == d.number() && u_pattern(w) as int
            == (imm as int) % 0x1_0000_0000,
        Instruction::Auipc { rd: d, imm } => opc == 0x17 && rd == d.number() && u_pattern(w) as int
            == (imm as int) % 0x1_0000_0000,
        Instruction::Jal { rd: d, offset } => opc == 0x6f && rd == d.number() && j_pattern(w) as int
            == (offset as int) % 0x20_0000,
        Instruction::Jalr { rd: d, rs1: s, offset } => opc == 0x67 && f3 == 0 && rd == d.number()
            && rs1 == s.number() && i_pattern(w) as int == (offset as int) % 0x1000,
        Instruction::Branch { cond, rs1: a, rs2: b, offset } => opc == 0x63 && f3 == match cond {
            BranchCond::Eq => 0u32,
            BranchCond::Ne => 1u32,
            BranchCond::Lt => 4u32,
            BranchCond::Ge => 5u32,
            BranchCond::Ltu => 6u32,
            BranchCond::Geu => 7u32,
        } && rs1 == a.number() && rs2 == b.number() && b_pattern(w) as int == (offset as int) % 0x2000,
        Instruction::Load { width, rd: d, rs1: s, offset } => opc == 0x03 && f3 == match width {
            LoadWidth::Byte => 0u32,
            LoadWidth::Half => 1u32,
            LoadWidth::Word => 2u32,
            LoadWidth::ByteUnsigned => 4u32,
            LoadWidth::HalfUnsigned => 5u32,
        } && rd == d.number() && rs1 == s.number() && i_pattern(w) as int == (offset as int) % 0x1000,
        Instruction::Store { width, rs1: a, rs2: b, offset } => opc == 0x23 && f3 == match width {
            StoreWidth::Byte => 0u32,
            StoreWidth::Half => 1u32,
            StoreWidth::Word => 2u32,
        } && rs1 == a.number() && rs2 == b.number() && s_pattern(w) as int == (offset as int) % 0x1000,
        Instruction::OpImm { op, rd: d, rs1: s, imm } => opc == 0x13 && f3 == match op {
            ImmOp::Addi => 0u32,
            ImmOp::Slti => 2u32,
            ImmOp::Sltiu => 3u32,
            ImmOp::Xori => 4u32,
            ImmOp::Ori => 6u32,
            ImmOp::Andi => 7u32,
            ImmOp::Slli => 1u32,
            ImmOp::Srli => 5u32,
            ImmOp::Srai => 5u32,
        } && rd == d.number() && rs1 == s.number() && match op {
            ImmOp::Slli | ImmOp::Srli => f7 == 0 && rs2 as int == imm as int,
            ImmOp::Srai => f7 == 0x20 && rs2 as int == imm as int,
            _ => i_pattern(w) as int == (imm as int) % 0x1000,
        },
        Instruction::Op { op, rd: d, rs1: a, rs2: b } => opc == 0x33 && f3 == match op {
            RegOp::Add => 0u32,
            RegOp::Sub => 0u32,
            RegOp::Sll => 1u32,
            RegOp::Slt => 2u32,
            RegOp::Sltu => 3u32,
            RegOp::Xor => 4u32,
            RegOp::Srl => 5u32,
            RegOp::Sra => 5u32,
            RegOp::Or => 6u32,
            RegOp::And => 7u32,
        } && f7 == match op {
            RegOp::Sub | RegOp::Sra => 0x20u32,
            _ => 0u32,
        } && rd == d.number() && rs1 == a.number() && rs2 == b.number(),
        Instruction::Fence { predecessor, successor } => opc == 0x0f && rd == 0 && f3 == 0 && rs1
            == 0 && w >> 28 == 0 && (w >> 24) & 0xf == predecessor.bits_spec() && (w >> 20) & 0xf
            == successor.bits_spec(),
        Instruction::Ecall => w == 0x0000_0073,
        Instruction::Ebreak => w == 0x0010_0073,
    }
}

/// The words of the RV32I base opcode map: the major opcodes with a
/// defined `funct3` (and, for shifts and register-register operations,
/// `funct7`), FENCE with its reserved fields clear, ECALL and EBREAK.
pub open spec fn valid_word(w: u32) -> bool {
    let opc = w & 0x7f;
    let rd = (w >> 7) & 0x1f;
    let f3 = (w >> 12) & 7;
    let rs1 = (w >> 15) & 0x1f;
    let f7 = w >> 25;
    ||| opc == 0x37
    ||| opc == 0x17
    ||| opc == 0x6f
    ||| opc == 0x67 && f3 == 0
    ||| opc == 0x63 && f3 != 2 && f3 != 3
    ||| opc == 0x03 && f3 != 3 && f3 != 6 && f3 != 7
    ||| opc == 0x23 && f3 <= 2
    ||| opc == 0x13 && (f3 != 1 && f3 != 5 || f3 == 1 && f7 == 0 || f3 == 5 && (f7 == 0 || f7
        == 0x20))
    ||| opc == 0x33 && (f7 == 0 || f7 == 0x20 && (f3 == 0 || f3 == 5))
    ||| opc == 0x0f && f3 == 0 && rd == 0 && rs1 == 0 && w >> 28 == 0
    ||| w == 0x0000_0073
    ||| w == 0x0010_0073
}

/// The fixed fields of the word of each operation, by its mnemonic.
pub open spec fn opcode_fields(op: Opcode, w: u32) -> bool {
    let opc = w & 0x7f;
    let f3 = (w >> 12) & 7;
    let f7 = w >> 25;
    match op {
        Opcode::Lui => opc == 0x37,
        Opcode::Auipc => opc == 0x17,
        Opcode::Jal => opc == 0x6f,
        Opcode::Jalr => opc == 0x67 && f3 == 0,
        Opcode::Beq => opc == 0x63 && f3 == 0,
        Opcode::Bne => opc == 0x63 && f3 == 1,
        Opcode::Blt => opc == 0x63 && f3 == 4,
        Opcode::Bge => opc == 0x63 && f3 == 5,
        Opcode::Bltu => opc == 0x63 && f3 == 6,
        Opcode::Bgeu => opc == 0x63 && f3 == 7,
        Opcode::Lb => opc == 0x03 && f3 == 0,
        Opcode::Lh => opc == 0x03 && f3 == 1,
        Opcode::Lw => opc == 0x03 && f3 == 2,
        Opcode::Lbu => opc == 0x03 && f3 == 4,
        Opcode::Lhu => opc == 0x03 && f3 == 5,
        Opcode::Sb => opc == 0x23 && f3 == 0,
        Opcode::Sh => opc == 0x23 && f3 == 1,
        Opcode::Sw => opc == 0x23 && f3 == 2,
        Opcode::Addi => opc == 0x13 && f3 == 0,
        Opcode::Slti => opc == 0x13 && f3 == 2,
        Opcode::Sltiu => opc == 0x13 && f3 == 3,
        Opcode::Xori => opc == 0x13 && f3 == 4,
        Opcode::Ori => opc == 0x13 && f3 == 6,
        Opcode::Andi => opc == 0x13 && f3 == 7,
        Opcode::Slli => opc == 0x13 && f3 == 1 && f7 == 0,
        Opcode::Srli => opc == 0x13 && f3 == 5 && f7 == 0,
        Opcode::Srai => opc == 0x13 && f3 == 5 && f7 == 0x20,
        Opcode::Add => opc == 0x33 && f3 == 0 && f7 == 0,
        Opcode::Sub => opc == 0x33 && f3 == 0 && f7 == 0x20,
        Opcode::Sll => opc == 0x33 && f3 == 1 && f7 == 0,
        Opcode::Slt => opc == 0x33 && f3 == 2 && f7 == 0,
        Opcode::Sltu => opc == 0x33 && f3 == 3 && f7 == 0,
        Opcode::Xor => opc == 0x33 && f3 == 4 && f7 == 0,
        Opcode::Srl => opc == 0x33 && f3 == 5 && f7 == 0,
        Opcode::Sra => opc == 0x33 && f3 == 5 && f7 == 0x20,
        Opcode::Or => opc == 0x33 && f3 == 6 && f7 == 0,
        Opcode::And => opc == 0x33 && f3 == 7 && f7 == 0,
        Opcode::Fence => opc == 0x0f,
        Opcode::Ecall => w == 0x0000_0073,
        Opcode::Ebreak => w == 0x0010_0073,
    }
}

/// Shift-and-mask reads of a word, as the decoder's fields.
proof fn lemma_bit_fields(w: u32)
    by (bit_vector)
    ensures
        w & 0x7f == w % 0x80,
        (w >> 7) & 0x1f == (w / 0x80) % 0x20,
        (w >> 12) & 7 == (w / 0x1000) % 8,
        (w >> 15) & 0x1f == (w / 0x8000) % 0x20,
        (w >> 20) & 0x1f == (w / 0x100000) % 0x20,
        w >> 25 == (w / 0x2000000) % 0x80,
        w >> 28 == (w / 0x10000000) % 0x10,
        (w >> 24) & 0xf == (w / 0x1000000) % 0x10,
        (w >> 20) & 0xf == (w / 0x100000) % 0x10,
        w >> 20 == (w / 0x100000) % 0x1000,
        ((w >> 25) << 5) | ((w >> 7) & 0x1f) == (w / 0x2000000) % 0x80 * 32 + (w / 0x80) % 0x20,
        ((w >> 31) << 12) | (((w >> 7) & 1) << 11) | (((w >> 25) & 0x3f) << 5) | (((w >> 8) & 0xf)
            << 1) == (w / 0x80000000) % 2 * 4096 + (w / 0x80) % 2 * 2048 + (w / 0x2000000) % 0x40
            * 32 + (w / 0x100) % 0x10 * 2,
        ((w >> 31) << 20) | (((w >> 12) & 0xff) << 12) | (((w >> 20) & 1) << 11) | (((w >> 21)
            & 0x3ff) << 1) == (w / 0x80000000) % 2 * 0x100000 + (w / 0x1000) % 0x100 * 4096 + (w
            / 0x100000) % 2 * 2048 + (w / 0x200000) % 0x400 * 2,
        w & 0xffff_f000 == (w / 0x1000) % 0x100000 * 4096,
        w >> 20 < 0x1000,
        (w >> 7) & 0x1f < 0x20,
        (w >> 12) & 7 < 8,
        (w >> 15) & 0x1f < 0x20,
        (w >> 20) & 0x1f < 0x20,
        w >> 25 < 0x80,
        (w >> 24) & 0xf < 0x10,
        (w >> 20) & 0xf < 0x10,
        ((w >> 25) << 5) | ((w >> 7) & 0x1f) < 0x1000,
        ((w >> 31) << 12) | (((w >> 7) & 1) << 11) | (((w >> 25) & 0x3f) << 5) | (((w >> 8) & 0xf)
            << 1) < 0x2000,
        ((w >> 31) << 20) | (((w >> 12) & 0xff) << 12) | (((w >> 20) & 1) << 11) | (((w >> 21)
            & 0x3ff) << 1) < 0x20_0000,
{
}

/// The decoder's fields and immediate patterns are the bits of the map.
proof fn lemma_map_fields(w: u32)
    ensures
        crate::decode::opcode_field(w) == w & 0x7f,
        crate::decode::rd_field(w) == (w >> 7) & 0x1f,
        crate::decode::funct3_field(w) == (w >> 12) & 7,
        crate::decode::rs1_field(w) == (w >> 15) & 0x1f,
        crate::decode::rs2_field(w) == (w >> 20) & 0x1f,
        crate::decode::funct7_field(w) == w >> 25,
        field(w, 28, 4) == w >> 28,
        field(w, 24, 4) == (w >> 24) & 0xf,
        field(w, 20, 4) == (w >> 20) & 0xf,
        i_imm_bits(w) == i_pattern(w),
        s_imm_bits(w) == s_pattern(w),
        b_imm_bits(w) == b_pattern(w),
        j_imm_bits(w) == j_pattern(w),
        u_imm_bits(w) == u_pattern(w),
        i_pattern(w) < 0x1000,
        (w >> 7) & 0x1f < 0x20,
        (w >> 12) & 7 < 8,
        (w >> 15) & 0x1f < 0x20,
        (w >> 20) & 0x1f < 0x20,
        w >> 25 < 0x80,
        (w >> 24) & 0xf < 0x10,
        (w >> 20) & 0xf < 0x10,
        s_pattern(w) < 0x1000,
        b_pattern(w) < 0x2000,
        j_pattern(w) < 0x20_0000,
{
    reveal(field);
    lemma2_to64();
    lemma_bit_fields(w);
}

/// Whenever the decoder accepts a word, the word is the one that the
/// opcode map gives the decoded instruction; and the decoder accepts
/// exactly the words of the map, refusing every other word as `Invalid`.
pub proof fn lemma_decoding_follows_opcode_map(w: u32)
    ensures
        decode_spec(w) is Ok <==> valid_word(w),
        decode_spec(w) is Err ==> decode_spec(w) == Err::<Instruction, DecodeError>(
            DecodeError::Invalid,
        ),
        decode_spec(w) matches Ok(insn) ==> opcode_map_word(insn, w),
{
    lemma_map_fields(w);
    lemma2_to64();
    assert(0x73u32 & 0x7f == 0x73 && 0x10_0073u32 & 0x7f == 0x73) by (bit_vector);
    let opc = w & 0x7f;
    if opc == 0x37 || opc == 0x17 {
        lemma_signed_low_bits(u_imm_bits(w), 32);
    } else if opc == 0x6f {
        lemma_signed_low_bits(j_imm_bits(w), 21);
    } else if opc == 0x63 {
        lemma_signed_low_bits(b_imm_bits(w), 13);
    } else if opc == 0x23 {
        lemma_signed_low_bits(s_imm_bits(w), 12);
    } else if opc == 0x67 || opc == 0x03 || opc == 0x13 {
        lemma_signed_low_bits(i_imm_bits(w), 12);
    } else if opc == 0x0f {
        lemma_fence_bits_round_trip(FenceSet::IORW, ((w >> 24) & 0xf) as u8);
        lemma_fence_bits_round_trip(FenceSet::IORW, ((w >> 20) & 0xf) as u8);
    }
}

/// The word that the encoder gives an instruction is the one that the
/// opcode map gives it.
pub proof fn lemma_encoding_follows_opcode_map(insn: Instruction, w: u32)
    requires
        encode_spec(insn) == Ok::<u32, EncodeError>(w),
    ensures
        opcode_map_word(insn, w),
        valid_word(w),
{
    lemma_decode_encoding(insn, w);
    lemma_decoding_follows_opcode_map(w);
}

/// An instruction's opcode is the operation whose fixed fields its word
/// carries.
pub proof fn lemma_opcode_names_the_encoding(insn: Instruction, w: u32)
    requires
        encode_spec(insn) == Ok::<u32, EncodeError>(w),
    ensures
        opcode_fields(insn.opcode_spec(), w),
{
    lemma_encoding_follows_opcode_map(insn, w);
}

} // verus!
