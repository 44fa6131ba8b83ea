//! Encoding and decoding are inverse: every encodable instruction decodes
//! back from its word, and every valid word is the encoding of what it
//! decodes to.
use crate::decode::{
    decode_spec, funct3_field, funct7_field, opcode_field, rd_field, rs1_field, rs2_field,
};
use crate::encode::{
    b_word, branch_funct3_spec, encodable, encode_spec, encoding, fence_word, i_word, imm_op_funct3_spec,
    j_word, load_funct3_spec, r_word, reg_op_funct3_spec, reg_op_funct7_spec, s_word,
    shift_funct7_spec, store_funct3_spec, u_word,
};
use crate::error::{DecodeError, EncodeError};
use crate::format::{
    b_imm_value, field, fits_in_signed, i_imm_value, j_imm_value, low_bits, s_imm_value,
    signed_value, u_imm_value,
};
use crate::instruction::{lemma_fence_bits_round_trip, FenceSet, Instruction};
use crate::register::{lemma_reg_at, reg_at, Reg};
use vstd::arithmetic::power2::lemma2_to64;
use vstd::prelude::*;

verus! {

broadcast use crate::register::lemma_reg_number;

/// A word is the sum of its six R-type fields at their bit positions, and
/// any six in-range field values sum to the word that has them as fields.
proof fn lemma_r_fields(w: u32, opc: u32, rd: u32, f3: u32, rs1: u32, rs2: u32, f7: u32)
    by (bit_vector)
    requires
        opc < 0x80,
        rd < 0x20,
        f3 < 0x8,
        rs1 < 0x20,
        rs2 < 0x20,
        f7 < 0x80,
    ensures
        (w == opc + rd * 0x80 + f3 * 0x1000 + rs1 * 0x8000 + rs2 * 0x100000 + f7 * 0x2000000) <==> (
        w % 0x80 == opc && (w / 0x80) % 0x20 == rd && (w / 0x1000) % 0x8 == f3 && (w / 0x8000)
            % 0x20 == rs1 && (w / 0x100000) % 0x20 == rs2 && (w / 0x2000000) % 0x80 == f7),
{
}

/// The 12-bit field `inst[31:20]` is `funct7` followed by the `rs2` field.
proof fn lemma_subfields(w: u32)
    by (bit_vector)
    ensures
        (w / 0x100000) % 0x1000 == ((w / 0x2000000) % 0x80) * 32 + (w / 0x100000) % 0x20,
{
}

/// The fields of an I-type word.
proof fn lemma_i_word(imm: int, rs1: Reg, f3: int, rd: Reg, opc: int)
    requires
        fits_in_signed(imm, 12),
        0 <= f3 < 8,
        0 <= opc < 0x80,
    ensures
        ({
            let w = i_word(imm, rs1, f3, rd, opc);
            &&& opcode_field(w) == opc
            &&& rd_field(w) == rd.number()
            &&& funct3_field(w) == f3
            &&& rs1_field(w) == rs1.number()
            &&& i_imm_value(w) == imm
        }),
{
    reveal(field);
    lemma2_to64();
    let x = low_bits(imm, 12);
    let w = i_word(imm, rs1, f3, rd, opc);
    assert(0 <= x < 4096);
    assert(x == (x / 32) * 32 + x % 32);
    assert(w == opc + rd.number() * 0x80 + f3 * 0x1000 + rs1.number() * 0x8000 + (x % 32) * 0x100000
        + (x / 32) * 0x2000000);
    lemma_r_fields(
        w,
        opc as u32,
        rd.number() as u32,
        f3 as u32,
        rs1.number() as u32,
        (x % 32) as u32,
        (x / 32) as u32,
    );
    lemma_subfields(w);
}

/// The fields of an S-type word.
proof fn lemma_s_word(imm: int, rs1: Reg, rs2: Reg, f3: int)
    requires
        fits_in_signed(imm, 12),
        0 <= f3 < 8,
    ensures
        ({
            let w = s_word(imm, rs1, rs2, f3);
            &&& opcode_field(w) == 0x23
            &&& funct3_field(w) == f3
            &&& rs1_field(w) == rs1.number()
            &&& rs2_field(w) == rs2.number()
            &&& s_imm_value(w) == imm
        }),
{
    reveal(field);
    lemma2_to64();
    let x = low_bits(imm, 12);
    let w = s_word(imm, rs1, rs2, f3);
    assert(0 <= x < 4096);
    lemma_r_fields(
        w,
        0x23,
        (x % 32) as u32,
        f3 as u32,
        rs1.number() as u32,
        rs2.number() as u32,
        (x / 32) as u32,
    );
    assert(x == (x / 32) * 32 + x % 32);
}

/// The packed B-type immediate reads back through the decoder's fields.
proof fn lemma_b_bits(w: u32, x: u32, rs1: u32, rs2: u32, f3: u32)
    by (bit_vector)
    requires
        x < 0x2000,
        x % 2 == 0,
        rs1 < 0x20,
        rs2 < 0x20,
        f3 < 8,
        w == (x / 4096) * 0x80000000 + ((x / 32) % 64) * 0x2000000 + rs2 * 0x100000 + rs1 * 0x8000
            + f3 * 0x1000 + ((x / 2) % 16) * 0x100 + ((x / 2048) % 2) * 0x80 + 0x63,
    ensures
        w % 0x80 == 0x63,
        (w / 0x1000) % 8 == f3,
        (w / 0x8000) % 0x20 == rs1,
        (w / 0x100000) % 0x20 == rs2,
        (w / 0x80000000) % 2 * 4096 + (w / 0x80) % 2 * 2048 + (w / 0x2000000) % 0x40 * 32 + (w
            / 0x100) % 0x10 * 2 == x,
{
}

/// The fields of a B-type word.
proof fn lemma_b_word(imm: int, rs1: Reg, rs2: Reg, f3: int)
    requires
        fits_in_signed(imm, 13),
        imm % 2 == 0,
        0 <= f3 < 8,
    ensures
        ({
            let w = b_word(imm, rs1, rs2, f3);
            &&& opcode_field(w) == 0x63
            &&& funct3_field(w) == f3
            &&& rs1_field(w) == rs1.number()
            &&& rs2_field(w) == rs2.number()
            &&& b_imm_value(w) == imm
        }),
{
    reveal(field);
    lemma2_to64();
    let x = low_bits(imm, 13);
    let w = b_word(imm, rs1, rs2, f3);
    assert(0 <= x < 8192);
    assert(x % 2 == 0);
    lemma_b_bits(w, x as u32, rs1.number() as u32, rs2.number() as u32, f3 as u32);
}

/// The packed J-type immediate reads back through the decoder's fields.
proof fn lemma_j_bits(w: u32, x: u32, rd: u32, opc: u32)
    by (bit_vector)
    requires
        x < 0x20_0000,
        x % 2 == 0,
        rd < 0x20,
        opc < 0x80,
        w == (x / 0x100000) * 0x80000000 + ((x / 2) % 1024) * 0x200000 + ((x / 2048) % 2)
            * 0x100000 + ((x / 4096) % 256) * 0x1000 + rd * 0x80 + opc,
    ensures
        w % 0x80 == opc,
        (w / 0x80) % 0x20 == rd,
        (w / 0x80000000) % 2 * 0x100000 + (w / 0x1000) % 0x100 * 4096 + (w / 0x100000) % 2 * 2048
            + (w / 0x200000) % 0x400 * 2 == x,
{
}

/// The fields of a J-type word.
proof fn lemma_j_word(imm: int, rd: Reg, opc: int)
    requires
        fits_in_signed(imm, 21),
        imm % 2 == 0,
        0 <= opc < 0x80,
    ensures
        ({
            let w = j_word(imm, rd, opc);
            &&& opcode_field(w) == opc
            &&& rd_field(w) == rd.number()
            &&& j_imm_value(w) == imm
        }),
{
    reveal(field);
    lemma2_to64();
    let x = low_bits(imm, 21);
    let w = j_word(imm, rd, opc);
    assert(0 <= x < 0x20_0000);
    assert(x % 2 == 0);
    lemma_j_bits(w, x as u32, rd.number() as u32, opc as u32);
}

/// The packed U-type immediate reads back through the decoder's fields.
proof fn lemma_u_bits(w: u32, x: u32, rd: u32, opc: u32)
    by (bit_vector)
    requires
        x % 0x1000 == 0,
        rd < 0x20,
        opc < 0x80,
        w == x + rd * 0x80 + opc,
    ensures
        w % 0x80 == opc,
        (w / 0x80) % 0x20 == rd,
        (w / 0x1000) % 0x100000 * 4096 == x,
{
}

/// The fields of a U-type word.
proof fn lemma_u_word(imm: int, rd: Reg, opc: int)
    requires
        i32::MIN <= imm <= i32::MAX,
        imm % 4096 == 0,
        0 <= opc < 0x80,
    ensures
        ({
            let w = u_word(imm, rd, opc);
            &&& opcode_field(w) == opc
            &&& rd_field(w) == rd.number()
            &&& u_imm_value(w) == imm
        }),
{
    reveal(field);
    lemma2_to64();
    let x = low_bits(imm, 32);
    let w = u_word(imm, rd, opc);
    assert(0 <= x < 0x1_0000_0000);
    assert(x % 4096 == 0);
    lemma_u_bits(w, x as u32, rd.number() as u32, opc as u32);
}

/// The fields of an R-type (or shift-by-immediate) word.
proof fn lemma_r_word(f7: int, rs2: int, rs1: Reg, f3: int, rd: Reg, opc: int)
    requires
        0 <= f7 < 0x80,
        0 <= rs2 < 0x20,
        0 <= f3 < 8,
        0 <= opc < 0x80,
    ensures
        ({
            let w = r_word(f7, rs2, rs1, f3, rd, opc);
            &&& opcode_field(w) == opc
            &&& rd_field(w) == rd.number()
            &&& funct3_field(w) == f3
            &&& rs1_field(w) == rs1.number()
            &&& rs2_field(w) == rs2
            &&& funct7_field(w) == f7
        }),
{
    reveal(field);
    lemma2_to64();
    let w = r_word(f7, rs2, rs1, f3, rd, opc);
    lemma_r_fields(
        w,
        opc as u32,
        rd.number() as u32,
        f3 as u32,
        rs1.number() as u32,
        rs2 as u32,
        f7 as u32,
    );
}

/// The FENCE fields read back through the decoder.
proof fn lemma_fence_bits(w: u32, pred: u32, succ: u32)
    by (bit_vector)
    requires
        pred < 0x10,
        succ < 0x10,
        w == pred * 0x1000000 + succ * 0x100000 + 0x0f,
    ensures
        w % 0x80 == 0x0f,
        (w / 0x80) % 0x20 == 0,
        (w / 0x1000) % 8 == 0,
        (w / 0x8000) % 0x20 == 0,
        (w / 0x10000000) % 0x10 == 0,
        (w / 0x1000000) % 0x10 == pred,
        (w / 0x100000) % 0x10 == succ,
{
}

/// Decoding the encoding of an encodable instruction of one kind gives it
/// back.
proof fn lemma_decode_encoding_of(insn: Instruction)
    requires
        encodable(insn),
    ensures
        decode_spec(encoding(insn)) == Ok::<Instruction, DecodeError>(insn),
{
    lemma2_to64();
    match insn {
        Instruction::Lui { rd, imm } => lemma_u_word(imm as int, rd, 0x37),
        Instruction::Auipc { rd, imm } => lemma_u_word(imm as int, rd, 0x17),
        Instruction::Jal { rd, offset } => lemma_j_word(offset as int, rd, 0x6f),
        Instruction::Jalr { .. } | Instruction::Load { .. } => lemma_decode_i_type(insn),
        Instruction::Branch { cond, rs1, rs2, offset } => lemma_b_word(
            offset as int,
            rs1,
            rs2,
            branch_funct3_spec(cond),
        ),
        Instruction::Store { width, rs1, rs2, offset } => lemma_s_word(
            offset as int,
            rs1,
            rs2,
            store_funct3_spec(width),
        ),
        Instruction::OpImm { .. } => lemma_decode_op_imm(insn),
        Instruction::Op { op, rd, rs1, rs2 } => lemma_r_word(
            reg_op_funct7_spec(op),
            rs2.number() as int,
            rs1,
            reg_op_funct3_spec(op),
            rd,
            0x33,
        ),
        Instruction::Fence { predecessor, successor } => {
            let w = encoding(insn);
            reveal(field);
            lemma_fence_bits(w, predecessor.bits_spec() as u32, successor.bits_spec() as u32);
        },
        Instruction::Ecall | Instruction::Ebreak => {
            reveal(field);
        },
    }
}

/// The fields of the word of a JALR or a load.
proof fn lemma_decode_i_type(insn: Instruction)
    requires
        encodable(insn),
        insn is Jalr || insn is Load,
    ensures
        ({
            let w = encoding(insn);
            &&& opcode_field(w) == (if insn is Jalr { 0x67int } else { 0x03int })
            &&& match insn {
                Instruction::Jalr { rd, rs1, offset } => funct3_field(w) == 0 && rd_field(w)
                    == rd.number() && rs1_field(w) == rs1.number() && i_imm_value(w) == offset,
                Instruction::Load { width, rd, rs1, offset } => funct3_field(w) == load_funct3_spec(
                    width,
                ) && rd_field(w) == rd.number() && rs1_field(w) == rs1.number() && i_imm_value(w)
                    == offset,
                _ => true,
            }
        }),
{
    lemma2_to64();
    match insn {
        Instruction::Jalr { rd, rs1, offset } => lemma_i_word(offset as int, rs1, 0, rd, 0x67),
        Instruction::Load { width, rd, rs1, offset } => lemma_i_word(
            offset as int,
            rs1,
            load_funct3_spec(width),
            rd,
            0x03,
        ),
        _ => {},
    }
}

/// The fields of the word of a register-immediate operation.
proof fn lemma_decode_op_imm(insn: Instruction)
    requires
        encodable(insn),
        insn is OpImm,
    ensures
        ({
            let w = encoding(insn);
            &&& opcode_field(w) == 0x13
            &&& match insn {
                Instruction::OpImm { op, rd, rs1, imm } => funct3_field(w) == imm_op_funct3_spec(op)
                    && rd_field(w) == rd.number() && rs1_field(w) == rs1.number() && if op.is_shift() {
                    funct7_field(w) == shift_funct7_spec(op) && rs2_field(w) == imm
                } else {
                    i_imm_value(w) == imm
                },
                _ => true,
            }
        }),
{
    lemma2_to64();
    match insn {
        Instruction::OpImm { op, rd, rs1, imm } => {
            if op.is_shift() {
                lemma_r_word(shift_funct7_spec(op), imm as int, rs1, imm_op_funct3_spec(op), rd, 0x13);
            } else {
                lemma_i_word(imm as int, rs1, imm_op_funct3_spec(op), rd, 0x13);
            }
        },
        _ => {},
    }
}

/// Decoding the word that an instruction encodes to gives back the
/// instruction.
pub proof fn lemma_decode_encoding(insn: Instruction, w: u32)
    requires
        encode_spec(insn) == Ok::<u32, EncodeError>(w),
    ensures
        decode_spec(w) == Ok::<Instruction, DecodeError>(insn),
{
    lemma_decode_encoding_of(insn);
}

/// A word is rebuilt from the fields of the B-type layout.
proof fn lemma_b_layout(w: u32)
    by (bit_vector)
    ensures
        ({
            let x = ((w / 0x80000000) % 2 * 4096 + (w / 0x80) % 2 * 2048 + (w / 0x2000000) % 0x40
                * 32 + (w / 0x100) % 0x10 * 2) as u32;
            &&& x < 0x2000
            &&& x % 2 == 0
            &&& w == (x / 4096) * 0x80000000 + ((x / 32) % 64) * 0x2000000 + (w / 0x100000) % 0x20
                * 0x100000 + (w / 0x8000) % 0x20 * 0x8000 + (w / 0x1000) % 8 * 0x1000 + ((x / 2)
                % 16) * 0x100 + ((x / 2048) % 2) * 0x80 + w % 0x80
        }),
{
}

/// A word is rebuilt from the fields of the J-type layout.
proof fn lemma_j_layout(w: u32)
    by (bit_vector)
    ensures
        ({
            let x = ((w / 0x80000000) % 2 * 0x100000 + (w / 0x1000) % 0x100 * 4096 + (w
                / 0x100000) % 2 * 2048 + (w / 0x200000) % 0x400 * 2) as u32;
            &&& x < 0x20_0000
            &&& x % 2 == 0
            &&& w == (x / 0x100000) * 0x80000000 + ((x / 2) % 1024) * 0x200000 + ((x / 2048) % 2)
                * 0x100000 + ((x / 4096) % 256) * 0x1000 + (w / 0x80) % 0x20 * 0x80 + w % 0x80
        }),
{
}

/// A word is rebuilt from the fields of the U-type layout.
proof fn lemma_u_layout(w: u32)
    by (bit_vector)
    ensures
        ({
            let x = ((w / 0x1000) % 0x100000 * 4096) as u32;
            &&& x % 4096 == 0
            &&& w == x + (w / 0x80) % 0x20 * 0x80 + w % 0x80
        }),
{
}

/// A FENCE word with its reserved fields clear is rebuilt from its sets.
proof fn lemma_fence_layout(w: u32)
    by (bit_vector)
    ensures
        ((w / 0x1000) % 8 == 0 && (w / 0x80) % 0x20 == 0 && (w / 0x8000) % 0x20 == 0 && (w
            / 0x10000000) % 0x10 == 0) ==> w == (w / 0x1000000) % 0x10 * 0x1000000 + (w / 0x100000)
            % 0x10 * 0x100000 + w % 0x80,
{
}

/// The immediate pattern of a word is the low bits of the value it reads as.
pub(crate) proof fn lemma_signed_low_bits(x: int, n: nat)
    requires
        n == 12 || n == 13 || n == 21 || n == 32,
        0 <= x < vstd::arithmetic::power2::pow2(n),
    ensures
        fits_in_signed(signed_value(x, n), n),
        low_bits(signed_value(x, n), n) == x,
{
    lemma2_to64();
}

/// Every word is the R-type word of its fields, with `inst[24:20]` in the
/// `rs2` position.
proof fn lemma_r_rebuild(w: u32)
    ensures
        0 <= funct7_field(w) < 0x80,
        0 <= rs2_field(w) < 0x20,
        0 <= funct3_field(w) < 8,
        0 <= opcode_field(w) < 0x80,
        0 <= rd_field(w) < 0x20,
        0 <= rs1_field(w) < 0x20,
        w == r_word(
            funct7_field(w),
            rs2_field(w),
            reg_at(rs1_field(w) as nat),
            funct3_field(w),
            reg_at(rd_field(w) as nat),
            opcode_field(w),
        ),
{
    reveal(field);
    lemma2_to64();
    let opc = opcode_field(w);
    let f3 = funct3_field(w);
    let f7 = funct7_field(w);
    let rd = rd_field(w);
    let rs1 = rs1_field(w);
    let rs2 = rs2_field(w);
    lemma_r_fields(w, opc as u32, rd as u32, f3 as u32, rs1 as u32, rs2 as u32, f7 as u32);
    lemma_reg_at(rd as nat);
    lemma_reg_at(rs1 as nat);
}

/// Every word is the I-type word of its fields.
proof fn lemma_i_rebuild(w: u32)
    ensures
        fits_in_signed(i_imm_value(w), 12),
        w == i_word(
            i_imm_value(w),
            reg_at(rs1_field(w) as nat),
            funct3_field(w),
            reg_at(rd_field(w) as nat),
            opcode_field(w),
        ),
{
    reveal(field);
    lemma2_to64();
    lemma_r_rebuild(w);
    lemma_subfields(w);
    lemma_signed_low_bits(field(w, 20, 12), 12);
}

/// Every word is the S-type word of its fields.
proof fn lemma_s_rebuild(w: u32)
    requires
        opcode_field(w) == 0x23,
    ensures
        fits_in_signed(s_imm_value(w), 12),
        w == s_word(
            s_imm_value(w),
            reg_at(rs1_field(w) as nat),
            reg_at(rs2_field(w) as nat),
            funct3_field(w),
        ),
{
    reveal(field);
    lemma2_to64();
    lemma_r_rebuild(w);
    lemma_reg_at(rs2_field(w) as nat);
    lemma_signed_low_bits(field(w, 25, 7) * 32 + field(w, 7, 5), 12);
}

/// Every word is the B-type word of its fields.
proof fn lemma_b_rebuild(w: u32)
    requires
        opcode_field(w) == 0x63,
    ensures
        fits_in_signed(b_imm_value(w), 13),
        b_imm_value(w) % 2 == 0,
        w == b_word(
            b_imm_value(w),
            reg_at(rs1_field(w) as nat),
            reg_at(rs2_field(w) as nat),
            funct3_field(w),
        ),
{
    reveal(field);
    lemma2_to64();
    lemma_r_rebuild(w);
    lemma_reg_at(rs2_field(w) as nat);
    lemma_b_layout(w);
    lemma_signed_low_bits(
        field(w, 31, 1) * 4096 + field(w, 7, 1) * 2048 + field(w, 25, 6) * 32 + field(w, 8, 4) * 2,
        13,
    );
}

/// Every word is the J-type word of its fields.
proof fn lemma_j_rebuild(w: u32)
    ensures
        fits_in_signed(j_imm_value(w), 21),
        j_imm_value(w) % 2 == 0,
        w == j_word(j_imm_value(w), reg_at(rd_field(w) as nat), opcode_field(w)),
{
    reveal(field);
    lemma2_to64();
    lemma_r_rebuild(w);
    lemma_j_layout(w);
    lemma_signed_low_bits(
        field(w, 31, 1) * 0x100000 + field(w, 12, 8) * 4096 + field(w, 20, 1) * 2048 + field(
            w,
            21,
            10,
        ) * 2,
        21,
    );
}

/// Every word is the U-type word of its fields.
proof fn lemma_u_rebuild(w: u32)
    ensures
        i32::MIN <= u_imm_value(w) <= i32::MAX,
        u_imm_value(w) % 4096 == 0,
        w == u_word(u_imm_value(w), reg_at(rd_field(w) as nat), opcode_field(w)),
{
    reveal(field);
    lemma2_to64();
    lemma_r_rebuild(w);
    lemma_u_layout(w);
    lemma_signed_low_bits(field(w, 12, 20) * 4096, 32);
}

/// A FENCE word with its reserved fields clear is rebuilt from its sets.
proof fn lemma_fence_rebuild(w: u32)
    requires
        opcode_field(w) == 0x0f,
        funct3_field(w) == 0,
        rd_field(w) == 0,
        rs1_field(w) == 0,
        field(w, 28, 4) == 0,
    ensures
        0 <= field(w, 24, 4) < 16,
        0 <= field(w, 20, 4) < 16,
        w == fence_word(field(w, 24, 4), field(w, 20, 4)),
{
    reveal(field);
    lemma2_to64();
    lemma_fence_layout(w);
}

/// Every valid word is what the instruction it decodes to encodes to:
/// each instruction has exactly one encoding.
pub proof fn lemma_encoding_of_decoded(w: u32, insn: Instruction)
    requires
        decode_spec(w) == Ok::<Instruction, DecodeError>(insn),
    ensures
        encode_spec(insn) == Ok::<u32, EncodeError>(w),
{
    lemma2_to64();
    let opc = opcode_field(w);
    lemma_r_rebuild(w);
    if opc == 0x37 || opc == 0x17 {
        lemma_u_rebuild(w);
    } else if opc == 0x6f {
        lemma_j_rebuild(w);
    } else if opc == 0x63 {
        lemma_b_rebuild(w);
    } else if opc == 0x23 {
        lemma_s_rebuild(w);
    } else if opc == 0x67 || opc == 0x03 || opc == 0x13 {
        lemma_i_rebuild(w);
    } else if opc == 0x0f {
        lemma_fence_rebuild(w);
        lemma_fence_bits_round_trip(FenceSet::IORW, field(w, 24, 4) as u8);
        lemma_fence_bits_round_trip(FenceSet::IORW, field(w, 20, 4) as u8);
    }
}

/// Distinct valid words decode to distinct instructions.
pub proof fn lemma_decode_injective(w1: u32, w2: u32)
    requires
        decode_spec(w1) is Ok,
        decode_spec(w1) == decode_spec(w2),
    ensures
        w1 == w2,
{
    lemma_encoding_of_decoded(w1, decode_spec(w1)->Ok_0);
    lemma_encoding_of_decoded(w2, decode_spec(w2)->Ok_0);
}

} // verus!
