//! The RV32I encoder: from an [`Instruction`] to its 32-bit word.
use crate::error::EncodeError;
use crate::format::{fits_in_signed, fits_signed, low_bits};
use crate::instruction::{BranchCond, ImmOp, Instruction, LoadWidth, RegOp, StoreWidth};
use crate::register::Reg;
use vstd::arithmetic::div_mod::lemma_mod_multiples_vanish;
use vstd::arithmetic::power2::lemma2_to64;
use vstd::prelude::*;

verus! {

/// An I-type word: `imm[11:0] | rs1 | funct3 | rd | opcode`.
pub open spec fn i_word(imm: int, rs1: Reg, funct3: int, rd: Reg, opcode: int) -> u32 {
    (low_bits(imm, 12) * 0x100000 + rs1.number() * 0x8000 + funct3 * 0x1000 + rd.number() * 0x80
        + opcode) as u32
}

/// An S-type word: `imm[11:5] | rs2 | rs1 | funct3 | imm[4:0] | 0100011`.
pub open spec fn s_word(imm: int, rs1: Reg, rs2: Reg, funct3: int) -> u32 {
    let u = low_bits(imm, 12);
    ((u / 32) * 0x2000000 + rs2.number() * 0x100000 + rs1.number() * 0x8000 + funct3 * 0x1000 + (u
        % 32) * 0x80 + 0x23) as u32
}

/// A B-type word: `imm[12] | imm[10:5] | rs2 | rs1 | funct3 | imm[4:1] |
/// imm[11] | 1100011`.
pub open spec fn b_word(imm: int, rs1: Reg, rs2: Reg, funct3: int) -> u32 {
    let u = low_bits(imm, 13);
    ((u / 4096) * 0x80000000 + ((u / 32) % 64) * 0x2000000 + rs2.number() * 0x100000
        + rs1.number() * 0x8000 + funct3 * 0x1000 + ((u / 2) % 16) * 0x100 + ((u / 2048) % 2)
        * 0x80 + 0x63) as u32
}

/// A U-type word: `imm[31:12] | rd | opcode`.
pub open spec fn u_word(imm: int, rd: Reg, opcode: int) -> u32 {
    (low_bits(imm, 32) + rd.number() * 0x80 + opcode) as u32
}

/// A J-type word: `imm[20] | imm[10:1] | imm[11] | imm[19:12] | rd | opcode`.
pub open spec fn j_word(imm: int, rd: Reg, opcode: int) -> u32 {
    let u = low_bits(imm, 21);
    ((u / 0x100000) * 0x80000000 + ((u / 2) % 1024) * 0x200000 + ((u / 2048) % 2) * 0x100000 + ((
    u / 4096) % 256) * 0x1000 + rd.number() * 0x80 + opcode) as u32
}

/// An R-type word, and the shift-by-immediate words that share its layout:
/// `funct7 | rs2 (or shamt) | rs1 | funct3 | rd | opcode`.
pub open spec fn r_word(funct7: int, rs2: int, rs1: Reg, funct3: int, rd: Reg, opcode: int) -> u32 {
    (funct7 * 0x2000000 + rs2 * 0x100000 + rs1.number() * 0x8000 + funct3 * 0x1000 + rd.number()
        * 0x80 + opcode) as u32
}

/// A FENCE word: `fm = 0 | pred | succ | rs1 = 0 | funct3 = 0 | rd = 0 | 0001111`.
pub open spec fn fence_word(pred: int, succ: int) -> u32 {
    (pred * 0x1000000 + succ * 0x100000 + 0x0f) as u32
}

/// The `funct3` of a branch comparison.
pub open spec fn branch_funct3_spec(cond: BranchCond) -> int {
    match cond {
        BranchCond::Eq => 0,
        BranchCond::Ne => 1,
        BranchCond::Lt => 4,
        BranchCond::Ge => 5,
        BranchCond::Ltu => 6,
        BranchCond::Geu => 7,
    }
}

/// The `funct3` of a load width.
pub open spec fn load_funct3_spec(width: LoadWidth) -> int {
    match width {
        LoadWidth::Byte => 0,
        LoadWidth::Half => 1,
        LoadWidth::Word => 2,
        LoadWidth::ByteUnsigned => 4,
        LoadWidth::HalfUnsigned => 5,
    }
}

/// The `funct3` of a store width.
pub open spec fn store_funct3_spec(width: StoreWidth) -> int {
    match width {
        StoreWidth::Byte => 0,
        StoreWidth::Half => 1,
        StoreWidth::Word => 2,
    }
}

/// The `funct3` of a register-immediate operation.
pub open spec fn imm_op_funct3_spec(op: ImmOp) -> int {
    match op {
        ImmOp::Addi => 0,
        ImmOp::Slti => 2,
        ImmOp::Sltiu => 3,
        ImmOp::Xori => 4,
        ImmOp::Ori => 6,
        ImmOp::Andi => 7,
        ImmOp::Slli => 1,
        ImmOp::Srli => 5,
        ImmOp::Srai => 5,
    }
}

/// The `funct7` of a shift-by-immediate operation.
pub open spec fn shift_funct7_spec(op: ImmOp) -> int {
    if op is Srai {
        0x20
    } else {
        0
    }
}

/// The `funct7` of a register-register operation.
pub open spec fn reg_op_funct7_spec(op: RegOp) -> int {
    if op is Sub || op is Sra {
        0x20
    } else {
        0
    }
}

/// The `funct3` of a register-register operation.
pub open spec fn reg_op_funct3_spec(op: RegOp) -> int {
    match op {
        RegOp::Add => 0,
        RegOp::Sub => 0,
        RegOp::Sll => 1,
        RegOp::Slt => 2,
        RegOp::Sltu => 3,
        RegOp::Xor => 4,
        RegOp::Srl => 5,
        RegOp::Sra => 5,
        RegOp::Or => 6,
        RegOp::And => 7,
    }
}

/// Whether the operands of `insn` have an encoding: 12-bit signed
/// immediates and offsets, even 13-bit branch and 21-bit jump offsets,
/// U-type immediates with the low 12 bits clear, and shift amounts
/// `0..=31`.
pub open spec fn encodable(insn: Instruction) -> bool {
    match insn {
        Instruction::Lui { imm, .. } | Instruction::Auipc { imm, .. } => imm % 4096 == 0,
        Instruction::Jal { offset, .. } => fits_in_signed(offset as int, 21) && offset % 2 == 0,
        Instruction::Jalr { offset, .. } => fits_in_signed(offset as int, 12),
        Instruction::Branch { offset, .. } => fits_in_signed(offset as int, 13) && offset % 2 == 0,
        Instruction::Load { offset, .. } => fits_in_signed(offset as int, 12),
        Instruction::Store { offset, .. } => fits_in_signed(offset as int, 12),
        Instruction::OpImm { op, imm, .. } => if op.is_shift() {
            0 <= imm <= 31
        } else {
            fits_in_signed(imm as int, 12)
        },
        _ => true,
    }
}

/// The word that encodes `insn` (meaningful when `encodable(insn)`).
pub open spec fn encoding(insn: Instruction) -> u32 {
    match insn {
        Instruction::Lui { rd, imm } => u_word(imm as int, rd, 0x37),
        Instruction::Auipc { rd, imm } => u_word(imm as int, rd, 0x17),
        Instruction::Jal { rd, offset } => j_word(offset as int, rd, 0x6f),
        Instruction::Jalr { rd, rs1, offset } => i_word(offset as int, rs1, 0, rd, 0x67),
        Instruction::Branch { cond, rs1, rs2, offset } => b_word(
            offset as int,
            rs1,
            rs2,
            branch_funct3_spec(cond),
        ),
        Instruction::Load { width, rd, rs1, offset } => i_word(
            offset as int,
            rs1,
            load_funct3_spec(width),
            rd,
            0x03,
        ),
        Instruction::Store { width, rs1, rs2, offset } => s_word(
            offset as int,
            rs1,
            rs2,
            store_funct3_spec(width),
        ),
        Instruction::OpImm { op, rd, rs1, imm } => if op.is_shift() {
            r_word(shift_funct7_spec(op), imm as int, rs1, imm_op_funct3_spec(op), rd, 0x13)
        } else {
            i_word(imm as int, rs1, imm_op_funct3_spec(op), rd, 0x13)
        },
        Instruction::Op { op, rd, rs1, rs2 } => r_word(
            reg_op_funct7_spec(op),
            rs2.number() as int,
            rs1,
            reg_op_funct3_spec(op),
            rd,
            0x33,
        ),
        Instruction::Fence { predecessor, successor } => fence_word(
            predecessor.bits_spec() as int,
            successor.bits_spec() as int,
        ),
        Instruction::Ecall => 0x0000_0073,
        Instruction::Ebreak => 0x0010_0073,
    }
}

/// What encoding `insn` gives: its word, or `InvalidOperands` when an
/// operand has no encoding.
pub open spec fn encode_spec(insn: Instruction) -> Result<u32, EncodeError> {
    if encodable(insn) {
        Ok(encoding(insn))
    } else {
        Err(EncodeError::InvalidOperands)
    }
}

/// The bits of an `i32` seen as a `u32`.
proof fn lemma_i32_bits(imm: i32)
    by (bit_vector)
    ensures
        (imm as u32) as int == if imm < 0 {
            imm + 0x1_0000_0000
        } else {
            imm as int
        },
        imm as u32 & 0x0fff == (imm as u32) % 0x1000,
        imm as u32 & 0x1fff == (imm as u32) % 0x2000,
        imm as u32 & 0x1f_ffff == (imm as u32) % 0x20_0000,
        (imm & 0x0fff == 0) == ((imm as u32) % 0x1000 == 0),
        (imm & 0x1 != 0) == ((imm as u32) % 2 != 0),
{
}

/// The low bits of an `i32`'s `u32` pattern are its low bits as a number.
proof fn lemma_i32_low_bits(imm: i32)
    ensures
        ((imm as u32) as int) % 0x1000 == (imm as int) % 0x1000,
        ((imm as u32) as int) % 0x2000 == (imm as int) % 0x2000,
        ((imm as u32) as int) % 0x20_0000 == (imm as int) % 0x20_0000,
        ((imm as u32) as int) % 0x1_0000_0000 == (imm as int) % 0x1_0000_0000,
        ((imm as u32) as int) % 2 == (imm as int) % 2,
{
    lemma_i32_bits(imm);
    if imm < 0 {
        lemma_mod_multiples_vanish(0x10_0000, imm as int, 0x1000);
        lemma_mod_multiples_vanish(0x8_0000, imm as int, 0x2000);
        lemma_mod_multiples_vanish(0x800, imm as int, 0x20_0000);
        lemma_mod_multiples_vanish(1, imm as int, 0x1_0000_0000);
        lemma_mod_multiples_vanish(0x8000_0000, imm as int, 2);
    }
}

/// Packing fields into a word with shifts and ors is adding them at their
/// bit positions.
proof fn lemma_pack(x: u32, f7: u32, rs2: u32, rs1: u32, f3: u32, rd: u32, opc: u32)
    by (bit_vector)
    requires
        f7 < 0x80,
        rs2 < 0x20,
        rs1 < 0x20,
        f3 < 0x8,
        rd < 0x20,
        opc < 0x80,
    ensures
        x < 0x1000 ==> ((x << 20) | (rs1 << 15) | (f3 << 12) | (rd << 7) | opc) == x * 0x100000
            + rs1 * 0x8000 + f3 * 0x1000 + rd * 0x80 + opc,
        x < 0x1000 ==> (((x >> 5) << 25) | (rs2 << 20) | (rs1 << 15) | (f3 << 12) | ((x & 0x1f)
            << 7) | 0x23) == (x / 32) * 0x2000000 + rs2 * 0x100000 + rs1 * 0x8000 + f3 * 0x1000 + (x
            % 32) * 0x80 + 0x23,
        x < 0x2000 ==> (((x >> 12) << 31) | (((x >> 5) & 0x3f) << 25) | (rs2 << 20) | (rs1 << 15)
            | (f3 << 12) | (((x >> 1) & 0x0f) << 8) | (((x >> 11) & 0x01) << 7) | 0x63) == (x
            / 4096) * 0x80000000 + ((x / 32) % 64) * 0x2000000 + rs2 * 0x100000 + rs1 * 0x8000 + f3
            * 0x1000 + ((x / 2) % 16) * 0x100 + ((x / 2048) % 2) * 0x80 + 0x63,
        x % 0x1000 == 0 ==> ((x & 0xffff_f000) | (rd << 7) | opc) == x + rd * 0x80 + opc,
        x < 0x20_0000 ==> (((x >> 20) << 31) | (((x >> 1) & 0x03ff) << 21) | (((x >> 11) & 0x01)
            << 20) | (((x >> 12) & 0x0ff) << 12) | (rd << 7) | opc) == (x / 0x100000) * 0x80000000
            + ((x / 2) % 1024) * 0x200000 + ((x / 2048) % 2) * 0x100000 + ((x / 4096) % 256)
            * 0x1000 + rd * 0x80 + opc,
        ((f7 << 25) | (rs2 << 20) | (rs1 << 15) | (f3 << 12) | (rd << 7) | opc) == f7 * 0x2000000
            + rs2 * 0x100000 + rs1 * 0x8000 + f3 * 0x1000 + rd * 0x80 + opc,
        (rs2 < 0x10 && rs1 < 0x10) ==> ((rs2 << 24) | (rs1 << 20) | 0x0f) == rs2 * 0x1000000 + rs1
            * 0x100000 + 0x0f,
{
}

/// Encodes one instruction as a 32-bit RV32I word.
pub fn encode_word(insn: Instruction) -> (r: Result<u32, EncodeError>)
    ensures
        r == encode_spec(insn),
{
    match insn {
        Instruction::Lui { rd, imm } => encode_u(imm, rd, 0b0110111),
        Instruction::Auipc { rd, imm } => encode_u(imm, rd, 0b0010111),
        Instruction::Jal { rd, offset } => encode_j(offset, rd, 0b1101111),
        Instruction::Jalr { rd, rs1, offset } => encode_i(offset, rs1, 0b000, rd, 0b1100111),
        Instruction::Branch { cond, rs1, rs2, offset } => encode_b(
            offset,
            rs1,
            rs2,
            branch_funct3(cond),
        ),
        Instruction::Load { width, rd, rs1, offset } => encode_i(
            offset,
            rs1,
            load_funct3(width),
            rd,
            0b0000011,
        ),
        Instruction::Store { width, rs1, rs2, offset } => encode_s(
            offset,
            rs1,
            rs2,
            store_funct3(width),
        ),
        Instruction::OpImm { op, rd, rs1, imm } => encode_op_imm(op, rd, rs1, imm),
        Instruction::Op { op, rd, rs1, rs2 } => {
            let (funct7, funct3) = reg_op_fields(op);
            Ok(r_type(funct7, rs2, rs1, funct3, rd))
        },
        Instruction::Fence { predecessor, successor } => {
            let pred = predecessor.bits() as u32;
            let succ = successor.bits() as u32;
            proof {
                lemma_pack(0, 0, pred, succ, 0, 0, 0);
            }
            Ok((pred << 24) | (succ << 20) | 0b0001111)
        },
        Instruction::Ecall => Ok(0x0000_0073),
        Instruction::Ebreak => Ok(0x0010_0073),
    }
}

/// Encodes a register-immediate ALU instruction; shifts take a shift
/// amount `0..=31` in the `rs2` position.
fn encode_op_imm(op: ImmOp, rd: Reg, rs1: Reg, imm: i32) -> (r: Result<u32, EncodeError>)
    ensures
        r == encode_spec(Instruction::OpImm { op, rd, rs1, imm }),
{
    let (funct7, funct3): (u32, u32) = match op {
        ImmOp::Addi => return encode_i(imm, rs1, 0b000, rd, 0b0010011),
        ImmOp::Slti => return encode_i(imm, rs1, 0b010, rd, 0b0010011),
        ImmOp::Sltiu => return encode_i(imm, rs1, 0b011, rd, 0b0010011),
        ImmOp::Xori => return encode_i(imm, rs1, 0b100, rd, 0b0010011),
        ImmOp::Ori => return encode_i(imm, rs1, 0b110, rd, 0b0010011),
        ImmOp::Andi => return encode_i(imm, rs1, 0b111, rd, 0b0010011),
        ImmOp::Slli => (0b0000000, 0b001),
        ImmOp::Srli => (0b0000000, 0b101),
        ImmOp::Srai => (0b0100000, 0b101),
    };
    if !(0 <= imm && imm <= 31) {
        return Err(EncodeError::InvalidOperands);
    }
    let shamt = imm as u32;
    let rs1_bits = rs1.index_u8() as u32;
    let rd_bits = rd.index_u8() as u32;
    proof {
        lemma_pack(0, funct7, shamt, rs1_bits, funct3, rd_bits, 0x13);
    }
    Ok((funct7 << 25) | (shamt << 20) | (rs1_bits << 15) | (funct3 << 12) | (rd_bits << 7)
        | 0b0010011)
}

/// Encodes an I-type word with a 12-bit signed immediate.
fn encode_i(imm: i32, rs1: Reg, funct3: u32, rd: Reg, opcode: u32) -> (r: Result<u32, EncodeError>)
    requires
        funct3 < 8,
        opcode < 0x80,
    ensures
        r == (if fits_in_signed(imm as int, 12) {
            Ok(i_word(imm as int, rs1, funct3 as int, rd, opcode as int))
        } else {
            Err(EncodeError::InvalidOperands)
        }),
{
    if !fits_signed(imm, 12) {
        return Err(EncodeError::InvalidOperands);
    }
    let x = imm as u32 & 0x0fff;
    let rs1_bits = rs1.index_u8() as u32;
    let rd_bits = rd.index_u8() as u32;
    proof {
        lemma2_to64();
        lemma_i32_bits(imm);
        lemma_i32_low_bits(imm);
        lemma_pack(x, 0, 0, rs1_bits, funct3, rd_bits, opcode);
    }
    Ok((x << 20) | (rs1_bits << 15) | (funct3 << 12) | (rd_bits << 7) | opcode)
}

/// Encodes an S-type word with a 12-bit signed offset.
fn encode_s(imm: i32, rs1: Reg, rs2: Reg, funct3: u32) -> (r: Result<u32, EncodeError>)
    requires
        funct3 < 8,
    ensures
        r == (if fits_in_signed(imm as int, 12) {
            Ok(s_word(imm as int, rs1, rs2, funct3 as int))
        } else {
            Err(EncodeError::InvalidOperands)
        }),
{
    if !fits_signed(imm, 12) {
        return Err(EncodeError::InvalidOperands);
    }
    proof {
        lemma_i32_bits(imm);
        lemma_i32_low_bits(imm);
    }
    let imm = imm as u32 & 0x0fff;
    let rs2_bits = rs2.index_u8() as u32;
    let rs1_bits = rs1.index_u8() as u32;
    proof {
        lemma2_to64();
        lemma_pack(imm, 0, rs2_bits, rs1_bits, funct3, 0, 0);
    }
    Ok(((imm >> 5) << 25) | (rs2_bits << 20) | (rs1_bits << 15) | (funct3 << 12) | ((imm & 0x1f)
        << 7) | 0b0100011)
}

/// Encodes a B-type word with an even 13-bit signed offset.
fn encode_b(imm: i32, rs1: Reg, rs2: Reg, funct3: u32) -> (r: Result<u32, EncodeError>)
    requires
        funct3 < 8,
    ensures
        r == (if fits_in_signed(imm as int, 13) && imm % 2 == 0 {
            Ok(b_word(imm as int, rs1, rs2, funct3 as int))
        } else {
            Err(EncodeError::InvalidOperands)
        }),
{
    proof {
        lemma_i32_bits(imm);
        lemma_i32_low_bits(imm);
    }
    if !fits_signed(imm, 13) || imm & 0x1 != 0 {
        return Err(EncodeError::InvalidOperands);
    }
    let x = imm as u32 & 0x1fff;
    let rs2_bits = rs2.index_u8() as u32;
    let rs1_bits = rs1.index_u8() as u32;
    proof {
        lemma2_to64();
        lemma_pack(x, 0, rs2_bits, rs1_bits, funct3, 0, 0);
    }
    Ok(((x >> 12) << 31) | (((x >> 5) & 0x3f) << 25) | (rs2_bits << 20) | (rs1_bits << 15) | (
    funct3 << 12) | (((x >> 1) & 0x0f) << 8) | (((x >> 11) & 0x01) << 7) | 0b1100011)
}

/// Encodes a U-type word; the immediate's low 12 bits must be clear.
fn encode_u(imm: i32, rd: Reg, opcode: u32) -> (r: Result<u32, EncodeError>)
    requires
        opcode < 0x80,
    ensures
        r == (if imm % 4096 == 0 {
            Ok(u_word(imm as int, rd, opcode as int))
        } else {
            Err(EncodeError::InvalidOperands)
        }),
{
    proof {
        lemma_i32_bits(imm);
        lemma_i32_low_bits(imm);
    }
    if imm & 0x0fff != 0 {
        return Err(EncodeError::InvalidOperands);
    }
    let x = imm as u32;
    let rd_bits = rd.index_u8() as u32;
    proof {
        lemma2_to64();
        lemma_pack(x, 0, 0, 0, 0, rd_bits, opcode);
    }
    Ok((x & 0xffff_f000) | (rd_bits << 7) | opcode)
}

/// Encodes a J-type word with an even 21-bit signed offset.
fn encode_j(imm: i32, rd: Reg, opcode: u32) -> (r: Result<u32, EncodeError>)
    requires
        opcode < 0x80,
    ensures
        r == (if fits_in_signed(imm as int, 21) && imm % 2 == 0 {
            Ok(j_word(imm as int, rd, opcode as int))
        } else {
            Err(EncodeError::InvalidOperands)
        }),
{
    proof {
        lemma_i32_bits(imm);
        lemma_i32_low_bits(imm);
    }
    if !fits_signed(imm, 21) || imm & 0x1 != 0 {
        return Err(EncodeError::InvalidOperands);
    }
    let x = imm as u32 & 0x1f_ffff;
    let rd_bits = rd.index_u8() as u32;
    proof {
        lemma2_to64();
        lemma_pack(x, 0, 0, 0, 0, rd_bits, opcode);
    }
    Ok(((x >> 20) << 31) | (((x >> 1) & 0x03ff) << 21) | (((x >> 11) & 0x01) << 20) | (((x >> 12)
        & 0x0ff) << 12) | (rd_bits << 7) | opcode)
}

/// Builds an R-type word.
fn r_type(funct7: u32, rs2: Reg, rs1: Reg, funct3: u32, rd: Reg) -> (r: u32)
    requires
        funct7 < 0x80,
        funct3 < 8,
    ensures
        r == r_word(funct7 as int, rs2.number() as int, rs1, funct3 as int, rd, 0x33),
{
    let rs2_bits = rs2.index_u8() as u32;
    let rs1_bits = rs1.index_u8() as u32;
    let rd_bits = rd.index_u8() as u32;
    proof {
        lemma_pack(0, funct7, rs2_bits, rs1_bits, funct3, rd_bits, 0x33);
    }
    (funct7 << 25) | (rs2_bits << 20) | (rs1_bits << 15) | (funct3 << 12) | (rd_bits << 7)
        | 0b0110011
}

/// The `funct3` of a branch comparison.
fn branch_funct3(cond: BranchCond) -> (r: u32)
    ensures
        r == branch_funct3_spec(cond),
{
    match cond {
        BranchCond::Eq => 0b000,
        BranchCond::Ne => 0b001,
        BranchCond::Lt => 0b100,
        BranchCond::Ge => 0b101,
        BranchCond::Ltu => 0b110,
        BranchCond::Geu => 0b111,
    }
}

/// The `funct3` of a load width.
fn load_funct3(width: LoadWidth) -> (r: u32)
    ensures
        r == load_funct3_spec(width),
{
    match width {
        LoadWidth::Byte => 0b000,
        LoadWidth::Half => 0b001,
        LoadWidth::Word => 0b010,
        LoadWidth::ByteUnsigned => 0b100,
        LoadWidth::HalfUnsigned => 0b101,
    }
}

/// The `funct3` of a store width.
fn store_funct3(width: StoreWidth) -> (r: u32)
    ensures
        r == store_funct3_spec(width),
{
    match width {
        StoreWidth::Byte => 0b000,
        StoreWidth::Half => 0b001,
        StoreWidth::Word => 0b010,
    }
}

/// The `funct7` and `funct3` of a register-register operation.
fn reg_op_fields(op: RegOp) -> (r: (u32, u32))
    ensures
        r.0 == reg_op_funct7_spec(op),
        r.1 == reg_op_funct3_spec(op),
{
    match op {
        RegOp::Add => (0b0000000, 0b000),
        RegOp::Sub => (0b0100000, 0b000),
        RegOp::Sll => (0b0000000, 0b001),
        RegOp::Slt => (0b0000000, 0b010),
        RegOp::Sltu => (0b0000000, 0b011),
        RegOp::Xor => (0b0000000, 0b100),
        RegOp::Srl => (0b0000000, 0b101),
        RegOp::Sra => (0b0100000, 0b101),
        RegOp::Or => (0b0000000, 0b110),
        RegOp::And => (0b0000000, 0b111),
    }
}

} // verus!
