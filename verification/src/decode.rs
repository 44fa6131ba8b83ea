//! The RV32I decoder: from a 32-bit instruction word to an [`Instruction`].
use crate::error::DecodeError;
use crate::format::{
    b_imm, b_imm_value, field, i_imm, i_imm_value, j_imm, j_imm_value, s_imm, s_imm_value, u_imm,
    u_imm_value,
};
use crate::instruction::{
    BranchCond, FenceSet, ImmOp, Instruction, LoadWidth, RegOp, StoreWidth,
};
use crate::register::{reg_at, Reg};
use vstd::arithmetic::power2::lemma2_to64;
use vstd::prelude::*;

verus! {

/// The major opcode, `inst[6:0]`.
pub open spec fn opcode_field(w: u32) -> int {
    field(w, 0, 7)
}

/// The destination register number, `inst[11:7]`.
pub open spec fn rd_field(w: u32) -> int {
    field(w, 7, 5)
}

/// `funct3`, `inst[14:12]`.
pub open spec fn funct3_field(w: u32) -> int {
    field(w, 12, 3)
}

/// The first source register number, `inst[19:15]`.
pub open spec fn rs1_field(w: u32) -> int {
    field(w, 15, 5)
}

/// The second source register number (or shift amount), `inst[24:20]`.
pub open spec fn rs2_field(w: u32) -> int {
    field(w, 20, 5)
}

/// `funct7`, `inst[31:25]`.
pub open spec fn funct7_field(w: u32) -> int {
    field(w, 25, 7)
}

/// The branch comparison that `funct3` selects.
pub open spec fn branch_cond_for(f3: int) -> Option<BranchCond> {
    if f3 == 0 {
        Some(BranchCond::Eq)
    } else if f3 == 1 {
        Some(BranchCond::Ne)
    } else if f3 == 4 {
        Some(BranchCond::Lt)
    } else if f3 == 5 {
        Some(BranchCond::Ge)
    } else if f3 == 6 {
        Some(BranchCond::Ltu)
    } else if f3 == 7 {
        Some(BranchCond::Geu)
    } else {
        None
    }
}

/// The load width that `funct3` selects.
pub open spec fn load_width_for(f3: int) -> Option<LoadWidth> {
    if f3 == 0 {
        Some(LoadWidth::Byte)
    } else if f3 == 1 {
        Some(LoadWidth::Half)
    } else if f3 == 2 {
        Some(LoadWidth::Word)
    } else if f3 == 4 {
        Some(LoadWidth::ByteUnsigned)
    } else if f3 == 5 {
        Some(LoadWidth::HalfUnsigned)
    } else {
        None
    }
}

/// The store width that `funct3` selects.
pub open spec fn store_width_for(f3: int) -> Option<StoreWidth> {
    if f3 == 0 {
        Some(StoreWidth::Byte)
    } else if f3 == 1 {
        Some(StoreWidth::Half)
    } else if f3 == 2 {
        Some(StoreWidth::Word)
    } else {
        None
    }
}

/// The register-immediate operation that `funct3` and `funct7` select.
pub open spec fn imm_op_for(f3: int, f7: int) -> Option<ImmOp> {
    if f3 == 0 {
        Some(ImmOp::Addi)
    } else if f3 == 2 {
        Some(ImmOp::Slti)
    } else if f3 == 3 {
        Some(ImmOp::Sltiu)
    } else if f3 == 4 {
        Some(ImmOp::Xori)
    } else if f3 == 6 {
        Some(ImmOp::Ori)
    } else if f3 == 7 {
        Some(ImmOp::Andi)
    } else if f3 == 1 && f7 == 0 {
        Some(ImmOp::Slli)
    } else if f3 == 5 && f7 == 0 {
        Some(ImmOp::Srli)
    } else if f3 == 5 && f7 == 0x20 {
        Some(ImmOp::Srai)
    } else {
        None
    }
}

/// The register-register operation that `funct3` and `funct7` select.
pub open spec fn reg_op_for(f3: int, f7: int) -> Option<RegOp> {
    if f7 == 0 {
        if f3 == 0 {
            Some(RegOp::Add)
        } else if f3 == 1 {
            Some(RegOp::Sll)
        } else if f3 == 2 {
            Some(RegOp::Slt)
        } else if f3 == 3 {
            Some(RegOp::Sltu)
        } else if f3 == 4 {
            Some(RegOp::Xor)
        } else if f3 == 5 {
            Some(RegOp::Srl)
        } else if f3 == 6 {
            Some(RegOp::Or)
        } else if f3 == 7 {
            Some(RegOp::And)
        } else {
            None
        }
    } else if f7 == 0x20 && f3 == 0 {
        Some(RegOp::Sub)
    } else if f7 == 0x20 && f3 == 5 {
        Some(RegOp::Sra)
    } else {
        None
    }
}

/// The instruction that the 32-bit word `w` encodes, per the RV32I base
/// instruction set; `Invalid` for any other word.
pub open spec fn decode_spec(w: u32) -> Result<Instruction, DecodeError> {
    let opc = opcode_field(w);
    let rd = reg_at(rd_field(w) as nat);
    let rs1 = reg_at(rs1_field(w) as nat);
    let rs2 = reg_at(rs2_field(w) as nat);
    let f3 = funct3_field(w);
    let f7 = funct7_field(w);
    if opc == 0x37 {
        Ok(Instruction::Lui { rd, imm: u_imm_value(w) as i32 })
    } else if opc == 0x17 {
        Ok(Instruction::Auipc { rd, imm: u_imm_value(w) as i32 })
    } else if opc == 0x6f {
        Ok(Instruction::Jal { rd, offset: j_imm_value(w) as i32 })
    } else if opc == 0x67 {
        if f3 == 0 {
            Ok(Instruction::Jalr { rd, rs1, offset: i_imm_value(w) as i32 })
        } else {
            Err(DecodeError::Invalid)
        }
    } else if opc == 0x63 {
        match branch_cond_for(f3) {
            Some(cond) => Ok(Instruction::Branch { cond, rs1, rs2, offset: b_imm_value(w) as i32 }),
            None => Err(DecodeError::Invalid),
        }
    } else if opc == 0x03 {
        match load_width_for(f3) {
            Some(width) => Ok(Instruction::Load { width, rd, rs1, offset: i_imm_value(w) as i32 }),
            None => Err(DecodeError::Invalid),
        }
    } else if opc == 0x23 {
        match store_width_for(f3) {
            Some(width) => Ok(
                Instruction::Store { width, rs1, rs2, offset: s_imm_value(w) as i32 },
            ),
            None => Err(DecodeError::Invalid),
        }
    } else if opc == 0x13 {
        match imm_op_for(f3, f7) {
            Some(op) => Ok(
                Instruction::OpImm {
                    op,
                    rd,
                    rs1,
                    imm: if op.is_shift() {
                        rs2_field(w) as i32
                    } else {
                        i_imm_value(w) as i32
                    },
                },
            ),
            None => Err(DecodeError::Invalid),
        }
    } else if opc == 0x33 {
        match reg_op_for(f3, f7) {
            Some(op) => Ok(Instruction::Op { op, rd, rs1, rs2 }),
            None => Err(DecodeError::Invalid),
        }
    } else if opc == 0x0f {
        if f3 == 0 && rd_field(w) == 0 && rs1_field(w) == 0 && field(w, 28, 4) == 0 {
            Ok(
                Instruction::Fence {
                    predecessor: FenceSet::from_bits_spec(field(w, 24, 4) as u8),
                    successor: FenceSet::from_bits_spec(field(w, 20, 4) as u8),
                },
            )
        } else {
            Err(DecodeError::Invalid)
        }
    } else if opc == 0x73 {
        if w == 0x0000_0073 {
            Ok(Instruction::Ecall)
        } else if w == 0x0010_0073 {
            Ok(Instruction::Ebreak)
        } else {
            Err(DecodeError::Invalid)
        }
    } else {
        Err(DecodeError::Invalid)
    }
}

/// Shift-and-mask field extraction reads the same bits as the field specs.
proof fn lemma_fields(w: u32)
    by (bit_vector)
    ensures
        w & 0x7f == w % 0x80,
        (w >> 7) & 0x1f == (w / 0x80) % 0x20,
        (w >> 12) & 0x07 == (w / 0x1000) % 0x8,
        (w >> 15) & 0x1f == (w / 0x8000) % 0x20,
        (w >> 20) & 0x1f == (w / 0x100000) % 0x20,
        (w >> 25) & 0x7f == (w / 0x2000000) % 0x80,
        (w >> 28) & 0x0f == (w / 0x10000000) % 0x10,
        (w >> 24) & 0x0f == (w / 0x1000000) % 0x10,
        (w >> 20) & 0x0f == (w / 0x100000) % 0x10,
{
}

/// Decodes one 32-bit RV32I instruction word.
pub fn decode_word(word: u32) -> (r: Result<Instruction, DecodeError>)
    ensures
        r == decode_spec(word),
{
    proof {
        lemma2_to64();
    }
    match opcode(word) {
        0b0110111 => Ok(Instruction::Lui { rd: rd(word), imm: u_imm(word) }),
        0b0010111 => Ok(Instruction::Auipc { rd: rd(word), imm: u_imm(word) }),
        0b1101111 => Ok(Instruction::Jal { rd: rd(word), offset: j_imm(word) }),
        0b1100111 => decode_jalr(word),
        0b1100011 => decode_branch(word),
        0b0000011 => decode_load(word),
        0b0100011 => decode_store(word),
        0b0010011 => decode_op_imm(word),
        0b0110011 => decode_op(word),
        0b0001111 => decode_fence(word),
        0b1110011 => decode_system(word),
        _ => Err(DecodeError::Invalid),
    }
}

/// Decodes a JALR word (`funct3` must be zero).
fn decode_jalr(word: u32) -> (r: Result<Instruction, DecodeError>)
    requires
        opcode_field(word) == 0x67,
    ensures
        r == decode_spec(word),
{
    if funct3(word) != 0 {
        return Err(DecodeError::Invalid);
    }
    Ok(Instruction::Jalr { rd: rd(word), rs1: rs1(word), offset: i_imm(word) })
}

/// Decodes a conditional branch word.
fn decode_branch(word: u32) -> (r: Result<Instruction, DecodeError>)
    requires
        opcode_field(word) == 0x63,
    ensures
        r == decode_spec(word),
{
    let cond = match funct3(word) {
        0b000 => BranchCond::Eq,
        0b001 => BranchCond::Ne,
        0b100 => BranchCond::Lt,
        0b101 => BranchCond::Ge,
        0b110 => BranchCond::Ltu,
        0b111 => BranchCond::Geu,
        _ => return Err(DecodeError::Invalid),
    };
    Ok(Instruction::Branch { cond, rs1: rs1(word), rs2: rs2(word), offset: b_imm(word) })
}

/// Decodes a load word.
fn decode_load(word: u32) -> (r: Result<Instruction, DecodeError>)
    requires
        opcode_field(word) == 0x03,
    ensures
        r == decode_spec(word),
{
    let width = match funct3(word) {
        0b000 => LoadWidth::Byte,
        0b001 => LoadWidth::Half,
        0b010 => LoadWidth::Word,
        0b100 => LoadWidth::ByteUnsigned,
        0b101 => LoadWidth::HalfUnsigned,
        _ => return Err(DecodeError::Invalid),
    };
    Ok(Instruction::Load { width, rd: rd(word), rs1: rs1(word), offset: i_imm(word) })
}

/// Decodes a store word.
fn decode_store(word: u32) -> (r: Result<Instruction, DecodeError>)
    requires
        opcode_field(word) == 0x23,
    ensures
        r == decode_spec(word),
{
    let width = match funct3(word) {
        0b000 => StoreWidth::Byte,
        0b001 => StoreWidth::Half,
        0b010 => StoreWidth::Word,
        _ => return Err(DecodeError::Invalid),
    };
    Ok(Instruction::Store { width, rs1: rs1(word), rs2: rs2(word), offset: s_imm(word) })
}

/// Decodes a register-immediate ALU word; shifts take `inst[24:20]` as
/// their amount and require a known `funct7`.
fn decode_op_imm(word: u32) -> (r: Result<Instruction, DecodeError>)
    requires
        opcode_field(word) == 0x13,
    ensures
        r == decode_spec(word),
{
    let op = match funct3(word) {
        0b000 => ImmOp::Addi,
        0b010 => ImmOp::Slti,
        0b011 => ImmOp::Sltiu,
        0b100 => ImmOp::Xori,
        0b110 => ImmOp::Ori,
        0b111 => ImmOp::Andi,
        0b001 if funct7(word) == 0b0000000 => ImmOp::Slli,
        0b101 if funct7(word) == 0b0000000 => ImmOp::Srli,
        0b101 if funct7(word) == 0b0100000 => ImmOp::Srai,
        _ => return Err(DecodeError::Invalid),
    };
    let imm = if matches!(op, ImmOp::Slli | ImmOp::Srli | ImmOp::Srai) {
        shamt(word) as i32
    } else {
        i_imm(word)
    };
    Ok(Instruction::OpImm { op, rd: rd(word), rs1: rs1(word), imm })
}

/// Decodes a register-register ALU word.
fn decode_op(word: u32) -> (r: Result<Instruction, DecodeError>)
    requires
        opcode_field(word) == 0x33,
    ensures
        r == decode_spec(word),
{
    let op = match (funct3(word), funct7(word)) {
        (0b000, 0b0000000) => RegOp::Add,
        (0b000, 0b0100000) => RegOp::Sub,
        (0b001, 0b0000000) => RegOp::Sll,
        (0b010, 0b0000000) => RegOp::Slt,
        (0b011, 0b0000000) => RegOp::Sltu,
        (0b100, 0b0000000) => RegOp::Xor,
        (0b101, 0b0000000) => RegOp::Srl,
        (0b101, 0b0100000) => RegOp::Sra,
        (0b110, 0b0000000) => RegOp::Or,
        (0b111, 0b0000000) => RegOp::And,
        _ => return Err(DecodeError::Invalid),
    };
    Ok(Instruction::Op { op, rd: rd(word), rs1: rs1(word), rs2: rs2(word) })
}

/// Decodes a FENCE word; `fm`, `rd`, `rs1` and `funct3` must be zero.
fn decode_fence(word: u32) -> (r: Result<Instruction, DecodeError>)
    requires
        opcode_field(word) == 0x0f,
    ensures
        r == decode_spec(word),
{
    proof {
        lemma_fields(word);
        reveal(field);
        lemma2_to64();
    }
    if funct3(word) != 0 || rd(word) != Reg::X0 || rs1(word) != Reg::X0 {
        return Err(DecodeError::Invalid);
    }
    let fm = ((word >> 28) & 0x0f) as u8;
    if fm != 0 {
        return Err(DecodeError::Invalid);
    }
    Ok(
        Instruction::Fence {
            predecessor: FenceSet::from_bits(((word >> 24) & 0x0f) as u8).unwrap(),
            successor: FenceSet::from_bits(((word >> 20) & 0x0f) as u8).unwrap(),
        },
    )
}

/// Decodes ECALL and EBREAK, the only SYSTEM words of the base set.
fn decode_system(word: u32) -> (r: Result<Instruction, DecodeError>)
    requires
        opcode_field(word) == 0x73,
    ensures
        r == decode_spec(word),
{
    match word {
        0x0000_0073 => Ok(Instruction::Ecall),
        0x0010_0073 => Ok(Instruction::Ebreak),
        _ => Err(DecodeError::Invalid),
    }
}

/// The major opcode field.
fn opcode(word: u32) -> (r: u32)
    ensures
        r == opcode_field(word),
{
    proof {
        lemma_fields(word);
        reveal(field);
        lemma2_to64();
    }
    word & 0x7f
}

/// The destination register field.
fn rd(word: u32) -> (r: Reg)
    ensures
        r == reg_at(rd_field(word) as nat),
{
    proof {
        lemma_fields(word);
        reveal(field);
        lemma2_to64();
    }
    Reg::new(((word >> 7) & 0x1f) as u8).unwrap()
}

/// The `funct3` field.
fn funct3(word: u32) -> (r: u32)
    ensures
        r == funct3_field(word),
{
    proof {
        lemma_fields(word);
        reveal(field);
        lemma2_to64();
    }
    (word >> 12) & 0x07
}

/// The first source register field.
fn rs1(word: u32) -> (r: Reg)
    ensures
        r == reg_at(rs1_field(word) as nat),
{
    proof {
        lemma_fields(word);
        reveal(field);
        lemma2_to64();
    }
    Reg::new(((word >> 15) & 0x1f) as u8).unwrap()
}

/// The second source register field.
fn rs2(word: u32) -> (r: Reg)
    ensures
        r == reg_at(rs2_field(word) as nat),
{
    proof {
        lemma_fields(word);
        reveal(field);
        lemma2_to64();
    }
    Reg::new(((word >> 20) & 0x1f) as u8).unwrap()
}

/// The `funct7` field.
fn funct7(word: u32) -> (r: u32)
    ensures
        r == funct7_field(word),
{
    proof {
        lemma_fields(word);
        reveal(field);
        lemma2_to64();
    }
    (word >> 25) & 0x7f
}

/// The shift amount field, `inst[24:20]`.
fn shamt(word: u32) -> (r: u8)
    ensures
        r == rs2_field(word),
{
    proof {
        lemma_fields(word);
        reveal(field);
        lemma2_to64();
    }
    ((word >> 20) & 0x1f) as u8
}

} // verus!
