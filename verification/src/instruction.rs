//! The semantic RV32I instruction model.
use crate::opcode::Opcode;
use crate::register::Reg;
use vstd::prelude::*;

verus! {

/// A decoded RV32I instruction with semantic operands.
#[derive(Copy, Clone, Debug, PartialEq, Eq, Structural)]
pub enum Instruction {
    Lui { rd: Reg, imm: i32 },
    Auipc { rd: Reg, imm: i32 },
    Jal { rd: Reg, offset: i32 },
    Jalr { rd: Reg, rs1: Reg, offset: i32 },
    Branch { cond: BranchCond, rs1: Reg, rs2: Reg, offset: i32 },
    Load { width: LoadWidth, rd: Reg, rs1: Reg, offset: i32 },
    Store { width: StoreWidth, rs1: Reg, rs2: Reg, offset: i32 },
    OpImm { op: ImmOp, rd: Reg, rs1: Reg, imm: i32 },
    Op { op: RegOp, rd: Reg, rs1: Reg, rs2: Reg },
    Fence { predecessor: FenceSet, successor: FenceSet },
    Ecall,
    Ebreak,
}

impl Instruction {
    /// The operation this instruction performs.
    pub open spec fn opcode_spec(self) -> Opcode {
        match self {
            Instruction::Lui { .. } => Opcode::Lui,
            Instruction::Auipc { .. } => Opcode::Auipc,
            Instruction::Jal { .. } => Opcode::Jal,
            Instruction::Jalr { .. } => Opcode::Jalr,
            Instruction::Branch { cond, .. } => cond.opcode_spec(),
            Instruction::Load { width, .. } => width.opcode_spec(),
            Instruction::Store { width, .. } => width.opcode_spec(),
            Instruction::OpImm { op, .. } => op.opcode_spec(),
            Instruction::Op { op, .. } => op.opcode_spec(),
            Instruction::Fence { .. } => Opcode::Fence,
            Instruction::Ecall => Opcode::Ecall,
            Instruction::Ebreak => Opcode::Ebreak,
        }
    }

    /// The operation this instruction performs.
    pub fn opcode(self) -> (r: Opcode)
        ensures
            r == self.opcode_spec(),
    {
        match self {
            Instruction::Lui { .. } => Opcode::Lui,
            Instruction::Auipc { .. } => Opcode::Auipc,
            Instruction::Jal { .. } => Opcode::Jal,
            Instruction::Jalr { .. } => Opcode::Jalr,
            Instruction::Branch { cond, .. } => cond.opcode(),
            Instruction::Load { width, .. } => width.opcode(),
            Instruction::Store { width, .. } => width.opcode(),
            Instruction::OpImm { op, .. } => op.opcode(),
            Instruction::Op { op, .. } => op.opcode(),
            Instruction::Fence { .. } => Opcode::Fence,
            Instruction::Ecall => Opcode::Ecall,
            Instruction::Ebreak => Opcode::Ebreak,
        }
    }
}

/// Conditional branch comparisons.
#[derive(Copy, Clone, Debug, PartialEq, Eq, Structural)]
pub enum BranchCond {
    Eq,
    Ne,
    Lt,
    Ge,
    Ltu,
    Geu,
}

impl BranchCond {
    /// The branch operation for this comparison.
    pub open spec fn opcode_spec(self) -> Opcode {
        match self {
            BranchCond::Eq => Opcode::Beq,
            BranchCond::Ne => Opcode::Bne,
            BranchCond::Lt => Opcode::Blt,
            BranchCond::Ge => Opcode::Bge,
            BranchCond::Ltu => Opcode::Bltu,
            BranchCond::Geu => Opcode::Bgeu,
        }
    }

    /// The branch operation for this comparison.
    pub fn opcode(self) -> (r: Opcode)
        ensures
            r == self.opcode_spec(),
    {
        match self {
            BranchCond::Eq => Opcode::Beq,
            BranchCond::Ne => Opcode::Bne,
            BranchCond::Lt => Opcode::Blt,
            BranchCond::Ge => Opcode::Bge,
            BranchCond::Ltu => Opcode::Bltu,
            BranchCond::Geu => Opcode::Bgeu,
        }
    }
}

/// Load widths, signed and zero-extending.
#[derive(Copy, Clone, Debug, PartialEq, Eq, Structural)]
pub enum LoadWidth {
    Byte,
    Half,
    Word,
    ByteUnsigned,
    HalfUnsigned,
}

impl LoadWidth {
    /// Number of bytes read.
    pub fn bytes(self) -> (r: usize)
        ensures
            r == match self {
                LoadWidth::Byte | LoadWidth::ByteUnsigned => 1usize,
                LoadWidth::Half | LoadWidth::HalfUnsigned => 2usize,
                LoadWidth::Word => 4usize,
            },
    {
        match self {
            LoadWidth::Byte | LoadWidth::ByteUnsigned => 1,
            LoadWidth::Half | LoadWidth::HalfUnsigned => 2,
            LoadWidth::Word => 4,
        }
    }

    /// Whether the loaded value is sign-extended.
    pub fn is_signed(self) -> (r: bool)
        ensures
            r == (self is Byte || self is Half || self is Word),
    {
        match self {
            LoadWidth::Byte | LoadWidth::Half | LoadWidth::Word => true,
            LoadWidth::ByteUnsigned | LoadWidth::HalfUnsigned => false,
        }
    }

    /// The load operation of this width.
    pub open spec fn opcode_spec(self) -> Opcode {
        match self {
            LoadWidth::Byte => Opcode::Lb,
            LoadWidth::Half => Opcode::Lh,
            LoadWidth::Word => Opcode::Lw,
            LoadWidth::ByteUnsigned => Opcode::Lbu,
            LoadWidth::HalfUnsigned => Opcode::Lhu,
        }
    }

    /// The load operation of this width.
    pub fn opcode(self) -> (r: Opcode)
        ensures
            r == self.opcode_spec(),
    {
        match self {
            LoadWidth::Byte => Opcode::Lb,
            LoadWidth::Half => Opcode::Lh,
            LoadWidth::Word => Opcode::Lw,
            LoadWidth::ByteUnsigned => Opcode::Lbu,
            LoadWidth::HalfUnsigned => Opcode::Lhu,
        }
    }
}

/// Store widths.
#[derive(Copy, Clone, Debug, PartialEq, Eq, Structural)]
pub enum StoreWidth {
    Byte,
    Half,
    Word,
}

impl StoreWidth {
    /// Number of bytes written.
    pub fn bytes(self) -> (r: usize)
        ensures
            r == match self {
                StoreWidth::Byte => 1usize,
                StoreWidth::Half => 2usize,
                StoreWidth::Word => 4usize,
            },
    {
        match self {
            StoreWidth::Byte => 1,
            StoreWidth::Half => 2,
            StoreWidth::Word => 4,
        }
    }

    /// The store operation of this width.
    pub open spec fn opcode_spec(self) -> Opcode {
        match self {
            StoreWidth::Byte => Opcode::Sb,
            StoreWidth::Half => Opcode::Sh,
            StoreWidth::Word => Opcode::Sw,
        }
    }

    /// The store operation of this width.
    pub fn opcode(self) -> (r: Opcode)
        ensures
            r == self.opcode_spec(),
    {
        match self {
            StoreWidth::Byte => Opcode::Sb,
            StoreWidth::Half => Opcode::Sh,
            StoreWidth::Word => Opcode::Sw,
        }
    }
}

/// Register-immediate ALU operations.
#[derive(Copy, Clone, Debug, PartialEq, Eq, Structural)]
pub enum ImmOp {
    Addi,
    Slti,
    Sltiu,
    Xori,
    Ori,
    Andi,
    Slli,
    Srli,
    Srai,
}

impl ImmOp {
    /// The shift-by-immediate operations, whose immediate is a shift amount.
    pub open spec fn is_shift(self) -> bool {
        self is Slli || self is Srli || self is Srai
    }

    /// The operation's opcode.
    pub open spec fn opcode_spec(self) -> Opcode {
        match self {
            ImmOp::Addi => Opcode::Addi,
            ImmOp::Slti => Opcode::Slti,
            ImmOp::Sltiu => Opcode::Sltiu,
            ImmOp::Xori => Opcode::Xori,
            ImmOp::Ori => Opcode::Ori,
            ImmOp::Andi => Opcode::Andi,
            ImmOp::Slli => Opcode::Slli,
            ImmOp::Srli => Opcode::Srli,
            ImmOp::Srai => Opcode::Srai,
        }
    }

    /// The operation's opcode.
    pub fn opcode(self) -> (r: Opcode)
        ensures
            r == self.opcode_spec(),
    {
        match self {
            ImmOp::Addi => Opcode::Addi,
            ImmOp::Slti => Opcode::Slti,
            ImmOp::Sltiu => Opcode::Sltiu,
            ImmOp::Xori => Opcode::Xori,
            ImmOp::Ori => Opcode::Ori,
            ImmOp::Andi => Opcode::Andi,
            ImmOp::Slli => Opcode::Slli,
            ImmOp::Srli => Opcode::Srli,
            ImmOp::Srai => Opcode::Srai,
        }
    }
}

/// Register-register ALU operations.
#[derive(Copy, Clone, Debug, PartialEq, Eq, Structural)]
pub enum RegOp {
    Add,
    Sub,
    Sll,
    Slt,
    Sltu,
    Xor,
    Srl,
    Sra,
    Or,
    And,
}

impl RegOp {
    /// The operation's opcode.
    pub open spec fn opcode_spec(self) -> Opcode {
        match self {
            RegOp::Add => Opcode::Add,
            RegOp::Sub => Opcode::Sub,
            RegOp::Sll => Opcode::Sll,
            RegOp::Slt => Opcode::Slt,
            RegOp::Sltu => Opcode::Sltu,
            RegOp::Xor => Opcode::Xor,
            RegOp::Srl => Opcode::Srl,
            RegOp::Sra => Opcode::Sra,
            RegOp::Or => Opcode::Or,
            RegOp::And => Opcode::And,
        }
    }

    /// The operation's opcode.
    pub fn opcode(self) -> (r: Opcode)
        ensures
            r == self.opcode_spec(),
    {
        match self {
            RegOp::Add => Opcode::Add,
            RegOp::Sub => Opcode::Sub,
            RegOp::Sll => Opcode::Sll,
            RegOp::Slt => Opcode::Slt,
            RegOp::Sltu => Opcode::Sltu,
            RegOp::Xor => Opcode::Xor,
            RegOp::Srl => Opcode::Srl,
            RegOp::Sra => Opcode::Sra,
            RegOp::Or => Opcode::Or,
            RegOp::And => Opcode::And,
        }
    }
}

} // verus!

verus! {

/// A FENCE predecessor or successor set: a subset of the device input (`i`),
/// device output (`o`), memory read (`r`) and memory write (`w`) orderings.
/// Its 4-bit encoding lists the members in `iorw` order, `i` highest.
#[derive(Copy, Clone, Debug, PartialEq, Eq, Structural)]
pub enum FenceSet {
    NONE,
    W,
    R,
    RW,
    O,
    OW,
    OR,
    ORW,
    I,
    IW,
    IR,
    IRW,
    IO,
    IOW,
    IOR,
    IORW,
}

impl FenceSet {
    /// The 4-bit `iorw` encoding of the set.
    pub open spec fn bits_spec(self) -> u8 {
        match self {
            FenceSet::NONE => 0,
            FenceSet::W => 1,
            FenceSet::R => 2,
            FenceSet::RW => 3,
            FenceSet::O => 4,
            FenceSet::OW => 5,
            FenceSet::OR => 6,
            FenceSet::ORW => 7,
            FenceSet::I => 8,
            FenceSet::IW => 9,
            FenceSet::IR => 10,
            FenceSet::IRW => 11,
            FenceSet::IO => 12,
            FenceSet::IOW => 13,
            FenceSet::IOR => 14,
            FenceSet::IORW => 15,
        }
    }

    /// The set whose 4-bit `iorw` encoding is `b` (`b < 16`).
    pub open spec fn from_bits_spec(b: u8) -> FenceSet {
        if b == 0 {
            FenceSet::NONE
        } else if b == 1 {
            FenceSet::W
        } else if b == 2 {
            FenceSet::R
        } else if b == 3 {
            FenceSet::RW
        } else if b == 4 {
            FenceSet::O
        } else if b == 5 {
            FenceSet::OW
        } else if b == 6 {
            FenceSet::OR
        } else if b == 7 {
            FenceSet::ORW
        } else if b == 8 {
            FenceSet::I
        } else if b == 9 {
            FenceSet::IW
        } else if b == 10 {
            FenceSet::IR
        } else if b == 11 {
            FenceSet::IRW
        } else if b == 12 {
            FenceSet::IO
        } else if b == 13 {
            FenceSet::IOW
        } else if b == 14 {
            FenceSet::IOR
        } else {
            FenceSet::IORW
        }
    }

    /// The set with the 4-bit `iorw` encoding `bits`, if `bits` has no
    /// other bit set.
    pub fn from_bits(bits: u8) -> (r: Option<Self>)
        ensures
            r == (if bits <= 0b1111 {
                Some(FenceSet::from_bits_spec(bits))
            } else {
                None
            }),
    {
        match bits {
            0 => Some(FenceSet::NONE),
            1 => Some(FenceSet::W),
            2 => Some(FenceSet::R),
            3 => Some(FenceSet::RW),
            4 => Some(FenceSet::O),
            5 => Some(FenceSet::OW),
            6 => Some(FenceSet::OR),
            7 => Some(FenceSet::ORW),
            8 => Some(FenceSet::I),
            9 => Some(FenceSet::IW),
            10 => Some(FenceSet::IR),
            11 => Some(FenceSet::IRW),
            12 => Some(FenceSet::IO),
            13 => Some(FenceSet::IOW),
            14 => Some(FenceSet::IOR),
            15 => Some(FenceSet::IORW),
            _ => None,
        }
    }

    /// The 4-bit `iorw` encoding of the set.
    pub fn bits(self) -> (r: u8)
        ensures
            r == self.bits_spec(),
            r <= 0b1111,
    {
        match self {
            FenceSet::NONE => 0,
            FenceSet::W => 1,
            FenceSet::R => 2,
            FenceSet::RW => 3,
            FenceSet::O => 4,
            FenceSet::OW => 5,
            FenceSet::OR => 6,
            FenceSet::ORW => 7,
            FenceSet::I => 8,
            FenceSet::IW => 9,
            FenceSet::IR => 10,
            FenceSet::IRW => 11,
            FenceSet::IO => 12,
            FenceSet::IOW => 13,
            FenceSet::IOR => 14,
            FenceSet::IORW => 15,
        }
    }

    /// Whether every member of `other` is a member of this set.
    pub fn contains(self, other: Self) -> (r: bool)
        ensures
            r == (self.bits_spec() & other.bits_spec() == other.bits_spec()),
    {
        (self.bits() & other.bits()) == other.bits()
    }
}

/// The single-member sets have the `iorw` bits: `i` is 8, `o` 4, `r` 2 and
/// `w` 1; the empty set is 0 and the full set 15; and the set with bits
/// `b` has each member whose bit is set in `b`.
pub proof fn lemma_fence_members(b: u8)
    requires
        b <= 0b1111,
    ensures
        FenceSet::NONE.bits_spec() == 0,
        FenceSet::I.bits_spec() == 8,
        FenceSet::O.bits_spec() == 4,
        FenceSet::R.bits_spec() == 2,
        FenceSet::W.bits_spec() == 1,
        FenceSet::IORW.bits_spec() == 15,
        FenceSet::from_bits_spec(b).bits_spec() == b,
{
}

/// Each set is recovered from its encoding, and each encoding below 16
/// from its set.
pub proof fn lemma_fence_bits_round_trip(s: FenceSet, b: u8)
    ensures
        s.bits_spec() <= 0b1111,
        FenceSet::from_bits_spec(s.bits_spec()) == s,
        b <= 0b1111 ==> FenceSet::from_bits_spec(b).bits_spec() == b,
{
}

/// Two instructions with the same opcode perform the same operation: they
/// are of the same kind, and agree on the branch condition, the access
/// width or the arithmetic operation. Distinct operations never share an
/// opcode.
pub proof fn lemma_opcode_determines_operation(a: Instruction, b: Instruction)
    requires
        a.opcode_spec() == b.opcode_spec(),
    ensures
        a is Lui == b is Lui,
        a is Auipc == b is Auipc,
        a is Jal == b is Jal,
        a is Jalr == b is Jalr,
        a is Branch == b is Branch,
        a is Load == b is Load,
        a is Store == b is Store,
        a is OpImm == b is OpImm,
        a is Op == b is Op,
        a is Fence == b is Fence,
        a is Ecall == b is Ecall,
        a is Ebreak == b is Ebreak,
        a is Branch && b is Branch ==> a->Branch_cond == b->Branch_cond,
        a is Load && b is Load ==> a->Load_width == b->Load_width,
        a is Store && b is Store ==> a->Store_width == b->Store_width,
        a is OpImm && b is OpImm ==> a->OpImm_op == b->OpImm_op,
        a is Op && b is Op ==> a->Op_op == b->Op_op,
{
}

} // verus!
