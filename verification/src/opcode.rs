//! RV32I operation codes: one per base instruction, each with its
//! assembler mnemonic.
use vstd::prelude::*;

verus! {

/// An RV32I base instruction operation.
#[derive(Copy, Clone, Debug, PartialEq, Eq, Structural, Hash)]
pub enum Opcode {
    Lui,
    Auipc,
    Jal,
    Jalr,
    Beq,
    Bne,
    Blt,
    Bge,
    Bltu,
    Bgeu,
    Lb,
    Lh,
    Lw,
    Lbu,
    Lhu,
    Sb,
    Sh,
    Sw,
    Addi,
    Slti,
    Sltiu,
    Xori,
    Ori,
    Andi,
    Slli,
    Srli,
    Srai,
    Add,
    Sub,
    Sll,
    Slt,
    Sltu,
    Xor,
    Srl,
    Sra,
    Or,
    And,
    Fence,
    Ecall,
    Ebreak,
}

impl Opcode {
    /// The canonical lowercase assembler mnemonic of the operation.
    pub open spec fn mnemonic_text(self) -> Seq<char> {
        match self {
            Opcode::Lui => "lui"@,
            Opcode::Auipc => "auipc"@,
            Opcode::Jal => "jal"@,
            Opcode::Jalr => "jalr"@,
            Opcode::Beq => "beq"@,
            Opcode::Bne => "bne"@,
            Opcode::Blt => "blt"@,
            Opcode::Bge => "bge"@,
            Opcode::Bltu => "bltu"@,
            Opcode::Bgeu => "bgeu"@,
            Opcode::Lb => "lb"@,
            Opcode::Lh => "lh"@,
            Opcode::Lw => "lw"@,
            Opcode::Lbu => "lbu"@,
            Opcode::Lhu => "lhu"@,
            Opcode::Sb => "sb"@,
            Opcode::Sh => "sh"@,
            Opcode::Sw => "sw"@,
            Opcode::Addi => "addi"@,
            Opcode::Slti => "slti"@,
            Opcode::Sltiu => "sltiu"@,
            Opcode::Xori => "xori"@,
            Opcode::Ori => "ori"@,
            Opcode::Andi => "andi"@,
            Opcode::Slli => "slli"@,
            Opcode::Srli => "srli"@,
            Opcode::Srai => "srai"@,
            Opcode::Add => "add"@,
            Opcode::Sub => "sub"@,
            Opcode::Sll => "sll"@,
            Opcode::Slt => "slt"@,
            Opcode::Sltu => "sltu"@,
            Opcode::Xor => "xor"@,
            Opcode::Srl => "srl"@,
            Opcode::Sra => "sra"@,
            Opcode::Or => "or"@,
            Opcode::And => "and"@,
            Opcode::Fence => "fence"@,
            Opcode::Ecall => "ecall"@,
            Opcode::Ebreak => "ebreak"@,
        }
    }

    /// The canonical lowercase assembler mnemonic.
    pub fn mnemonic(self) -> (r: &'static str)
        ensures
            r@ == self.mnemonic_text(),
    {
        match self {
            Opcode::Lui => "lui",
            Opcode::Auipc => "auipc",
            Opcode::Jal => "jal",
            Opcode::Jalr => "jalr",
            Opcode::Beq => "beq",
            Opcode::Bne => "bne",
            Opcode::Blt => "blt",
            Opcode::Bge => "bge",
            Opcode::Bltu => "bltu",
            Opcode::Bgeu => "bgeu",
            Opcode::Lb => "lb",
            Opcode::Lh => "lh",
            Opcode::Lw => "lw",
            Opcode::Lbu => "lbu",
            Opcode::Lhu => "lhu",
            Opcode::Sb => "sb",
            Opcode::Sh => "sh",
            Opcode::Sw => "sw",
            Opcode::Addi => "addi",
            Opcode::Slti => "slti",
            Opcode::Sltiu => "sltiu",
            Opcode::Xori => "xori",
            Opcode::Ori => "ori",
            Opcode::Andi => "andi",
            Opcode::Slli => "slli",
            Opcode::Srli => "srli",
            Opcode::Srai => "srai",
            Opcode::Add => "add",
            Opcode::Sub => "sub",
            Opcode::Sll => "sll",
            Opcode::Slt => "slt",
            Opcode::Sltu => "sltu",
            Opcode::Xor => "xor",
            Opcode::Srl => "srl",
            Opcode::Sra => "sra",
            Opcode::Or => "or",
            Opcode::And => "and",
            Opcode::Fence => "fence",
            Opcode::Ecall => "ecall",
            Opcode::Ebreak => "ebreak",
        }
    }
}

/// Each operation's mnemonic is its canonical lowercase RISC-V name,
/// spelled out character by character.
pub proof fn lemma_mnemonic_spelling(op: Opcode)
    ensures
        op.mnemonic_text() == match op {
            Opcode::Lui => seq!['l', 'u', 'i'],
            Opcode::Auipc => seq!['a', 'u', 'i', 'p', 'c'],
            Opcode::Jal => seq!['j', 'a', 'l'],
            Opcode::Jalr => seq!['j', 'a', 'l', 'r'],
            Opcode::Beq => seq!['b', 'e', 'q'],
            Opcode::Bne => seq!['b', 'n', 'e'],
            Opcode::Blt => seq!['b', 'l', 't'],
            Opcode::Bge => seq!['b', 'g', 'e'],
            Opcode::Bltu => seq!['b', 'l', 't', 'u'],
            Opcode::Bgeu => seq!['b', 'g', 'e', 'u'],
            Opcode::Lb => seq!['l', 'b'],
            Opcode::Lh => seq!['l', 'h'],
            Opcode::Lw => seq!['l', 'w'],
            Opcode::Lbu => seq!['l', 'b', 'u'],
            Opcode::Lhu => seq!['l', 'h', 'u'],
            Opcode::Sb => seq!['s', 'b'],
            Opcode::Sh => seq!['s', 'h'],
            Opcode::Sw => seq!['s', 'w'],
            Opcode::Addi => seq!['a', 'd', 'd', 'i'],
            Opcode::Slti => seq!['s', 'l', 't', 'i'],
            Opcode::Sltiu => seq!['s', 'l', 't', 'i', 'u'],
            Opcode::Xori => seq!['x', 'o', 'r', 'i'],
            Opcode::Ori => seq!['o', 'r', 'i'],
            Opcode::Andi => seq!['a', 'n', 'd', 'i'],
            Opcode::Slli => seq!['s', 'l', 'l', 'i'],
            Opcode::Srli => seq!['s', 'r', 'l', 'i'],
            Opcode::Srai => seq!['s', 'r', 'a', 'i'],
            Opcode::Add => seq!['a', 'd', 'd'],
            Opcode::Sub => seq!['s', 'u', 'b'],
            Opcode::Sll => seq!['s', 'l', 'l'],
            Opcode::Slt => seq!['s', 'l', 't'],
            Opcode::Sltu => seq!['s', 'l', 't', 'u'],
            Opcode::Xor => seq!['x', 'o', 'r'],
            Opcode::Srl => seq!['s', 'r', 'l'],
            Opcode::Sra => seq!['s', 'r', 'a'],
            Opcode::Or => seq!['o', 'r'],
            Opcode::And => seq!['a', 'n', 'd'],
            Opcode::Fence => seq!['f', 'e', 'n', 'c', 'e'],
            Opcode::Ecall => seq!['e', 'c', 'a', 'l', 'l'],
            Opcode::Ebreak => seq!['e', 'b', 'r', 'e', 'a', 'k'],
        },
        forall|i: int|
            0 <= i < op.mnemonic_text().len() ==> 'a' <= #[trigger] op.mnemonic_text()[i] <= 'z',
{
    reveal_strlit("lui");
    reveal_strlit("auipc");
    reveal_strlit("jal");
    reveal_strlit("jalr");
    reveal_strlit("beq");
    reveal_strlit("bne");
    reveal_strlit("blt");
    reveal_strlit("bge");
    reveal_strlit("bltu");
    reveal_strlit("bgeu");
    reveal_strlit("lb");
    reveal_strlit("lh");
    reveal_strlit("lw");
    reveal_strlit("lbu");
    reveal_strlit("lhu");
    reveal_strlit("sb");
    reveal_strlit("sh");
    reveal_strlit("sw");
    reveal_strlit("addi");
    reveal_strlit("slti");
    reveal_strlit("sltiu");
    reveal_strlit("xori");
    reveal_strlit("ori");
    reveal_strlit("andi");
    reveal_strlit("slli");
    reveal_strlit("srli");
    reveal_strlit("srai");
    reveal_strlit("add");
    reveal_strlit("sub");
    reveal_strlit("sll");
    reveal_strlit("slt");
    reveal_strlit("sltu");
    reveal_strlit("xor");
    reveal_strlit("srl");
    reveal_strlit("sra");
    reveal_strlit("or");
    reveal_strlit("and");
    reveal_strlit("fence");
    reveal_strlit("ecall");
    reveal_strlit("ebreak");
}

/// Distinct operations have distinct mnemonics.
pub proof fn lemma_mnemonics_distinct(a: Opcode, b: Opcode)
    requires
        a != b,
    ensures
        a.mnemonic_text() != b.mnemonic_text(),
{
    lemma_mnemonic_spelling(a);
    lemma_mnemonic_spelling(b);
    let x = a.mnemonic_text();
    let y = b.mnemonic_text();
    if x.len() == y.len() {
        assert(x[0] != y[0] || x[1] != y[1] || x[x.len() - 1] != y[y.len() - 1] || x[2] != y[2]);
    }
}

} // verus!
