//! RV32I disassembly: the assembler text of an instruction.
use crate::instruction::{FenceSet, Instruction};
use crate::register::{canonical_name, Reg};
use crate::text::{push_signed, signed_text};
use vstd::prelude::*;
use vstd::string::StringExecFns;

verus! {

/// `, ` between operands.
pub open spec fn comma() -> Seq<char> {
    seq![',', ' ']
}

/// A register operand: its canonical name.
pub open spec fn reg_text(r: Reg) -> Seq<char> {
    canonical_name(r.number())
}

/// A memory operand `offset(base)`.
pub open spec fn address_text(offset: i32, base: Reg) -> Seq<char> {
    signed_text(offset as int) + seq!['('] + reg_text(base) + seq![')']
}

/// A FENCE set: its members in `iorw` order, or `0` for the empty set.
pub open spec fn fence_set_text(set: FenceSet) -> Seq<char> {
    let b = set.bits_spec();
    if b == 0 {
        seq!['0']
    } else {
        (if b & 8 == 8 { seq!['i'] } else { Seq::empty() }) + (if b & 4 == 4 {
            seq!['o']
        } else {
            Seq::empty()
        }) + (if b & 2 == 2 { seq!['r'] } else { Seq::empty() }) + (if b & 1 == 1 {
            seq!['w']
        } else {
            Seq::empty()
        })
    }
}

/// ` r, v`: a register and a value.
pub open spec fn reg_value_text(r: Reg, v: i32) -> Seq<char> {
    seq![' '] + reg_text(r) + comma() + signed_text(v as int)
}

/// ` r, offset(base)`: a register and a memory operand.
pub open spec fn reg_address_text(r: Reg, offset: i32, base: Reg) -> Seq<char> {
    seq![' '] + reg_text(r) + comma() + address_text(offset, base)
}

/// ` a, b, v`: two registers and a value.
pub open spec fn regs_value_text(a: Reg, b: Reg, v: i32) -> Seq<char> {
    seq![' '] + reg_text(a) + comma() + reg_text(b) + comma() + signed_text(v as int)
}

/// ` a, b, c`: three registers.
pub open spec fn three_regs_text(a: Reg, b: Reg, c: Reg) -> Seq<char> {
    seq![' '] + reg_text(a) + comma() + reg_text(b) + comma() + reg_text(c)
}

/// ` p, s`: the predecessor and successor sets of a FENCE.
pub open spec fn fence_sets_text(p: FenceSet, s: FenceSet) -> Seq<char> {
    seq![' '] + fence_set_text(p) + comma() + fence_set_text(s)
}

/// The operands of an instruction as written after its mnemonic (with the
/// separating space), empty when it has none.
pub open spec fn operands_text(insn: Instruction) -> Seq<char> {
    match insn {
        Instruction::Lui { rd, imm } => reg_value_text(rd, imm),
        Instruction::Auipc { rd, imm } => reg_value_text(rd, imm),
        Instruction::Jal { rd, offset } => reg_value_text(rd, offset),
        Instruction::Jalr { rd, rs1, offset } => reg_address_text(rd, offset, rs1),
        Instruction::Branch { rs1, rs2, offset, .. } => regs_value_text(rs1, rs2, offset),
        Instruction::Load { rd, rs1, offset, .. } => reg_address_text(rd, offset, rs1),
        Instruction::Store { rs1, rs2, offset, .. } => reg_address_text(rs2, offset, rs1),
        Instruction::OpImm { rd, rs1, imm, .. } => regs_value_text(rd, rs1, imm),
        Instruction::Op { rd, rs1, rs2, .. } => three_regs_text(rd, rs1, rs2),
        Instruction::Fence { predecessor, successor } => fence_sets_text(predecessor, successor),
        Instruction::Ecall | Instruction::Ebreak => Seq::empty(),
    }
}

/// The assembler text of an instruction: its mnemonic, then its operands.
pub open spec fn disassembly(insn: Instruction) -> Seq<char> {
    insn.opcode_spec().mnemonic_text() + operands_text(insn)
}

/// Appends the assembler text of `insn` to `out`.
pub fn disassemble(insn: Instruction, out: &mut String)
    ensures
        final(out)@ == old(out)@ + disassembly(insn),
{
    out.append(insn.opcode().mnemonic());
    match insn {
        Instruction::Lui { rd, imm } | Instruction::Auipc { rd, imm } => push_reg_value(out, rd, imm),
        Instruction::Jal { rd, offset } => push_reg_value(out, rd, offset),
        Instruction::Jalr { rd, rs1, offset } => push_reg_address(out, rd, offset, rs1),
        Instruction::Branch { rs1, rs2, offset, .. } => push_regs_value(out, rs1, rs2, offset),
        Instruction::Load { rd, rs1, offset, .. } => push_reg_address(out, rd, offset, rs1),
        Instruction::Store { rs1, rs2, offset, .. } => push_reg_address(out, rs2, offset, rs1),
        Instruction::OpImm { rd, rs1, imm, .. } => push_regs_value(out, rd, rs1, imm),
        Instruction::Op { rd, rs1, rs2, .. } => push_three_regs(out, rd, rs1, rs2),
        Instruction::Fence { predecessor, successor } => push_fence_sets(
            out,
            predecessor,
            successor,
        ),
        Instruction::Ecall | Instruction::Ebreak => {},
    }
}

/// Appends ` r, `.
fn push_first_reg(out: &mut String, r: Reg)
    ensures
        final(out)@ == old(out)@ + seq![' '] + reg_text(r) + comma(),
{
    proof {
        reveal_strlit(" ");
        reveal_strlit(", ");
    }
    out.append(" ");
    out.append(r.name());
    out.append(", ");
}

/// Appends ` r, v`.
fn push_reg_value(out: &mut String, r: Reg, v: i32)
    ensures
        final(out)@ == old(out)@ + reg_value_text(r, v),
{
    push_first_reg(out, r);
    push_signed(out, v);
}

/// Appends ` r, offset(base)`.
fn push_reg_address(out: &mut String, r: Reg, offset: i32, base: Reg)
    ensures
        final(out)@ == old(out)@ + reg_address_text(r, offset, base),
{
    push_first_reg(out, r);
    push_address(out, offset, base);
}

/// Appends ` a, b, v`.
fn push_regs_value(out: &mut String, a: Reg, b: Reg, v: i32)
    ensures
        final(out)@ == old(out)@ + regs_value_text(a, b, v),
{
    proof {
        reveal_strlit(", ");
    }
    push_first_reg(out, a);
    out.append(b.name());
    out.append(", ");
    push_signed(out, v);
}

/// Appends ` a, b, c`.
fn push_three_regs(out: &mut String, a: Reg, b: Reg, c: Reg)
    ensures
        final(out)@ == old(out)@ + three_regs_text(a, b, c),
{
    proof {
        reveal_strlit(", ");
    }
    push_first_reg(out, a);
    out.append(b.name());
    out.append(", ");
    out.append(c.name());
}

/// Appends ` p, s`.
fn push_fence_sets(out: &mut String, p: FenceSet, s: FenceSet)
    ensures
        final(out)@ == old(out)@ + fence_sets_text(p, s),
{
    proof {
        reveal_strlit(" ");
        reveal_strlit(", ");
    }
    out.append(" ");
    push_fence_set(out, p);
    out.append(", ");
    push_fence_set(out, s);
}

/// Appends a memory operand `offset(base)` to `out`.
fn push_address(out: &mut String, offset: i32, base: Reg)
    ensures
        final(out)@ == old(out)@ + address_text(offset, base),
{
    proof {
        reveal_strlit("(");
        reveal_strlit(")");
    }
    push_signed(out, offset);
    out.append("(");
    out.append(base.name());
    out.append(")");
}

/// Appends the text of a FENCE set to `out`.
fn push_fence_set(out: &mut String, set: FenceSet)
    ensures
        final(out)@ == old(out)@ + fence_set_text(set),
{
    proof {
        reveal_strlit("0");
        reveal_strlit("i");
        reveal_strlit("o");
        reveal_strlit("r");
        reveal_strlit("w");
    }
    let ghost start = out@;
    if set == FenceSet::NONE {
        out.append("0");
        return;
    }
    if set.contains(FenceSet::I) {
        out.append("i");
    }
    if set.contains(FenceSet::O) {
        out.append("o");
    }
    if set.contains(FenceSet::R) {
        out.append("r");
    }
    if set.contains(FenceSet::W) {
        out.append("w");
    }
    let ghost b = set.bits_spec();
    let ghost i_part = if b & 8 == 8 { seq!['i'] } else { Seq::<char>::empty() };
    let ghost o_part = if b & 4 == 4 { seq!['o'] } else { Seq::<char>::empty() };
    let ghost r_part = if b & 2 == 2 { seq!['r'] } else { Seq::<char>::empty() };
    let ghost w_part = if b & 1 == 1 { seq!['w'] } else { Seq::<char>::empty() };
    assert(out@ == start + i_part + o_part + r_part + w_part);
    assert(fence_set_text(set) =~= i_part + o_part + r_part + w_part);
}

} // verus!
