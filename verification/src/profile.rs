//! RISC-V ISA profiles and the legality of registers and instructions
//! under them.
use crate::instruction::Instruction;
use crate::register::Reg;
use vstd::prelude::*;

verus! {

/// RV32 base integer register profile.
#[derive(Copy, Clone, Debug, PartialEq, Eq, Structural)]
pub enum BaseIsa {
    /// RV32E base ISA with registers x0..x15.
    Rv32e,
    /// RV32I base ISA with registers x0..x31.
    Rv32i,
}

impl BaseIsa {
    /// The highest register number of the base ISA.
    pub open spec fn max_index_spec(self) -> nat {
        match self {
            BaseIsa::Rv32e => 15,
            BaseIsa::Rv32i => 31,
        }
    }

    /// The lowercase name of the base ISA.
    pub fn name(self) -> (r: &'static str)
        ensures
            r@ == match self {
                BaseIsa::Rv32e => "rv32e"@,
                BaseIsa::Rv32i => "rv32i"@,
            },
    {
        match self {
            BaseIsa::Rv32e => "rv32e",
            BaseIsa::Rv32i => "rv32i",
        }
    }

    /// The highest register number of the base ISA.
    pub fn max_register_index(self) -> (r: u8)
        ensures
            r == self.max_index_spec(),
    {
        match self {
            BaseIsa::Rv32e => 15,
            BaseIsa::Rv32i => 31,
        }
    }
}

/// Optional RISC-V ISA extension.
#[derive(Copy, Clone, Debug, PartialEq, Eq, Structural)]
pub enum Extension {
    /// Integer multiply/divide extension.
    M,
}

impl Extension {
    /// The extension's bit in a profile's extension set.
    fn bit(self) -> (r: u32)
        ensures
            r == 1,
    {
        match self {
            Extension::M => {
                assert(1u32 << 0u32 == 1) by (bit_vector);
                1 << 0
            },
        }
    }
}

/// A target ISA profile: a base ISA with a set of extensions.
#[derive(Copy, Clone, Debug, PartialEq, Eq, Structural)]
pub enum IsaProfile {
    /// `rv32e`.
    RV32E,
    /// `rv32e` with the `M` extension.
    RV32EM,
    /// `rv32i`.
    RV32I,
    /// `rv32im`.
    RV32IM,
}

impl IsaProfile {
    /// The profile's base ISA.
    pub open spec fn base_spec(self) -> BaseIsa {
        match self {
            IsaProfile::RV32E | IsaProfile::RV32EM => BaseIsa::Rv32e,
            IsaProfile::RV32I | IsaProfile::RV32IM => BaseIsa::Rv32i,
        }
    }

    /// Whether the profile includes the extension.
    pub open spec fn includes(self, extension: Extension) -> bool {
        match extension {
            Extension::M => self is RV32EM || self is RV32IM,
        }
    }

    /// The profile with base `base` and extensions `extensions`.
    pub fn new(base: BaseIsa, extensions: &[Extension]) -> (r: Self)
        ensures
            r.base_spec() == base,
            forall|e: Extension| r.includes(e) == extensions@.contains(e),
    {
        let mut bits: u32 = 0;
        let mut index: usize = 0;
        while index < extensions.len()
            invariant
                index <= extensions@.len(),
                bits == (if index > 0 {
                    1u32
                } else {
                    0u32
                }),
            decreases extensions@.len() - index,
        {
            let b = extensions[index].bit();
            assert(bits <= 1 ==> bits | 1 == 1) by (bit_vector);
            bits = bits | b;
            index = index + 1;
        }
        let has_m = bits & Extension::M.bit() != 0;
        proof {
            assert(bits <= 1 ==> (bits & 1 != 0) == (bits == 1)) by (bit_vector);
            if extensions@.len() > 0 {
                assert(extensions@.contains(extensions@[0]));
            }
            assert forall|e: Extension| extensions@.contains(e) == (extensions@.len() > 0) by {
                if extensions@.len() > 0 {
                    assert(extensions@[0] == e);
                }
            }
        }
        match (base, has_m) {
            (BaseIsa::Rv32e, false) => IsaProfile::RV32E,
            (BaseIsa::Rv32e, true) => IsaProfile::RV32EM,
            (BaseIsa::Rv32i, false) => IsaProfile::RV32I,
            (BaseIsa::Rv32i, true) => IsaProfile::RV32IM,
        }
    }

    /// The profile's base ISA.
    pub fn base(self) -> (r: BaseIsa)
        ensures
            r == self.base_spec(),
    {
        match self {
            IsaProfile::RV32E | IsaProfile::RV32EM => BaseIsa::Rv32e,
            IsaProfile::RV32I | IsaProfile::RV32IM => BaseIsa::Rv32i,
        }
    }

    /// The profile's extension set, one bit per extension.
    fn extension_bits(self) -> (r: u32)
        ensures
            r == (if self.includes(Extension::M) {
                1u32
            } else {
                0u32
            }),
    {
        match self {
            IsaProfile::RV32EM | IsaProfile::RV32IM => 1,
            IsaProfile::RV32E | IsaProfile::RV32I => 0,
        }
    }

    /// Whether the profile includes the extension.
    pub fn has_extension(self, extension: Extension) -> (r: bool)
        ensures
            r == self.includes(extension),
    {
        let bits = self.extension_bits();
        let bit = extension.bit();
        assert(bits <= 1 ==> (bits & 1 != 0) == (bits == 1)) by (bit_vector);
        bits & bit != 0
    }

    /// Whether the profile has the register.
    pub open spec fn supports(self, reg: Reg) -> bool {
        reg.number() <= self.base_spec().max_index_spec()
    }

    /// Whether the profile has the register.
    pub fn supports_register(self, reg: Reg) -> (r: bool)
        ensures
            r == self.supports(reg),
    {
        reg.index_u8() <= self.base().max_register_index()
    }

    /// `Ok` when the profile has the register, else the error naming it.
    pub fn validate_register(self, reg: Reg) -> (r: Result<(), ProfileError>)
        ensures
            r == (if self.supports(reg) {
                Ok(())
            } else {
                Err(ProfileError::IllegalRegister { reg, profile: self })
            }),
    {
        if self.supports_register(reg) {
            Ok(())
        } else {
            Err(ProfileError::IllegalRegister { reg, profile: self })
        }
    }

    /// The first of `regs` that the profile lacks, if any.
    pub open spec fn first_unsupported(self, regs: Seq<Reg>) -> Option<Reg>
        decreases regs.len(),
    {
        if regs.len() == 0 {
            None
        } else if !self.supports(regs[0]) {
            Some(regs[0])
        } else {
            self.first_unsupported(regs.drop_first())
        }
    }

    /// What validating `insn` gives: `Ok` when the profile has every
    /// register operand, else the error naming the first one it lacks.
    pub open spec fn validation(self, insn: Instruction) -> Result<(), ProfileError> {
        match self.first_unsupported(register_operands(insn)) {
            None => Ok(()),
            Some(reg) => Err(ProfileError::IllegalRegister { reg, profile: self }),
        }
    }

    /// Checks that every register operand of `insn` exists in the profile.
    pub fn validate_instruction(self, insn: Instruction) -> (r: Result<(), ProfileError>)
        ensures
            r == self.validation(insn),
    {
        proof {
            self.lemma_first_unsupported_of_operands(insn);
        }
        match insn {
            Instruction::Lui { rd, .. }
            | Instruction::Auipc { rd, .. }
            | Instruction::Jal { rd, .. } => self.validate_register(rd),
            Instruction::Jalr { rd, rs1, .. } | Instruction::Load { rd, rs1, .. } => {
                match self.validate_register(rd) {
                    Ok(()) => self.validate_register(rs1),
                    Err(e) => Err(e),
                }
            },
            Instruction::Branch { rs1, rs2, .. } | Instruction::Store { rs1, rs2, .. } => {
                match self.validate_register(rs1) {
                    Ok(()) => self.validate_register(rs2),
                    Err(e) => Err(e),
                }
            },
            Instruction::OpImm { rd, rs1, .. } => match self.validate_register(rd) {
                Ok(()) => self.validate_register(rs1),
                Err(e) => Err(e),
            },
            Instruction::Op { rd, rs1, rs2, .. } => match self.validate_register(rd) {
                Ok(()) => match self.validate_register(rs1) {
                    Ok(()) => self.validate_register(rs2),
                    Err(e) => Err(e),
                },
                Err(e) => Err(e),
            },
            Instruction::Fence { .. } | Instruction::Ecall | Instruction::Ebreak => Ok(()),
        }
    }
}

impl IsaProfile {
    /// The first unsupported operand, spelled out for up to three operands.
    proof fn lemma_first_unsupported_of_operands(self, insn: Instruction)
        ensures
            ({
                let regs = register_operands(insn);
                &&& regs.len() == 0 ==> self.first_unsupported(regs) is None
                &&& regs.len() >= 1 ==> self.first_unsupported(regs) == if !self.supports(regs[0]) {
                    Some(regs[0])
                } else if regs.len() >= 2 && !self.supports(regs[1]) {
                    Some(regs[1])
                } else if regs.len() >= 3 && !self.supports(regs[2]) {
                    Some(regs[2])
                } else {
                    None
                }
            }),
    {
        let regs = register_operands(insn);
        assert(regs.len() <= 3);
        if regs.len() >= 1 {
            let t1 = regs.drop_first();
            assert(self.first_unsupported(t1) == if t1.len() == 0 {
                None
            } else if !self.supports(t1[0]) {
                Some(t1[0])
            } else {
                self.first_unsupported(t1.drop_first())
            });
            if t1.len() >= 1 {
                let t2 = t1.drop_first();
                assert(t1[0] == regs[1]);
                assert(self.first_unsupported(t2) == if t2.len() == 0 {
                    None
                } else if !self.supports(t2[0]) {
                    Some(t2[0])
                } else {
                    self.first_unsupported(t2.drop_first())
                });
                if t2.len() >= 1 {
                    assert(t2[0] == regs[2]);
                    assert(t2.drop_first().len() == 0);
                    assert(self.first_unsupported(t2.drop_first()) is None);
                }
            }
        }
    }
}

/// The register operands of an instruction, in the order they are checked:
/// destination, then first and second source.
pub open spec fn register_operands(insn: Instruction) -> Seq<Reg> {
    match insn {
        Instruction::Lui { rd, .. } | Instruction::Auipc { rd, .. } | Instruction::Jal {
            rd,
            ..
        } => seq![rd],
        Instruction::Jalr { rd, rs1, .. } | Instruction::Load { rd, rs1, .. } => seq![rd, rs1],
        Instruction::Branch { rs1, rs2, .. } | Instruction::Store { rs1, rs2, .. } => seq![rs1, rs2],
        Instruction::OpImm { rd, rs1, .. } => seq![rd, rs1],
        Instruction::Op { rd, rs1, rs2, .. } => seq![rd, rs1, rs2],
        Instruction::Fence { .. } | Instruction::Ecall | Instruction::Ebreak => seq![],
    }
}

/// The search for an unsupported operand finds nothing exactly when the
/// profile has every operand, and what it finds is an operand the profile
/// lacks.
pub proof fn lemma_first_unsupported(p: IsaProfile, regs: Seq<Reg>)
    ensures
        p.first_unsupported(regs) is None <==> forall|i: int|
            0 <= i < regs.len() ==> #[trigger] p.supports(regs[i]),
        p.first_unsupported(regs) matches Some(r) ==> regs.contains(r) && !p.supports(r),
    decreases regs.len(),
{
    if regs.len() > 0 {
        let t = regs.drop_first();
        lemma_first_unsupported(p, t);
        if p.supports(regs[0]) {
            assert forall|i: int| 0 <= i < regs.len() && (forall|j: int|
                0 <= j < t.len() ==> #[trigger] p.supports(t[j])) implies #[trigger] p.supports(
                regs[i],
            ) by {
                if i > 0 {
                    assert(regs[i] == t[i - 1]);
                }
            }
            if let Some(r) = p.first_unsupported(t) {
                let k = choose|k: int| 0 <= k < t.len() && t[k] == r;
                assert(regs[k + 1] == r);
            }
            if !(forall|i: int| 0 <= i < t.len() ==> #[trigger] p.supports(t[i])) {
                let k = choose|k: int| 0 <= k < t.len() && !p.supports(t[k]);
                assert(regs[k + 1] == t[k]);
            }
        } else {
            assert(regs.contains(regs[0]));
        }
    }
}

/// A profile accepts an instruction exactly when it has every register
/// operand of the instruction; when it refuses, the error names an operand
/// it lacks and the profile itself.
pub proof fn lemma_validation(p: IsaProfile, insn: Instruction)
    ensures
        p.validation(insn) is Ok <==> forall|i: int|
            0 <= i < register_operands(insn).len() ==> #[trigger] p.supports(
                register_operands(insn)[i],
            ),
        p.validation(insn) matches Err(ProfileError::IllegalRegister { reg, profile }) ==> profile
            == p && register_operands(insn).contains(reg) && !p.supports(reg),
{
    lemma_first_unsupported(p, register_operands(insn));
}

/// A profile on the RV32I base accepts every instruction.
pub proof fn lemma_rv32i_accepts_all(p: IsaProfile, insn: Instruction)
    requires
        p.base_spec() == BaseIsa::Rv32i,
    ensures
        p.validation(insn) == Ok::<(), ProfileError>(()),
{
    lemma_validation(p, insn);
    assert forall|i: int| 0 <= i < register_operands(insn).len() implies #[trigger] p.supports(
        register_operands(insn)[i],
    ) by {
        crate::register::lemma_reg_number(register_operands(insn)[i]);
    }
}

/// Whether a profile accepts an instruction depends only on its base ISA,
/// and what the smaller base accepts the larger accepts too.
pub proof fn lemma_validation_by_base(p: IsaProfile, q: IsaProfile, insn: Instruction)
    requires
        p.base_spec().max_index_spec() <= q.base_spec().max_index_spec(),
        p.validation(insn) is Ok,
    ensures
        q.validation(insn) is Ok,
{
    lemma_validation(p, insn);
    lemma_validation(q, insn);
    assert forall|i: int| 0 <= i < register_operands(insn).len() implies #[trigger] q.supports(
        register_operands(insn)[i],
    ) by {
        assert(p.supports(register_operands(insn)[i]));
    }
}

/// A profile accepts an instruction exactly when every register that the
/// instruction names has a number within the base ISA's range (`x0..x15`
/// for rv32e, `x0..x31` for rv32i); a refusal names the first register out
/// of range, in the order destination, first source, second source, and
/// the profile itself.
pub proof fn lemma_validation_by_fields(p: IsaProfile, insn: Instruction)
    ensures
        ({
            let limit: nat = if p is RV32E || p is RV32EM {
                15
            } else {
                31
            };
            let bad = |r: Reg| Err::<(), ProfileError>(ProfileError::IllegalRegister { reg: r, profile: p });
            p.validation(insn) == match insn {
                Instruction::Lui { rd, .. } | Instruction::Auipc { rd, .. } | Instruction::Jal {
                    rd,
                    ..
                } => if rd.number() > limit {
                    bad(rd)
                } else {
                    Ok(())
                },
                Instruction::Jalr { rd, rs1, .. } | Instruction::Load { rd, rs1, .. }
                | Instruction::OpImm { rd, rs1, .. } => if rd.number() > limit {
                    bad(rd)
                } else if rs1.number() > limit {
                    bad(rs1)
                } else {
                    Ok(())
                },
                Instruction::Branch { rs1, rs2, .. } | Instruction::Store { rs1, rs2, .. } => if rs1.number()
                    > limit {
                    bad(rs1)
                } else if rs2.number() > limit {
                    bad(rs2)
                } else {
                    Ok(())
                },
                Instruction::Op { rd, rs1, rs2, .. } => if rd.number() > limit {
                    bad(rd)
                } else if rs1.number() > limit {
                    bad(rs1)
                } else if rs2.number() > limit {
                    bad(rs2)
                } else {
                    Ok(())
                },
                Instruction::Fence { .. } | Instruction::Ecall | Instruction::Ebreak => Ok(()),
            }
        }),
{
    p.lemma_first_unsupported_of_operands(insn);
}

/// A profile legality failure.
#[derive(Copy, Clone, Debug, PartialEq, Eq, Structural)]
pub enum ProfileError {
    IllegalRegister { reg: Reg, profile: IsaProfile },
}

} // verus!
