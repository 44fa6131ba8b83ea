use core::str::FromStr;

use sw_rv32i_isa::{
    Addr, BaseIsa, BranchCond, DecodeError, EncodeError, Extension, FenceSet, ImmOp, Instruction,
    IsaProfile, LoadWidth, ParseRegisterError, ProfileError, Reg, RegOp, Rv32i, StoreWidth,
    decode_word, disassemble, encode_word, fits_signed, parse_register, sign_extend,
};

fn reg(i: u8) -> Reg {
    Reg::new(i).expect("register number below 32")
}

fn fence(bits: u8) -> FenceSet {
    FenceSet::from_bits(bits).expect("4-bit fence set")
}

fn samples() -> Vec<Instruction> {
    let mut v = Vec::new();
    for imm in [0, 4096, -4096, 0x7fff_f000, i32::MIN, 0x1234_5000] {
        v.push(Instruction::Lui { rd: reg(31), imm });
        v.push(Instruction::Auipc { rd: reg(1), imm });
    }
    for offset in [0, 2, -2, 1_048_574, -1_048_576, 2048, -2048] {
        v.push(Instruction::Jal { rd: reg(5), offset });
    }
    for offset in [0, 2047, -2048, 1, -1] {
        v.push(Instruction::Jalr { rd: reg(3), rs1: reg(30), offset });
        for width in [
            LoadWidth::Byte,
            LoadWidth::Half,
            LoadWidth::Word,
            LoadWidth::ByteUnsigned,
            LoadWidth::HalfUnsigned,
        ] {
            v.push(Instruction::Load { width, rd: reg(7), rs1: reg(8), offset });
        }
        for width in [StoreWidth::Byte, StoreWidth::Half, StoreWidth::Word] {
            v.push(Instruction::Store { width, rs1: reg(9), rs2: reg(31), offset });
        }
        for op in [ImmOp::Addi, ImmOp::Slti, ImmOp::Sltiu, ImmOp::Xori, ImmOp::Ori, ImmOp::Andi] {
            v.push(Instruction::OpImm { op, rd: reg(10), rs1: reg(11), imm: offset });
        }
    }
    for offset in [0, 2, -2, 4094, -4096, 2048, -2048] {
        for cond in [
            BranchCond::Eq,
            BranchCond::Ne,
            BranchCond::Lt,
            BranchCond::Ge,
            BranchCond::Ltu,
            BranchCond::Geu,
        ] {
            v.push(Instruction::Branch { cond, rs1: reg(12), rs2: reg(13), offset });
        }
    }
    for imm in [0, 1, 31] {
        for op in [ImmOp::Slli, ImmOp::Srli, ImmOp::Srai] {
            v.push(Instruction::OpImm { op, rd: reg(14), rs1: reg(15), imm });
        }
    }
    for op in [
        RegOp::Add,
        RegOp::Sub,
        RegOp::Sll,
        RegOp::Slt,
        RegOp::Sltu,
        RegOp::Xor,
        RegOp::Srl,
        RegOp::Sra,
        RegOp::Or,
        RegOp::And,
    ] {
        v.push(Instruction::Op { op, rd: reg(16), rs1: reg(17), rs2: reg(18) });
    }
    for p in 0..16 {
        for s in 0..16 {
            v.push(Instruction::Fence { predecessor: fence(p), successor: fence(s) });
        }
    }
    v.push(Instruction::Ecall);
    v.push(Instruction::Ebreak);
    v
}

#[test]
fn every_encodable_instruction_decodes_back() {
    for insn in samples() {
        let word = encode_word(insn).expect("sample is encodable");
        assert_eq!(decode_word(word), Ok(insn), "{insn:?}");
    }
}

#[test]
fn valid_words_are_the_encoding_of_what_they_decode_to() {
    let mut valid = 0u32;
    let mut word: u32 = 0;
    loop {
        if let Ok(insn) = decode_word(word) {
            valid += 1;
            assert_eq!(encode_word(insn), Ok(word), "{word:#010x}");
        }
        match word.checked_add(0x0001_0a37) {
            Some(next) => word = next,
            None => break,
        }
    }
    for opcode in [0x37u32, 0x17, 0x6f, 0x67, 0x63, 0x03, 0x23, 0x13, 0x33, 0x0f, 0x73] {
        for high in (0u32..(1 << 25)).step_by(0x1_2345) {
            let word = (high << 7) | opcode;
            if let Ok(insn) = decode_word(word) {
                valid += 1;
                assert_eq!(encode_word(insn), Ok(word), "{word:#010x}");
            }
        }
    }
    assert!(valid > 1000);
}

#[test]
fn memory_round_trip_keeps_following_bytes() {
    for insn in samples() {
        let mut out = [0x5a; 7];
        assert_eq!(Rv32i::encode(&insn, &mut out), Ok(4));
        assert_eq!(&out[4..], &[0x5a; 3]);
        assert_eq!(Rv32i::decode(&out, Addr(0x1000)), Ok((insn, 4)));
    }
}

#[test]
fn encode_reports_each_error() {
    let mut short = [0u8; 3];
    assert_eq!(
        Rv32i::encode(&Instruction::Ecall, &mut short),
        Err(EncodeError::BufferTooSmall)
    );
    assert_eq!(short, [0; 3]);
    let mut out = [7u8; 4];
    let bad = Instruction::Jal { rd: Reg::X1, offset: 3 };
    assert_eq!(Rv32i::encode(&bad, &mut out), Err(EncodeError::InvalidOperands));
    assert_eq!(out, [7; 4]);
    assert_eq!(
        encode_word(Instruction::OpImm { op: ImmOp::Srli, rd: Reg::X1, rs1: Reg::X1, imm: -1 }),
        Err(EncodeError::InvalidOperands)
    );
    assert_eq!(
        encode_word(Instruction::Load {
            width: LoadWidth::Word,
            rd: Reg::X1,
            rs1: Reg::X2,
            offset: 2048
        }),
        Err(EncodeError::InvalidOperands)
    );
    assert_eq!(
        encode_word(Instruction::Store {
            width: StoreWidth::Byte,
            rs1: Reg::X1,
            rs2: Reg::X2,
            offset: -2049
        }),
        Err(EncodeError::InvalidOperands)
    );
    assert_eq!(
        encode_word(Instruction::Auipc { rd: Reg::X1, imm: 0x800 }),
        Err(EncodeError::InvalidOperands)
    );
}

#[test]
fn decode_reports_each_error() {
    assert_eq!(Rv32i::decode(&[], Addr(0)), Err(DecodeError::Truncated));
    assert_eq!(Rv32i::decode(&[0x73, 0, 0], Addr(0)), Err(DecodeError::Truncated));
    assert_eq!(Rv32i::decode(&[0x7f, 0, 0, 0], Addr(0)), Err(DecodeError::Invalid));
    assert_eq!(Rv32i::decode(&[0x73, 0, 0, 0, 0xff], Addr(0)), Ok((Instruction::Ecall, 4)));
}

#[test]
fn exact_words_for_each_format() {
    assert_eq!(
        encode_word(Instruction::OpImm { op: ImmOp::Addi, rd: Reg::X1, rs1: Reg::X0, imm: -1 }),
        Ok(0xfff0_0093)
    );
    assert_eq!(
        encode_word(Instruction::Store {
            width: StoreWidth::Word,
            rs1: Reg::X0,
            rs2: Reg::X2,
            offset: -4
        }),
        Ok(0xfe20_2e23)
    );
    assert_eq!(
        encode_word(Instruction::Branch {
            cond: BranchCond::Eq,
            rs1: Reg::X1,
            rs2: Reg::X2,
            offset: -4
        }),
        Ok(0xfe20_8ee3)
    );
    assert_eq!(encode_word(Instruction::Jal { rd: Reg::X1, offset: -4 }), Ok(0xffdf_f0ef));
    assert_eq!(encode_word(Instruction::Lui { rd: Reg::X0, imm: 0x1234_5000 }), Ok(0x1234_5037));
    assert_eq!(
        encode_word(Instruction::Op { op: RegOp::Sra, rd: Reg::X1, rs1: Reg::X2, rs2: Reg::X3 }),
        Ok(0x4031_50b3)
    );
    assert_eq!(
        encode_word(Instruction::Fence { predecessor: FenceSet::IORW, successor: FenceSet::IORW }),
        Ok(0x0ff0_000f)
    );
}

#[test]
fn sign_extension_edges() {
    assert_eq!(sign_extend(1, 1), -1);
    assert_eq!(sign_extend(0, 1), 0);
    assert_eq!(sign_extend(0xffff_ffff, 32), -1);
    assert_eq!(sign_extend(0x8000_0000, 32), i32::MIN);
    assert_eq!(sign_extend(0x7fff_ffff, 32), i32::MAX);
    assert_eq!(sign_extend(0x1_0800, 12), -2048);
    assert!(fits_signed(i32::MIN, 32));
    assert!(fits_signed(i32::MAX, 32));
    assert!(fits_signed(-1, 1));
    assert!(!fits_signed(1, 1));
    for bits in 1..=32u8 {
        for value in [0u32, 1, 0x7ff, 0x800, 0xfff, 0x8000_0000, 0xffff_ffff] {
            assert!(fits_signed(sign_extend(value, bits), bits));
        }
    }
}

#[test]
fn register_names_parse_back() {
    for i in 0..32 {
        let r = reg(i);
        assert_eq!(parse_register(r.name()), Some(r));
        assert_eq!(parse_register(r.abi_name()), Some(r));
        assert_eq!(Reg::new(r.index_u8()), Some(r));
        assert_eq!(r.to_string(), r.name());
    }
    assert_eq!(Reg::new(255), None);
    assert_eq!(parse_register("x0"), Some(Reg::X0));
    assert_eq!(parse_register("x00"), None);
    assert_eq!(parse_register("x256"), None);
    assert_eq!(parse_register("x+1"), None);
    assert_eq!(parse_register("xé"), None);
    assert_eq!(parse_register("zeroo"), None);
    assert_eq!(parse_register("a8"), None);
    assert_eq!(Reg::from_str(""), Err(ParseRegisterError));
}

#[test]
fn profiles_check_every_operand_in_order() {
    let insn = Instruction::Op { op: RegOp::Add, rd: Reg::X20, rs1: Reg::X21, rs2: Reg::X1 };
    assert_eq!(
        IsaProfile::RV32E.validate_instruction(insn),
        Err(ProfileError::IllegalRegister { reg: Reg::X20, profile: IsaProfile::RV32E })
    );
    let insn = Instruction::Op { op: RegOp::Add, rd: Reg::X1, rs1: Reg::X21, rs2: Reg::X22 };
    assert_eq!(
        IsaProfile::RV32E.validate_instruction(insn),
        Err(ProfileError::IllegalRegister { reg: Reg::X21, profile: IsaProfile::RV32E })
    );
    assert_eq!(IsaProfile::RV32IM.validate_instruction(insn), Ok(()));
    for insn in samples() {
        assert_eq!(IsaProfile::RV32I.validate_instruction(insn), Ok(()));
        if IsaProfile::RV32E.validate_instruction(insn).is_ok() {
            assert_eq!(IsaProfile::RV32IM.validate_instruction(insn), Ok(()));
        }
    }
    assert_eq!(IsaProfile::new(BaseIsa::Rv32i, &[]), IsaProfile::RV32I);
    assert_eq!(IsaProfile::new(BaseIsa::Rv32i, &[Extension::M, Extension::M]), IsaProfile::RV32IM);
    assert_eq!(IsaProfile::new(BaseIsa::Rv32e, &[Extension::M]), IsaProfile::RV32EM);
    assert_eq!(BaseIsa::Rv32e.name(), "rv32e");
    assert_eq!(BaseIsa::Rv32i.name(), "rv32i");
    assert_eq!(BaseIsa::Rv32e.max_register_index(), 15);
    assert_eq!(BaseIsa::Rv32i.max_register_index(), 31);
    assert_eq!(IsaProfile::RV32EM.validate_register(Reg::X15), Ok(()));
}

#[test]
fn addresses_wrap_around() {
    assert_eq!(Addr(0).step(-1), Addr(u32::MAX));
    assert_eq!(Addr(u32::MAX).step(1), Addr(0));
    assert_eq!(Addr(10).step(-0x1_0000_0000), Addr(10));
    assert_eq!(Addr(7).step(5).step(-5), Addr(7));
    assert_eq!(Addr::from_u64(0x1_0000_0005), Addr(5));
    assert_eq!(Addr::from_u64(Addr(9).to_u64()), Addr(9));
}

#[test]
fn fence_sets_round_trip_their_bits() {
    for bits in 0..16u8 {
        assert_eq!(fence(bits).bits(), bits);
        assert!(fence(bits).contains(FenceSet::NONE));
        assert!(FenceSet::IORW.contains(fence(bits)));
    }
    assert_eq!(FenceSet::from_bits(16), None);
    assert_eq!(FenceSet::from_bits(255), None);
}

#[test]
fn disassembles_extreme_immediates() {
    let mut out = String::from("> ");
    disassemble(Instruction::Lui { rd: Reg::X1, imm: i32::MIN }, &mut out);
    assert_eq!(out, "> lui x1, -2147483648");
    let mut out = String::new();
    disassemble(
        Instruction::Fence { predecessor: fence(0b1010), successor: fence(0b0101) },
        &mut out,
    );
    assert_eq!(out, "fence ir, ow");
    let mut out = String::new();
    disassemble(
        Instruction::Load { width: LoadWidth::Byte, rd: Reg::X31, rs1: Reg::X0, offset: -2048 },
        &mut out,
    );
    assert_eq!(out, "lb x31, -2048(x0)");
    let mut out = String::new();
    disassemble(
        Instruction::OpImm { op: ImmOp::Slli, rd: Reg::X2, rs1: Reg::X3, imm: 0 },
        &mut out,
    );
    assert_eq!(out, "slli x2, x3, 0");
}
