use sw_rv32i_isa::{
    AddressUnit, Addr, DecodeError, Endian, Format, Instruction, Opcode, Reg, Rv32i,
};

#[test]
fn architecture_metadata_matches_rv32i() {
    assert_eq!(Rv32i::NAME, "RV32I");
    assert_eq!(Rv32i::WORD_BITS, 32);
    assert_eq!(Rv32i::MIN_INSTR_BYTES, 4);
    assert_eq!(Rv32i::MAX_INSTR_BYTES, 4);
    assert_eq!(Rv32i::ADDRESS_UNIT, AddressUnit::Byte);
    assert_eq!(Rv32i::ENDIAN, Endian::Little);
}

#[test]
fn placeholder_types_are_wired_to_core_traits() {
    assert_eq!(Opcode::Ebreak.mnemonic(), "ebreak");
    assert_eq!(Reg::X0.index(), 0);
    assert_eq!(Reg::X0.name(), "x0");
    assert_eq!(Format::R.size_bytes(), 4);
}

#[test]
fn address_steps_by_bytes() {
    assert_eq!(Addr(4).to_u64(), 4);
    assert_eq!(Addr(4).step(4), Addr(8));
    assert_eq!(
        Addr(4).step(-4),
        Addr(0)
    );
}

#[test]
fn decode_and_encode_are_explicit_stubs() {
    assert_eq!(
        Rv32i::decode(&[0; 3], Addr(0)),
        Err(DecodeError::Truncated)
    );
    assert_eq!(
        Rv32i::decode(&[0; 4], Addr(0)),
        Err(DecodeError::Invalid)
    );

    let mut out = [0; 4];
    assert_eq!(Rv32i::encode(&Instruction::Ebreak, &mut out), Ok(4));
    assert_eq!(out, 0x0010_0073u32.to_le_bytes());
}
