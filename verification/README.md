# sw-rv32i-isa

The RV32I instruction set as a verified Verus library: integer registers and
their names, the semantic instruction model, the 32-bit encoding and decoding
of every base instruction, disassembly text, and ISA profiles (`rv32e`,
`rv32i`, `rv32im`).

Layout:

- `src/format.rs` — instruction formats, sign extension, immediate fields.
- `src/register.rs` — `Reg`, its canonical and ABI names, the name parser.
- `src/opcode.rs`, `src/instruction.rs` — operations and the instruction model.
- `src/decode.rs`, `src/encode.rs` — word decoding and encoding against the
  specifications `decode_spec` and `encode_spec`.
- `src/round_trip.rs` — proofs that encoding and decoding are inverse.
- `src/disassemble.rs`, `src/text.rs` — assembler text.
- `src/profile.rs` — ISA profiles and register legality.
- `src/lib.rs` — addresses and the architecture (`Rv32i`): reading and
  writing instructions in little-endian memory.
- `app/` — `core::fmt` adapters (disassembly into any writer, `Display` for
  register names).
