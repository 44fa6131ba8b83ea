//! `sw-rv32i-isa`: the RV32I instruction set — integer registers, the
//! semantic instruction model, encoding, decoding, disassembly and ISA
//! profiles.
pub mod decode;
pub mod disassemble;
pub mod encode;
pub mod error;
pub mod format;
pub mod instruction;
pub mod opcode;
pub mod opcode_map;
pub mod profile;
pub mod register;
pub mod round_trip;
pub mod text;

pub use decode::decode_word;
pub use disassemble::disassemble;
pub use encode::encode_word;
pub use error::{DecodeError, EncodeError};
pub use format::{b_imm, fits_signed, i_imm, j_imm, s_imm, sign_extend, u_imm, Format};
pub use instruction::{BranchCond, FenceSet, ImmOp, Instruction, LoadWidth, RegOp, StoreWidth};
pub use opcode::Opcode;
pub use profile::{BaseIsa, Extension, IsaProfile, ProfileError};
pub use register::{parse_register, ParseRegisterError, Reg};

use crate::decode::decode_spec;
use crate::disassemble::disassembly;
use crate::encode::encode_spec;
use crate::round_trip::lemma_decode_encoding;
use vstd::prelude::*;

verus! {

/// RV32I byte address.
#[derive(Copy, Clone, Debug, PartialEq, Eq, Structural, PartialOrd, Ord)]
pub struct Addr(pub u32);

impl Addr {
    /// The address as a 64-bit number.
    pub fn to_u64(self) -> (r: u64)
        ensures
            r == self.0,
    {
        self.0 as u64
    }

    /// The address of a 64-bit number, taken modulo 2^32.
    pub fn from_u64(v: u64) -> (r: Self)
        ensures
            r.0 == v % 0x1_0000_0000,
    {
        assert((v as u32) == v % 0x1_0000_0000) by (bit_vector);
        Addr(v as u32)
    }

    /// The address `n` bytes on (or back, for negative `n`), wrapping
    /// around the 32-bit address space.
    pub fn step(self, n: i64) -> (r: Self)
        requires
            self.0 + n <= i64::MAX,
        ensures
            r.0 == (self.0 + n) % 0x1_0000_0000,
    {
        let sum: i64 = self.0 as i64 + n;
        assert((sum as u32) as int == sum % 0x1_0000_0000) by (bit_vector);
        Addr(sum as u32)
    }
}

/// Byte order of multi-byte values in memory.
#[derive(Copy, Clone, Debug, PartialEq, Eq, Structural)]
pub enum Endian {
    Little,
    Big,
}

/// The unit that one address step counts.
#[derive(Copy, Clone, Debug, PartialEq, Eq, Structural)]
pub enum AddressUnit {
    Byte,
    Word,
}

/// The 32-bit word stored little-endian in the first four bytes of `b`.
pub open spec fn le_word(b: Seq<u8>) -> u32 {
    (b[0] + b[1] * 0x100 + b[2] * 0x1_0000 + b[3] * 0x100_0000) as u32
}

/// The four bytes of `w`, least significant first.
pub open spec fn le_bytes(w: u32) -> Seq<u8> {
    seq![
        (w % 0x100) as u8,
        ((w / 0x100) % 0x100) as u8,
        ((w / 0x1_0000) % 0x100) as u8,
        (w / 0x100_0000) as u8,
    ]
}

/// The RV32I architecture: its parameters, and the decoding, encoding and
/// disassembly of instructions held in memory.
#[derive(Copy, Clone, Debug, PartialEq, Eq, Structural)]
pub struct Rv32i;

impl Rv32i {
    pub const NAME: &'static str = "RV32I";
    pub const ENDIAN: Endian = Endian::Little;
    pub const ADDRESS_UNIT: AddressUnit = AddressUnit::Byte;
    pub const WORD_BITS: u32 = 32;
    pub const MAX_INSTR_BYTES: usize = 4;
    pub const MIN_INSTR_BYTES: usize = 4;

    /// Decodes the instruction at the start of `bytes` (a little-endian
    /// word), with the number of bytes it occupies.
    pub fn decode(bytes: &[u8], _pc: Addr) -> (r: Result<(Instruction, usize), DecodeError>)
        ensures
            r == (if bytes@.len() < 4 {
                Err(DecodeError::Truncated)
            } else {
                match decode_spec(le_word(bytes@)) {
                    Ok(insn) => Ok((insn, 4usize)),
                    Err(e) => Err(e),
                }
            }),
    {
        if bytes.len() < Self::MIN_INSTR_BYTES {
            return Err(DecodeError::Truncated);
        }
        let word = bytes[0] as u32 + bytes[1] as u32 * 0x100 + bytes[2] as u32 * 0x1_0000
            + bytes[3] as u32 * 0x100_0000;
        match decode_word(word) {
            Ok(insn) => Ok((insn, 4)),
            Err(e) => Err(e),
        }
    }

    /// Encodes `insn` as a little-endian word into the first four bytes of
    /// `out`, leaving the rest of `out` as it was; returns the number of
    /// bytes written.
    pub fn encode(insn: &Instruction, out: &mut [u8]) -> (r: Result<usize, EncodeError>)
        ensures
            old(out)@.len() < 4 ==> r == Err::<usize, EncodeError>(EncodeError::BufferTooSmall)
                && final(out)@ == old(out)@,
            old(out)@.len() >= 4 ==> match encode_spec(*insn) {
                Ok(w) => r == Ok::<usize, EncodeError>(4) && final(out)@ == le_bytes(w) + old(
                    out,
                )@.subrange(4, old(out)@.len() as int),
                Err(e) => r == Err::<usize, EncodeError>(e) && final(out)@ == old(out)@,
            },
    {
        if out.len() < Self::MAX_INSTR_BYTES {
            return Err(EncodeError::BufferTooSmall);
        }
        let word = match encode_word(*insn) {
            Ok(w) => w,
            Err(e) => return Err(e),
        };
        out[0] = (word % 0x100) as u8;
        out[1] = ((word / 0x100) % 0x100) as u8;
        out[2] = ((word / 0x1_0000) % 0x100) as u8;
        out[3] = (word / 0x100_0000) as u8;
        assert(out@ =~= le_bytes(word) + old(out)@.subrange(4, old(out)@.len() as int));
        Ok(4)
    }

    /// Appends the assembler text of `insn` to `out`.
    pub fn disassemble(insn: &Instruction, out: &mut String)
        ensures
            final(out)@ == old(out)@ + disassembly(*insn),
    {
        disassemble(*insn, out)
    }
}

/// The four bytes of a word, read back little-endian, give the word.
pub proof fn lemma_le_round_trip(w: u32, rest: Seq<u8>)
    ensures
        le_word(le_bytes(w) + rest) == w,
{
    let b = le_bytes(w) + rest;
    assert(b[0] == (w % 0x100) as u8);
    assert(b[1] == ((w / 0x100) % 0x100) as u8);
    assert(b[2] == ((w / 0x1_0000) % 0x100) as u8);
    assert(b[3] == (w / 0x100_0000) as u8);
    assert(w == w % 0x100 + ((w / 0x100) % 0x100) * 0x100 + ((w / 0x1_0000) % 0x100) * 0x1_0000 + (w
        / 0x100_0000) * 0x100_0000) by (bit_vector);
}

/// An instruction written to memory by `Rv32i::encode` is read back by
/// `Rv32i::decode`, whatever bytes follow it.
pub proof fn lemma_memory_round_trip(insn: Instruction, w: u32, rest: Seq<u8>)
    requires
        encode_spec(insn) == Ok::<u32, EncodeError>(w),
    ensures
        decode_spec(le_word(le_bytes(w) + rest)) == Ok::<Instruction, DecodeError>(insn),
{
    lemma_le_round_trip(w, rest);
    lemma_decode_encoding(insn, w);
}

/// Stepping by `n` and then by `m` is stepping by `n + m`, and stepping
/// back by the same amount returns to the start.
pub proof fn lemma_step_adds(a: Addr, n: i64, m: i64)
    requires
        a.0 + n <= i64::MAX,
        (a.0 + n) % 0x1_0000_0000 + m <= i64::MAX,
        a.0 + n + m <= i64::MAX,
    ensures
        ((a.0 + n) % 0x1_0000_0000 + m) % 0x1_0000_0000 == (a.0 + n + m) % 0x1_0000_0000,
        m == -n ==> ((a.0 + n) % 0x1_0000_0000 + m) % 0x1_0000_0000 == a.0,
{
    let k = (a.0 + n) / 0x1_0000_0000;
    assert(a.0 + n == k * 0x1_0000_0000 + (a.0 + n) % 0x1_0000_0000);
    vstd::arithmetic::div_mod::lemma_mod_multiples_vanish(
        k,
        (a.0 + n) % 0x1_0000_0000 + m,
        0x1_0000_0000,
    );
}

/// An address survives the trip through a 64-bit number.
pub proof fn lemma_u64_round_trip(a: Addr)
    ensures
        (a.0 as u64) % 0x1_0000_0000 == a.0,
{
}

} // verus!
