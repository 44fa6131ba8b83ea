//! RV32I instruction formats and the immediate helpers shared by the
//! decoder and the encoder.
use vstd::arithmetic::power2::{
    lemma2_to64, lemma_pow2_pos, lemma_pow2_strictly_increases, lemma_pow2_unfold, pow2,
};
use vstd::arithmetic::div_mod::lemma_small_mod;
use vstd::bits::lemma_u64_shl_is_mul;
use vstd::prelude::*;

verus! {

/// RV32I base instruction formats.
#[derive(Copy, Clone, Debug, PartialEq, Eq, Structural)]
pub enum Format {
    R,
    I,
    S,
    B,
    U,
    J,
    System,
}

impl Format {
    /// Size in bytes of an instruction of this format: every RV32I base
    /// format is one 32-bit word.
    pub fn size_bytes(&self) -> (r: usize)
        ensures
            r == 4,
    {
        4
    }
}

/// The two's-complement reading of the `bits`-bit pattern `v`
/// (where `0 <= v < 2^bits`).
pub open spec fn signed_value(v: int, bits: nat) -> int {
    if v >= pow2((bits - 1) as nat) {
        v - pow2(bits)
    } else {
        v
    }
}

/// The low `bits` bits of `value`, read as a two's-complement number.
pub open spec fn sign_extended(value: u32, bits: nat) -> int {
    signed_value(value as int % (pow2(bits) as int), bits)
}

/// `value` is representable as a `bits`-bit two's-complement number.
pub open spec fn fits_in_signed(value: int, bits: nat) -> bool {
    -(pow2((bits - 1) as nat) as int) <= value < pow2((bits - 1) as nat)
}

/// The low `n` bits of `v`: its `n`-bit two's-complement pattern.
pub open spec fn low_bits(v: int, n: nat) -> int {
    v % (pow2(n) as int)
}

/// Bits `lo .. lo + len` of `word`, as a number.
#[verifier::opaque]
pub open spec fn field(word: u32, lo: nat, len: nat) -> int {
    (word as int / pow2(lo) as int) % (pow2(len) as int)
}

/// The 12-bit I-type immediate pattern: `inst[31:20]`.
pub open spec fn i_imm_bits(word: u32) -> int {
    field(word, 20, 12)
}

/// The 12-bit S-type immediate pattern: `imm[11:5] = inst[31:25]`,
/// `imm[4:0] = inst[11:7]`.
pub open spec fn s_imm_bits(word: u32) -> int {
    field(word, 25, 7) * 32 + field(word, 7, 5)
}

/// The 13-bit B-type immediate pattern: `imm[12] = inst[31]`,
/// `imm[11] = inst[7]`, `imm[10:5] = inst[30:25]`, `imm[4:1] = inst[11:8]`,
/// `imm[0] = 0`.
pub open spec fn b_imm_bits(word: u32) -> int {
    field(word, 31, 1) * 4096 + field(word, 7, 1) * 2048 + field(word, 25, 6) * 32 + field(
        word,
        8,
        4,
    ) * 2
}

/// The 32-bit U-type immediate pattern: `imm[31:12] = inst[31:12]`,
/// `imm[11:0] = 0`.
pub open spec fn u_imm_bits(word: u32) -> int {
    field(word, 12, 20) * 4096
}

/// The 21-bit J-type immediate pattern: `imm[20] = inst[31]`,
/// `imm[19:12] = inst[19:12]`, `imm[11] = inst[20]`,
/// `imm[10:1] = inst[30:21]`, `imm[0] = 0`.
pub open spec fn j_imm_bits(word: u32) -> int {
    field(word, 31, 1) * 0x100000 + field(word, 12, 8) * 4096 + field(word, 20, 1) * 2048
        + field(word, 21, 10) * 2
}

/// The signed immediate of an I-type word.
pub open spec fn i_imm_value(word: u32) -> int {
    signed_value(i_imm_bits(word), 12)
}

/// The signed immediate of an S-type word.
pub open spec fn s_imm_value(word: u32) -> int {
    signed_value(s_imm_bits(word), 12)
}

/// The signed branch offset of a B-type word.
pub open spec fn b_imm_value(word: u32) -> int {
    signed_value(b_imm_bits(word), 13)
}

/// The immediate of a U-type word.
pub open spec fn u_imm_value(word: u32) -> int {
    signed_value(u_imm_bits(word), 32)
}

/// The signed jump offset of a J-type word.
pub open spec fn j_imm_value(word: u32) -> int {
    signed_value(j_imm_bits(word), 21)
}

/// Sign-extends the low `bits` bits of `value`.
pub fn sign_extend(value: u32, bits: u8) -> (r: i32)
    requires
        0 < bits <= 32,
    ensures
        r == sign_extended(value, bits as nat),
{
    let b: u64 = bits as u64;
    proof {
        lemma_pow2_unfold(b as nat);
        lemma2_to64();
        if b < 32 {
            lemma_pow2_strictly_increases(b as nat, 32);
        }
        lemma_u64_shl_is_mul(1, b);
        lemma_u64_shl_is_mul(1, (b - 1) as u64);
    }
    let modulus: u64 = 1u64 << b;
    let half: u64 = 1u64 << (b - 1);
    let low: u64 = value as u64 % modulus;
    if low >= half {
        (low as i64 - modulus as i64) as i32
    } else {
        low as i32
    }
}

/// Whether `value` fits in a `bits`-bit two's-complement immediate.
pub fn fits_signed(value: i32, bits: u8) -> (r: bool)
    requires
        0 < bits <= 32,
    ensures
        r == fits_in_signed(value as int, bits as nat),
{
    proof {
        lemma2_to64();
    }
    if bits == 32 {
        return true;
    }
    let b: u64 = (bits - 1) as u64;
    proof {
        if b < 31 {
            lemma_pow2_strictly_increases(b as nat, 31);
        }
        lemma_u64_shl_is_mul(1, b);
    }
    let half: u64 = 1u64 << b;
    let min: i64 = -(half as i64);
    let max: i64 = half as i64 - 1;
    value as i64 >= min && value as i64 <= max
}

/// A sign-extended value always fits the width it was extended from.
pub proof fn lemma_sign_extended_fits(value: u32, bits: nat)
    requires
        0 < bits <= 32,
    ensures
        fits_in_signed(sign_extended(value, bits), bits),
{
    lemma_pow2_unfold(bits);
    lemma_pow2_pos(bits);
}

/// Sign-extending the low `bits` bits of a value that fits in `bits` bits
/// gives the value back.
pub proof fn lemma_sign_extend_inverse(x: int, bits: nat)
    requires
        0 < bits <= 32,
        fits_in_signed(x, bits),
    ensures
        0 <= low_bits(x, bits) < 0x1_0000_0000,
        sign_extended(low_bits(x, bits) as u32, bits) == x,
{
    let m = pow2(bits) as int;
    lemma_pow2_unfold(bits);
    lemma_pow2_pos(bits);
    lemma2_to64();
    if bits < 32 {
        lemma_pow2_strictly_increases(bits, 32);
    }
    let low = low_bits(x, bits);
    if x >= 0 {
        lemma_small_mod(x as nat, m as nat);
    } else {
        vstd::arithmetic::div_mod::lemma_mod_multiples_vanish(1, x, m);
        lemma_small_mod((x + m) as nat, m as nat);
    }
    assert(0 <= low < m);
    lemma_small_mod(low as nat, m as nat);
}

/// Reading the immediate patterns of a word with shifts and masks gives
/// the fields that the patterns are made of.
proof fn lemma_imm_patterns(w: u32)
    by (bit_vector)
    ensures
        w >> 20 == (w / 0x100000) % 0x1000,
        ((w >> 20) & 0xfe0) | ((w >> 7) & 0x1f) == (w / 0x2000000) % 0x80 * 32 + (w / 0x80) % 0x20,
        ((w >> 20) & 0xfe0) | ((w >> 7) & 0x1f) < 0x1000,
        ((w >> 19) & 0x1000) | ((w << 4) & 0x0800) | ((w >> 20) & 0x07e0) | ((w >> 7) & 0x001e)
            == (w / 0x80000000) % 2 * 4096 + (w / 0x80) % 2 * 2048 + (w / 0x2000000) % 0x40 * 32
            + (w / 0x100) % 0x10 * 2,
        ((w >> 19) & 0x1000) | ((w << 4) & 0x0800) | ((w >> 20) & 0x07e0) | ((w >> 7) & 0x001e)
            < 0x2000,
        w & 0xffff_f000 == (w / 0x1000) % 0x100000 * 4096,
        ((w >> 11) & 0x100000) | (w & 0x000f_f000) | ((w >> 9) & 0x0000_0800) | ((w >> 20)
            & 0x0000_07fe) == (w / 0x80000000) % 2 * 0x100000 + (w / 0x1000) % 0x100 * 4096 + (w
            / 0x100000) % 2 * 2048 + (w / 0x200000) % 0x400 * 2,
        ((w >> 11) & 0x100000) | (w & 0x000f_f000) | ((w >> 9) & 0x0000_0800) | ((w >> 20)
            & 0x0000_07fe) < 0x200000,
{
}

/// The sign-extended I-type immediate of `word`: `inst[31:20]`.
pub fn i_imm(word: u32) -> (r: i32)
    ensures
        r == i_imm_value(word),
{
    proof {
        lemma_imm_patterns(word);
        reveal(field);
        lemma2_to64();
        lemma_small_mod((word >> 20) as nat, pow2(12));
    }
    sign_extend(word >> 20, 12)
}

/// The sign-extended S-type immediate of `word`.
pub fn s_imm(word: u32) -> (r: i32)
    ensures
        r == s_imm_value(word),
{
    let imm = ((word >> 20) & 0xfe0) | ((word >> 7) & 0x1f);
    proof {
        lemma_imm_patterns(word);
        reveal(field);
        lemma2_to64();
        lemma_small_mod(imm as nat, pow2(12));
    }
    sign_extend(imm, 12)
}

/// The sign-extended B-type branch offset of `word`.
pub fn b_imm(word: u32) -> (r: i32)
    ensures
        r == b_imm_value(word),
{
    let imm = ((word >> 19) & 0x1000) | ((word << 4) & 0x0800) | ((word >> 20) & 0x07e0) | ((
    word >> 7) & 0x001e);
    proof {
        lemma_imm_patterns(word);
        reveal(field);
        lemma2_to64();
        lemma_small_mod(imm as nat, pow2(13));
    }
    sign_extend(imm, 13)
}

/// The U-type immediate of `word`: its upper 20 bits, low 12 bits clear.
pub fn u_imm(word: u32) -> (r: i32)
    ensures
        r == u_imm_value(word),
{
    let imm = word & 0xffff_f000;
    proof {
        lemma_imm_patterns(word);
        reveal(field);
        lemma2_to64();
        assert((imm as i32) as int == if imm < 0x8000_0000 {
            imm as int
        } else {
            imm as int - 0x1_0000_0000
        }) by (bit_vector);
    }
    imm as i32
}

/// The sign-extended J-type jump offset of `word`.
pub fn j_imm(word: u32) -> (r: i32)
    ensures
        r == j_imm_value(word),
{
    let imm = ((word >> 11) & 0x100000) | (word & 0x000f_f000) | ((word >> 9) & 0x0000_0800) | ((
    word >> 20) & 0x0000_07fe);
    proof {
        lemma_imm_patterns(word);
        reveal(field);
        lemma2_to64();
        lemma_small_mod(imm as nat, pow2(21));
    }
    sign_extend(imm, 21)
}

} // verus!
