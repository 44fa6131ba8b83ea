//! RV32I integer register identifiers and their parser.
use crate::text::{
    all_digits, decimal_text, decimal_value, is_digit, lemma_decimal_text,
    lemma_decimal_value_prefix, lemma_leading_digit_bound,
};
use vstd::prelude::*;
use vstd::slice::slice_subrange;
use vstd::string::{StrSliceExecFns, StringExecFns};

verus! {

/// RV32I integer register `x0..x31`.
#[derive(Copy, Clone, Debug, PartialEq, Eq, Structural, PartialOrd, Ord, Hash)]
pub enum Reg {
    X0,
    X1,
    X2,
    X3,
    X4,
    X5,
    X6,
    X7,
    X8,
    X9,
    X10,
    X11,
    X12,
    X13,
    X14,
    X15,
    X16,
    X17,
    X18,
    X19,
    X20,
    X21,
    X22,
    X23,
    X24,
    X25,
    X26,
    X27,
    X28,
    X29,
    X30,
    X31,
}

impl Reg {
    /// The register's number, `0..32`.
    pub open spec fn number(self) -> nat {
        match self {
            Reg::X0 => 0,
            Reg::X1 => 1,
            Reg::X2 => 2,
            Reg::X3 => 3,
            Reg::X4 => 4,
            Reg::X5 => 5,
            Reg::X6 => 6,
            Reg::X7 => 7,
            Reg::X8 => 8,
            Reg::X9 => 9,
            Reg::X10 => 10,
            Reg::X11 => 11,
            Reg::X12 => 12,
            Reg::X13 => 13,
            Reg::X14 => 14,
            Reg::X15 => 15,
            Reg::X16 => 16,
            Reg::X17 => 17,
            Reg::X18 => 18,
            Reg::X19 => 19,
            Reg::X20 => 20,
            Reg::X21 => 21,
            Reg::X22 => 22,
            Reg::X23 => 23,
            Reg::X24 => 24,
            Reg::X25 => 25,
            Reg::X26 => 26,
            Reg::X27 => 27,
            Reg::X28 => 28,
            Reg::X29 => 29,
            Reg::X30 => 30,
            Reg::X31 => 31,
        }
    }
}

/// The register numbered `i` (`i < 32`).
pub open spec fn reg_at(i: nat) -> Reg {
    if i == 0 {
        Reg::X0
    } else if i == 1 {
        Reg::X1
    } else if i == 2 {
        Reg::X2
    } else if i == 3 {
        Reg::X3
    } else if i == 4 {
        Reg::X4
    } else if i == 5 {
        Reg::X5
    } else if i == 6 {
        Reg::X6
    } else if i == 7 {
        Reg::X7
    } else if i == 8 {
        Reg::X8
    } else if i == 9 {
        Reg::X9
    } else if i == 10 {
        Reg::X10
    } else if i == 11 {
        Reg::X11
    } else if i == 12 {
        Reg::X12
    } else if i == 13 {
        Reg::X13
    } else if i == 14 {
        Reg::X14
    } else if i == 15 {
        Reg::X15
    } else if i == 16 {
        Reg::X16
    } else if i == 17 {
        Reg::X17
    } else if i == 18 {
        Reg::X18
    } else if i == 19 {
        Reg::X19
    } else if i == 20 {
        Reg::X20
    } else if i == 21 {
        Reg::X21
    } else if i == 22 {
        Reg::X22
    } else if i == 23 {
        Reg::X23
    } else if i == 24 {
        Reg::X24
    } else if i == 25 {
        Reg::X25
    } else if i == 26 {
        Reg::X26
    } else if i == 27 {
        Reg::X27
    } else if i == 28 {
        Reg::X28
    } else if i == 29 {
        Reg::X29
    } else if i == 30 {
        Reg::X30
    } else {
        Reg::X31
    }
}

/// A register's number is below 32 and names that register again.
pub broadcast proof fn lemma_reg_number(r: Reg)
    ensures
        #[trigger] r.number() < 32,
        reg_at(r.number()) == r,
{
}

/// The register numbered `i` has number `i`.
pub broadcast proof fn lemma_reg_at(i: nat)
    requires
        i < 32,
    ensures
        #[trigger] reg_at(i).number() == i,
{
}

/// The canonical name of register `i`: `x` followed by its number in decimal.
pub open spec fn canonical_name(i: nat) -> Seq<char> {
    seq!['x'] + decimal_text(i)
}

/// The standard ABI alias of register `i`: `zero`, `ra`, `sp`, `gp`, `tp`,
/// temporaries `t0..t6`, saved registers `s0..s11` and arguments `a0..a7`.
pub open spec fn abi_name_text(i: nat) -> Seq<char> {
    if i == 0 {
        seq!['z', 'e', 'r', 'o']
    } else if i == 1 {
        seq!['r', 'a']
    } else if i == 2 {
        seq!['s', 'p']
    } else if i == 3 {
        seq!['g', 'p']
    } else if i == 4 {
        seq!['t', 'p']
    } else if i <= 7 {
        seq!['t'] + decimal_text((i - 5) as nat)
    } else if i <= 9 {
        seq!['s'] + decimal_text((i - 8) as nat)
    } else if i <= 17 {
        seq!['a'] + decimal_text((i - 10) as nat)
    } else if i <= 27 {
        seq!['s'] + decimal_text((i - 16) as nat)
    } else {
        seq!['t'] + decimal_text((i - 25) as nat)
    }
}

impl Reg {
    /// The register numbered `index`, if there is one.
    pub fn new(index: u8) -> (r: Option<Self>)
        ensures
            r == (if index < 32 {
                Some(reg_at(index as nat))
            } else {
                None
            }),
    {
        match index {
            0 => Some(Reg::X0),
            1 => Some(Reg::X1),
            2 => Some(Reg::X2),
            3 => Some(Reg::X3),
            4 => Some(Reg::X4),
            5 => Some(Reg::X5),
            6 => Some(Reg::X6),
            7 => Some(Reg::X7),
            8 => Some(Reg::X8),
            9 => Some(Reg::X9),
            10 => Some(Reg::X10),
            11 => Some(Reg::X11),
            12 => Some(Reg::X12),
            13 => Some(Reg::X13),
            14 => Some(Reg::X14),
            15 => Some(Reg::X15),
            16 => Some(Reg::X16),
            17 => Some(Reg::X17),
            18 => Some(Reg::X18),
            19 => Some(Reg::X19),
            20 => Some(Reg::X20),
            21 => Some(Reg::X21),
            22 => Some(Reg::X22),
            23 => Some(Reg::X23),
            24 => Some(Reg::X24),
            25 => Some(Reg::X25),
            26 => Some(Reg::X26),
            27 => Some(Reg::X27),
            28 => Some(Reg::X28),
            29 => Some(Reg::X29),
            30 => Some(Reg::X30),
            31 => Some(Reg::X31),
            _ => None,
        }
    }

    /// The register's number.
    pub fn index_u8(self) -> (r: u8)
        ensures
            r == self.number(),
    {
        match self {
            Reg::X0 => 0,
            Reg::X1 => 1,
            Reg::X2 => 2,
            Reg::X3 => 3,
            Reg::X4 => 4,
            Reg::X5 => 5,
            Reg::X6 => 6,
            Reg::X7 => 7,
            Reg::X8 => 8,
            Reg::X9 => 9,
            Reg::X10 => 10,
            Reg::X11 => 11,
            Reg::X12 => 12,
            Reg::X13 => 13,
            Reg::X14 => 14,
            Reg::X15 => 15,
            Reg::X16 => 16,
            Reg::X17 => 17,
            Reg::X18 => 18,
            Reg::X19 => 19,
            Reg::X20 => 20,
            Reg::X21 => 21,
            Reg::X22 => 22,
            Reg::X23 => 23,
            Reg::X24 => 24,
            Reg::X25 => 25,
            Reg::X26 => 26,
            Reg::X27 => 27,
            Reg::X28 => 28,
            Reg::X29 => 29,
            Reg::X30 => 30,
            Reg::X31 => 31,
        }
    }

    /// The register's number, as a register identifier.
    pub fn index(self) -> (r: u32)
        ensures
            r == self.number(),
    {
        self.index_u8() as u32
    }

    /// The canonical name, `x0` .. `x31`.
    pub fn name(self) -> (r: &'static str)
        ensures
            r@ == canonical_name(self.number()),
    {
        proof {
            reveal_with_fuel(decimal_text, 2);
            reveal_strlit("x0");
            reveal_strlit("x1");
            reveal_strlit("x2");
            reveal_strlit("x3");
            reveal_strlit("x4");
            reveal_strlit("x5");
            reveal_strlit("x6");
            reveal_strlit("x7");
            reveal_strlit("x8");
            reveal_strlit("x9");
            reveal_strlit("x10");
            reveal_strlit("x11");
            reveal_strlit("x12");
            reveal_strlit("x13");
            reveal_strlit("x14");
            reveal_strlit("x15");
            reveal_strlit("x16");
            reveal_strlit("x17");
            reveal_strlit("x18");
            reveal_strlit("x19");
            reveal_strlit("x20");
            reveal_strlit("x21");
            reveal_strlit("x22");
            reveal_strlit("x23");
            reveal_strlit("x24");
            reveal_strlit("x25");
            reveal_strlit("x26");
            reveal_strlit("x27");
            reveal_strlit("x28");
            reveal_strlit("x29");
            reveal_strlit("x30");
            reveal_strlit("x31");
        }
        match self {
            Reg::X0 => "x0",
            Reg::X1 => "x1",
            Reg::X2 => "x2",
            Reg::X3 => "x3",
            Reg::X4 => "x4",
            Reg::X5 => "x5",
            Reg::X6 => "x6",
            Reg::X7 => "x7",
            Reg::X8 => "x8",
            Reg::X9 => "x9",
            Reg::X10 => "x10",
            Reg::X11 => "x11",
            Reg::X12 => "x12",
            Reg::X13 => "x13",
            Reg::X14 => "x14",
            Reg::X15 => "x15",
            Reg::X16 => "x16",
            Reg::X17 => "x17",
            Reg::X18 => "x18",
            Reg::X19 => "x19",
            Reg::X20 => "x20",
            Reg::X21 => "x21",
            Reg::X22 => "x22",
            Reg::X23 => "x23",
            Reg::X24 => "x24",
            Reg::X25 => "x25",
            Reg::X26 => "x26",
            Reg::X27 => "x27",
            Reg::X28 => "x28",
            Reg::X29 => "x29",
            Reg::X30 => "x30",
            Reg::X31 => "x31",
        }
    }

    /// The standard ABI alias.
    pub fn abi_name(self) -> (r: &'static str)
        ensures
            r@ == abi_name_text(self.number()),
    {
        proof {
            reveal_with_fuel(decimal_text, 2);
            reveal_strlit("zero");
            reveal_strlit("ra");
            reveal_strlit("sp");
            reveal_strlit("gp");
            reveal_strlit("tp");
            reveal_strlit("t0");
            reveal_strlit("t1");
            reveal_strlit("t2");
            reveal_strlit("s0");
            reveal_strlit("s1");
            reveal_strlit("a0");
            reveal_strlit("a1");
            reveal_strlit("a2");
            reveal_strlit("a3");
            reveal_strlit("a4");
            reveal_strlit("a5");
            reveal_strlit("a6");
            reveal_strlit("a7");
            reveal_strlit("s2");
            reveal_strlit("s3");
            reveal_strlit("s4");
            reveal_strlit("s5");
            reveal_strlit("s6");
            reveal_strlit("s7");
            reveal_strlit("s8");
            reveal_strlit("s9");
            reveal_strlit("s10");
            reveal_strlit("s11");
            reveal_strlit("t3");
            reveal_strlit("t4");
            reveal_strlit("t5");
            reveal_strlit("t6");
        }
        match self {
            Reg::X0 => "zero",
            Reg::X1 => "ra",
            Reg::X2 => "sp",
            Reg::X3 => "gp",
            Reg::X4 => "tp",
            Reg::X5 => "t0",
            Reg::X6 => "t1",
            Reg::X7 => "t2",
            Reg::X8 => "s0",
            Reg::X9 => "s1",
            Reg::X10 => "a0",
            Reg::X11 => "a1",
            Reg::X12 => "a2",
            Reg::X13 => "a3",
            Reg::X14 => "a4",
            Reg::X15 => "a5",
            Reg::X16 => "a6",
            Reg::X17 => "a7",
            Reg::X18 => "s2",
            Reg::X19 => "s3",
            Reg::X20 => "s4",
            Reg::X21 => "s5",
            Reg::X22 => "s6",
            Reg::X23 => "s7",
            Reg::X24 => "s8",
            Reg::X25 => "s9",
            Reg::X26 => "s10",
            Reg::X27 => "s11",
            Reg::X28 => "t3",
            Reg::X29 => "t4",
            Reg::X30 => "t5",
            Reg::X31 => "t6",
        }
    }

    /// The canonical name as an owned string (the text that displaying a
    /// register shows).
    pub fn to_string(self) -> (r: String)
        ensures
            r@ == canonical_name(self.number()),
    {
        String::from_str(self.name())
    }
}

/// Error returned when text names no register.
#[derive(Copy, Clone, Debug, PartialEq, Eq, Structural)]
pub struct ParseRegisterError;

/// The number that `s` spells when it is a decimal byte value written
/// without leading zeros (`"0"` itself is allowed).
pub open spec fn decimal_u8_value(s: Seq<char>) -> Option<u8> {
    if s.len() >= 1 && !(s.len() > 1 && s[0] == '0') && all_digits(s) && decimal_value(s) <= 255 {
        Some(decimal_value(s) as u8)
    } else {
        None
    }
}

/// The register that `s` names canonically: `x` or `X` followed by its
/// number in decimal without leading zeros.
pub open spec fn canonical_register(s: Seq<char>) -> Option<Reg> {
    if s.len() >= 1 && (s[0] == 'x' || s[0] == 'X') {
        match decimal_u8_value(s.drop_first()) {
            Some(v) => if v < 32 {
                Some(reg_at(v as nat))
            } else {
                None
            },
            None => None,
        }
    } else {
        None
    }
}

/// The first register, from number `i` on, whose ABI alias is exactly `s`.
pub open spec fn abi_register_from(s: Seq<char>, i: nat) -> Option<Reg>
    decreases 32 - i,
{
    if i >= 32 {
        None
    } else if abi_name_text(i) == s {
        Some(reg_at(i))
    } else {
        abi_register_from(s, i + 1)
    }
}

/// The register that `s` names: canonically, or else by its ABI alias.
pub open spec fn register_named(s: Seq<char>) -> Option<Reg> {
    match canonical_register(s) {
        Some(r) => Some(r),
        None => abi_register_from(s, 0),
    }
}

/// Parses a register name: `x0`..`x31` (or `X0`..`X31`), or a lowercase
/// ABI alias such as `zero`, `sp` or `a0`.
pub fn parse_register(s: &str) -> (r: Option<Reg>)
    ensures
        r == register_named(s@),
{
    let n = s.unicode_len();
    if n > 4 {
        proof {
            lemma_register_name_is_short(s@);
        }
        return None;
    }
    let mut chars: Vec<char> = Vec::new();
    let mut i: usize = 0;
    while i < n
        invariant
            i <= n,
            n == s@.len(),
            chars@ == s@.take(i as int),
        decreases n - i,
    {
        chars.push(s.get_char(i));
        i = i + 1;
    }
    assert(chars@ == s@);
    match parse_canonical_register(chars.as_slice()) {
        Some(r) => Some(r),
        None => parse_abi_register(chars.as_slice()),
    }
}

/// Text that names a register is at most four characters long.
proof fn lemma_register_name_is_short(s: Seq<char>)
    ensures
        register_named(s) is Some ==> s.len() <= 4,
{
    if canonical_register(s) is Some {
        let rest = s.drop_first();
        lemma_decimal_len_below_32(rest);
    }
    lemma_abi_register_is_short(s, 0);
}

/// A decimal byte value below 32 has at most two digits.
proof fn lemma_decimal_len_below_32(s: Seq<char>)
    ensures
        decimal_u8_value(s) matches Some(v) && v < 32 ==> s.len() <= 2,
{
    if decimal_u8_value(s) is Some && s.len() >= 3 {
        lemma_leading_digit_bound(s);
    }
}

/// Every ABI alias is at most four characters long.
proof fn lemma_abi_register_is_short(s: Seq<char>, i: nat)
    ensures
        abi_register_from(s, i) is Some ==> s.len() <= 4,
    decreases 32 - i,
{
    if i < 32 {
        lemma_decimal_text((i - 5) as nat);
        lemma_decimal_text((i - 8) as nat);
        lemma_decimal_text((i - 10) as nat);
        lemma_decimal_text((i - 16) as nat);
        lemma_decimal_text((i - 25) as nat);
        lemma_abi_register_is_short(s, i + 1);
    }
}

/// Parses the canonical form `x<n>` / `X<n>`.
fn parse_canonical_register(s: &[char]) -> (r: Option<Reg>)
    ensures
        r == canonical_register(s@),
{
    if s.len() == 0 || !(s[0] == 'x' || s[0] == 'X') {
        return None;
    }
    let rest = slice_subrange(s, 1, s.len());
    assert(rest@ == s@.drop_first());
    match parse_decimal_u8(rest) {
        Some(index) => Reg::new(index),
        None => None,
    }
}

/// Parses an ABI alias by looking it up among the 32 aliases.
fn parse_abi_register(s: &[char]) -> (r: Option<Reg>)
    ensures
        r == abi_register_from(s@, 0),
{
    let mut i: u8 = 0;
    while i < 32
        invariant
            i <= 32,
            abi_register_from(s@, 0) == abi_register_from(s@, i as nat),
        decreases 32 - i,
    {
        match Reg::new(i) {
            Some(reg) => {
                if text_matches(reg.abi_name(), s) {
                    return Some(reg);
                }
            },
            None => {},
        }
        i = i + 1;
    }
    None
}

/// Whether the characters of `text` are exactly `s`.
fn text_matches(text: &str, s: &[char]) -> (r: bool)
    ensures
        r == (text@ == s@),
{
    let n = text.unicode_len();
    if n != s.len() {
        return false;
    }
    let mut i: usize = 0;
    while i < n
        invariant
            i <= n,
            n == text@.len(),
            n == s@.len(),
            text@.take(i as int) == s@.take(i as int),
        decreases n - i,
    {
        if text.get_char(i) != s[i] {
            assert(text@[i as int] != s@[i as int]);
            return false;
        }
        assert(text@.take(i + 1) == text@.take(i as int).push(text@[i as int]));
        assert(s@.take(i + 1) == s@.take(i as int).push(s@[i as int]));
        i = i + 1;
    }
    assert(text@ == text@.take(n as int));
    assert(s@ == s@.take(n as int));
    true
}

/// Parses a decimal byte value written without leading zeros.
fn parse_decimal_u8(s: &[char]) -> (r: Option<u8>)
    ensures
        r == decimal_u8_value(s@),
{
    if s.len() == 0 || (s.len() > 1 && s[0] == '0') {
        return None;
    }
    let mut value: u16 = 0;
    let mut i: usize = 0;
    while i < s.len()
        invariant
            i <= s@.len(),
            s@.len() >= 1,
            !(s@.len() > 1 && s@[0] == '0'),
            all_digits(s@.take(i as int)),
            value == decimal_value(s@.take(i as int)),
            value <= 255,
        decreases s@.len() - i,
    {
        let c = s[i];
        if !('0' <= c && c <= '9') {
            assert(!is_digit(s@[i as int]));
            return None;
        }
        let ghost next = s@.take(i + 1);
        assert(next.drop_last() == s@.take(i as int));
        assert(next.last() == c);
        value = value * 10 + (c as u16 - '0' as u16);
        assert(all_digits(next)) by {
            assert forall|k: int| 0 <= k < next.len() implies #[trigger] is_digit(next[k]) by {
                if k < i {
                    assert(next[k] == s@.take(i as int)[k]);
                }
            }
        }
        if value > 255 {
            proof {
                if all_digits(s@) {
                    lemma_decimal_value_prefix(s@, i + 1);
                }
            }
            return None;
        }
        i = i + 1;
    }
    assert(s@.take(s@.len() as int) == s@);
    Some(value as u8)
}

/// Distinct registers have distinct ABI aliases.
proof fn lemma_abi_names_distinct(i: nat, j: nat)
    requires
        i < 32,
        j < 32,
        i != j,
    ensures
        abi_name_text(i) != abi_name_text(j),
{
    reveal_with_fuel(decimal_text, 2);
    let a = abi_name_text(i);
    let b = abi_name_text(j);
    if a.len() == b.len() {
        assert(a[0] != b[0] || a[1] != b[1] || a[a.len() - 1] != b[b.len() - 1]);
    }
}

/// Looking up the ABI alias of register `n` from any number `k <= n` on
/// finds register `n`.
proof fn lemma_abi_lookup(n: nat, k: nat)
    requires
        k <= n < 32,
    ensures
        abi_register_from(abi_name_text(n), k) == Some(reg_at(n)),
    decreases n - k,
{
    if k < n {
        lemma_abi_names_distinct(k, n);
        lemma_abi_lookup(n, k + 1);
    }
}

/// Parsing the canonical name of a register gives back that register.
pub proof fn lemma_parse_canonical_name(r: Reg)
    ensures
        register_named(canonical_name(r.number())) == Some(r),
{
    let n = r.number();
    let s = canonical_name(n);
    lemma_decimal_text(n);
    assert(s.drop_first() == decimal_text(n));
}

/// Parsing the ABI alias of a register gives back that register.
pub proof fn lemma_parse_abi_name(r: Reg)
    ensures
        register_named(abi_name_text(r.number())) == Some(r),
{
    let n = r.number();
    reveal_with_fuel(decimal_text, 2);
    assert(canonical_register(abi_name_text(n)) is None);
    lemma_abi_lookup(n, 0);
}

/// `Reg::new` and `Reg::index_u8` are inverse: every number below 32 names
/// exactly one register, and no other number names any.
pub proof fn lemma_register_numbering(r: Reg, i: nat)
    ensures
        r.number() < 32,
        reg_at(r.number()) == r,
        i < 32 ==> reg_at(i).number() == i,
{
}

/// Register `xN` is numbered `N`.
pub proof fn lemma_register_numbers()
    ensures
        Reg::X0.number() == 0,
        Reg::X1.number() == 1,
        Reg::X2.number() == 2,
        Reg::X3.number() == 3,
        Reg::X4.number() == 4,
        Reg::X5.number() == 5,
        Reg::X6.number() == 6,
        Reg::X7.number() == 7,
        Reg::X8.number() == 8,
        Reg::X9.number() == 9,
        Reg::X10.number() == 10,
        Reg::X11.number() == 11,
        Reg::X12.number() == 12,
        Reg::X13.number() == 13,
        Reg::X14.number() == 14,
        Reg::X15.number() == 15,
        Reg::X16.number() == 16,
        Reg::X17.number() == 17,
        Reg::X18.number() == 18,
        Reg::X19.number() == 19,
        Reg::X20.number() == 20,
        Reg::X21.number() == 21,
        Reg::X22.number() == 22,
        Reg::X23.number() == 23,
        Reg::X24.number() == 24,
        Reg::X25.number() == 25,
        Reg::X26.number() == 26,
        Reg::X27.number() == 27,
        Reg::X28.number() == 28,
        Reg::X29.number() == 29,
        Reg::X30.number() == 30,
        Reg::X31.number() == 31,
{
}

/// The ABI aliases of `x0` through `x31`, in order: `zero`, `ra`, `sp`, `gp`,
/// `tp`, `t0`-`t2`, `s0`, `s1`, `a0`-`a7`, `s2`-`s11`, `t3`-`t6`.
pub proof fn lemma_abi_name_spelling()
    ensures
        abi_name_text(0) == seq!['z', 'e', 'r', 'o'],
        abi_name_text(1) == seq!['r', 'a'],
        abi_name_text(2) == seq!['s', 'p'],
        abi_name_text(3) == seq!['g', 'p'],
        abi_name_text(4) == seq!['t', 'p'],
        abi_name_text(5) == seq!['t', '0'],
        abi_name_text(6) == seq!['t', '1'],
        abi_name_text(7) == seq!['t', '2'],
        abi_name_text(8) == seq!['s', '0'],
        abi_name_text(9) == seq!['s', '1'],
        abi_name_text(10) == seq!['a', '0'],
        abi_name_text(11) == seq!['a', '1'],
        abi_name_text(12) == seq!['a', '2'],
        abi_name_text(13) == seq!['a', '3'],
        abi_name_text(14) == seq!['a', '4'],
        abi_name_text(15) == seq!['a', '5'],
        abi_name_text(16) == seq!['a', '6'],
        abi_name_text(17) == seq!['a', '7'],
        abi_name_text(18) == seq!['s', '2'],
        abi_name_text(19) == seq!['s', '3'],
        abi_name_text(20) == seq!['s', '4'],
        abi_name_text(21) == seq!['s', '5'],
        abi_name_text(22) == seq!['s', '6'],
        abi_name_text(23) == seq!['s', '7'],
        abi_name_text(24) == seq!['s', '8'],
        abi_name_text(25) == seq!['s', '9'],
        abi_name_text(26) == seq!['s', '1', '0'],
        abi_name_text(27) == seq!['s', '1', '1'],
        abi_name_text(28) == seq!['t', '3'],
        abi_name_text(29) == seq!['t', '4'],
        abi_name_text(30) == seq!['t', '5'],
        abi_name_text(31) == seq!['t', '6'],
{
    reveal_with_fuel(decimal_text, 2);
}

impl core::str::FromStr for Reg {
    type Err = ParseRegisterError;

    fn from_str(s: &str) -> (r: Result<Self, Self::Err>)
        ensures
            r == match register_named(s@) {
                Some(reg) => Ok(reg),
                None => Err(ParseRegisterError),
            },
    {
        match parse_register(s) {
            Some(r) => Ok(r),
            None => Err(ParseRegisterError),
        }
    }
}

} // verus!
