//! Identifiers: 128-bit UUIDs and their hyphenated text.
use vstd::prelude::*;
use vstd::arithmetic::power::{lemma_pow_positive, pow};
use crate::text::hex_char;

verus! {

/// The `k`-th hexadecimal digit of `v`, counted from the most significant (0..32).
pub open spec fn nibble(v: u128, k: int) -> int {
    (v as int / pow(16, (31 - k) as nat)) % 16
}

/// The hexadecimal digits `from..to` of `v`, in lowercase.
pub open spec fn hex_run(v: u128, from: int, to: int) -> Seq<char> {
    Seq::new((to - from) as nat, |i: int| hex_char(nibble(v, from + i)))
}

/// The hyphenated lowercase text of a UUID, `xxxxxxxx-xxxx-xxxx-xxxx-xxxxxxxxxxxx`.
pub open spec fn hyphenated(v: u128) -> Seq<char> {
    hex_run(v, 0, 8) + seq!['-'] + hex_run(v, 8, 12) + seq!['-'] + hex_run(v, 12, 16) + seq!['-']
        + hex_run(v, 16, 20) + seq!['-'] + hex_run(v, 20, 32)
}

/// The hyphenated text of the UUID with value `id` (uuid's `Uuid::from_u128`
/// and its `Display`).
#[verifier::external_body]
pub(crate) fn uuid_text(id: u128) -> (r: String)
    ensures
        r@ == hyphenated(id),
{
    uuid::Uuid::from_u128(id).to_string()
}

/// The value of a hexadecimal digit of either case.
pub open spec fn hex_digit_value(c: char) -> Option<int> {
    if '0' <= c && c <= '9' {
        Some(c as int - 48)
    } else if 'a' <= c && c <= 'f' {
        Some(c as int - 87)
    } else if 'A' <= c && c <= 'F' {
        Some(c as int - 55)
    } else {
        None
    }
}

/// Whether every character of `s` is a hexadecimal digit.
pub open spec fn all_hex(s: Seq<char>) -> bool {
    forall|i: int| 0 <= i < s.len() ==> (#[trigger] hex_digit_value(s[i])) is Some
}

/// The number that hexadecimal digits write, most significant first.
pub open spec fn hex_number(s: Seq<char>) -> int
    decreases s.len(),
{
    if s.len() == 0 {
        0
    } else {
        hex_number(s.drop_last()) * 16 + hex_digit_value(s.last())->0
    }
}

/// The 32 digits of a hyphenated form `8-4-4-4-12`, when `s` has that shape.
pub open spec fn hyphenated_digits(s: Seq<char>) -> Option<Seq<char>> {
    if s.len() == 36 && s[8] == '-' && s[13] == '-' && s[18] == '-' && s[23] == '-' {
        Some(s.subrange(0, 8) + s.subrange(9, 13) + s.subrange(14, 18) + s.subrange(19, 23)
            + s.subrange(24, 36))
    } else {
        None
    }
}

/// `c` with an ASCII capital letter made small.
pub open spec fn ascii_lower(c: char) -> char {
    if 'A' <= c && c <= 'Z' {
        (c as int + 32) as char
    } else {
        c
    }
}

/// The 32 digits that uuid's parser reads in `s`: 32 digits alone, the
/// hyphenated form, the hyphenated form in braces, or the hyphenated form
/// after `urn:uuid:` in any case.
pub open spec fn uuid_digits(s: Seq<char>) -> Option<Seq<char>> {
    if s.len() == 32 {
        Some(s)
    } else if s.len() == 36 {
        hyphenated_digits(s)
    } else if s.len() == 38 && s[0] == '{' && s[37] == '}' {
        hyphenated_digits(s.subrange(1, 37))
    } else if s.len() == 45 && s.take(9).map_values(|c: char| ascii_lower(c)) == "urn:uuid:"@ {
        hyphenated_digits(s.skip(9))
    } else {
        None
    }
}

/// What uuid's `Uuid::parse_str` makes of a text: the value of the 32
/// hexadecimal digits it reads, big-endian, or none.
pub open spec fn uuid_from_text(s: Seq<char>) -> Option<u128> {
    match uuid_digits(s) {
        Some(d) => if all_hex(d) {
            Some(hex_number(d) as u128)
        } else {
            None
        },
        None => None,
    }
}

/// The UUID written in `s` (uuid's `Uuid::parse_str`, whose parser takes
/// the forms of `uuid_digits` and nothing else).
#[verifier::external_body]
pub(crate) fn parse_uuid(s: &str) -> (r: Option<u128>)
    ensures
        r == uuid_from_text(s@),
{
    match uuid::Uuid::parse_str(s) {
        Ok(u) => Some(u.as_u128()),
        Err(_) => None,
    }
}

/// The hexadecimal digits `0..n` of `v` write the value of `v`'s leading
/// `n` digits.
proof fn lemma_hex_run_value(v: u128, n: int)
    requires
        0 <= n <= 32,
    ensures
        all_hex(hex_run(v, 0, n)),
        hex_number(hex_run(v, 0, n)) == v as int / pow(16, (32 - n) as nat),
    decreases n,
{
    let r = hex_run(v, 0, n);
    assert forall|i: int| 0 <= i < r.len() implies (#[trigger] hex_digit_value(r[i])) is Some by {
        lemma_hex_char_value(nibble(v, i));
    }
    if n == 0 {
        lemma_pow16_32();
        vstd::arithmetic::div_mod::lemma_basic_div(v as int, pow(16, 32));
    } else {
        lemma_hex_run_value(v, n - 1);
        assert(r.drop_last() =~= hex_run(v, 0, n - 1));
        lemma_hex_char_value(nibble(v, n - 1));
        let p = pow(16, (32 - n) as nat) as int;
        lemma_pow_positive(16, (32 - n) as nat);
        vstd::arithmetic::power::lemma_pow_adds(16, (32 - n) as nat, 1);
        vstd::arithmetic::power::lemma_pow1(16);
        let x = v as int / p;
        vstd::arithmetic::div_mod::lemma_div_denominator(v as int, p, 16);
        vstd::arithmetic::div_mod::lemma_fundamental_div_mod(x, 16);
        assert(pow(16, (32 - (n - 1)) as nat) == p * 16);
    }
}

/// Sixteen to the 32nd is two to the 128th, one past the largest `u128`.
proof fn lemma_pow16_32()
    ensures
        pow(16, 32) == 0x1_0000_0000_0000_0000_0000_0000_0000_0000int,
{
    vstd::arithmetic::power::lemma_pow1(16);
    vstd::arithmetic::power::lemma_pow_adds(16, 1, 1);
    assert(pow(16, 2) == 256);
    vstd::arithmetic::power::lemma_pow_adds(16, 2, 2);
    assert(pow(16, 4) == 65536);
    vstd::arithmetic::power::lemma_pow_adds(16, 4, 4);
    assert(pow(16, 8) == 0x1_0000_0000int);
    vstd::arithmetic::power::lemma_pow_adds(16, 8, 8);
    assert(pow(16, 16) == 0x1_0000_0000_0000_0000int);
    vstd::arithmetic::power::lemma_pow_adds(16, 16, 16);
}

/// A lowercase hexadecimal digit reads back as its value.
proof fn lemma_hex_char_value(d: int)
    requires
        0 <= d < 16,
    ensures
        hex_digit_value(hex_char(d)) == Some(d),
{
}

/// The hyphenated text of a UUID reads back as that UUID.
pub proof fn hyphenated_reads_back(id: u128)
    ensures
        uuid_from_text(hyphenated(id)) == Some(id),
{
    let h = hyphenated(id);
    let d = h.subrange(0, 8) + h.subrange(9, 13) + h.subrange(14, 18) + h.subrange(19, 23) + h.subrange(24, 36);
    assert(d =~= hex_run(id, 0, 32));
    lemma_hex_run_value(id, 32);
    vstd::arithmetic::power::lemma_pow0(16);
}

} // verus!
