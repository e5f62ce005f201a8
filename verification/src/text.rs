//! Character-level helpers shared by the other modules: decimal and
//! hexadecimal digits, searching, prefixes and file-name suffixes.
use vstd::prelude::*;
use vstd::string::*;

verus! {

/// The character of decimal digit `d` (0..=9).
pub open spec fn digit_char(d: int) -> char {
    (48 + d) as char
}

/// Decimal digits of a natural number, most significant first, no leading zeros.
pub open spec fn nat_digits(n: nat) -> Seq<char>
    decreases n,
{
    if n < 10 {
        seq![digit_char(n as int)]
    } else {
        nat_digits(n / 10).push(digit_char((n % 10) as int))
    }
}

/// The decimal text of an integer, as Rust's `Display` writes it.
pub open spec fn decimal(n: int) -> Seq<char> {
    if n < 0 {
        seq!['-'] + nat_digits((-n) as nat)
    } else {
        nat_digits(n as nat)
    }
}

/// The lowercase hexadecimal character of a nibble (0..=15).
pub open spec fn hex_char(d: int) -> char {
    if d < 10 {
        (48 + d) as char
    } else {
        (87 + d) as char
    }
}

/// Two lowercase hexadecimal characters per byte, high nibble first.
pub open spec fn hex_lower(bytes: Seq<u8>) -> Seq<char>
    decreases bytes.len(),
{
    if bytes.len() == 0 {
        seq![]
    } else {
        hex_lower(bytes.drop_last()) + seq![
            hex_char(bytes.last() as int / 16),
            hex_char(bytes.last() as int % 16),
        ]
    }
}

/// Whether every character is a lowercase hexadecimal digit.
pub open spec fn is_lower_hex(s: Seq<char>) -> bool {
    forall|i: int|
        0 <= i < s.len() ==> (('0' <= #[trigger] s[i] && s[i] <= '9') || ('a' <= s[i] && s[i]
            <= 'f'))
}

/// The text after the last `.` of `s`, or all of `s` when it holds no `.`.
pub open spec fn after_last_dot(s: Seq<char>) -> Seq<char>
    decreases s.len(),
{
    if s.len() == 0 {
        s
    } else if s.last() == '.' {
        seq![]
    } else {
        after_last_dot(s.drop_last()).push(s.last())
    }
}

/// Appends one character to `s` (std's `String::push`).
#[verifier::external_body]
pub(crate) fn push_char(s: &mut String, c: char)
    ensures
        final(s)@ == old(s)@.push(c),
{
    s.push(c);
}

/// Whether `c` has the Unicode `White_Space` property, which is what
/// `char::is_whitespace` tests.
pub open spec fn is_white_space(c: char) -> bool {
    ('\u{9}' <= c && c <= '\u{d}') || c == ' ' || c == '\u{85}' || c == '\u{a0}' || c == '\u{1680}'
        || ('\u{2000}' <= c && c <= '\u{200a}') || c == '\u{2028}' || c == '\u{2029}' || c
        == '\u{202f}' || c == '\u{205f}' || c == '\u{3000}'
}

/// `s` without its leading whitespace.
pub open spec fn trim_start(s: Seq<char>) -> Seq<char>
    decreases s.len(),
{
    if s.len() > 0 && is_white_space(s[0]) {
        trim_start(s.skip(1))
    } else {
        s
    }
}

/// `s` without its trailing whitespace.
pub open spec fn trim_end(s: Seq<char>) -> Seq<char>
    decreases s.len(),
{
    if s.len() > 0 && is_white_space(s.last()) {
        trim_end(s.drop_last())
    } else {
        s
    }
}

/// What `str::trim` leaves of `s`: `s` without its leading and trailing whitespace.
pub open spec fn trimmed(s: Seq<char>) -> Seq<char> {
    trim_end(trim_start(s))
}

/// `s` without leading and trailing whitespace (std's `str::trim`, which
/// strips the characters for which `char::is_whitespace` holds).
#[verifier::external_body]
pub(crate) fn trim_text(s: &str) -> (r: &str)
    ensures
        r@ == trimmed(s@),
{
    s.trim()
}

/// What `str::to_lowercase` makes of `s`.
pub uninterp spec fn lowered(s: Seq<char>) -> Seq<char>;

/// `s` in lowercase (std's `str::to_lowercase`).
#[verifier::external_body]
pub(crate) fn lowercase_text(s: &str) -> (r: String)
    ensures
        r@ == lowered(s@),
{
    s.to_lowercase()
}

/// Whether `c` occurs in `s`.
pub fn has_char(s: &str, c: char) -> (r: bool)
    ensures
        r == s@.contains(c),
{
    let n = s.unicode_len();
    let mut i: usize = 0;
    while i < n
        invariant
            n == s@.len(),
            i <= n,
            forall|j: int| 0 <= j < i ==> s@[j] != c,
        decreases n - i,
    {
        if s.get_char(i) == c {
            assert(s@[i as int] == c);
            return true;
        }
        i = i + 1;
    }
    false
}

/// Whether `a` and `b` hold the same characters.
pub fn same_text(a: &str, b: &str) -> (r: bool)
    ensures
        r == (a@ == b@),
{
    let x = a.to_owned();
    let y = b.to_owned();
    x == y
}

/// `s` with `prefix` removed from its front, when it starts with `prefix`.
pub fn strip_prefix_text<'a>(s: &'a str, prefix: &str) -> (r: Option<&'a str>)
    ensures
        match r {
            Some(rest) => prefix@.is_prefix_of(s@) && rest@ == s@.skip(prefix@.len() as int),
            None => !prefix@.is_prefix_of(s@),
        },
{
    let n = s.unicode_len();
    let m = prefix.unicode_len();
    if m > n {
        return None;
    }
    let mut i: usize = 0;
    while i < m
        invariant
            n == s@.len(),
            m == prefix@.len(),
            m <= n,
            i <= m,
            forall|j: int| 0 <= j < i ==> prefix@[j] == s@[j],
        decreases m - i,
    {
        if s.get_char(i) != prefix.get_char(i) {
            return None;
        }
        i = i + 1;
    }
    let rest = s.substring_char(m, n);
    assert(s@.skip(m as int) =~= s@.subrange(m as int, n as int));
    Some(rest)
}

proof fn lemma_after_last_dot_no_dot(s: Seq<char>)
    requires
        !s.contains('.'),
    ensures
        after_last_dot(s) == s,
    decreases s.len(),
{
    if s.len() > 0 {
        assert(!s.drop_last().contains('.')) by {
            if s.drop_last().contains('.') {
                let k = choose|k: int| 0 <= k < s.drop_last().len() && s.drop_last()[k] == '.';
                assert(s[k] == '.');
            }
        }
        lemma_after_last_dot_no_dot(s.drop_last());
        assert(s.last() != '.') by {
            assert(s[s.len() - 1] == s.last());
        }
        assert(s.drop_last().push(s.last()) =~= s);
    }
}

proof fn lemma_after_last_dot_split(s: Seq<char>, k: int)
    requires
        0 <= k < s.len(),
        s[k] == '.',
        forall|j: int| k < j < s.len() ==> s[j] != '.',
    ensures
        after_last_dot(s) == s.skip(k + 1),
    decreases s.len(),
{
    if k == s.len() - 1 {
        assert(s.skip(k + 1) =~= seq![]);
    } else {
        lemma_after_last_dot_split(s.drop_last(), k);
        assert(s.skip(k + 1) =~= s.drop_last().skip(k + 1).push(s.last()));
    }
}

/// The text after the last `.` of `s` (what `rsplit('.').next()` yields).
pub fn text_after_last_dot<'a>(s: &'a str) -> (r: &'a str)
    ensures
        r@ == after_last_dot(s@),
{
    let n = s.unicode_len();
    let mut i: usize = n;
    while i > 0
        invariant
            n == s@.len(),
            i <= n,
            forall|j: int| i <= j < n ==> s@[j] != '.',
        decreases i,
    {
        if s.get_char(i - 1) == '.' {
            proof {
                lemma_after_last_dot_split(s@, i - 1);
                assert(s@.skip(i as int) =~= s@.subrange(i as int, n as int));
            }
            return s.substring_char(i, n);
        }
        i = i - 1;
    }
    proof {
        assert(!s@.contains('.')) by {
            if s@.contains('.') {
                let k = choose|k: int| 0 <= k < s@.len() && s@[k] == '.';
                assert(s@[k] != '.');
            }
        }
        lemma_after_last_dot_no_dot(s@);
        assert(s@.subrange(0, n as int) =~= s@);
    }
    s.substring_char(0, n)
}

/// The character of decimal digit `d`.
fn digit(d: u64) -> (c: char)
    requires
        d < 10,
    ensures
        c == digit_char(d as int),
{
    match d {
        0 => '0',
        1 => '1',
        2 => '2',
        3 => '3',
        4 => '4',
        5 => '5',
        6 => '6',
        7 => '7',
        8 => '8',
        _ => '9',
    }
}

/// Appends the decimal digits of `n` to `out`.
fn write_digits(out: &mut String, n: u64)
    ensures
        final(out)@ == old(out)@ + nat_digits(n as nat),
    decreases n,
{
    if n >= 10 {
        write_digits(out, n / 10);
    }
    push_char(out, digit(n % 10));
}

/// Appends the decimal text of `n` to `out`.
pub fn write_decimal(out: &mut String, n: i64)
    ensures
        final(out)@ == old(out)@ + decimal(n as int),
{
    if n < 0 {
        push_char(out, '-');
        let wide: i128 = n as i128;
        let magnitude: u64 = (0i128 - wide) as u64;
        write_digits(out, magnitude);
        assert(old(out)@.push('-') + nat_digits(magnitude as nat) =~= old(out)@ + (seq!['-']
            + nat_digits((-n) as nat)));
    } else {
        write_digits(out, n as u64);
    }
}

/// The decimal text of `n`.
pub fn decimal_text(n: i64) -> (r: String)
    ensures
        r@ == decimal(n as int),
{
    let mut s = String::new();
    write_decimal(&mut s, n);
    assert(Seq::<char>::empty() + decimal(n as int) =~= decimal(n as int));
    s
}

/// `a` followed by `b`.
pub fn join2(a: &str, b: &str) -> (r: String)
    ensures
        r@ == a@ + b@,
{
    let mut s = a.to_owned();
    s.append(b);
    s
}

/// Appends the decimal text of a count to `out`.
pub fn write_count(out: &mut String, n: usize)
    ensures
        final(out)@ == old(out)@ + decimal(n as int),
{
    write_digits(out, n as u64);
}

} // verus!
