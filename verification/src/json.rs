//! The JSON text of string and integer values, written the way serde_json
//! writes them, and read back.
use vstd::prelude::*;
use crate::text::{decimal, digit_char, hex_char, nat_digits, push_char, write_decimal};

verus! {

/// The escape sequence that JSON text uses for one character: quote and
/// backslash are escaped, control characters get their short form or
/// `\u00xx`, everything else stands for itself.
pub open spec fn escape_char(c: char) -> Seq<char> {
    let v = c as u32;
    if c == '"' {
        seq!['\\', '"']
    } else if c == '\\' {
        seq!['\\', '\\']
    } else if v == 8 {
        seq!['\\', 'b']
    } else if v == 12 {
        seq!['\\', 'f']
    } else if v == 10 {
        seq!['\\', 'n']
    } else if v == 13 {
        seq!['\\', 'r']
    } else if v == 9 {
        seq!['\\', 't']
    } else if v < 32 {
        seq!['\\', 'u', '0', '0', hex_char(v as int / 16), hex_char(v as int % 16)]
    } else {
        seq![c]
    }
}

/// The escaped contents of a JSON string.
pub open spec fn escaped(s: Seq<char>) -> Seq<char>
    decreases s.len(),
{
    if s.len() == 0 {
        seq![]
    } else {
        escaped(s.drop_last()) + escape_char(s.last())
    }
}

/// A JSON string literal holding `s`.
pub open spec fn json_string(s: Seq<char>) -> Seq<char> {
    seq!['"'] + escaped(s) + seq!['"']
}

/// The value of a lowercase hexadecimal digit, if `c` is one.
pub open spec fn hex_value(c: char) -> Option<int> {
    if '0' <= c && c <= '9' {
        Some(c as int - 48)
    } else if 'a' <= c && c <= 'f' {
        Some(c as int - 87)
    } else {
        None
    }
}

/// The character that the escape sequence at the front of `t` (which
/// starts with a backslash) stands for, and the sequence's length.
pub open spec fn escape_value(t: Seq<char>) -> Option<(char, int)> {
    if t.len() < 2 {
        None
    } else if t[1] == '"' {
        Some(('"', 2))
    } else if t[1] == '\\' {
        Some(('\\', 2))
    } else if t[1] == 'b' {
        Some((8u32 as char, 2))
    } else if t[1] == 'f' {
        Some((12u32 as char, 2))
    } else if t[1] == 'n' {
        Some((10u32 as char, 2))
    } else if t[1] == 'r' {
        Some((13u32 as char, 2))
    } else if t[1] == 't' {
        Some((9u32 as char, 2))
    } else if t[1] == 'u' && t.len() >= 6 && t[2] == '0' && t[3] == '0' && hex_value(t[4]) is Some
        && hex_value(t[5]) is Some {
        Some(((hex_value(t[4])->0 * 16 + hex_value(t[5])->0) as char, 6))
    } else {
        None
    }
}

/// `o` with `c` put in front of its text and `n` added to its length.
pub open spec fn prepend(c: char, n: int, o: Option<(Seq<char>, int)>) -> Option<(Seq<char>, int)> {
    match o {
        Some((v, m)) => Some((seq![c] + v, m + n)),
        None => None,
    }
}

/// Reads the rest of a JSON string whose opening quote has been read: the
/// decoded text and the number of characters up to and including the
/// closing quote.
pub open spec fn unescape_tail(t: Seq<char>) -> Option<(Seq<char>, int)>
    decreases t.len(),
{
    if t.len() == 0 {
        None
    } else if t[0] == '"' {
        Some((seq![], 1))
    } else if t[0] == '\\' {
        match escape_value(t) {
            Some((c, n)) => if 0 < n <= t.len() {
                prepend(c, n, unescape_tail(t.skip(n)))
            } else {
                None
            },
            None => None,
        }
    } else {
        prepend(t[0], 1, unescape_tail(t.skip(1)))
    }
}

/// Whether `c` is a decimal digit.
pub open spec fn is_digit(c: char) -> bool {
    '0' <= c && c <= '9'
}

/// The value of a run of decimal digits.
pub open spec fn digits_value(ds: Seq<char>) -> int
    decreases ds.len(),
{
    if ds.len() == 0 {
        0
    } else {
        digits_value(ds.drop_last()) * 10 + (ds.last() as int - 48)
    }
}

proof fn lemma_escaped_append(s: Seq<char>, c: char)
    ensures
        escaped(s.push(c)) == escaped(s) + escape_char(c),
{
    assert(s.push(c).drop_last() =~= s);
}

/// Escaping works character by character, from the front as from the back.
proof fn lemma_escaped_front(s: Seq<char>)
    requires
        s.len() > 0,
    ensures
        escaped(s) == escape_char(s[0]) + escaped(s.drop_first()),
    decreases s.len(),
{
    if s.len() == 1 {
        assert(s.drop_last() =~= seq![]);
        assert(s.drop_first() =~= seq![]);
        assert(escaped(s.drop_first()) =~= seq![]);
        assert(escape_char(s[0]) + seq![] =~= escape_char(s[0]));
        assert(seq![] + escape_char(s.last()) =~= escape_char(s.last()));
    } else {
        lemma_escaped_front(s.drop_last());
        assert(s.drop_last().drop_first() =~= s.drop_first().drop_last());
        assert(s.drop_first().last() == s.last());
        assert(s.drop_last()[0] == s[0]);
        assert(escaped(s) == escaped(s.drop_last()) + escape_char(s.last()));
        assert(escaped(s.drop_first()) == escaped(s.drop_first().drop_last()) + escape_char(
            s.drop_first().last(),
        ));
        assert(escaped(s) =~= escape_char(s[0]) + escaped(s.drop_first()));
    }
}

proof fn lemma_hex_roundtrip(d: int)
    requires
        0 <= d < 16,
    ensures
        hex_value(hex_char(d)) == Some(d),
{
}

proof fn lemma_char_roundtrip(c: char)
    ensures
        (c as u32) as char == c,
{
}

/// Reading the JSON text of one escaped character gives the character back.
proof fn lemma_unescape_one(c: char, rest: Seq<char>)
    ensures
        unescape_tail(escape_char(c) + rest) == prepend(
            c,
            escape_char(c).len() as int,
            unescape_tail(rest),
        ),
{
    let e = escape_char(c);
    let t = e + rest;
    let v = c as u32;
    lemma_char_roundtrip(c);
    assert(t.skip(e.len() as int) =~= rest);
    assert(t[0] == e[0]);
    if c == '"' || c == '\\' || v == 8 || v == 12 || v == 10 || v == 13 || v == 9 {
        assert(t[1] == e[1]);
    } else if v < 32 {
        assert(t[1] == e[1] && t[2] == e[2] && t[3] == e[3] && t[4] == e[4] && t[5] == e[5]);
        lemma_hex_roundtrip(v as int / 16);
        lemma_hex_roundtrip(v as int % 16);
        assert((v as int / 16) * 16 + v as int % 16 == v as int);
    } else {
    }
}

/// Reading the JSON text of a string gives the string back, and stops
/// just after its closing quote.
pub proof fn lemma_unescape_escaped(s: Seq<char>, rest: Seq<char>)
    ensures
        unescape_tail(escaped(s) + seq!['"'] + rest) == Some((s, escaped(s).len() + 1int)),
    decreases s.len(),
{
    if s.len() == 0 {
        assert(escaped(s) =~= seq![]);
        let t = escaped(s) + seq!['"'] + rest;
        assert(t[0] == '"');
        assert(s =~= seq![]);
    } else {
        lemma_escaped_front(s);
        let e = escape_char(s[0]);
        let tail = escaped(s.drop_first()) + seq!['"'] + rest;
        assert(escaped(s) + seq!['"'] + rest =~= e + tail);
        lemma_unescape_one(s[0], tail);
        lemma_unescape_escaped(s.drop_first(), rest);
        assert(seq![s[0]] + s.drop_first() =~= s);
    }
}

/// The escape sequence of a lowercase hexadecimal digit.
fn hex_digit(d: u32) -> (c: char)
    requires
        d < 16,
    ensures
        c == hex_char(d as int),
{
    match d {
        0 => '0',
        1 => '1',
        2 => '2',
        3 => '3',
        4 => '4',
        5 => '5',
        6 => '6',
        7 => '7',
        8 => '8',
        9 => '9',
        10 => 'a',
        11 => 'b',
        12 => 'c',
        13 => 'd',
        14 => 'e',
        _ => 'f',
    }
}

/// Appends the JSON escape sequence of `c` to `out`.
fn write_escaped_char(out: &mut String, c: char)
    ensures
        final(out)@ == old(out)@ + escape_char(c),
{
    let v = c as u32;
    if c == '"' {
        push_char(out, '\\');
        push_char(out, '"');
    } else if c == '\\' {
        push_char(out, '\\');
        push_char(out, '\\');
    } else if v == 8 {
        push_char(out, '\\');
        push_char(out, 'b');
    } else if v == 12 {
        push_char(out, '\\');
        push_char(out, 'f');
    } else if v == 10 {
        push_char(out, '\\');
        push_char(out, 'n');
    } else if v == 13 {
        push_char(out, '\\');
        push_char(out, 'r');
    } else if v == 9 {
        push_char(out, '\\');
        push_char(out, 't');
    } else if v < 32 {
        push_char(out, '\\');
        push_char(out, 'u');
        push_char(out, '0');
        push_char(out, '0');
        push_char(out, hex_digit(v / 16));
        push_char(out, hex_digit(v % 16));
    } else {
        push_char(out, c);
    }
    assert(final(out)@ =~= old(out)@ + escape_char(c));
}

/// The characters of `s`, one by one.
pub fn chars_of(s: &str) -> (r: Vec<char>)
    ensures
        r@ == s@,
{
    let n = s.unicode_len();
    let mut r: Vec<char> = Vec::new();
    let mut i: usize = 0;
    while i < n
        invariant
            n == s@.len(),
            i <= n,
            r@ == s@.take(i as int),
        decreases n - i,
    {
        r.push(s.get_char(i));
        i = i + 1;
        assert(r@ =~= s@.take(i as int));
    }
    assert(s@.take(n as int) =~= s@);
    r
}

/// Appends the JSON string literal of `s` to `out`.
pub fn write_json_string(out: &mut String, s: &str)
    ensures
        final(out)@ == old(out)@ + json_string(s@),
{
    let cs = chars_of(s);
    push_char(out, '"');
    let ghost start = out@;
    let mut i: usize = 0;
    while i < cs.len()
        invariant
            cs@ == s@,
            i <= cs@.len(),
            out@ == start + escaped(s@.take(i as int)),
        decreases cs@.len() - i,
    {
        let c = cs[i];
        write_escaped_char(out, c);
        proof {
            assert(s@.take(i + 1) =~= s@.take(i as int).push(c));
            lemma_escaped_append(s@.take(i as int), c);
        }
        i = i + 1;
    }
    assert(s@.take(cs@.len() as int) =~= s@);
    push_char(out, '"');
    assert(final(out)@ =~= old(out)@ + json_string(s@));
}

/// Whether the characters of `cs` from `p` on begin with `lit`; the
/// position after it when they do.
pub fn expect_text(cs: &Vec<char>, p: usize, lit: &str) -> (r: Option<usize>)
    requires
        p <= cs@.len(),
    ensures
        r is Some <==> (p + lit@.len() <= cs@.len() && cs@.subrange(p as int, p + lit@.len())
            == lit@),
        r matches Some(q) ==> q == p + lit@.len(),
{
    let m = lit.unicode_len();
    let n = cs.len();
    if m > n - p {
        return None;
    }
    let mut i: usize = 0;
    while i < m
        invariant
            m == lit@.len(),
            n == cs@.len(),
            p + m <= n,
            i <= m,
            forall|j: int| 0 <= j < i ==> cs@[p + j] == lit@[j],
        decreases m - i,
    {
        assert(p + i < p + m);
        if cs[p + i] != lit.get_char(i) {
            assert(cs@.subrange(p as int, p + m)[i as int] != lit@[i as int]);
            return None;
        }
        i = i + 1;
    }
    assert(cs@.subrange(p as int, p + m) =~= lit@);
    Some(p + m)
}

/// `o` with `pre` put in front of its text and `k` added to its length.
pub open spec fn shift(pre: Seq<char>, k: int, o: Option<(Seq<char>, int)>) -> Option<(Seq<char>, int)> {
    match o {
        Some((v, m)) => Some((pre + v, m + k)),
        None => None,
    }
}

proof fn lemma_shift_prepend(pre: Seq<char>, k: int, c: char, n: int, o: Option<(Seq<char>, int)>)
    ensures
        shift(pre, k, prepend(c, n, o)) == shift(pre.push(c), k + n, o),
{
    if let Some((v, m)) = o {
        assert(pre + (seq![c] + v) =~= pre.push(c) + v);
    }
}

/// Reads the rest of a JSON string starting at `p` (just after its opening
/// quote): the decoded text and the position after the closing quote.
pub fn scan_json_string(cs: &Vec<char>, p: usize) -> (r: Option<(String, usize)>)
    requires
        p <= cs@.len(),
    ensures
        match unescape_tail(cs@.skip(p as int)) {
            Some((v, k)) => r matches Some((s, q)) && s@ == v && q == p + k,
            None => r is None,
        },
        r matches Some((_, q)) ==> p < q <= cs@.len(),
{
    let n = cs.len();
    let mut out = String::new();
    let mut i: usize = p;
    while i < n
        invariant
            n == cs@.len(),
            p <= i <= n,
            unescape_tail(cs@.skip(p as int)) == shift(out@, i - p, unescape_tail(cs@.skip(i as int))),
        decreases n - i,
    {
        let ghost t = cs@.skip(i as int);
        let c = cs[i];
        assert(t[0] == c);
        if c == '"' {
            return Some((out, i + 1));
        } else if c == '\\' {
            if i + 1 >= n {
                return None;
            }
            let e = cs[i + 1];
            assert(t[1] == e);
            let mut d: char = ' ';
            let mut len: usize = 2;
            if e == '"' {
                d = '"';
            } else if e == '\\' {
                d = '\\';
            } else if e == 'b' {
                d = 8u8 as char;
            } else if e == 'f' {
                d = 12u8 as char;
            } else if e == 'n' {
                d = '\n';
            } else if e == 'r' {
                d = '\r';
            } else if e == 't' {
                d = '\t';
            } else if e == 'u' {
                if n - i < 6 {
                    return None;
                }
                assert(t[2] == cs@[i + 2] && t[3] == cs@[i + 3] && t[4] == cs@[i + 4] && t[5]
                    == cs@[i + 5]);
                if cs[i + 2] != '0' || cs[i + 3] != '0' {
                    return None;
                }
                let h = cs[i + 4];
                let l = cs[i + 5];
                let hv: u32 = if '0' <= h && h <= '9' {
                    (h as u32) - 48
                } else if 'a' <= h && h <= 'f' {
                    (h as u32) - 87
                } else {
                    return None;
                };
                let lv: u32 = if '0' <= l && l <= '9' {
                    (l as u32) - 48
                } else if 'a' <= l && l <= 'f' {
                    (l as u32) - 87
                } else {
                    return None;
                };
                let code: u8 = (hv * 16 + lv) as u8;
                d = code as char;
                len = 6;
            } else {
                return None;
            }
            assert(escape_value(t) == Some((d, len as int)));
            let ghost pre = out@;
            push_char(&mut out, d);
            proof {
                assert(t.skip(len as int) =~= cs@.skip(i + len));
                lemma_shift_prepend(pre, i - p, d, len as int, unescape_tail(cs@.skip(i + len)));
            }
            i = i + len;
        } else {
            let ghost pre = out@;
            push_char(&mut out, c);
            proof {
                assert(t.skip(1) =~= cs@.skip(i + 1));
                lemma_shift_prepend(pre, i - p, c, 1, unescape_tail(cs@.skip(i + 1)));
            }
            i = i + 1;
        }
    }
    assert(cs@.skip(n as int) =~= seq![]);
    None
}

/// The digits of `n` without its sign.
pub open spec fn magnitude_digits(n: int) -> Seq<char> {
    if n < 0 {
        nat_digits((-n) as nat)
    } else {
        nat_digits(n as nat)
    }
}

proof fn lemma_digit_char(d: int)
    requires
        0 <= d < 10,
    ensures
        digit_char(d) as int == 48 + d,
        is_digit(digit_char(d)),
{
}

/// The digits of a natural number are decimal digits, at least one, and
/// they read back as the number.
pub proof fn lemma_nat_digits(m: nat)
    ensures
        nat_digits(m).len() >= 1,
        forall|i: int| 0 <= i < nat_digits(m).len() ==> is_digit(#[trigger] nat_digits(m)[i]),
        digits_value(nat_digits(m)) == m,
    decreases m,
{
    lemma_digit_char((m % 10) as int);
    if m >= 10 {
        lemma_nat_digits(m / 10);
        let d = nat_digits(m);
        assert(d.drop_last() =~= nat_digits(m / 10));
        assert(d.last() == digit_char((m % 10) as int));
        assert((m / 10) * 10 + m % 10 == m);
        assert forall|i: int| 0 <= i < d.len() implies is_digit(#[trigger] d[i]) by {
            if i < d.len() - 1 {
                assert(d[i] == nat_digits(m / 10)[i]);
            }
        }
    } else {
        assert(nat_digits(m).drop_last() =~= seq![]);
        assert(digits_value(seq![]) == 0);
        assert(nat_digits(m).last() == digit_char(m as int));
    }
}

/// A prefix of a run of digits is worth no more than the whole run.
pub proof fn lemma_digits_prefix(ds: Seq<char>, k: int)
    requires
        0 <= k <= ds.len(),
        forall|i: int| 0 <= i < ds.len() ==> is_digit(#[trigger] ds[i]),
    ensures
        0 <= digits_value(ds.take(k)) <= digits_value(ds),
    decreases ds.len(),
{
    if ds.len() > 0 {
        if k == ds.len() {
            assert(ds.take(k) =~= ds);
            lemma_digits_prefix(ds.drop_last(), k - 1);
            assert(ds.drop_last().take(k - 1) =~= ds.drop_last());
        } else {
            lemma_digits_prefix(ds.drop_last(), k);
            assert(ds.drop_last().take(k) =~= ds.take(k));
            lemma_digits_prefix(ds.drop_last(), ds.len() - 1);
            assert(ds.drop_last().take(ds.len() - 1) =~= ds.drop_last());
        }
    } else {
        assert(ds.take(k) =~= seq![]);
    }
}

/// Where the digits of `decimal(n)` lie when that text starts at `p` of `cs`.
proof fn lemma_decimal_layout(cs: Seq<char>, p: int, n: int, y: Seq<char>)
    requires
        0 <= p <= cs.len(),
        cs.skip(p) == decimal(n) + y,
        y.len() == 0 || !is_digit(y[0]),
    ensures
        ({
            let start = if n < 0 { p + 1 } else { p };
            let body = magnitude_digits(n);
            &&& p < cs.len()
            &&& (cs[p] == '-' <==> n < 0)
            &&& start + body.len() <= cs.len()
            &&& cs.subrange(start, start + body.len()) == body
            &&& (start + body.len() == cs.len() || !is_digit(cs[start + body.len()]))
            &&& decimal(n).len() == start - p + body.len()
            &&& forall|i: int| 0 <= i < body.len() ==> is_digit(#[trigger] body[i])
            &&& digits_value(body) == if n < 0 { -n } else { n }
        }),
{
    let body = magnitude_digits(n);
    if n < 0 {
        lemma_nat_digits((-n) as nat);
    } else {
        lemma_nat_digits(n as nat);
    }
    let start = if n < 0 { p + 1 } else { p };
    let d = decimal(n);
    assert(d.len() >= 1);
    assert(cs.skip(p).len() == cs.len() - p);
    assert(cs.skip(p)[0] == cs[p]);
    assert(cs[p] == d[0]);
    if n < 0 {
        assert(d =~= seq!['-'] + body);
        assert(d[0] == '-');
    } else {
        assert(d == body);
        assert(is_digit(body[0]));
    }
    assert(d.len() == start - p + body.len());
    assert forall|i: int| 0 <= i < body.len() implies cs[start + i] == body[i] by {
        assert(cs.skip(p)[start - p + i] == cs[start + i]);
        assert(d[start - p + i] == body[i]);
    }
    assert(cs.subrange(start, start + body.len()) =~= body);
    if start + body.len() < cs.len() {
        assert(cs.skip(p)[start - p + body.len()] == cs[start + body.len()]);
        assert(y[0] == cs[start + body.len()]);
    }
}

/// Reads an integer written in decimal at `p`: its value and the position
/// after its last digit. The text that `decimal` writes for any `i64`,
/// followed by a non-digit or nothing, is read back exactly.
pub fn scan_int(cs: &Vec<char>, p: usize) -> (r: Option<(i64, usize)>)
    requires
        p <= cs@.len(),
    ensures
        forall|n: i64, y: Seq<char>|
            #![trigger decimal(n as int).add(y)]
            cs@.skip(p as int) == decimal(n as int).add(y) && (y.len() == 0 || !is_digit(y[0]))
                ==> r == Some((n, (p + decimal(n as int).len()) as usize)),
        r matches Some((_, q)) ==> p < q <= cs@.len(),
{
    let len = cs.len();
    if p >= len {
        proof {
            assert forall|n: i64, y: Seq<char>|
                cs@.skip(p as int) == decimal(n as int) + y && (y.len() == 0 || !is_digit(
                    y[0],
                )) implies false by {
                lemma_decimal_layout(cs@, p as int, n as int, y);
            }
        }
        return None;
    }
    let neg = cs[p] == '-';
    let start: usize = if neg { p + 1 } else { p };
    let mut i: usize = start;
    let mut mag: u64 = 0;
    while i < len && '0' <= cs[i] && cs[i] <= '9'
        invariant
            len == cs@.len(),
            p < len,
            neg == (cs@[p as int] == '-'),
            start == if neg { p + 1 } else { p as int },
            start <= i <= len,
            mag == digits_value(cs@.subrange(start as int, i as int)),
            forall|j: int| start <= j < i ==> is_digit(#[trigger] cs@[j]),
        decreases len - i,
    {
        let d: u64 = ((cs[i] as u32) - 48) as u64;
        proof {
            let sub = cs@.subrange(start as int, i + 1);
            assert(sub.drop_last() =~= cs@.subrange(start as int, i as int));
            assert(digits_value(sub) == mag * 10 + d);
        }
        if mag > (u64::MAX - d) / 10 {
            proof {
                assert forall|n: i64, y: Seq<char>|
                    cs@.skip(p as int) == decimal(n as int) + y && (y.len() == 0 || !is_digit(
                        y[0],
                    )) implies false by {
                    lemma_decimal_layout(cs@, p as int, n as int, y);
                    let body = magnitude_digits(n as int);
                    let end = start + body.len();
                    if i >= end {
                        assert(is_digit(cs@[end]));
                    }
                    let sub = cs@.subrange(start as int, i + 1);
                    assert(sub =~= body.take(i + 1 - start));
                    lemma_digits_prefix(body, i + 1 - start);
                    assert(mag * 10 + d > u64::MAX) by (nonlinear_arith)
                        requires
                            mag > (u64::MAX - d) / 10,
                            d <= 9,
                    ;
                }
            }
            return None;
        }
        mag = mag * 10 + d;
        i = i + 1;
    }
    let ghost sub = cs@.subrange(start as int, i as int);
    proof {
        assert forall|n: i64, y: Seq<char>|
            cs@.skip(p as int) == decimal(n as int) + y && (y.len() == 0 || !is_digit(y[0]))
                implies i == p + decimal(n as int).len() && i > start && (neg <==> n < 0) && mag == (
            if n < 0 {
                -n
            } else {
                n as int
            }) by {
            lemma_decimal_layout(cs@, p as int, n as int, y);
            let body = magnitude_digits(n as int);
            let end = start + body.len();
            if i < end {
                assert(cs@.subrange(start as int, end)[i - start] == cs@[i as int]);
                assert(is_digit(cs@[i as int]));
            }
            if i > end {
                assert(is_digit(cs@[end]));
            }
            assert(sub =~= body);
        }
    }
    if i == start {
        return None;
    }
    if neg {
        if mag > 9223372036854775808u64 {
            return None;
        }
        let v: i64 = (0i128 - (mag as i128)) as i64;
        Some((v, i))
    } else {
        if mag > 9223372036854775807u64 {
            return None;
        }
        Some((mag as i64, i))
    }
}

/// Two integers whose decimal texts begin the same text, each followed
/// by a non-digit, are the same integer.
pub proof fn lemma_decimal_unique(n: int, m: int, y: Seq<char>, z: Seq<char>)
    requires
        i64::MIN <= n <= i64::MAX,
        decimal(n) + y == decimal(m) + z,
        y.len() == 0 || !is_digit(y[0]),
        z.len() == 0 || !is_digit(z[0]),
    ensures
        n == m,
        y == z,
{
    let cs = decimal(n) + y;
    assert(cs.skip(0) =~= cs);
    lemma_decimal_layout(cs, 0, n, y);
    lemma_decimal_layout(cs, 0, m, z);
    let start = if n < 0 { 1int } else { 0int };
    let bn = magnitude_digits(n);
    let bm = magnitude_digits(m);
    if bn.len() < bm.len() {
        assert(cs.subrange(start, start + bm.len())[bn.len() as int] == cs[start + bn.len()]);
        assert(is_digit(bm[bn.len() as int]));
    }
    if bm.len() < bn.len() {
        assert(cs.subrange(start, start + bn.len())[bm.len() as int] == cs[start + bm.len()]);
        assert(is_digit(bn[bm.len() as int]));
    }
    assert(bn == bm);
    assert(decimal(n).len() == decimal(m).len());
    assert(y =~= cs.skip(decimal(n).len() as int));
    assert(z =~= cs.skip(decimal(m).len() as int));
}

/// Reading a JSON string literal at the front of a text gives the string
/// back and leaves the rest of the text.
pub proof fn lemma_string_head(cs: Seq<char>, p: int, s: Seq<char>, rest: Seq<char>)
    requires
        0 <= p <= cs.len(),
        cs.skip(p) == json_string(s) + rest,
    ensures
        p + json_string(s).len() <= cs.len(),
        json_string(s).len() == escaped(s).len() + 2,
        cs[p] == '"',
        unescape_tail(cs.skip(p + 1)) == Some((s, escaped(s).len() + 1int)),
        cs.skip(p + json_string(s).len()) == rest,
{
    let js = json_string(s);
    assert(cs.skip(p).len() == cs.len() - p);
    assert(cs.skip(p)[0] == cs[p]);
    assert(cs.skip(p + 1) =~= cs.skip(p).skip(1));
    assert((js + rest).skip(1) =~= escaped(s) + seq!['"'] + rest);
    lemma_unescape_escaped(s, rest);
    assert(cs.skip(p + js.len()) =~= cs.skip(p).skip(js.len() as int));
    assert((js + rest).skip(js.len() as int) =~= rest);
}

/// A text at the front of `cs` from `p`, followed by `rest`.
pub proof fn lemma_text_head(cs: Seq<char>, p: int, lit: Seq<char>, rest: Seq<char>)
    requires
        0 <= p <= cs.len(),
        cs.skip(p) == lit + rest,
    ensures
        p + lit.len() <= cs.len(),
        cs.subrange(p, p + lit.len()) == lit,
        cs.skip(p + lit.len()) == rest,
{
    assert(cs.skip(p).len() == cs.len() - p);
    assert(cs.subrange(p, p + lit.len()) =~= cs.skip(p).subrange(0, lit.len() as int));
    assert(cs.skip(p + lit.len()) =~= cs.skip(p).skip(lit.len() as int));
}

} // verus!
