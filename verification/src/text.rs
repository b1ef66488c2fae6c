//! Character-level helpers: number formatting, trimming and ordering of text.
use convert_case::{Case, Casing};
use vstd::prelude::*;
use vstd::string::StrSliceExecFns;
use vstd::utf8::{decode_utf8, valid_utf8};

verus! {

/// Builds a `String` from its characters.
///
/// Calls `String::from_iter` on the characters; std documents that the
/// resulting string consists of exactly these characters in order.
#[verifier::external_body]
pub(crate) fn chars_to_string(chars: Vec<char>) -> (s: String)
    ensures
        s@ == chars@,
{
    String::from_iter(chars)
}

/// Decodes a UTF-8 byte buffer.
///
/// Calls `String::from_utf8`; std documents that it fails exactly when the
/// bytes are not valid UTF-8 and otherwise holds the decoded characters.
#[verifier::external_body]
pub(crate) fn utf8_to_string(bytes: Vec<u8>) -> (r: Option<String>)
    ensures
        r is Some <==> valid_utf8(bytes@),
        r matches Some(s) ==> s@ == decode_utf8(bytes@),
{
    String::from_utf8(bytes).ok()
}

/// The characters of a string slice.
pub fn str_chars(s: &str) -> (r: Vec<char>)
    ensures
        r@ == s@,
{
    let n = s.unicode_len();
    let mut out: Vec<char> = Vec::new();
    let mut i: usize = 0;
    while i < n
        invariant
            i <= n,
            n == s@.len(),
            out@ == s@.subrange(0, i as int),
        decreases n - i,
    {
        out.push(s.get_char(i));
        i = i + 1;
        assert(out@ =~= s@.subrange(0, i as int));
    }
    assert(s@.subrange(0, n as int) =~= s@);
    out
}

/// Whether `s` starts with `prefix`.
pub fn str_starts_with(s: &str, prefix: &str) -> (r: bool)
    ensures
        r == prefix@.is_prefix_of(s@),
{
    let a = str_chars(s);
    let b = str_chars(prefix);
    if b.len() > a.len() {
        return false;
    }
    let mut i: usize = 0;
    while i < b.len()
        invariant
            i <= b@.len(),
            b@.len() <= a@.len(),
            a@ == s@,
            b@ == prefix@,
            forall|j: int| 0 <= j < i ==> a@[j] == b@[j],
        decreases b@.len() - i,
    {
        if a[i] != b[i] {
            return false;
        }
        i = i + 1;
    }
    assert(b@ =~= a@.subrange(0, b@.len() as int));
    true
}

/// The character of decimal digit `d`.
pub open spec fn spec_digit_char(d: nat) -> char {
    (48 + d) as char
}

/// The shortest decimal representation of `n`, without sign or padding.
pub open spec fn spec_decimal(n: nat) -> Seq<char>
    decreases n,
{
    if n < 10 {
        seq![spec_digit_char(n)]
    } else {
        spec_decimal(n / 10).push(spec_digit_char(n % 10))
    }
}

/// The upper-case hexadecimal digit of `d`.
pub open spec fn spec_hex_digit_upper(d: nat) -> char {
    if d < 10 {
        (48 + d) as char
    } else {
        (55 + d) as char
    }
}

/// Two upper-case hexadecimal digits of a byte, as `{:02X}` formats it.
pub open spec fn spec_hex_byte_upper(b: u8) -> Seq<char> {
    seq![spec_hex_digit_upper((b / 16) as nat), spec_hex_digit_upper((b % 16) as nat)]
}

/// An upper-case digit reads back as the number it was written for.
pub proof fn lemma_hex_digit_upper_value(d: nat)
    requires
        d < 16,
    ensures
        spec_hex_digit_value(spec_hex_digit_upper(d)) == Some(d),
{
}

/// Appending the two digits of a byte to digits worth `v` gives digits
/// worth `v * 256` plus the byte.
pub proof fn lemma_hex_digits_push_byte(s: Seq<char>, v: nat, b: u8)
    requires
        spec_hex_digits_value(s) == Some(v),
    ensures
        spec_hex_digits_value(s + spec_hex_byte_upper(b)) == Some((v * 256 + b) as nat),
        (s + spec_hex_byte_upper(b)).len() == s.len() + 2,
{
    let hi = (b / 16) as nat;
    let lo = (b % 16) as nat;
    lemma_hex_digit_upper_value(hi);
    lemma_hex_digit_upper_value(lo);
    let t = s + spec_hex_byte_upper(b);
    let u = s.push(spec_hex_digit_upper(hi));
    assert(t.drop_last() =~= u);
    assert(u.drop_last() =~= s);
    assert(spec_hex_digits_value(u) == Some((v * 16 + hi) as nat));
    assert(spec_hex_digits_value(t) == Some(((v * 16 + hi) * 16 + lo) as nat));
    assert((v * 16 + hi) * 16 + lo == v * 256 + hi * 16 + lo) by (nonlinear_arith);
}

/// `m` occurs in `s` as a run of consecutive characters.
pub open spec fn spec_contains_text(s: Seq<char>, m: Seq<char>) -> bool {
    exists|i: int| 0 <= i && i + m.len() <= s.len() && #[trigger] s.subrange(i, i + m.len()) == m
}

/// A text occurs in any text that has it between two others.
pub proof fn lemma_contains_middle(a: Seq<char>, m: Seq<char>, b: Seq<char>)
    ensures
        spec_contains_text(a + m + b, m),
{
    let s = a + m + b;
    assert(s.subrange(a.len() as int, (a.len() + m.len()) as int) =~= m);
}

pub fn digit_char(d: u64) -> (c: char)
    requires
        d < 10,
    ensures
        c == spec_digit_char(d as nat),
{
    let b: u8 = 48u8 + d as u8;
    b as char
}

pub fn hex_digit_upper(d: u8) -> (c: char)
    requires
        d < 16,
    ensures
        c == spec_hex_digit_upper(d as nat),
{
    if d < 10 {
        (48u8 + d) as char
    } else {
        (55u8 + d) as char
    }
}

/// Appends the decimal representation of `n`.
pub fn push_decimal(out: &mut Vec<char>, n: u64)
    ensures
        final(out)@ == old(out)@ + spec_decimal(n as nat),
    decreases n,
{
    if n >= 10 {
        push_decimal(out, n / 10);
    }
    out.push(digit_char(n % 10));
    assert(final(out)@ =~= old(out)@ + spec_decimal(n as nat));
}

/// Appends `{:02X}` of a byte.
pub fn push_hex_byte_upper(out: &mut Vec<char>, b: u8)
    ensures
        final(out)@ == old(out)@ + spec_hex_byte_upper(b),
{
    out.push(hex_digit_upper(b / 16));
    out.push(hex_digit_upper(b % 16));
    assert(final(out)@ =~= old(out)@ + spec_hex_byte_upper(b));
}

/// Appends all characters of `s`.
pub fn push_str(out: &mut Vec<char>, s: &str)
    ensures
        final(out)@ == old(out)@ + s@,
{
    let chars = str_chars(s);
    let mut i: usize = 0;
    while i < chars.len()
        invariant
            i <= chars@.len(),
            chars@ == s@,
            out@ == old(out)@ + chars@.subrange(0, i as int),
        decreases chars@.len() - i,
    {
        out.push(chars[i]);
        i = i + 1;
        assert(out@ =~= old(out)@ + chars@.subrange(0, i as int));
    }
    assert(chars@.subrange(0, chars@.len() as int) =~= chars@);
}

/// The decimal representation of `n` as a `String`, as `n.to_string()` gives it.
pub fn decimal_string(n: u64) -> (s: String)
    ensures
        s@ == spec_decimal(n as nat),
{
    let mut out: Vec<char> = Vec::new();
    push_decimal(&mut out, n);
    assert(out@ =~= spec_decimal(n as nat));
    chars_to_string(out)
}

/// `s` without leading copies of `c`.
pub open spec fn spec_trim_start(s: Seq<char>, c: char) -> Seq<char>
    decreases s.len(),
{
    if s.len() > 0 && s[0] == c {
        spec_trim_start(s.drop_first(), c)
    } else {
        s
    }
}

/// `s` without trailing copies of `c`.
pub open spec fn spec_trim_end(s: Seq<char>, c: char) -> Seq<char>
    decreases s.len(),
{
    if s.len() > 0 && s.last() == c {
        spec_trim_end(s.drop_last(), c)
    } else {
        s
    }
}

/// `s` without leading and trailing copies of `c`, as `str::trim_matches(c)` gives it.
pub open spec fn spec_trim_matches(s: Seq<char>, c: char) -> Seq<char> {
    spec_trim_end(spec_trim_start(s, c), c)
}

proof fn lemma_trim_start_skip(s: Seq<char>, c: char, i: int)
    requires
        0 <= i <= s.len(),
        forall|j: int| 0 <= j < i ==> s[j] == c,
    ensures
        spec_trim_start(s, c) == spec_trim_start(s.subrange(i, s.len() as int), c),
    decreases i,
{
    if i > 0 {
        assert(s.drop_first().subrange(i - 1, s.drop_first().len() as int) =~= s.subrange(
            i,
            s.len() as int,
        ));
        lemma_trim_start_skip(s.drop_first(), c, i - 1);
    } else {
        assert(s.subrange(0, s.len() as int) =~= s);
    }
}

proof fn lemma_trim_end_skip(s: Seq<char>, c: char, k: int)
    requires
        0 <= k <= s.len(),
        forall|j: int| k <= j < s.len() ==> s[j] == c,
    ensures
        spec_trim_end(s, c) == spec_trim_end(s.subrange(0, k), c),
    decreases s.len() - k,
{
    if k < s.len() {
        assert(s.drop_last().subrange(0, k) =~= s.subrange(0, k));
        lemma_trim_end_skip(s.drop_last(), c, k);
    } else {
        assert(s.subrange(0, k) =~= s);
    }
}

/// `s` without leading and trailing copies of `c`.
pub fn trim_matches(s: &Vec<char>, c: char) -> (r: Vec<char>)
    ensures
        r@ == spec_trim_matches(s@, c),
{
    let n = s.len();
    let mut start: usize = 0;
    while start < n && s[start] == c
        invariant
            start <= n,
            n == s@.len(),
            forall|j: int| 0 <= j < start ==> s@[j] == c,
        decreases n - start,
    {
        start = start + 1;
    }
    proof {
        lemma_trim_start_skip(s@, c, start as int);
    }
    let ghost rest = s@.subrange(start as int, n as int);
    assert(rest.len() == 0 || rest[0] != c);
    let mut end: usize = n;
    while end > start && s[end - 1] == c
        invariant
            start <= end <= n,
            n == s@.len(),
            forall|j: int| end <= j < n ==> s@[j] == c,
        decreases end,
    {
        end = end - 1;
    }
    proof {
        lemma_trim_end_skip(rest, c, end - start);
        assert(rest.subrange(0, end - start) =~= s@.subrange(start as int, end as int));
    }
    let ghost kept = s@.subrange(start as int, end as int);
    assert(kept.len() == 0 || kept.last() != c);
    let mut out: Vec<char> = Vec::new();
    let mut i: usize = start;
    while i < end
        invariant
            start <= i <= end <= n,
            n == s@.len(),
            out@ == s@.subrange(start as int, i as int),
        decreases end - i,
    {
        out.push(s[i]);
        i = i + 1;
        assert(out@ =~= s@.subrange(start as int, i as int));
    }
    out
}

/// `s` without leading copies of the prefix `0x`, as `trim_start_matches("0x")` gives it.
pub open spec fn spec_trim_0x(s: Seq<char>) -> Seq<char>
    decreases s.len(),
{
    if s.len() >= 2 && s[0] == '0' && s[1] == 'x' {
        spec_trim_0x(s.subrange(2, s.len() as int))
    } else {
        s
    }
}

/// The value of a hexadecimal digit of either case.
pub open spec fn spec_hex_digit_value(c: char) -> Option<nat> {
    if '0' <= c && c <= '9' {
        Some((c as nat - '0' as nat) as nat)
    } else if 'a' <= c && c <= 'f' {
        Some((c as nat - 'a' as nat + 10) as nat)
    } else if 'A' <= c && c <= 'F' {
        Some((c as nat - 'A' as nat + 10) as nat)
    } else {
        None
    }
}

/// The value of a string of hexadecimal digits, `None` when one of them is not a digit.
pub open spec fn spec_hex_digits_value(s: Seq<char>) -> Option<nat>
    decreases s.len(),
{
    if s.len() == 0 {
        Some(0)
    } else {
        match (spec_hex_digits_value(s.drop_last()), spec_hex_digit_value(s.last())) {
            (Some(v), Some(d)) => Some(v * 16 + d),
            _ => None,
        }
    }
}

/// A value, if there is one and it is at most `max`.
pub open spec fn spec_at_most(v: Option<nat>, max: nat) -> Option<nat> {
    match v {
        Some(x) => if x <= max {
            Some(x)
        } else {
            None
        },
        None => None,
    }
}

/// What `from_str_radix(.., 16)` of an unsigned type with largest value `max`
/// gives: an optional `+`, then at least one hexadecimal digit, and a value
/// that fits.
pub open spec fn spec_parse_hex(s: Seq<char>, max: nat) -> Option<nat> {
    let digits = if s.len() > 0 && s[0] == '+' {
        s.drop_first()
    } else {
        s
    };
    if digits.len() == 0 {
        None
    } else {
        match spec_hex_digits_value(digits) {
            Some(v) => if v <= max {
                Some(v)
            } else {
                None
            },
            None => None,
        }
    }
}

/// A prefix of a string of digits has a value, and no larger a one.
proof fn lemma_hex_prefix_value(s: Seq<char>, i: int)
    requires
        0 <= i <= s.len(),
        spec_hex_digits_value(s) is Some,
    ensures
        spec_hex_digits_value(s.subrange(0, i)) is Some,
        spec_hex_digits_value(s.subrange(0, i))->0 <= spec_hex_digits_value(s)->0,
    decreases s.len(),
{
    if i == s.len() {
        assert(s.subrange(0, i) =~= s);
    } else {
        lemma_hex_prefix_value(s.drop_last(), i);
        assert(s.drop_last().subrange(0, i) =~= s.subrange(0, i));
    }
}

fn hex_digit_value(c: char) -> (r: Option<u32>)
    ensures
        match spec_hex_digit_value(c) {
            Some(v) => r == Some(v as u32),
            None => r is None,
        },
{
    if '0' <= c && c <= '9' {
        Some((c as u32) - ('0' as u32))
    } else if 'a' <= c && c <= 'f' {
        Some((c as u32) - ('a' as u32) + 10)
    } else if 'A' <= c && c <= 'F' {
        Some((c as u32) - ('A' as u32) + 10)
    } else {
        None
    }
}

/// Parses a hexadecimal number whose value is at most `max`.
pub fn parse_hex(s: &Vec<char>, max: u32) -> (r: Option<u32>)
    requires
        max < 0x1000_0000,
    ensures
        match spec_parse_hex(s@, max as nat) {
            Some(v) => r == Some(v as u32),
            None => r is None,
        },
{
    let start: usize = if s.len() > 0 && s[0] == '+' { 1 } else { 0 };
    let ghost digits = if s@.len() > 0 && s@[0] == '+' { s@.drop_first() } else { s@ };
    assert(digits =~= s@.subrange(start as int, s@.len() as int));
    if start >= s.len() {
        return None;
    }
    assert(spec_parse_hex(s@, max as nat) == spec_at_most(spec_hex_digits_value(digits), max as nat));
    let mut acc: u32 = 0;
    let mut i: usize = start;
    while i < s.len()
        invariant
            start <= i <= s@.len(),
            digits == s@.subrange(start as int, s@.len() as int),
            acc <= max < 0x1000_0000,
            spec_hex_digits_value(digits.subrange(0, i - start)) == Some(acc as nat),
            spec_parse_hex(s@, max as nat) == spec_at_most(spec_hex_digits_value(digits), max as nat),
        decreases s@.len() - i,
    {
        let d = match hex_digit_value(s[i]) {
            Some(d) => d,
            None => {
                proof {
                    let k = i - start;
                    let p = digits.subrange(0, k + 1);
                    assert(p.last() == s@[i as int]);
                    assert(p.drop_last() =~= digits.subrange(0, k));
                    assert(spec_hex_digits_value(p) is None);
                    if spec_hex_digits_value(digits) is Some {
                        lemma_hex_prefix_value(digits, k + 1);
                    }
                    assert(spec_hex_digits_value(digits) is None);
                }
                return None;
            },
        };
        proof {
            let k = i - start;
            let p = digits.subrange(0, k + 1);
            assert(p.last() == s@[i as int]);
            assert(p.drop_last() =~= digits.subrange(0, k));
            assert(spec_hex_digits_value(p) == Some((acc * 16 + d) as nat));
        }
        let next = acc * 16 + d;
        if next > max {
            proof {
                if spec_hex_digits_value(digits) is Some {
                    lemma_hex_prefix_value(digits, i - start + 1);
                }
                assert(spec_hex_digits_value(digits) is None || spec_hex_digits_value(digits)->0 > max);
            }
            return None;
        }
        acc = next;
        i = i + 1;
    }
    assert(digits.subrange(0, s@.len() - start) =~= digits);
    Some(acc)
}

/// Strips leading copies of `0x`.
pub fn trim_0x(s: &Vec<char>) -> (r: Vec<char>)
    ensures
        r@ == spec_trim_0x(s@),
{
    let mut i: usize = 0;
    assert(s@.subrange(0, s@.len() as int) =~= s@);
    while s.len() - i >= 2 && s[i] == '0' && s[i + 1] == 'x'
        invariant
            i <= s@.len(),
            spec_trim_0x(s@) == spec_trim_0x(s@.subrange(i as int, s@.len() as int)),
        decreases s@.len() - i,
    {
        proof {
            let t = s@.subrange(i as int, s@.len() as int);
            assert(t[0] == '0' && t[1] == 'x');
            assert(t.subrange(2, t.len() as int) =~= s@.subrange(i + 2, s@.len() as int));
        }
        i = i + 2;
    }
    let ghost t = s@.subrange(i as int, s@.len() as int);
    assert(!(t.len() >= 2 && t[0] == '0' && t[1] == 'x'));
    assert(spec_trim_0x(t) == t);
    let mut out: Vec<char> = Vec::new();
    let mut j: usize = i;
    while j < s.len()
        invariant
            i <= j <= s@.len(),
            out@ == s@.subrange(i as int, j as int),
        decreases s@.len() - j,
    {
        out.push(s[j]);
        j = j + 1;
        assert(out@ =~= s@.subrange(i as int, j as int));
    }
    out
}

/// The code of a table entry written as a hexadecimal string, with any number
/// of leading `0x`, as `u16::from_str_radix(raw.trim_start_matches("0x"), 16)` reads it.
pub fn parse_hex_code(raw: &str) -> (r: Option<u16>)
    ensures
        match spec_parse_hex(spec_trim_0x(raw@), 0xFFFF) {
            Some(v) => r == Some(v as u16),
            None => r is None,
        },
{
    let chars = str_chars(raw);
    let trimmed = trim_0x(&chars);
    match parse_hex(&trimmed, 0xFFFF) {
        Some(v) => Some(v as u16),
        None => None,
    }
}

/// `a` comes before `b` in the order of `String`: character by character,
/// by code point, with a proper prefix first.
pub open spec fn spec_chars_lt(a: Seq<char>, b: Seq<char>) -> bool
    decreases a.len(),
{
    if a.len() == 0 {
        b.len() > 0
    } else if b.len() == 0 {
        false
    } else if a[0] < b[0] {
        true
    } else if a[0] == b[0] {
        spec_chars_lt(a.drop_first(), b.drop_first())
    } else {
        false
    }
}

proof fn lemma_chars_eq_parts(a: Seq<char>, b: Seq<char>)
    requires
        a.len() > 0,
        b.len() > 0,
        a[0] == b[0],
        a.drop_first() == b.drop_first(),
    ensures
        a == b,
{
    assert(a.drop_first().len() == a.len() - 1);
    assert(b.drop_first().len() == b.len() - 1);
    assert(a.len() == b.len());
    assert forall|i: int| 0 <= i < a.len() implies a[i] == b[i] by {
        if i > 0 {
            assert(a[i] == a.drop_first()[i - 1]);
            assert(b[i] == b.drop_first()[i - 1]);
        }
    }
    assert(a =~= b);
}

proof fn lemma_chars_lt_irreflexive(a: Seq<char>)
    ensures
        !spec_chars_lt(a, a),
    decreases a.len(),
{
    if a.len() > 0 {
        lemma_chars_lt_irreflexive(a.drop_first());
    }
}

proof fn lemma_chars_lt_connected(a: Seq<char>, b: Seq<char>)
    ensures
        a == b || spec_chars_lt(a, b) || spec_chars_lt(b, a),
        spec_chars_lt(a, b) ==> !spec_chars_lt(b, a),
    decreases a.len(),
{
    if a.len() > 0 && b.len() > 0 {
        lemma_chars_lt_connected(a.drop_first(), b.drop_first());
        if a[0] == b[0] && a.drop_first() == b.drop_first() {
            lemma_chars_eq_parts(a, b);
        }
    } else if a.len() == 0 && b.len() == 0 {
        assert(a =~= b);
    }
}

proof fn lemma_chars_lt_transitive(a: Seq<char>, b: Seq<char>, c: Seq<char>)
    ensures
        spec_chars_lt(a, b) && spec_chars_lt(b, c) ==> spec_chars_lt(a, c),
    decreases a.len(),
{
    if a.len() > 0 && b.len() > 0 && c.len() > 0 {
        lemma_chars_lt_transitive(a.drop_first(), b.drop_first(), c.drop_first());
    }
}

/// The order of strings is a total order.
pub proof fn lemma_chars_lt_total(a: Seq<char>, b: Seq<char>, c: Seq<char>)
    ensures
        !spec_chars_lt(a, a),
        spec_chars_lt(a, b) && spec_chars_lt(b, c) ==> spec_chars_lt(a, c),
        a == b || spec_chars_lt(a, b) || spec_chars_lt(b, a),
        spec_chars_lt(a, b) ==> !spec_chars_lt(b, a),
{
    lemma_chars_lt_irreflexive(a);
    lemma_chars_lt_connected(a, b);
    lemma_chars_lt_transitive(a, b, c);
}

/// Whether `a` comes before `b` in the order of `String`.
pub fn chars_lt(a: &Vec<char>, b: &Vec<char>) -> (r: bool)
    ensures
        r == spec_chars_lt(a@, b@),
{
    let mut i: usize = 0;
    assert(a@.subrange(0, a@.len() as int) =~= a@);
    assert(b@.subrange(0, b@.len() as int) =~= b@);
    while i < a.len() && i < b.len() && a[i] == b[i]
        invariant
            i <= a@.len(),
            i <= b@.len(),
            spec_chars_lt(a@, b@) == spec_chars_lt(
                a@.subrange(i as int, a@.len() as int),
                b@.subrange(i as int, b@.len() as int),
            ),
        decreases a@.len() - i,
    {
        proof {
            let x = a@.subrange(i as int, a@.len() as int);
            let y = b@.subrange(i as int, b@.len() as int);
            assert(x.drop_first() =~= a@.subrange(i + 1, a@.len() as int));
            assert(y.drop_first() =~= b@.subrange(i + 1, b@.len() as int));
        }
        i = i + 1;
    }
    if i == a.len() {
        i < b.len()
    } else if i == b.len() {
        false
    } else {
        a[i] < b[i]
    }
}

/// The letter cases a name can be converted to.
#[derive(Debug, Clone, Copy, PartialEq, Eq, Structural)]
pub enum TextCase {
    /// Words capitalised and separated by spaces: `Solid Color`.
    Title,
    /// Words capitalised and joined: `SolidColor`.
    Pascal,
    /// The same as `Pascal`, under its other name.
    UpperCamel,
    /// Words in lower case joined by underscores: `solid_color`.
    Snake,
}

/// The name given to the result of converting a string to a letter case.
pub uninterp spec fn spec_to_case(s: Seq<char>, case: TextCase) -> Seq<char>;

/// Converts a name to a letter case.
///
/// Calls `convert_case`'s `to_case` with the matching `Case`; its result
/// depends on the string and the case alone, and the contract names it
/// without saying more.
#[verifier::external_body]
pub(crate) fn to_case(s: &str, case: TextCase) -> (r: String)
    ensures
        r@ == spec_to_case(s@, case),
{
    let case = match case {
        TextCase::Title => Case::Title,
        TextCase::Pascal => Case::Pascal,
        TextCase::UpperCamel => Case::UpperCamel,
        TextCase::Snake => Case::Snake,
    };
    s.to_case(case)
}

} // verus!
