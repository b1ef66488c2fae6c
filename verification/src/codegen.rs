//! The logic of the route code generator: reading the type names and
//! version strings of the XAP specification files, normalising route names
//! and ids, and rendering the Rust source of the route definitions.
use vstd::prelude::*;

use crate::status::XapVersion;
use crate::text::{
    chars_to_string, push_decimal, push_str, spec_decimal, spec_trim_0x, str_chars, trim_0x,
};

pub mod route;

verus! {

/// Why a part of a specification file could not be read.
#[derive(Debug, Clone, Copy, PartialEq, Eq, Structural)]
pub enum CodegenError {
    /// An array type such as `u8[4` lacks its closing bracket.
    MissingClosingBracket,
    /// The length of an array type is not a number.
    LengthNotANumber,
    /// A component of a version string is not a number from 0 to 255.
    InvalidVersionDigit,
    /// A version string names no BCD encoded XAP version.
    InvalidVersion(u32),
    /// A route key is not a hexadecimal byte.
    InvalidRouteId,
    /// A route uses a predefined type that the specification does not define.
    MissingTypeDefinition,
}

/// The type of a route argument, return value or struct member.
#[derive(Debug, Default)]
pub enum BasicType {
    #[default]
    Unit,
    U8,
    U16,
    U32,
    U64,
    Struct,
    String,
    Array(Box<BasicType>, usize),
    Predefined(String),
}

/// The plain value of a type.
pub enum BasicTypeView {
    Unit,
    U8,
    U16,
    U32,
    U64,
    Struct,
    String,
    Array(Box<BasicTypeView>, usize),
    Predefined(Seq<char>),
}

impl View for BasicType {
    type V = BasicTypeView;

    open spec fn view(&self) -> BasicTypeView
        decreases self,
    {
        match self {
            BasicType::Unit => BasicTypeView::Unit,
            BasicType::U8 => BasicTypeView::U8,
            BasicType::U16 => BasicTypeView::U16,
            BasicType::U32 => BasicTypeView::U32,
            BasicType::U64 => BasicTypeView::U64,
            BasicType::Struct => BasicTypeView::Struct,
            BasicType::String => BasicTypeView::String,
            BasicType::Array(ty, len) => BasicTypeView::Array(Box::new((**ty).view()), *len),
            BasicType::Predefined(name) => BasicTypeView::Predefined(name@),
        }
    }
}

/// The Rust type a type is rendered as.
pub open spec fn spec_as_type(t: BasicTypeView) -> Seq<char>
    decreases t,
{
    match t {
        BasicTypeView::Unit => "()"@,
        BasicTypeView::U8 => "u8"@,
        BasicTypeView::U16 => "u16"@,
        BasicTypeView::U32 => "u32"@,
        BasicTypeView::U64 => "u64"@,
        BasicTypeView::Struct => "Struct"@,
        BasicTypeView::String => "UTF8String"@,
        BasicTypeView::Array(ty, len) => "["@ + spec_as_type(*ty) + "; "@ + spec_decimal(len as nat)
            + "]"@,
        BasicTypeView::Predefined(name) => name,
    }
}

fn push_type(out: &mut Vec<char>, t: &BasicType)
    ensures
        final(out)@ == old(out)@ + spec_as_type(t@),
    decreases t,
{
    match t {
        BasicType::Unit => push_str(out, "()"),
        BasicType::U8 => push_str(out, "u8"),
        BasicType::U16 => push_str(out, "u16"),
        BasicType::U32 => push_str(out, "u32"),
        BasicType::U64 => push_str(out, "u64"),
        BasicType::Struct => push_str(out, "Struct"),
        BasicType::String => push_str(out, "UTF8String"),
        BasicType::Array(ty, len) => {
            let ghost start = out@;
            push_str(out, "[");
            push_type(out, &**ty);
            push_str(out, "; ");
            push_decimal(out, *len as u64);
            push_str(out, "]");
            assert(out@ =~= start + spec_as_type(t@));
        },
        BasicType::Predefined(name) => {
            let chars = str_chars(name.as_str());
            let ghost start = out@;
            let mut i: usize = 0;
            while i < chars.len()
                invariant
                    i <= chars@.len(),
                    out@ == start + chars@.subrange(0, i as int),
                decreases chars@.len() - i,
            {
                out.push(chars[i]);
                i = i + 1;
                assert(out@ =~= start + chars@.subrange(0, i as int));
            }
            assert(chars@.subrange(0, chars@.len() as int) =~= chars@);
        },
    }
}

impl BasicType {
    /// A copy of this type.
    pub fn duplicate(&self) -> (r: BasicType)
        ensures
            r@ == self@,
        decreases self,
    {
        match self {
            BasicType::Unit => BasicType::Unit,
            BasicType::U8 => BasicType::U8,
            BasicType::U16 => BasicType::U16,
            BasicType::U32 => BasicType::U32,
            BasicType::U64 => BasicType::U64,
            BasicType::Struct => BasicType::Struct,
            BasicType::String => BasicType::String,
            BasicType::Array(ty, len) => BasicType::Array(Box::new((**ty).duplicate()), *len),
            BasicType::Predefined(name) => BasicType::Predefined(name.clone()),
        }
    }

    /// The Rust type this type is rendered as: `()`, `u8` to `u64`,
    /// `Struct`, `UTF8String`, `[T; n]`, or a predefined type's own name.
    pub fn as_type(&self) -> (r: String)
        ensures
            r@ == spec_as_type(self@),
    {
        let mut out: Vec<char> = Vec::new();
        push_type(&mut out, self);
        assert(out@ =~= spec_as_type(self@));
        chars_to_string(out)
    }
}

/// The first position of `c` in `s`.
pub open spec fn spec_first_index(s: Seq<char>, c: char) -> Option<int>
    decreases s.len(),
{
    if s.len() == 0 {
        None
    } else if s[0] == c {
        Some(0)
    } else {
        match spec_first_index(s.drop_first(), c) {
            Some(i) => Some(i + 1),
            None => None,
        }
    }
}

proof fn lemma_first_index_bounds(s: Seq<char>, c: char)
    ensures
        spec_first_index(s, c) matches Some(i) ==> 0 <= i < s.len() && s[i] == c && forall|j: int|
            0 <= j < i ==> s[j] != c,
        spec_first_index(s, c) is None ==> forall|j: int| 0 <= j < s.len() ==> s[j] != c,
    decreases s.len(),
{
    if s.len() > 0 {
        lemma_first_index_bounds(s.drop_first(), c);
        if s[0] != c {
            assert forall|j: int| 0 < j < s.len() implies s[j] == s.drop_first()[j - 1] by {}
        }
    }
}

fn first_index(s: &Vec<char>, c: char) -> (r: Option<usize>)
    ensures
        match spec_first_index(s@, c) {
            Some(i) => r == Some(i as usize),
            None => r is None,
        },
{
    proof {
        lemma_first_index_bounds(s@, c);
    }
    let mut i: usize = 0;
    while i < s.len()
        invariant
            i <= s@.len(),
            forall|j: int| 0 <= j < i ==> s@[j] != c,
            spec_first_index(s@, c) matches Some(k) ==> 0 <= k < s@.len() && s@[k] == c && forall|
                j: int,
            | 0 <= j < k ==> s@[j] != c,
            spec_first_index(s@, c) is None ==> forall|j: int| 0 <= j < s@.len() ==> s@[j] != c,
        decreases s@.len() - i,
    {
        if s[i] == c {
            return Some(i);
        }
        i = i + 1;
    }
    None
}

/// The value of a decimal digit.
pub open spec fn spec_dec_digit_value(c: char) -> Option<nat> {
    if '0' <= c && c <= '9' {
        Some((c as nat - '0' as nat) as nat)
    } else {
        None
    }
}

/// The value of a string of decimal digits, `None` when one is not a digit.
pub open spec fn spec_dec_digits_value(s: Seq<char>) -> Option<nat>
    decreases s.len(),
{
    if s.len() == 0 {
        Some(0)
    } else {
        match (spec_dec_digits_value(s.drop_last()), spec_dec_digit_value(s.last())) {
            (Some(v), Some(d)) => Some(v * 10 + d),
            _ => None,
        }
    }
}

/// What `parse` of an unsigned type with largest value `max` gives: an
/// optional `+`, then at least one decimal digit, and a value that fits.
pub open spec fn spec_parse_dec(s: Seq<char>, max: nat) -> Option<nat> {
    let digits = if s.len() > 0 && s[0] == '+' {
        s.drop_first()
    } else {
        s
    };
    if digits.len() == 0 {
        None
    } else {
        crate::text::spec_at_most(spec_dec_digits_value(digits), max)
    }
}

proof fn lemma_dec_prefix_value(s: Seq<char>, i: int)
    requires
        0 <= i <= s.len(),
        spec_dec_digits_value(s) is Some,
    ensures
        spec_dec_digits_value(s.subrange(0, i)) is Some,
        spec_dec_digits_value(s.subrange(0, i))->0 <= spec_dec_digits_value(s)->0,
    decreases s.len(),
{
    if i == s.len() {
        assert(s.subrange(0, i) =~= s);
    } else {
        lemma_dec_prefix_value(s.drop_last(), i);
        assert(s.drop_last().subrange(0, i) =~= s.subrange(0, i));
    }
}

/// Parses a decimal number whose value is at most `max`.
pub fn parse_dec(s: &Vec<char>, max: u64) -> (r: Option<u64>)
    ensures
        match spec_parse_dec(s@, max as nat) {
            Some(v) => r == Some(v as u64),
            None => r is None,
        },
{
    let start: usize = if s.len() > 0 && s[0] == '+' { 1 } else { 0 };
    let ghost digits = if s@.len() > 0 && s@[0] == '+' { s@.drop_first() } else { s@ };
    assert(digits =~= s@.subrange(start as int, s@.len() as int));
    if start >= s.len() {
        return None;
    }
    assert(spec_parse_dec(s@, max as nat) == crate::text::spec_at_most(spec_dec_digits_value(digits), max as nat));
    let mut acc: u64 = 0;
    let mut i: usize = start;
    while i < s.len()
        invariant
            start <= i <= s@.len(),
            digits == s@.subrange(start as int, s@.len() as int),
            acc <= max,
            spec_dec_digits_value(digits.subrange(0, i - start)) == Some(acc as nat),
            spec_parse_dec(s@, max as nat) == crate::text::spec_at_most(spec_dec_digits_value(digits), max as nat),
        decreases s@.len() - i,
    {
        let c = s[i];
        proof {
            let k = i - start;
            let p = digits.subrange(0, k + 1);
            assert(p.last() == s@[i as int]);
            assert(p.drop_last() =~= digits.subrange(0, k));
        }
        if !('0' <= c && c <= '9') {
            proof {
                let k = i - start;
                assert(spec_dec_digits_value(digits.subrange(0, k + 1)) is None);
                if spec_dec_digits_value(digits) is Some {
                    lemma_dec_prefix_value(digits, k + 1);
                }
            }
            return None;
        }
        let d = (c as u64) - ('0' as u64);
        let next = match acc.checked_mul(10) {
            Some(x) => x.checked_add(d),
            None => None,
        };
        match next {
            Some(n) if n <= max => {
                acc = n;
            },
            _ => {
                proof {
                    let k = i - start;
                    assert(spec_dec_digits_value(digits.subrange(0, k + 1)) == Some(
                        (acc * 10 + d) as nat,
                    ));
                    if spec_dec_digits_value(digits) is Some {
                        lemma_dec_prefix_value(digits, k + 1);
                    }
                }
                return None;
            },
        }
        i = i + 1;
    }
    assert(digits.subrange(0, s@.len() - start) =~= digits);
    Some(acc)
}

/// What reading a type name gives: `name[n]` is an array of `n` values of
/// type `name`; `u8`, `u16`, `u32`, `u64`, `struct` and `string` are the
/// basic types; any other name is a predefined type.
pub open spec fn spec_parse_type(s: Seq<char>) -> Result<BasicTypeView, CodegenError>
    decreases s.len(),
{
    match spec_first_index(s, '[') {
        Some(i) => {
            let len = s.subrange(i + 1, s.len() as int);
            if !(len.len() > 0 && len.last() == ']') {
                Err(CodegenError::MissingClosingBracket)
            } else {
                match spec_parse_dec(len.drop_last(), usize::MAX as nat) {
                    None => Err(CodegenError::LengthNotANumber),
                    Some(n) => if 0 <= i < s.len() {
                        match spec_parse_type(s.subrange(0, i)) {
                            Ok(t) => Ok(BasicTypeView::Array(Box::new(t), n as usize)),
                            Err(e) => Err(e),
                        }
                    } else {
                        Err(CodegenError::MissingClosingBracket)
                    },
                }
            }
        },
        None => if s == "u8"@ {
            Ok(BasicTypeView::U8)
        } else if s == "u16"@ {
            Ok(BasicTypeView::U16)
        } else if s == "u32"@ {
            Ok(BasicTypeView::U32)
        } else if s == "u64"@ {
            Ok(BasicTypeView::U64)
        } else if s == "struct"@ {
            Ok(BasicTypeView::Struct)
        } else if s == "string"@ {
            Ok(BasicTypeView::String)
        } else {
            Ok(BasicTypeView::Predefined(s))
        },
    }
}

pub(crate) fn chars_eq_str(a: &Vec<char>, b: &str) -> (r: bool)
    ensures
        r == (a@ == b@),
{
    let bc = str_chars(b);
    if a.len() != bc.len() {
        return false;
    }
    let mut i: usize = 0;
    while i < a.len()
        invariant
            i <= a@.len(),
            a@.len() == bc@.len(),
            bc@ == b@,
            forall|j: int| 0 <= j < i ==> a@[j] == bc@[j],
        decreases a@.len() - i,
    {
        if a[i] != bc[i] {
            return false;
        }
        i = i + 1;
    }
    assert(a@ =~= bc@);
    true
}

fn subrange_chars(s: &Vec<char>, from: usize, to: usize) -> (r: Vec<char>)
    requires
        from <= to <= s@.len(),
    ensures
        r@ == s@.subrange(from as int, to as int),
{
    let mut out: Vec<char> = Vec::new();
    let mut i: usize = from;
    while i < to
        invariant
            from <= i <= to <= s@.len(),
            out@ == s@.subrange(from as int, i as int),
        decreases to - i,
    {
        out.push(s[i]);
        i = i + 1;
        assert(out@ =~= s@.subrange(from as int, i as int));
    }
    out
}

fn copy_chars(s: &Vec<char>) -> (r: Vec<char>)
    ensures
        r@ == s@,
{
    let r = subrange_chars(s, 0, s.len());
    assert(s@.subrange(0, s@.len() as int) =~= s@);
    r
}

fn parse_type_chars(s: &Vec<char>) -> (r: Result<BasicType, CodegenError>)
    ensures
        match spec_parse_type(s@) {
            Ok(t) => r matches Ok(x) && x@ == t,
            Err(e) => r == Err::<BasicType, CodegenError>(e),
        },
    decreases s@.len(),
{
    proof {
        lemma_first_index_bounds(s@, '[');
    }
    match first_index(s, '[') {
        Some(i) => {
            let n = s.len();
            if !(n > i + 1 && s[n - 1] == ']') {
                proof {
                    let len = s@.subrange(i + 1, n as int);
                    if len.len() > 0 {
                        assert(len.last() == s@[n - 1]);
                    }
                }
                return Err(CodegenError::MissingClosingBracket);
            }
            let digits = subrange_chars(s, i + 1, n - 1);
            proof {
                let len = s@.subrange(i + 1, n as int);
                assert(len.last() == s@[n - 1]);
                assert(len.drop_last() =~= digits@);
            }
            let len = match parse_dec(&digits, usize::MAX as u64) {
                Some(v) => v as usize,
                None => return Err(CodegenError::LengthNotANumber),
            };
            let ty = subrange_chars(s, 0, i);
            match parse_type_chars(&ty) {
                Ok(t) => Ok(BasicType::Array(Box::new(t), len)),
                Err(e) => Err(e),
            }
        },
        None => {
            if chars_eq_str(s, "u8") {
                Ok(BasicType::U8)
            } else if chars_eq_str(s, "u16") {
                Ok(BasicType::U16)
            } else if chars_eq_str(s, "u32") {
                Ok(BasicType::U32)
            } else if chars_eq_str(s, "u64") {
                Ok(BasicType::U64)
            } else if chars_eq_str(s, "struct") {
                Ok(BasicType::Struct)
            } else if chars_eq_str(s, "string") {
                Ok(BasicType::String)
            } else {
                Ok(BasicType::Predefined(chars_to_string(copy_chars(s))))
            }
        },
    }
}

impl BasicType {
    /// Reads a type name of a specification file, as `spec_parse_type` says.
    pub fn parse(value: &str) -> (r: Result<BasicType, CodegenError>)
        ensures
            match spec_parse_type(value@) {
                Ok(t) => r matches Ok(x) && x@ == t,
                Err(e) => r == Err::<BasicType, CodegenError>(e),
            },
    {
        let chars = str_chars(value);
        parse_type_chars(&chars)
    }
}

/// The lowercase hexadecimal digit of `d`.
pub open spec fn spec_hex_digit_lower(d: nat) -> char {
    if d < 10 {
        (48 + d) as char
    } else {
        (87 + d) as char
    }
}

/// `{:02x}` of a byte.
pub open spec fn spec_hex_byte_lower(b: u8) -> Seq<char> {
    seq![spec_hex_digit_lower((b / 16) as nat), spec_hex_digit_lower((b % 16) as nat)]
}

/// A route id as it is written into the generated source: its bytes in two
/// digit lowercase hexadecimal, separated by `, `.
pub open spec fn spec_render_id(id: Seq<u8>) -> Seq<char>
    decreases id.len(),
{
    if id.len() == 0 {
        Seq::empty()
    } else if id.len() == 1 {
        spec_hex_byte_lower(id[0])
    } else {
        spec_render_id(id.drop_last()) + ", "@ + spec_hex_byte_lower(id.last())
    }
}

pub(crate) fn hex_digit_lower(d: u8) -> (c: char)
    requires
        d < 16,
    ensures
        c == spec_hex_digit_lower(d as nat),
{
    if d < 10 {
        (48u8 + d) as char
    } else {
        (87u8 + d) as char
    }
}

/// Renders a route id.
pub fn render_id(id: &[u8]) -> (r: String)
    ensures
        r@ == spec_render_id(id@),
{
    let mut out: Vec<char> = Vec::new();
    let mut i: usize = 0;
    assert(id@.subrange(0, 0) =~= Seq::<u8>::empty());
    while i < id.len()
        invariant
            i <= id@.len(),
            out@ == spec_render_id(id@.subrange(0, i as int)),
        decreases id@.len() - i,
    {
        let ghost before = out@;
        if i > 0 {
            push_str(&mut out, ", ");
        }
        out.push(hex_digit_lower(id[i] / 16));
        out.push(hex_digit_lower(id[i] % 16));
        proof {
            let p = id@.subrange(0, i + 1);
            assert(p.drop_last() =~= id@.subrange(0, i as int));
            assert(p.last() == id@[i as int]);
            if i == 0 {
                assert(out@ =~= spec_hex_byte_lower(id@[0]));
            } else {
                assert(out@ =~= before + ", "@ + spec_hex_byte_lower(id@[i as int]));
            }
        }
        i = i + 1;
    }
    assert(id@.subrange(0, id@.len() as int) =~= id@);
    chars_to_string(out)
}

/// `s` cut at every `c`, as `split(c)` gives it.
pub open spec fn spec_split(s: Seq<char>, c: char) -> Seq<Seq<char>>
    decreases s.len(),
{
    match spec_first_index(s, c) {
        Some(i) => if 0 <= i < s.len() {
            seq![s.subrange(0, i)] + spec_split(s.subrange(i + 1, s.len() as int), c)
        } else {
            seq![s]
        },
        None => seq![s],
    }
}

/// The plain values of a list of character vectors.
pub open spec fn chars_view(v: Seq<Vec<char>>) -> Seq<Seq<char>> {
    v.map_values(|x: Vec<char>| x@)
}

fn split_chars(s: &Vec<char>, c: char) -> (r: Vec<Vec<char>>)
    ensures
        chars_view(r@) == spec_split(s@, c),
    decreases s@.len(),
{
    proof {
        lemma_first_index_bounds(s@, c);
    }
    match first_index(s, c) {
        Some(i) => {
            let n = s.len();
            assert(i < n);
            let head = subrange_chars(s, 0, i);
            let tail = subrange_chars(s, i + 1, s.len());
            let rest = split_chars(&tail, c);
            let mut out: Vec<Vec<char>> = Vec::new();
            out.push(head);
            let mut k: usize = 0;
            let ghost first = chars_view(out@);
            while k < rest.len()
                invariant
                    k <= rest@.len(),
                    chars_view(out@) == first + chars_view(rest@).subrange(0, k as int),
                decreases rest@.len() - k,
            {
                let ghost before = out@;
                out.push(copy_chars(&rest[k]));
                assert(chars_view(out@) =~= chars_view(before).push(rest@[k as int]@));
                assert(chars_view(rest@)[k as int] == rest@[k as int]@);
                k = k + 1;
                assert(chars_view(out@) =~= first + chars_view(rest@).subrange(0, k as int));
            }
            assert(chars_view(rest@).subrange(0, rest@.len() as int) =~= chars_view(rest@));
            assert(first =~= seq![s@.subrange(0, i as int)]);
            out
        },
        None => {
            let mut out: Vec<Vec<char>> = Vec::new();
            out.push(copy_chars(s));
            assert(chars_view(out@) =~= seq![s@]);
            out
        },
    }
}

/// The digits of a version string: its first three dot-separated
/// components, each a number from 0 to 255.
pub open spec fn spec_version_digits(parts: Seq<Seq<char>>, n: nat) -> Result<Seq<u8>, CodegenError>
    decreases n,
{
    if n == 0 {
        Ok(Seq::empty())
    } else {
        match spec_version_digits(parts, (n - 1) as nat) {
            Err(e) => Err(e),
            Ok(d) => match spec_parse_dec(parts[n - 1], 255) {
                Some(v) => Ok(d.push(v as u8)),
                None => Err(CodegenError::InvalidVersionDigit),
            },
        }
    }
}

/// The BCD encoded version of major, minor and patch digits; missing ones count as zero.
pub open spec fn spec_version_value(d: Seq<u8>) -> u32 {
    ((if d.len() > 0 {
        d[0] * 0x10000
    } else {
        0
    }) + (if d.len() > 1 {
        d[1] * 0x100
    } else {
        0
    }) + (if d.len() > 2 {
        d[2] as int
    } else {
        0
    })) as u32
}

/// What reading a version string such as `0.3.0` gives.
pub open spec fn spec_parse_version(s: Seq<char>) -> Result<u32, CodegenError> {
    let parts = spec_split(s, '.');
    let n = if parts.len() < 3 {
        parts.len()
    } else {
        3
    };
    match spec_version_digits(parts, n) {
        Err(e) => Err(e),
        Ok(d) => {
            let v = spec_version_value(d);
            if XapVersion::spec_is_known(v) {
                Ok(v)
            } else {
                Err(CodegenError::InvalidVersion(v))
            }
        },
    }
}

/// Reads the version string of a specification file.
pub fn parse_xap_version(raw: &str) -> (r: Result<XapVersion, CodegenError>)
    ensures
        match spec_parse_version(raw@) {
            Ok(v) => r matches Ok(x) && x.spec_value() == v,
            Err(e) => r == Err::<XapVersion, CodegenError>(e),
        },
{
    let chars = str_chars(raw);
    let parts = split_chars(&chars, '.');
    let n: usize = if parts.len() < 3 { parts.len() } else { 3 };
    let mut digits: Vec<u8> = Vec::new();
    let mut k: usize = 0;
    while k < n
        invariant
            k <= n <= 3,
            n == (if parts@.len() < 3 {
                parts@.len()
            } else {
                3
            }),
            chars_view(parts@) == spec_split(raw@, '.'),
            spec_version_digits(chars_view(parts@), k as nat) == Ok::<Seq<u8>, CodegenError>(
                digits@,
            ),
        decreases n - k,
    {
        assert(chars_view(parts@)[k as int] == parts@[k as int]@);
        match parse_dec(&parts[k], 255) {
            Some(v) => {
                digits.push(v as u8);
            },
            None => {
                proof {
                    assert(spec_version_digits(chars_view(parts@), (k + 1) as nat) is Err);
                    lemma_digits_fail(chars_view(parts@), (k + 1) as nat, n as nat);
                }
                return Err(CodegenError::InvalidVersionDigit);
            },
        }
        k = k + 1;
    }
    let d0: u32 = if digits.len() > 0 { digits[0] as u32 } else { 0 };
    let d1: u32 = if digits.len() > 1 { digits[1] as u32 } else { 0 };
    let d2: u32 = if digits.len() > 2 { digits[2] as u32 } else { 0 };
    let value = d0 * 0x10000 + d1 * 0x100 + d2;
    assert(value == spec_version_value(digits@));
    match XapVersion::try_from(value) {
        Ok(v) => Ok(v),
        Err(_) => Err(CodegenError::InvalidVersion(value)),
    }
}

proof fn lemma_digits_fail(parts: Seq<Seq<char>>, k: nat, n: nat)
    requires
        k <= n,
        spec_version_digits(parts, k) is Err,
    ensures
        spec_version_digits(parts, n) == spec_version_digits(parts, k),
    decreases n - k,
{
    if k < n {
        lemma_digits_fail(parts, k + 1, n);
    }
}

/// `s` with every occurrence of `pat` removed, scanning left to right, as
/// `replace(pat, "")` does.
pub open spec fn spec_remove_all(s: Seq<char>, pat: Seq<char>) -> Seq<char>
    decreases s.len(),
{
    if pat.len() == 0 || s.len() < pat.len() {
        s
    } else if s.subrange(0, pat.len() as int) == pat {
        spec_remove_all(s.subrange(pat.len() as int, s.len() as int), pat)
    } else {
        seq![s[0]] + spec_remove_all(s.drop_first(), pat)
    }
}

fn remove_all(s: &Vec<char>, pat: &str) -> (r: Vec<char>)
    ensures
        r@ == spec_remove_all(s@, pat@),
{
    let p = str_chars(pat);
    let mut out: Vec<char> = Vec::new();
    let mut i: usize = 0;
    let n = s.len();
    assert(s@.subrange(0, n as int) =~= s@);
    if p.len() == 0 {
        return copy_chars(s);
    }
    while i < n
        invariant
            i <= n == s@.len(),
            p@ == pat@,
            p@.len() > 0,
            spec_remove_all(s@, pat@) == out@ + spec_remove_all(
                s@.subrange(i as int, n as int),
                pat@,
            ),
        decreases n - i,
    {
        let ghost t = s@.subrange(i as int, n as int);
        let mut matches = n - i >= p.len();
        if matches {
            let mut j: usize = 0;
            while j < p.len()
                invariant
                    j <= p@.len(),
                    i + p@.len() <= n == s@.len(),
                    matches == (forall|x: int| 0 <= x < j ==> s@[i + x] == p@[x]),
                decreases p@.len() - j,
            {
                if s[i + j] != p[j] {
                    matches = false;
                }
                j = j + 1;
            }
            proof {
                if matches {
                    assert(t.subrange(0, p@.len() as int) =~= p@);
                } else {
                    let x = choose|x: int| 0 <= x < p@.len() && s@[i + x] != p@[x];
                    assert(t.subrange(0, p@.len() as int)[x] != p@[x]);
                }
            }
        }
        if matches {
            proof {
                assert(t.subrange(p@.len() as int, t.len() as int) =~= s@.subrange(
                    i + p@.len(),
                    n as int,
                ));
            }
            i = i + p.len();
        } else {
            let ghost before = out@;
            out.push(s[i]);
            proof {
                assert(t.drop_first() =~= s@.subrange(i + 1, n as int));
                assert(before + (seq![t[0]] + spec_remove_all(t.drop_first(), pat@)) =~= out@
                    + spec_remove_all(t.drop_first(), pat@));
            }
            i = i + 1;
        }
    }
    assert(s@.subrange(n as int, n as int) =~= Seq::<char>::empty());
    assert(out@ + Seq::<char>::empty() =~= out@);
    out
}

/// The name a route gets: without `query`/`Query`, and for a capabilities
/// route also without `capabilities`/`Capabilities` and then ending in
/// `capabilities`.
pub open spec fn spec_route_name(name: Seq<char>, capabilities: bool) -> Seq<char> {
    let plain = spec_remove_all(spec_remove_all(name, "query"@), "Query"@);
    if capabilities {
        spec_remove_all(spec_remove_all(plain, "capabilities"@), "Capabilities"@)
            + "capabilities"@
    } else {
        plain
    }
}

/// Normalises the name of a route read from a specification file.
pub fn normalize_route_name(name: &str, return_purpose: &Option<String>) -> (r: String)
    ensures
        r@ == spec_route_name(
            name@,
            return_purpose matches Some(p) && p@ == "capabilities"@,
        ),
{
    let chars = str_chars(name);
    let a = remove_all(&chars, "query");
    let plain = remove_all(&a, "Query");
    let capabilities = match return_purpose {
        Some(p) => {
            let pc = str_chars(p.as_str());
            chars_eq_str(&pc, "capabilities")
        },
        None => false,
    };
    if capabilities {
        let b = remove_all(&plain, "capabilities");
        let mut c = remove_all(&b, "Capabilities");
        push_str(&mut c, "capabilities");
        chars_to_string(c)
    } else {
        chars_to_string(plain)
    }
}

/// The id byte of a route key, a hexadecimal byte with any number of leading `0x`.
pub open spec fn spec_route_id(raw: Seq<char>) -> Option<u8> {
    match crate::text::spec_parse_hex(spec_trim_0x(raw), 0xFF) {
        Some(v) => Some(v as u8),
        None => None,
    }
}

/// Reads the id byte of a route key.
pub fn parse_route_id(raw: &str) -> (r: Result<u8, CodegenError>)
    ensures
        match spec_route_id(raw@) {
            Some(v) => r == Ok::<u8, CodegenError>(v),
            None => r == Err::<u8, CodegenError>(CodegenError::InvalidRouteId),
        },
{
    let chars = str_chars(raw);
    let trimmed = trim_0x(&chars);
    match crate::text::parse_hex(&trimmed, 0xFF) {
        Some(v) => Ok(v as u8),
        None => Err(CodegenError::InvalidRouteId),
    }
}

} // verus!
