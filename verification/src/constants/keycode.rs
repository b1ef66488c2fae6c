//! Keycode tables of the XAP specification.
use vstd::prelude::*;

use crate::layout::KeyPosition;
use crate::text::{chars_to_string, push_decimal, push_str, spec_decimal};

verus! {

/// The characters of an optional string.
pub open spec fn opt_string_view(o: Option<String>) -> Option<Seq<char>> {
    match o {
        Some(s) => Some(s@),
        None => None,
    }
}

/// A copy of an optional string.
pub fn clone_opt_string(o: &Option<String>) -> (r: Option<String>)
    ensures
        opt_string_view(r) == opt_string_view(*o),
{
    match o {
        Some(s) => Some(s.clone()),
        None => None,
    }
}

/// A copy of a list of strings.
pub fn clone_strings(v: &Vec<String>) -> (r: Vec<String>)
    ensures
        r@.map_values(|s: String| s@) == v@.map_values(|s: String| s@),
{
    let mut out: Vec<String> = Vec::new();
    for i in 0..v.len()
        invariant
            out@.len() == i,
            forall|j: int| 0 <= j < i ==> #[trigger] out@[j]@ == v@[j]@,
    {
        out.push(v[i].clone());
    }
    assert(out@.map_values(|s: String| s@) =~= v@.map_values(|s: String| s@));
    out
}

/// One keycode of the keycode tables.
#[derive(Clone, Debug, Default, PartialEq, Eq)]
pub struct XapKeyCode {
    pub code: u16,
    pub key: String,
    pub group: Option<String>,
    pub label: Option<String>,
    pub aliases: Vec<String>,
}

/// The plain value of a keycode.
pub struct XapKeyCodeView {
    pub code: u16,
    pub key: Seq<char>,
    pub group: Option<Seq<char>>,
    pub label: Option<Seq<char>>,
    pub aliases: Seq<Seq<char>>,
}

impl View for XapKeyCode {
    type V = XapKeyCodeView;

    open spec fn view(&self) -> XapKeyCodeView {
        XapKeyCodeView {
            code: self.code,
            key: self.key@,
            group: opt_string_view(self.group),
            label: opt_string_view(self.label),
            aliases: self.aliases@.map_values(|s: String| s@),
        }
    }
}

/// The keycode at a matrix position.
#[derive(Debug, Default, Clone)]
pub struct XapKeyCodeConfig {
    pub code: XapKeyCode,
    pub position: KeyPosition,
}

/// The key name given to a code that no table describes.
pub open spec fn spec_custom_key(code: u16) -> Seq<char> {
    "USER-CUSTOM-"@ + spec_decimal(code as nat)
}

/// The keycode that stands for a code no table describes.
pub open spec fn spec_custom_keycode(code: u16) -> XapKeyCodeView {
    XapKeyCodeView {
        code,
        key: spec_custom_key(code),
        group: Some("USER-CUSTOM"@),
        label: Some(spec_decimal(code as nat)),
        aliases: Seq::empty(),
    }
}

impl XapKeyCode {
    /// A copy of this keycode.
    pub fn duplicate(&self) -> (r: XapKeyCode)
        ensures
            r@ == self@,
    {
        XapKeyCode {
            code: self.code,
            key: self.key.clone(),
            group: clone_opt_string(&self.group),
            label: clone_opt_string(&self.label),
            aliases: clone_strings(&self.aliases),
        }
    }

    /// The keycode of a user defined code: key `USER-CUSTOM-<code>`, group
    /// `USER-CUSTOM`, label the decimal code and no aliases.
    pub fn new_custom(code: u16) -> (r: XapKeyCode)
        ensures
            r@ == spec_custom_keycode(code),
    {
        let mut key: Vec<char> = Vec::new();
        push_str(&mut key, "USER-CUSTOM-");
        push_decimal(&mut key, code as u64);
        let mut label: Vec<char> = Vec::new();
        push_decimal(&mut label, code as u64);
        let mut group: Vec<char> = Vec::new();
        push_str(&mut group, "USER-CUSTOM");
        assert(label@ =~= spec_decimal(code as nat));
        let r = XapKeyCode {
            code,
            key: chars_to_string(key),
            group: Some(chars_to_string(group)),
            label: Some(chars_to_string(label)),
            aliases: Vec::new(),
        };
        assert(r@.aliases =~= Seq::<Seq<char>>::empty());
        r
    }
}

/// Whether a file of the specification directory holds a table of the given
/// kind: its name starts with the kind (`keycodes`, `rgblight`, `rgb_matrix`
/// or `led_matrix`).
pub fn is_table_file(file_name: &str, kind: &str) -> (r: bool)
    ensures
        r == kind@.is_prefix_of(file_name@),
{
    crate::text::str_starts_with(file_name, kind)
}

} // verus!
