//! What a client assembles from the answers of a device, and the constant
//! tables in the form the user interface shows them.
use vstd::prelude::*;

use crate::constants::keycode::{XapKeyCode, XapKeyCodeView};
use crate::constants::lighting::{LightingEffect, LightingEffectView, LightingEffects};
use crate::sort::{
    lemma_insert_at, lemma_sorted_by_is_sorted, lemma_sorted_by_permutes, spec_insert_sorted,
    spec_is_sorted, spec_sorted_by, spec_strict_weak,
};
use crate::spec::keymap::KeymapGetKeycodeArg;
use crate::spec::qmk::QmkBoardIdentifiersResponse;
use crate::text::{chars_lt, lemma_chars_lt_total, spec_chars_lt, str_chars};


pub mod keymap;

verus! {

broadcast use vstd::std_specs::hash::group_hash_axioms;

/// A point of the key grid: row and column.
#[derive(Default, Debug, Clone, Copy, PartialEq, PartialOrd, Hash)]
pub struct Point2D {
    pub y: u64,
    pub x: u64,
}

/// A point of the keymap: column, row and layer.
#[derive(Default, Debug, Clone, Copy, PartialEq, PartialOrd, Hash)]
pub struct Point3D {
    pub x: u64,
    pub y: u64,
    pub z: u64,
}

/// The keymap position of a point: layer, row and column, each cut to its lowest byte.
impl From<Point3D> for KeymapGetKeycodeArg {
    fn from(p: Point3D) -> (r: KeymapGetKeycodeArg) {
        KeymapGetKeycodeArg { column: p.x as u8, row: p.y as u8, layer: p.z as u8 }
    }
}

impl vstd::std_specs::convert::FromSpecImpl<Point3D> for KeymapGetKeycodeArg {
    open spec fn obeys_from_spec() -> bool {
        true
    }

    open spec fn from_spec(p: Point3D) -> KeymapGetKeycodeArg {
        KeymapGetKeycodeArg { column: p.x as u8, row: p.y as u8, layer: p.z as u8 }
    }
}

/// The XAP part of a device description.
#[derive(Debug, Clone, Copy, PartialEq, Eq, Structural)]
pub struct XapInfo {
    pub version: u32,
}

/// The QMK part of a device description.
#[derive(Debug, Clone)]
pub struct QmkInfo {
    pub version: String,
    pub board_ids: QmkBoardIdentifiersResponse,
    pub manufacturer: String,
    pub product_name: String,
    pub hardware_id: String,
    pub jump_to_bootloader_enabled: bool,
    pub eeprom_reset_enabled: bool,
}

/// The size of the key matrix.
#[derive(Debug, Clone, Copy, Default, PartialEq, Eq, Structural)]
pub struct Matrix {
    pub cols: u8,
    pub rows: u8,
}

/// The keyboard configuration a device stores as a compressed blob; the
/// client reads the size of its key matrix from it.
#[derive(Debug, Clone, Copy, Default, PartialEq, Eq, Structural)]
pub struct Config {
    pub matrix_size: Matrix,
}

/// What the keymap subsystem of a device offers.
#[derive(Debug, Clone, Copy, PartialEq, Eq, Structural)]
pub struct KeymapInfo {
    pub matrix: Matrix,
    pub layer_count: Option<u8>,
    pub get_keycode_enabled: bool,
    pub get_encoder_keycode_enabled: bool,
}

/// What the remapping subsystem of a device offers.
#[derive(Debug, Clone, Copy, PartialEq, Eq, Structural)]
pub struct RemapInfo {
    pub layer_count: Option<u8>,
    pub set_keycode_enabled: bool,
    pub set_encoder_keycode_enabled: bool,
}

/// The lighting subsystems of a device.
#[derive(Debug, Clone)]
pub struct LightingInfo {
    pub backlight: Option<LightingCapabilities>,
    pub rgblight: Option<LightingCapabilities>,
    pub rgbmatrix: Option<LightingCapabilities>,
}

/// What one lighting subsystem of a device offers.
#[derive(Debug, Clone)]
pub struct LightingCapabilities {
    pub effects: Vec<LightingEffect>,
    pub get_config_enabled: bool,
    pub set_config_enabled: bool,
    pub save_config_enabled: bool,
}

/// The description of a device.
#[derive(Debug, Clone)]
pub struct XapDeviceInfo {
    pub xap: XapInfo,
    pub qmk: QmkInfo,
    pub keymap: Option<KeymapInfo>,
    pub remap: Option<RemapInfo>,
    pub lighting: Option<LightingInfo>,
}

/// Effects are ordered by their labels.
pub open spec fn spec_label_lt() -> spec_fn(LightingEffectView, LightingEffectView) -> bool {
    |a: LightingEffectView, b: LightingEffectView| spec_chars_lt(a.label, b.label)
}

/// The plain values of a list of effects.
pub open spec fn effects_view(s: Seq<LightingEffect>) -> Seq<LightingEffectView> {
    s.map_values(|e: LightingEffect| e@)
}

/// Sorts effects stably by label.
fn sort_effects_by_label(effects: Vec<LightingEffect>) -> (r: Vec<LightingEffect>)
    ensures
        effects_view(r@) == spec_sorted_by(effects_view(effects@), spec_label_lt()),
{
    let ghost input = effects_view(effects@);
    let mut rest = effects;
    let total: usize = rest.len();
    let ghost n = total as nat;
    let mut sorted: Vec<LightingEffect> = Vec::new();
    let mut labels: Vec<Vec<char>> = Vec::new();
    let mut i: usize = 0;
    assert(input.subrange(0, 0) =~= Seq::<LightingEffectView>::empty());
    assert(effects_view(sorted@) =~= Seq::<LightingEffectView>::empty());
    while rest.len() > 0
        invariant
            i + rest@.len() == n,
            n == input.len(),
            n <= usize::MAX,
            effects_view(rest@) == input.subrange(i as int, n as int),
            effects_view(sorted@) == spec_sorted_by(input.subrange(0, i as int), spec_label_lt()),
            labels@.len() == sorted@.len(),
            forall|k: int| 0 <= k < labels@.len() ==> #[trigger] labels@[k]@ == sorted@[k].label@,
        decreases rest@.len(),
    {
        let ghost old_rest = rest@;
        let e = rest.remove(0);
        let label = str_chars(e.label.as_str());
        assert(input[i as int] == e@) by {
            assert(effects_view(old_rest)[0] == old_rest[0]@);
            assert(input.subrange(i as int, n as int)[0] == input[i as int]);
        }
        let mut j: usize = sorted.len();
        while j > 0 && chars_lt(&label, &labels[j - 1])
            invariant
                j <= sorted@.len(),
                labels@.len() == sorted@.len(),
                forall|k: int| 0 <= k < labels@.len() ==> #[trigger] labels@[k]@ == sorted@[k].label@,
                label@ == e.label@,
                forall|k: int|
                    j <= k < sorted@.len() ==> spec_chars_lt(e.label@, #[trigger] sorted@[k].label@),
            decreases j,
        {
            j = j - 1;
        }
        proof {
            let s = effects_view(sorted@);
            assert forall|k: int| j <= k < s.len() implies (spec_label_lt())(e@, #[trigger] s[k]) by {
            }
            lemma_insert_at(s, e@, spec_label_lt(), j as int);
            assert(input.subrange(0, i + 1).drop_last() =~= input.subrange(0, i as int));
        }
        let ghost before = sorted@;
        labels.insert(j, label);
        sorted.insert(j, e);
        assert(effects_view(sorted@) =~= effects_view(before).insert(j as int, input[i as int]));
        i = i + 1;
        assert forall|x: int| 0 <= x < rest@.len() implies effects_view(rest@)[x] == input[i + x] by {
            assert(rest@[x] == old_rest[x + 1]);
            assert(effects_view(old_rest)[x + 1] == input.subrange(i - 1, n as int)[x + 1]);
        }
        assert(effects_view(rest@) =~= input.subrange(i as int, n as int));
    }
    assert(input.subrange(0, n as int) =~= input);
    sorted
}

/// Labels order effects strictly and weakly.
pub proof fn lemma_label_order()
    ensures
        spec_strict_weak(spec_label_lt()),
{
    assert forall|a: LightingEffectView| !(#[trigger] (spec_label_lt())(a, a)) by {
        lemma_chars_lt_total(a.label, a.label, a.label);
    }
    assert forall|a: LightingEffectView, b: LightingEffectView, c: LightingEffectView|
        #[trigger] (spec_label_lt())(a, b) && #[trigger] (spec_label_lt())(b, c) implies (
    spec_label_lt())(a, c) by {
        lemma_chars_lt_total(a.label, b.label, c.label);
    }
    assert forall|a: LightingEffectView, b: LightingEffectView, c: LightingEffectView|
        !(#[trigger] (spec_label_lt())(a, b)) && !(#[trigger] (spec_label_lt())(b, c)) implies !(
    spec_label_lt())(a, c) by {
        lemma_chars_lt_total(a.label, b.label, c.label);
        lemma_chars_lt_total(b.label, a.label, c.label);
        lemma_chars_lt_total(c.label, b.label, a.label);
        lemma_chars_lt_total(a.label, c.label, b.label);
        lemma_chars_lt_total(b.label, c.label, a.label);
        lemma_chars_lt_total(c.label, a.label, b.label);
    }
}

impl LightingCapabilities {
    /// The capabilities of a lighting subsystem, its effects sorted by label.
    pub fn new(
        effects: Vec<LightingEffect>,
        get_config_enabled: bool,
        set_config_enabled: bool,
        save_config_enabled: bool,
    ) -> (r: LightingCapabilities)
        ensures
            effects_view(r.effects@) == spec_sorted_by(effects_view(effects@), spec_label_lt()),
            r.get_config_enabled == get_config_enabled,
            r.set_config_enabled == set_config_enabled,
            r.save_config_enabled == save_config_enabled,
    {
        LightingCapabilities {
            effects: sort_effects_by_label(effects),
            get_config_enabled,
            set_config_enabled,
            save_config_enabled,
        }
    }
}

/// The effects of a lighting subsystem come out sorted by label and are
/// exactly the effects it was given.
pub proof fn law_lighting_effects_sorted(effects: Seq<LightingEffectView>)
    ensures
        spec_is_sorted(spec_sorted_by(effects, spec_label_lt()), spec_label_lt()),
        spec_sorted_by(effects, spec_label_lt()).to_multiset() == effects.to_multiset(),
{
    lemma_label_order();
    lemma_sorted_by_is_sorted(effects, spec_label_lt());
    lemma_sorted_by_permutes(effects, spec_label_lt());
}

/// The keycodes of one group.
#[derive(Debug, Clone)]
pub struct XapKeyCodeCategory {
    pub name: String,
    pub codes: Vec<XapKeyCode>,
}

/// The constant tables as the user interface shows them: keycodes grouped
/// by category, and the lighting effect tables.
#[derive(Debug, Clone)]
pub struct XapConstants {
    pub keycodes: Vec<XapKeyCodeCategory>,
    pub rgblight_modes: LightingEffects,
    pub rgb_matrix_modes: LightingEffects,
    pub led_matrix_modes: LightingEffects,
}

/// The category of a keycode: its group, or `other` when it has none.
pub open spec fn spec_group_name(k: XapKeyCodeView) -> Seq<char> {
    match k.group {
        Some(g) => g,
        None => "other"@,
    }
}

/// The keycodes of the table with codes below `n` whose category is `name`,
/// by ascending table key.
pub open spec fn spec_group_members(m: Map<u16, XapKeyCodeView>, name: Seq<char>, n: nat) -> Seq<
    XapKeyCodeView,
>
    decreases n,
{
    if n == 0 {
        Seq::empty()
    } else {
        let prev = spec_group_members(m, name, (n - 1) as nat);
        let c = (n - 1) as u16;
        if m.contains_key(c) && spec_group_name(m[c]) == name {
            prev.push(m[c])
        } else {
            prev
        }
    }
}

/// Keycodes are ordered by code.
pub open spec fn spec_code_lt() -> spec_fn(XapKeyCodeView, XapKeyCodeView) -> bool {
    |a: XapKeyCodeView, b: XapKeyCodeView| a.code < b.code
}

/// The keycodes of category `name`, sorted by code.
pub open spec fn spec_category(m: Map<u16, XapKeyCodeView>, name: Seq<char>) -> Seq<XapKeyCodeView> {
    spec_sorted_by(spec_group_members(m, name, 0x10000), spec_code_lt())
}

/// The plain values of a list of keycodes.
pub open spec fn keycodes_view(s: Seq<XapKeyCode>) -> Seq<XapKeyCodeView> {
    s.map_values(|k: XapKeyCode| k@)
}

/// Sorts keycodes stably by code.
fn sort_keycodes_by_code(codes: Vec<XapKeyCode>) -> (r: Vec<XapKeyCode>)
    ensures
        keycodes_view(r@) == spec_sorted_by(keycodes_view(codes@), spec_code_lt()),
{
    let ghost input = keycodes_view(codes@);
    let mut rest = codes;
    let total: usize = rest.len();
    let ghost n = total as nat;
    let mut sorted: Vec<XapKeyCode> = Vec::new();
    let mut i: usize = 0;
    assert(input.subrange(0, 0) =~= Seq::<XapKeyCodeView>::empty());
    assert(keycodes_view(sorted@) =~= Seq::<XapKeyCodeView>::empty());
    while rest.len() > 0
        invariant
            i + rest@.len() == n,
            n == input.len(),
            n <= usize::MAX,
            keycodes_view(rest@) == input.subrange(i as int, n as int),
            keycodes_view(sorted@) == spec_sorted_by(input.subrange(0, i as int), spec_code_lt()),
        decreases rest@.len(),
    {
        let ghost old_rest = rest@;
        let k = rest.remove(0);
        assert(input[i as int] == k@) by {
            assert(keycodes_view(old_rest)[0] == old_rest[0]@);
            assert(input.subrange(i as int, n as int)[0] == input[i as int]);
        }
        let mut j: usize = sorted.len();
        while j > 0 && k.code < sorted[j - 1].code
            invariant
                j <= sorted@.len(),
                forall|x: int| j <= x < sorted@.len() ==> k.code < #[trigger] sorted@[x].code,
            decreases j,
        {
            j = j - 1;
        }
        proof {
            let s = keycodes_view(sorted@);
            assert forall|x: int| j <= x < s.len() implies (spec_code_lt())(k@, #[trigger] s[x]) by {
            }
            lemma_insert_at(s, k@, spec_code_lt(), j as int);
            assert(input.subrange(0, i + 1).drop_last() =~= input.subrange(0, i as int));
        }
        let ghost before = sorted@;
        sorted.insert(j, k);
        assert(keycodes_view(sorted@) =~= keycodes_view(before).insert(j as int, input[i as int]));
        i = i + 1;
        assert forall|x: int| 0 <= x < rest@.len() implies keycodes_view(rest@)[x] == input[i + x] by {
            assert(rest@[x] == old_rest[x + 1]);
            assert(keycodes_view(old_rest)[x + 1] == input.subrange(i - 1, n as int)[x + 1]);
        }
        assert(keycodes_view(rest@) =~= input.subrange(i as int, n as int));
    }
    assert(input.subrange(0, n as int) =~= input);
    sorted
}

/// The category name of a keycode.
fn group_name(k: &XapKeyCode) -> (r: String)
    ensures
        r@ == spec_group_name(k@),
{
    match &k.group {
        Some(g) => g.clone(),
        None => {
            let mut chars: Vec<char> = Vec::new();
            crate::text::push_str(&mut chars, "other");
            assert(chars@ =~= "other"@);
            crate::text::chars_to_string(chars)
        },
    }
}

/// The names in `names` are pairwise different.
pub open spec fn spec_distinct_names(names: Seq<String>) -> bool {
    forall|i: int, j: int| 0 <= i < j < names.len() ==> #[trigger] names[i]@ != #[trigger] names[j]@
}

/// Some keycode of the table has category `name`.
pub open spec fn spec_is_group_of_some(keycodes: Map<u16, XapKeyCode>, name: Seq<char>) -> bool {
    exists|c: u16| #[trigger] keycodes.contains_key(c) && spec_group_name(keycodes[c]@) == name
}

/// One of the categories is called `name`.
pub open spec fn spec_has_category(categories: Seq<XapKeyCodeCategory>, name: Seq<char>) -> bool {
    exists|i: int| 0 <= i < categories.len() && #[trigger] categories[i].name@ == name
}

/// One of `names` is `name`.
pub open spec fn spec_has_name(names: Seq<String>, name: Seq<char>) -> bool {
    exists|i: int| 0 <= i < names.len() && #[trigger] names[i]@ == name
}

proof fn lemma_has_name_grows(a: Seq<String>, b: Seq<String>, name: Seq<char>)
    requires
        spec_has_name(a, name),
        a.len() <= b.len(),
        forall|i: int| 0 <= i < a.len() ==> a[i] == b[i],
    ensures
        spec_has_name(b, name),
{
    let i = choose|i: int| 0 <= i < a.len() && #[trigger] a[i]@ == name;
    assert(b[i]@ == name);
}

/// Adds a keycode to the list of its category, opening the category when it
/// is new.
fn place_keycode(names: &mut Vec<String>, lists: &mut Vec<Vec<XapKeyCode>>, k: &XapKeyCode)
    requires
        old(names)@.len() == old(lists)@.len(),
        spec_distinct_names(old(names)@),
        forall|i: int| 0 <= i < old(lists)@.len() ==> (#[trigger] old(lists)@[i])@.len() > 0,
    ensures
        final(names)@.len() == final(lists)@.len(),
        spec_distinct_names(final(names)@),
        spec_has_name(final(names)@, spec_group_name(k@)),
        forall|i: int| 0 <= i < final(lists)@.len() ==> (#[trigger] final(lists)@[i])@.len() > 0,
        old(names)@.len() <= final(names)@.len() <= old(names)@.len() + 1,
        forall|i: int| 0 <= i < old(names)@.len() ==> #[trigger] final(names)@[i] == old(names)@[i],
        final(names)@.len() == old(names)@.len() + 1 ==> !spec_has_name(
            old(names)@,
            spec_group_name(k@),
        ),
        forall|i: int|
            0 <= i < final(lists)@.len() ==> keycodes_view(#[trigger] final(lists)@[i]@) == (if i
                < old(lists)@.len() {
                keycodes_view(old(lists)@[i]@)
            } else {
                Seq::empty()
            }) + (if final(names)@[i]@ == spec_group_name(k@) {
                seq![k@]
            } else {
                Seq::empty()
            }),
{
    let name = group_name(k);
    let mut idx: usize = 0;
    while idx < names.len() && !(names[idx] == name)
        invariant
            idx <= names@.len(),
            forall|x: int| 0 <= x < idx ==> #[trigger] names@[x]@ != name@,
        decreases names@.len() - idx,
    {
        idx = idx + 1;
    }
    let ghost old_lists = lists@;
    if idx < names.len() {
        let mut list = lists.remove(idx);
        list.push(k.duplicate());
        lists.insert(idx, list);
        assert forall|i: int| 0 <= i < lists@.len() implies keycodes_view(#[trigger] lists@[i]@) == (
        if i < old_lists.len() {
            keycodes_view(old_lists[i]@)
        } else {
            Seq::empty()
        }) + (if names@[i]@ == name@ {
            seq![k@]
        } else {
            Seq::empty()
        }) by {
            if i == idx {
                assert(keycodes_view(lists@[i]@) =~= keycodes_view(old_lists[i]@) + seq![k@]);
            } else {
                assert(lists@[i] == old_lists[i]);
                assert(keycodes_view(lists@[i]@) =~= keycodes_view(old_lists[i]@) + Seq::empty());
            }
        }
        assert(names@[idx as int]@ == name@);
    } else {
        let mut list: Vec<XapKeyCode> = Vec::new();
        list.push(k.duplicate());
        let ghost old_names = names@;
        names.push(name);
        lists.push(list);
        assert(names@[idx as int]@ == spec_group_name(k@));
        assert forall|i: int| 0 <= i < lists@.len() implies keycodes_view(#[trigger] lists@[i]@) == (
        if i < old_lists.len() {
            keycodes_view(old_lists[i]@)
        } else {
            Seq::empty()
        }) + (if names@[i]@ == spec_group_name(k@) {
            seq![k@]
        } else {
            Seq::empty()
        }) by {
            if i == idx {
                assert(keycodes_view(lists@[i]@) =~= Seq::<XapKeyCodeView>::empty() + seq![k@]);
            } else {
                assert(lists@[i] == old_lists[i]);
                assert(names@[i] == old_names[i]);
                assert(keycodes_view(lists@[i]@) =~= keycodes_view(old_lists[i]@) + Seq::empty());
            }
        }
        assert(spec_distinct_names(names@));
        assert(!spec_has_name(old_names, spec_group_name(k@)));
    }
}

proof fn lemma_members_step(m: Map<u16, XapKeyCodeView>, name: Seq<char>, n: nat)
    requires
        n < 0x10000,
    ensures
        spec_group_members(m, name, n + 1) == (if m.contains_key(n as u16) && spec_group_name(
            m[n as u16],
        ) == name {
            spec_group_members(m, name, n).push(m[n as u16])
        } else {
            spec_group_members(m, name, n)
        }),
{
}

impl XapConstants {
    /// Groups the keycodes of the tables by category, each category sorted
    /// by code; the lighting tables are kept as they are.
    #[verifier::rlimit(50)]
    pub fn from(constants: crate::constants::XapConstants) -> (r: XapConstants)
        ensures
            forall|i: int|
                0 <= i < r.keycodes@.len() ==> keycodes_view(#[trigger] r.keycodes@[i].codes@)
                    == spec_category(
                    crate::constants::keycode_map_view(constants.keycodes@),
                    r.keycodes@[i].name@,
                ),
            forall|i: int, j: int|
                0 <= i < j < r.keycodes@.len() ==> #[trigger] r.keycodes@[i].name@
                    != #[trigger] r.keycodes@[j].name@,
            forall|c: u16|
                #[trigger] constants.keycodes@.contains_key(c) ==> spec_has_category(
                    r.keycodes@,
                    spec_group_name(constants.keycodes@[c]@),
                ),
            forall|i: int|
                0 <= i < r.keycodes@.len() ==> spec_is_group_of_some(
                    constants.keycodes@,
                    #[trigger] r.keycodes@[i].name@,
                ),
            r.rgblight_modes == constants.rgblight_modes,
            r.rgb_matrix_modes == constants.rgb_matrix_modes,
            r.led_matrix_modes == constants.led_matrix_modes,
    {
        let ghost m = crate::constants::keycode_map_view(constants.keycodes@);
        let mut names: Vec<String> = Vec::new();
        let mut lists: Vec<Vec<XapKeyCode>> = Vec::new();
        let mut code: u32 = 0;
        while code < 0x10000
            invariant
                code <= 0x10000,
                m == crate::constants::keycode_map_view(constants.keycodes@),
                names@.len() == lists@.len(),
                forall|i: int|
                    0 <= i < lists@.len() ==> keycodes_view(#[trigger] lists@[i]@)
                        == spec_group_members(m, names@[i]@, code as nat),
                forall|i: int| 0 <= i < lists@.len() ==> (#[trigger] lists@[i])@.len() > 0,
                spec_distinct_names(names@),
                forall|c: u16|
                    c < code && #[trigger] m.contains_key(c) ==> spec_has_name(
                        names@,
                        spec_group_name(m[c]),
                    ),
            decreases 0x10000 - code,
        {
            let c = code as u16;
            let ghost old_names = names@;
            let ghost old_lists = lists@;
            match constants.keycodes.get(&c) {
                Some(k) => {
                    proof {
                        if spec_has_name(old_names, spec_group_name(k@)) {
                        } else {
                            assert forall|cc: u16|
                                cc < code && #[trigger] m.contains_key(cc) implies spec_group_name(
                                    m[cc],
                                ) != spec_group_name(k@) by {}
                            lemma_members_empty_without_name(m, spec_group_name(k@), code as nat);
                        }
                    }
                    place_keycode(&mut names, &mut lists, k);
                    proof {
                        assert forall|i: int| 0 <= i < lists@.len() implies keycodes_view(
                            #[trigger] lists@[i]@,
                        ) == spec_group_members(m, names@[i]@, code as nat + 1) by {
                            lemma_members_step(m, names@[i]@, code as nat);
                            if i < old_lists.len() {
                                assert(names@[i] == old_names[i]);
                            }
                        }
                        assert forall|cc: u16|
                            cc < code + 1 && #[trigger] m.contains_key(cc) implies spec_has_name(
                            names@,
                            spec_group_name(m[cc]),
                        ) by {
                            if cc < code {
                                lemma_has_name_grows(old_names, names@, spec_group_name(m[cc]));
                            }
                        }
                    }
                },
                None => {
                    proof {
                        assert forall|i: int| 0 <= i < lists@.len() implies keycodes_view(
                            #[trigger] lists@[i]@,
                        ) == spec_group_members(m, names@[i]@, code as nat + 1) by {
                            lemma_members_step(m, names@[i]@, code as nat);
                        }
                    }
                },
            }
            code = code + 1;
        }
        let mut categories: Vec<XapKeyCodeCategory> = Vec::new();
        let mut names = names;
        let mut lists = lists;
        let ghost all_names = names@;
        let ghost all_lists = lists@;
        let count: usize = lists.len();
        let mut i: usize = 0;
        while lists.len() > 0
            invariant
                names@.len() == lists@.len(),
                all_names.len() == all_lists.len(),
                count == all_lists.len(),
                i + lists@.len() == all_lists.len(),
                names@ == all_names.subrange(i as int, all_names.len() as int),
                lists@ == all_lists.subrange(i as int, all_lists.len() as int),
                categories@.len() == i,
                m == crate::constants::keycode_map_view(constants.keycodes@),
                forall|x: int|
                    0 <= x < all_lists.len() ==> keycodes_view(#[trigger] all_lists[x]@)
                        == spec_group_members(m, all_names[x]@, 0x10000),
                forall|x: int| 0 <= x < all_lists.len() ==> (#[trigger] all_lists[x])@.len() > 0,
                spec_distinct_names(all_names),
                forall|c: u16| #[trigger]
                    m.contains_key(c) ==> spec_has_name(all_names, spec_group_name(m[c])),
                forall|x: int|
                    0 <= x < i ==> (#[trigger] categories@[x]).name@ == all_names[x]@
                        && keycodes_view(categories@[x].codes@) == spec_sorted_by(
                        keycodes_view(all_lists[x]@),
                        spec_code_lt(),
                    ),
            decreases lists@.len(),
        {
            let name = names.remove(0);
            let list = lists.remove(0);
            categories.push(XapKeyCodeCategory { name, codes: sort_keycodes_by_code(list) });
            i = i + 1;
        }
        proof {
            assert forall|x: int| 0 <= x < categories@.len() implies keycodes_view(
                #[trigger] categories@[x].codes@,
            ) == spec_category(m, categories@[x].name@) by {}
            assert forall|x: int, y: int|
                0 <= x < y < categories@.len() implies #[trigger] categories@[x].name@
                != #[trigger] categories@[y].name@ by {
                assert(all_names[x]@ != all_names[y]@);
            }
            assert forall|c: u16| #[trigger]
                constants.keycodes@.contains_key(c) implies spec_has_category(
                categories@,
                spec_group_name(constants.keycodes@[c]@),
            ) by {
                assert(m.contains_key(c));
                assert(spec_has_name(all_names, spec_group_name(m[c])));
                let x = choose|x: int|
                    0 <= x < all_names.len() && #[trigger] all_names[x]@ == spec_group_name(m[c]);
                assert(categories@[x].name@ == spec_group_name(constants.keycodes@[c]@));
            }
            assert forall|x: int| 0 <= x < categories@.len() implies spec_is_group_of_some(
                constants.keycodes@,
                #[trigger] categories@[x].name@,
            ) by {
                assert(all_lists[x]@.len() > 0);
                assert(keycodes_view(all_lists[x]@).len() > 0);
                lemma_members_witness(m, all_names[x]@, 0x10000);
                let c = choose|c: u16| #[trigger] m.contains_key(c) && spec_group_name(m[c])
                    == all_names[x]@;
                assert(constants.keycodes@.contains_key(c));
            }
        }
        XapConstants {
            keycodes: categories,
            rgblight_modes: constants.rgblight_modes,
            rgb_matrix_modes: constants.rgb_matrix_modes,
            led_matrix_modes: constants.led_matrix_modes,
        }
    }
}

/// A category name that no keycode below `n` has collects no members.
proof fn lemma_members_empty_without_name(m: Map<u16, XapKeyCodeView>, name: Seq<char>, n: nat)
    requires
        n <= 0x10000,
        forall|c: u16| c < n && #[trigger] m.contains_key(c) ==> spec_group_name(m[c]) != name,
    ensures
        spec_group_members(m, name, n) == Seq::<XapKeyCodeView>::empty(),
    decreases n,
{
    if n > 0 {
        lemma_members_empty_without_name(m, name, (n - 1) as nat);
    }
}

/// A category with members has a keycode of that category.
proof fn lemma_members_witness(m: Map<u16, XapKeyCodeView>, name: Seq<char>, n: nat)
    requires
        n <= 0x10000,
        spec_group_members(m, name, n).len() > 0,
    ensures
        exists|c: u16| #[trigger] m.contains_key(c) && spec_group_name(m[c]) == name,
    decreases n,
{
    if n > 0 {
        let c = (n - 1) as u16;
        if !(m.contains_key(c) && spec_group_name(m[c]) == name) {
            lemma_members_witness(m, name, (n - 1) as nat);
        }
    }
}

} // verus!
