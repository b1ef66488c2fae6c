//! Constant tables of the XAP specification: keycodes and lighting effects.
use std::collections::HashMap;

use vstd::prelude::*;

use crate::constants::keycode::{spec_custom_keycode, XapKeyCode, XapKeyCodeView};
use crate::constants::lighting::{LightingEffect, LightingEffectView, LightingEffects};
use crate::text::{parse_hex_code, spec_parse_hex, spec_to_case, spec_trim_0x, to_case, TextCase};

pub mod keycode;
pub mod lighting;

verus! {

broadcast use vstd::std_specs::hash::group_hash_axioms;

/// The code written as a hexadecimal table key, as the tables are read.
pub open spec fn spec_table_code(raw: Seq<char>) -> Option<u16> {
    match spec_parse_hex(spec_trim_0x(raw), 0xFFFF) {
        Some(v) => Some(v as u16),
        None => None,
    }
}

/// The keycode table read from its entries in order: every key must be a
/// hexadecimal code, each keycode takes the code of its key, and a later entry
/// for the same code replaces an earlier one.
pub open spec fn spec_keycode_table(entries: Seq<(Seq<char>, XapKeyCodeView)>) -> Option<
    Map<u16, XapKeyCodeView>,
>
    decreases entries.len(),
{
    if entries.len() == 0 {
        Some(Map::empty())
    } else {
        let last = entries.last();
        match (spec_keycode_table(entries.drop_last()), spec_table_code(last.0)) {
            (Some(m), Some(code)) => Some(m.insert(code, XapKeyCodeView { code, ..last.1 })),
            _ => None,
        }
    }
}

/// The plain values of a keycode map.
pub open spec fn keycode_map_view(m: Map<u16, XapKeyCode>) -> Map<u16, XapKeyCodeView> {
    m.map_values(|k: XapKeyCode| k@)
}

/// The plain values of table entries.
pub open spec fn keycode_entries_view(entries: Seq<(String, XapKeyCode)>) -> Seq<
    (Seq<char>, XapKeyCodeView),
> {
    entries.map_values(|e: (String, XapKeyCode)| (e.0@, e.1@))
}

/// Reads a keycode table from its entries, each keyed by its code in
/// hexadecimal. `None` when a key is not such a code.
pub fn keycodes_from_hex_map(entries: Vec<(String, XapKeyCode)>) -> (r: Option<
    HashMap<u16, XapKeyCode>,
>)
    ensures
        match spec_keycode_table(keycode_entries_view(entries@)) {
            Some(m) => r matches Some(t) && keycode_map_view(t@) == m,
            None => r is None,
        },
{
    let ghost ev = keycode_entries_view(entries@);
    let mut result: HashMap<u16, XapKeyCode> = HashMap::new();
    let mut i: usize = 0;
    assert(ev.subrange(0, 0) =~= Seq::<(Seq<char>, XapKeyCodeView)>::empty());
    assert(keycode_map_view(result@) =~= Map::<u16, XapKeyCodeView>::empty());
    while i < entries.len()
        invariant
            i <= entries@.len(),
            ev == keycode_entries_view(entries@),
            spec_keycode_table(ev.subrange(0, i as int)) == Some(keycode_map_view(result@)),
        decreases entries@.len() - i,
    {
        let (raw, keycode) = (&entries[i].0, &entries[i].1);
        let code = match parse_hex_code(raw.as_str()) {
            Some(c) => c,
            None => {
                proof {
                    lemma_table_prefix_none(ev, i as int + 1);
                    assert(ev.subrange(0, i + 1).drop_last() =~= ev.subrange(0, i as int));
                }
                return None;
            },
        };
        let mut k = keycode.duplicate();
        k.code = code;
        let ghost before = result@;
        result.insert(code, k);
        proof {
            assert(ev.subrange(0, i + 1).drop_last() =~= ev.subrange(0, i as int));
            assert(keycode_map_view(result@) =~= keycode_map_view(before).insert(
                code,
                XapKeyCodeView { code, ..ev[i as int].1 },
            ));
        }
        i = i + 1;
    }
    assert(ev.subrange(0, entries@.len() as int) =~= ev);
    Some(result)
}

/// Once a prefix of the entries fails, the whole table fails.
proof fn lemma_table_prefix_none(entries: Seq<(Seq<char>, XapKeyCodeView)>, i: int)
    requires
        0 <= i <= entries.len(),
        spec_keycode_table(entries.subrange(0, i)) is None,
    ensures
        spec_keycode_table(entries) is None,
    decreases entries.len() - i,
{
    if i < entries.len() {
        assert(entries.subrange(0, i + 1).drop_last() =~= entries.subrange(0, i));
        lemma_table_prefix_none(entries, i + 1);
    } else {
        assert(entries.subrange(0, i) =~= entries);
    }
}

/// Adds the keycode table that the entries give to the keycodes read so far;
/// a code already there takes the new table's keycode. When a key of the
/// entries is not a hexadecimal code the table is refused: `false`, and the
/// keycodes stay as they were.
pub fn merge_keycode_table(all: &mut HashMap<u16, XapKeyCode>, entries: Vec<(String, XapKeyCode)>) -> (ok: bool)
    ensures
        match spec_keycode_table(keycode_entries_view(entries@)) {
            Some(m) => ok && keycode_map_view(final(all)@) == keycode_map_view(
                old(all)@,
            ).union_prefer_right(m),
            None => !ok && final(all)@ == old(all)@,
        },
{
    let ghost ev = keycode_entries_view(entries@);
    let ghost start = keycode_map_view(all@);
    let mut i: usize = 0;
    while i < entries.len()
        invariant
            i <= entries@.len(),
            ev == keycode_entries_view(entries@),
            spec_keycode_table(ev.subrange(0, i as int)) is Some,
        decreases entries@.len() - i,
    {
        if parse_hex_code(entries[i].0.as_str()).is_none() {
            proof {
                assert(ev[i as int].0 == entries@[i as int].0@);
                assert(ev.subrange(0, i + 1).drop_last() =~= ev.subrange(0, i as int));
                lemma_table_prefix_none(ev, i as int + 1);
            }
            return false;
        }
        proof {
            assert(ev[i as int].0 == entries@[i as int].0@);
            assert(ev.subrange(0, i + 1).drop_last() =~= ev.subrange(0, i as int));
        }
        i = i + 1;
    }
    assert(ev.subrange(0, entries@.len() as int) =~= ev);
    let mut j: usize = 0;
    assert(ev.subrange(0, 0) =~= Seq::<(Seq<char>, XapKeyCodeView)>::empty());
    assert(start.union_prefer_right(Map::<u16, XapKeyCodeView>::empty()) =~= start);
    while j < entries.len()
        invariant
            j <= entries@.len(),
            ev == keycode_entries_view(entries@),
            spec_keycode_table(ev) is Some,
            spec_keycode_table(ev.subrange(0, j as int)) matches Some(m) && keycode_map_view(all@)
                == start.union_prefer_right(m),
        decreases entries@.len() - j,
    {
        proof {
            assert(ev.subrange(0, j + 1).drop_last() =~= ev.subrange(0, j as int));
            if spec_keycode_table(ev.subrange(0, j + 1)) is None {
                lemma_table_prefix_none(ev, j as int + 1);
            }
            assert(ev[j as int].0 == entries@[j as int].0@);
            assert(ev[j as int].1 == entries@[j as int].1@);
        }
        let code = match parse_hex_code(entries[j].0.as_str()) {
            Some(c) => c,
            None => {
                proof {
                    assert(false);
                }
                return false;
            },
        };
        let mut k = entries[j].1.duplicate();
        k.code = code;
        let ghost before = all@;
        let ghost m = spec_keycode_table(ev.subrange(0, j as int))->0;
        all.insert(code, k);
        proof {
            assert(keycode_map_view(all@) =~= keycode_map_view(before).insert(
                code,
                XapKeyCodeView { code, ..ev[j as int].1 },
            ));
            assert(start.union_prefer_right(m).insert(code, XapKeyCodeView { code, ..ev[j as int].1 })
                =~= start.union_prefer_right(m.insert(code, XapKeyCodeView { code, ..ev[j as int].1 })));
        }
        j = j + 1;
    }
    assert(ev.subrange(0, entries@.len() as int) =~= ev);
    true
}

/// The lighting effect table read from its entries in order: every key must
/// be a hexadecimal code; each effect takes the code of its key and the
/// title case of its key name as label.
pub open spec fn spec_effect_table(entries: Seq<(Seq<char>, LightingEffectView)>) -> Option<
    Map<u16, LightingEffectView>,
>
    decreases entries.len(),
{
    if entries.len() == 0 {
        Some(Map::empty())
    } else {
        let last = entries.last();
        match (spec_effect_table(entries.drop_last()), spec_table_code(last.0)) {
            (Some(m), Some(code)) => Some(
                m.insert(
                    code,
                    LightingEffectView { code, label: spec_to_case(last.1.key, TextCase::Title), ..last.1 },
                ),
            ),
            _ => None,
        }
    }
}

/// The plain values of an effect map.
pub open spec fn effect_map_view(m: Map<u16, LightingEffect>) -> Map<u16, LightingEffectView> {
    m.map_values(|e: LightingEffect| e@)
}

/// The plain values of effect table entries.
pub open spec fn effect_entries_view(entries: Seq<(String, LightingEffect)>) -> Seq<
    (Seq<char>, LightingEffectView),
> {
    entries.map_values(|e: (String, LightingEffect)| (e.0@, e.1@))
}

proof fn lemma_effect_prefix_none(entries: Seq<(Seq<char>, LightingEffectView)>, i: int)
    requires
        0 <= i <= entries.len(),
        spec_effect_table(entries.subrange(0, i)) is None,
    ensures
        spec_effect_table(entries) is None,
    decreases entries.len() - i,
{
    if i < entries.len() {
        assert(entries.subrange(0, i + 1).drop_last() =~= entries.subrange(0, i));
        lemma_effect_prefix_none(entries, i + 1);
    } else {
        assert(entries.subrange(0, i) =~= entries);
    }
}

/// Reads a lighting effect table from its entries, each keyed by its code in
/// hexadecimal. `None` when a key is not such a code.
pub fn effects_from_hex_map(entries: Vec<(String, LightingEffect)>) -> (r: Option<
    HashMap<u16, LightingEffect>,
>)
    ensures
        match spec_effect_table(effect_entries_view(entries@)) {
            Some(m) => r matches Some(t) && effect_map_view(t@) == m,
            None => r is None,
        },
{
    let ghost ev = effect_entries_view(entries@);
    let mut result: HashMap<u16, LightingEffect> = HashMap::new();
    let mut i: usize = 0;
    assert(ev.subrange(0, 0) =~= Seq::<(Seq<char>, LightingEffectView)>::empty());
    assert(effect_map_view(result@) =~= Map::<u16, LightingEffectView>::empty());
    while i < entries.len()
        invariant
            i <= entries@.len(),
            ev == effect_entries_view(entries@),
            spec_effect_table(ev.subrange(0, i as int)) == Some(effect_map_view(result@)),
        decreases entries@.len() - i,
    {
        let (raw, effect) = (&entries[i].0, &entries[i].1);
        let code = match parse_hex_code(raw.as_str()) {
            Some(c) => c,
            None => {
                proof {
                    lemma_effect_prefix_none(ev, i as int + 1);
                    assert(ev.subrange(0, i + 1).drop_last() =~= ev.subrange(0, i as int));
                }
                return None;
            },
        };
        let mut e = effect.duplicate();
        e.code = code;
        e.label = to_case(effect.key.as_str(), TextCase::Title);
        let ghost before = result@;
        result.insert(code, e);
        proof {
            assert(ev.subrange(0, i + 1).drop_last() =~= ev.subrange(0, i as int));
            assert(effect_map_view(result@) =~= effect_map_view(before).insert(
                code,
                LightingEffectView { code, label: spec_to_case(ev[i as int].1.key, TextCase::Title), ..ev[i as int].1 },
            ));
        }
        i = i + 1;
    }
    assert(ev.subrange(0, entries@.len() as int) =~= ev);
    Some(result)
}

/// The keycode table alone, as the first generation of the client kept it.
#[derive(Debug, Clone)]
pub struct XAPConstants {
    pub keycodes: HashMap<u16, XapKeyCode>,
}

impl XAPConstants {
    /// The keycode table read from the specification files.
    pub fn new(keycodes: HashMap<u16, XapKeyCode>) -> (r: XAPConstants)
        ensures
            r.keycodes@ == keycodes@,
    {
        XAPConstants { keycodes }
    }
}

/// The constant tables: all keycodes by code and the effects of the three
/// lighting subsystems.
#[derive(Debug, Clone)]
pub struct XapConstants {
    pub keycodes: HashMap<u16, XapKeyCode>,
    pub rgblight_modes: LightingEffects,
    pub rgb_matrix_modes: LightingEffects,
    pub led_matrix_modes: LightingEffects,
}

impl XapConstants {
    /// The tables read from the specification files.
    pub fn new(
        keycodes: HashMap<u16, XapKeyCode>,
        rgblight_modes: LightingEffects,
        rgb_matrix_modes: LightingEffects,
        led_matrix_modes: LightingEffects,
    ) -> (r: XapConstants)
        ensures
            r.keycodes@ == keycodes@,
            r.rgblight_modes == rgblight_modes,
            r.rgb_matrix_modes == rgb_matrix_modes,
            r.led_matrix_modes == led_matrix_modes,
    {
        XapConstants { keycodes, rgblight_modes, rgb_matrix_modes, led_matrix_modes }
    }

    /// The keycode the tables give for `code`.
    pub open spec fn spec_keycode(&self, code: u16) -> XapKeyCodeView {
        if self.keycodes@.contains_key(code) {
            self.keycodes@[code]@
        } else {
            spec_custom_keycode(code)
        }
    }

    /// The keycode of `code`: the table entry, or a user defined keycode when
    /// no table describes the code.
    pub fn get_keycode(&self, code: u16) -> (r: XapKeyCode)
        ensures
            r@ == self.spec_keycode(code),
    {
        match self.keycodes.get(&code) {
            Some(k) => k.duplicate(),
            None => XapKeyCode::new_custom(code),
        }
    }
}

} // verus!
