//! Lighting effect tables of the XAP specification.
use std::collections::HashMap;

use vstd::prelude::*;
use vstd::std_specs::iter::IteratorSpec;

use crate::constants::keycode::{clone_opt_string, opt_string_view};

verus! {

broadcast use vstd::std_specs::hash::group_hash_axioms;

/// One lighting effect a firmware may offer.
#[derive(Clone, PartialEq, Debug)]
pub struct LightingEffect {
    pub code: u16,
    pub key: String,
    pub group: Option<String>,
    pub label: String,
}

/// The plain value of a lighting effect.
pub struct LightingEffectView {
    pub code: u16,
    pub key: Seq<char>,
    pub group: Option<Seq<char>>,
    pub label: Seq<char>,
}

impl View for LightingEffect {
    type V = LightingEffectView;

    open spec fn view(&self) -> LightingEffectView {
        LightingEffectView {
            code: self.code,
            key: self.key@,
            group: opt_string_view(self.group),
            label: self.label@,
        }
    }
}

impl LightingEffect {
    /// A copy of this effect.
    pub fn duplicate(&self) -> (r: LightingEffect)
        ensures
            r@ == self@,
    {
        LightingEffect {
            code: self.code,
            key: self.key.clone(),
            group: clone_opt_string(&self.group),
            label: self.label.clone(),
        }
    }
}

/// A named group of effects that a firmware enables together.
#[derive(Clone, Debug)]
pub struct LightingGroup {
    pub define: String,
}

/// The lighting effects of one lighting subsystem, keyed by effect code.
#[derive(Clone, Debug)]
pub struct LightingEffects {
    pub groups: Option<HashMap<String, LightingGroup>>,
    pub effects: HashMap<u16, LightingEffect>,
}

/// Whether bit `code` of the effect bit set is set.
pub open spec fn spec_effect_enabled(bits: u64, code: u16) -> bool {
    (bits >> code) & 1 == 1
}

/// The effects of codes `0..n` that are both known and enabled, in ascending code order.
pub open spec fn spec_effect_map(effects: Map<u16, LightingEffect>, bits: u64, n: nat) -> Seq<
    LightingEffectView,
>
    decreases n,
{
    if n == 0 {
        Seq::empty()
    } else {
        let code = (n - 1) as u16;
        let before = spec_effect_map(effects, bits, (n - 1) as nat);
        if effects.contains_key(code) && spec_effect_enabled(bits, code) {
            before.push(effects[code]@)
        } else {
            before
        }
    }
}

impl LightingEffects {
    /// Every effect code fits into the 64 bit effect set.
    pub open spec fn spec_codes_fit(&self) -> bool {
        forall|code: u16| #[trigger] self.effects@.contains_key(code) ==> code < 64
    }

    /// An empty table, used when no specification file describes the subsystem.
    pub fn empty() -> (r: LightingEffects)
        ensures
            r.groups is None,
            r.effects@ == Map::<u16, LightingEffect>::empty(),
    {
        LightingEffects { groups: None, effects: HashMap::new() }
    }

    /// Whether every effect code fits into the 64 bit effect set.
    pub fn codes_fit(&self) -> (r: bool)
        ensures
            r == self.spec_codes_fit(),
    {
        let mut all = true;
        for item in it: self.effects.iter()
            invariant
                all ==> forall|i: int| 0 <= i < it.index() ==> *(#[trigger] it.seq()[i]).0 < 64,
                !all ==> !self.spec_codes_fit(),
                it.seq() == vstd::std_specs::hash::spec_hash_map_iter(&self.effects).remaining(),
        {
            let (code, _) = item;
            if *code >= 64 {
                proof {
                    let v = vstd::std_specs::hash::spec_hash_map_iter(&self.effects).remaining();
                    assert(*item.0 == *v[it.index() as int].0);
                    assert(self.effects@.contains_key(*v[it.index() as int].0));
                }
                all = false;
            }
        }
        proof {
            if all {
                assert forall|code: u16| #[trigger] self.effects@.contains_key(code) implies code
                    < 64 by {
                    let v = vstd::std_specs::hash::spec_hash_map_iter(&self.effects).remaining();
                    assert(v.contains((&code, &self.effects@[code])));
                }
            }
        }
        all
    }

    /// The enabled effects that the table knows, ordered by code.
    pub fn get_effect_map(&self, effects: u64) -> (r: Vec<LightingEffect>)
        requires
            self.spec_codes_fit(),
        ensures
            r@.map_values(|e: LightingEffect| e@) == spec_effect_map(self.effects@, effects, 64),
    {
        let mut out: Vec<LightingEffect> = Vec::new();
        let mut code: u16 = 0;
        while code < 64
            invariant
                code <= 64,
                out@.map_values(|e: LightingEffect| e@) == spec_effect_map(
                    self.effects@,
                    effects,
                    code as nat,
                ),
            decreases 64 - code,
        {
            if (effects >> code) & 1 == 1 {
                match self.effects.get(&code) {
                    Some(effect) => {
                        let ghost before = out@;
                        out.push(effect.duplicate());
                        assert(out@.map_values(|e: LightingEffect| e@) =~= before.map_values(
                            |e: LightingEffect| e@,
                        ).push(self.effects@[code]@));
                    },
                    None => {},
                }
            }
            code = code + 1;
        }
        out
    }
}

} // verus!
