//! The factory presets.
//!
//! A preset gives the values of the first [`PRESET_VALUES`] parameter slots
//! (Cutoff, XFeed, Angle, Center, Gain, L/R Swap, Solo, Phase, Calibration
//! mode), in thousandths.

use crate::parameters::any::{parameter_range, AnyParameter};
use crate::utils::text::str_eq;
use vstd::prelude::*;

verus! {

/// How many parameter slots a preset sets.
pub const PRESET_VALUES: usize = 9;

/// A factory preset: its display name, the key it is loaded by, and its values.
pub struct PresetDef {
    pub name: &'static str,
    pub load_key: &'static str,
    pub values: [i64; PRESET_VALUES],
}

/// The display names of the presets, in order.
pub open spec fn preset_names() -> Seq<Seq<char>> {
    seq!["Default"@, "Chu Moy"@, "Jan Meier"@]
}

/// The load keys of the presets, in order.
pub open spec fn preset_keys() -> Seq<Seq<char>> {
    seq!["default"@, "chu-moy"@, "jan-meier"@]
}

/// The values of the presets, in order (thousandths).
pub open spec fn preset_table() -> Seq<Seq<i64>> {
    seq![
        seq![822000i64, 6200, 30000, -270i64, 0, 0, 1000, 1000, 0],
        seq![700000i64, 6000, 30000, -270i64, 0, 0, 1000, 1000, 0],
        seq![650000i64, 9500, 30000, -270i64, 0, 0, 1000, 1000, 0],
    ]
}

/// The presets, in the order in which they are listed.
pub fn presets() -> (v: Vec<PresetDef>)
    ensures
        v@.len() == preset_keys().len(),
        forall|i: int|
            0 <= i < v@.len() ==> {
                &&& (#[trigger] v@[i]).name@ == preset_names()[i]
                &&& v@[i].load_key@ == preset_keys()[i]
                &&& v@[i].values@ == preset_table()[i]
            },
{
    let mut v: Vec<PresetDef> = Vec::new();
    v.push(
        PresetDef {
            name: "Default",
            load_key: "default",
            values: [822000, 6200, 30000, -270, 0, 0, 1000, 1000, 0],
        },
    );
    v.push(
        PresetDef {
            name: "Chu Moy",
            load_key: "chu-moy",
            values: [700000, 6000, 30000, -270, 0, 0, 1000, 1000, 0],
        },
    );
    v.push(
        PresetDef {
            name: "Jan Meier",
            load_key: "jan-meier",
            values: [650000, 9500, 30000, -270, 0, 0, 1000, 1000, 0],
        },
    );
    assert(v@[0].values@ =~= preset_table()[0]);
    assert(v@[1].values@ =~= preset_table()[1]);
    assert(v@[2].values@ =~= preset_table()[2]);
    v
}

/// The values of the preset loaded by `load_key`, or `None` if no preset has
/// that key.
pub fn preset_values(load_key: &str) -> (r: Option<[i64; PRESET_VALUES]>)
    ensures
        r is Some <==> preset_keys().contains(load_key@),
        r matches Some(values) ==> exists|i: int|
            0 <= i < preset_keys().len() && preset_keys()[i] == load_key@ && values@
                == preset_table()[i],
{
    let all = presets();
    let mut i: usize = 0;
    while i < all.len()
        invariant
            all@.len() == preset_keys().len(),
            forall|k: int|
                0 <= k < all@.len() ==> {
                    &&& (#[trigger] all@[k]).load_key@ == preset_keys()[k]
                    &&& all@[k].values@ == preset_table()[k]
                },
            0 <= i <= all@.len(),
            forall|k: int| 0 <= k < i ==> preset_keys()[k] != load_key@,
        decreases all@.len() - i,
    {
        if str_eq(all[i].load_key, load_key) {
            assert(preset_keys()[i as int] == load_key@);
            return Some(all[i].values);
        }
        i = i + 1;
    }
    assert(!preset_keys().contains(load_key@));
    None
}

/// No two presets share a load key, so a key names at most one preset.
pub proof fn lemma_preset_keys_distinct()
    ensures
        forall|i: int, j: int|
            0 <= i < j < preset_keys().len() ==> preset_keys()[i] != preset_keys()[j],
{
    reveal_strlit("default");
    reveal_strlit("chu-moy");
    reveal_strlit("jan-meier");
    assert(preset_keys()[0][0] != preset_keys()[1][0]);
    assert(preset_keys()[0][0] != preset_keys()[2][0]);
    assert(preset_keys()[1][0] != preset_keys()[2][0]);
}

} // verus!

verus! {

/// Every value of every preset is one its parameter accepts: a continuous
/// parameter's value lies within the range of the parameter's definition, and
/// a stepped parameter's value is one of its options.
pub proof fn lemma_presets_within_ranges(p: AnyParameter, i: int)
    requires
        p.defined(),
        p.spec_id() < PRESET_VALUES,
        0 <= i < preset_table().len(),
    ensures
        preset_table()[i].len() == PRESET_VALUES,
        p.accepts(preset_table()[i][p.spec_id() as int]),
{
    let v = preset_table()[i][p.spec_id() as int];
    match p {
        AnyParameter::CalibrationMode { inner } => {
            assert(v == 0);
            assert(inner.behave.options@[0] == 0);
        },
        AnyParameter::LRSwap { inner } => {
            assert(v == 0);
            assert(inner.behave.options@[0] == 0);
        },
        AnyParameter::Solo { inner } => {
            assert(v == 1000);
            assert(inner.behave.options@[1] == 1);
        },
        AnyParameter::Phase { inner } => {
            assert(v == 1000);
            assert(inner.behave.options@[1] == 1);
        },
        _ => {},
    }
}

/// The classic presets carry the bs2b library's classic crossfeed levels:
/// Chu Moy at 700 Hz and 6.0 dB, Jan Meier at 650 Hz and 9.5 dB; the plugin's
/// own default sits at 822 Hz and 6.2 dB. Each cutoff lies within the Cutoff
/// range and each level within the XFeed range.
pub proof fn lemma_presets_follow_bs2b_levels()
    ensures
        preset_table()[0][0] == 822000 && preset_table()[0][1] == 6200,
        preset_table()[1][0] == 700000 && preset_table()[1][1] == 6000,
        preset_table()[2][0] == 650000 && preset_table()[2][1] == 9500,
        forall|i: int|
            0 <= i < preset_table().len() ==> parameter_range(0).min <= #[trigger] preset_table()[i][0]
                <= parameter_range(0).max && parameter_range(1).min <= preset_table()[i][1]
                <= parameter_range(1).max,
{
}

} // verus!
