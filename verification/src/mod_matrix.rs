//! Modulation matrix rows and their mapping to engine source / target ids.
use vstd::prelude::*;

use crate::text::{ends_with, str_ends_with, str_eq, string_of};

verus! {

#[derive(Debug, Clone, Copy, PartialEq, Eq, Structural)]
pub enum ModPolarity {
    Positive,
    Negative,
    Bipolar,
}

/// One row of the modulation matrix; `amount` is in percent (−100..=100).
#[derive(Debug, Clone)]
pub struct ModSlotUi {
    pub source: &'static str,
    pub target: &'static str,
    pub amount: i32,
    pub curve: &'static str,
    pub enabled: bool,
    pub polarity: ModPolarity,
}

/// An engine modulation route with ids as the engine names them; the amount is kept
/// in percent of full scale.
#[derive(Debug, Clone)]
pub struct ModRoute {
    pub source: String,
    pub target: String,
    pub amount_percent: i32,
    pub enabled: bool,
}

/// An engine modulation slot as read back from a patch: the amount rounded to percent
/// and the polarity its sign gives.
#[derive(Debug, Clone)]
pub struct EngineModSlot {
    pub source: String,
    pub target: String,
    pub amount_percent: i32,
    pub polarity: ModPolarity,
    pub enabled: bool,
}

pub struct ModMatrixResult {
    pub changed: bool,
}

/// The matrix rows a panel edits, its open flag, and the number of route slots offered.
pub struct ModMatrixState<'a> {
    pub open: &'a mut bool,
    pub routes: &'a mut [ModSlotUi],
    pub total_routes: usize,
}

/// Engine source id of a UI source label; labels the table does not know pass through.
pub open spec fn source_label_to_engine(l: Seq<char>) -> Seq<char> {
    if l == "LFO 1"@ {
        "lfo1"@
    } else if l == "LFO 2"@ {
        "lfo2"@
    } else if l == "Env 2"@ {
        "filt_env"@
    } else if l == "Env 1"@ {
        "env"@
    } else if l == "Velo"@ {
        "velocity"@
    } else if l == "ModWh"@ {
        "modwheel"@
    } else if l == "After"@ {
        "aftertouch"@
    } else if l == "Step"@ {
        "step"@
    } else if l == "Rand"@ {
        "rand"@
    } else if l == "M1"@ {
        "macro1"@
    } else if l == "M2"@ {
        "macro2"@
    } else if l == "M3"@ {
        "macro3"@
    } else if l == "M4"@ {
        "macro4"@
    } else {
        l
    }
}

/// UI label of an engine source id; unknown ids show as `LFO 1`.
pub open spec fn engine_source_label(s: Seq<char>) -> Seq<char> {
    if s == "lfo1"@ || s == "lfo"@ {
        "LFO 1"@
    } else if s == "lfo2"@ {
        "LFO 2"@
    } else if s == "filt_env"@ || s == "env2"@ {
        "Env 2"@
    } else if s == "env1"@ || s == "env"@ {
        "Env 1"@
    } else if s == "velocity"@ || s == "vel"@ {
        "Velo"@
    } else if s == "modwheel"@ {
        "ModWh"@
    } else if s == "aftertouch"@ {
        "After"@
    } else if s == "step"@ {
        "Step"@
    } else if s == "rand"@ {
        "Rand"@
    } else if s == "macro1"@ || s == "m1"@ {
        "M1"@
    } else if s == "macro2"@ || s == "m2"@ {
        "M2"@
    } else if s == "macro3"@ || s == "m3"@ {
        "M3"@
    } else if s == "macro4"@ || s == "m4"@ {
        "M4"@
    } else {
        "LFO 1"@
    }
}

/// Engine target id of a UI target label; labels the table does not know pass through.
pub open spec fn target_label_to_engine(l: Seq<char>) -> Seq<char> {
    if l == "WT Pos"@ || l == "WT Fine"@ {
        "osc1_position"@
    } else if l == "WT Slot"@ {
        "osc1_wave_slot"@
    } else if l == "Cutoff"@ {
        "filter_cutoff"@
    } else if l == "Res"@ {
        "filter_resonance"@
    } else if l == "FM Idx"@ {
        "osc1_fm_index"@
    } else if l == "Pitch"@ || l == "Detune"@ {
        "osc1_detune"@
    } else if l == "Level"@ {
        "osc1_level"@
    } else if l == "Pan"@ {
        "osc1_pan"@
    } else {
        l
    }
}

/// UI label of an engine target id, matched by suffix; unknown ids show as `WT Pos`.
pub open spec fn engine_target_label(t: Seq<char>) -> Seq<char> {
    if ends_with(t, "_wave_slot"@) {
        "WT Slot"@
    } else if ends_with(t, "_position"@) {
        "WT Pos"@
    } else if t == "filter_cutoff"@ {
        "Cutoff"@
    } else if t == "filter_resonance"@ {
        "Res"@
    } else if ends_with(t, "_fm_index"@) {
        "FM Idx"@
    } else if ends_with(t, "_detune"@) {
        "Detune"@
    } else if ends_with(t, "_level"@) {
        "Level"@
    } else if ends_with(t, "_pan"@) {
        "Pan"@
    } else {
        "WT Pos"@
    }
}

/// The curve that follows `c` when its button is clicked: Lin → Exp → Step → Lin.
pub open spec fn next_curve(c: Seq<char>) -> Seq<char> {
    if c == "Lin"@ {
        "Exp"@
    } else if c == "Exp"@ {
        "Step"@
    } else {
        "Lin"@
    }
}

impl ModSlotUi {
    /// An enabled, bipolar `LFO 1 → WT Pos` row with no amount.
    pub fn default_slot() -> (r: Self)
        ensures
            r.source@ == "LFO 1"@,
            r.target@ == "WT Pos"@,
            r.amount == 0,
            r.curve@ == "Lin"@,
            r.enabled,
            r.polarity == ModPolarity::Bipolar,
    {
        ModSlotUi {
            source: "LFO 1",
            target: "WT Pos",
            amount: 0,
            curve: "Lin",
            enabled: true,
            polarity: ModPolarity::Bipolar,
        }
    }
}

/// Whether a row is the one that `source → target`, `amount`, `curve`, enabled, `polarity` describe.
pub open spec fn slot_is(
    s: ModSlotUi,
    source: Seq<char>,
    target: Seq<char>,
    amount: i32,
    curve: Seq<char>,
    polarity: ModPolarity,
) -> bool {
    &&& s.source@ == source
    &&& s.target@ == target
    &&& s.amount == amount
    &&& s.curve@ == curve
    &&& s.enabled
    &&& s.polarity == polarity
}

/// The three starting routes: LFO 1 → WT Pos, Env 2 → Cutoff, Velo → Level.
pub fn default_mod_slots() -> (r: Vec<ModSlotUi>)
    ensures
        r@.len() == 3,
        slot_is(r@[0], "LFO 1"@, "WT Pos"@, 15, "Lin"@, ModPolarity::Bipolar),
        slot_is(r@[1], "Env 2"@, "Cutoff"@, 25, "Exp"@, ModPolarity::Positive),
        slot_is(r@[2], "Velo"@, "Level"@, 35, "Lin"@, ModPolarity::Positive),
{
    let mut v: Vec<ModSlotUi> = Vec::new();
    v.push(
        ModSlotUi {
            source: "LFO 1",
            target: "WT Pos",
            amount: 15,
            curve: "Lin",
            enabled: true,
            polarity: ModPolarity::Bipolar,
        },
    );
    v.push(
        ModSlotUi {
            source: "Env 2",
            target: "Cutoff",
            amount: 25,
            curve: "Exp",
            enabled: true,
            polarity: ModPolarity::Positive,
        },
    );
    v.push(
        ModSlotUi {
            source: "Velo",
            target: "Level",
            amount: 35,
            curve: "Lin",
            enabled: true,
            polarity: ModPolarity::Positive,
        },
    );
    v
}

/// Engine source id of a UI source label (always `Some`: unknown labels pass through).
pub fn ui_source_to_engine(label: &str) -> (r: Option<String>)
    ensures
        r is Some,
        r->0@ == source_label_to_engine(label@),
{
    let id: &str = if str_eq(label, "LFO 1") {
        "lfo1"
    } else if str_eq(label, "LFO 2") {
        "lfo2"
    } else if str_eq(label, "Env 2") {
        "filt_env"
    } else if str_eq(label, "Env 1") {
        "env"
    } else if str_eq(label, "Velo") {
        "velocity"
    } else if str_eq(label, "ModWh") {
        "modwheel"
    } else if str_eq(label, "After") {
        "aftertouch"
    } else if str_eq(label, "Step") {
        "step"
    } else if str_eq(label, "Rand") {
        "rand"
    } else if str_eq(label, "M1") {
        "macro1"
    } else if str_eq(label, "M2") {
        "macro2"
    } else if str_eq(label, "M3") {
        "macro3"
    } else if str_eq(label, "M4") {
        "macro4"
    } else {
        label
    };
    Some(string_of(id))
}

pub fn engine_source_to_ui(source: &str) -> (r: &'static str)
    ensures
        r@ == engine_source_label(source@),
{
    if str_eq(source, "lfo1") || str_eq(source, "lfo") {
        "LFO 1"
    } else if str_eq(source, "lfo2") {
        "LFO 2"
    } else if str_eq(source, "filt_env") || str_eq(source, "env2") {
        "Env 2"
    } else if str_eq(source, "env1") || str_eq(source, "env") {
        "Env 1"
    } else if str_eq(source, "velocity") || str_eq(source, "vel") {
        "Velo"
    } else if str_eq(source, "modwheel") {
        "ModWh"
    } else if str_eq(source, "aftertouch") {
        "After"
    } else if str_eq(source, "step") {
        "Step"
    } else if str_eq(source, "rand") {
        "Rand"
    } else if str_eq(source, "macro1") || str_eq(source, "m1") {
        "M1"
    } else if str_eq(source, "macro2") || str_eq(source, "m2") {
        "M2"
    } else if str_eq(source, "macro3") || str_eq(source, "m3") {
        "M3"
    } else if str_eq(source, "macro4") || str_eq(source, "m4") {
        "M4"
    } else {
        "LFO 1"
    }
}

/// Engine target id of a UI target label (always `Some`: unknown labels pass through).
pub fn ui_target_to_engine(label: &str) -> (r: Option<String>)
    ensures
        r is Some,
        r->0@ == target_label_to_engine(label@),
{
    let id: &str = if str_eq(label, "WT Pos") || str_eq(label, "WT Fine") {
        "osc1_position"
    } else if str_eq(label, "WT Slot") {
        "osc1_wave_slot"
    } else if str_eq(label, "Cutoff") {
        "filter_cutoff"
    } else if str_eq(label, "Res") {
        "filter_resonance"
    } else if str_eq(label, "FM Idx") {
        "osc1_fm_index"
    } else if str_eq(label, "Pitch") || str_eq(label, "Detune") {
        "osc1_detune"
    } else if str_eq(label, "Level") {
        "osc1_level"
    } else if str_eq(label, "Pan") {
        "osc1_pan"
    } else {
        label
    };
    Some(string_of(id))
}

/// Map UI automation target label to engine mod-matrix id.
pub fn automation_target_to_engine(label: &str) -> (r: String)
    ensures
        r@ == target_label_to_engine(label@),
{
    match ui_target_to_engine(label) {
        Some(id) => id,
        None => string_of("filter_cutoff"),
    }
}

pub fn engine_target_to_ui(target: &str) -> (r: &'static str)
    ensures
        r@ == engine_target_label(target@),
{
    if str_ends_with(target, "_wave_slot") {
        "WT Slot"
    } else if str_ends_with(target, "_position") {
        "WT Pos"
    } else if str_eq(target, "filter_cutoff") {
        "Cutoff"
    } else if str_eq(target, "filter_resonance") {
        "Res"
    } else if str_ends_with(target, "_fm_index") {
        "FM Idx"
    } else if str_ends_with(target, "_detune") {
        "Detune"
    } else if str_ends_with(target, "_level") {
        "Level"
    } else if str_ends_with(target, "_pan") {
        "Pan"
    } else {
        "WT Pos"
    }
}

/// Map UI rows to engine routes: every row is kept, in order, with its source and
/// target translated and its amount and enabled flag carried over.
pub fn mod_slots_to_patch(routes: &[ModSlotUi]) -> (r: Vec<ModRoute>)
    ensures
        r@.len() == routes@.len(),
        forall|i: int|
            0 <= i < r@.len() ==> {
                &&& (#[trigger] r@[i]).source@ == source_label_to_engine(routes@[i].source@)
                &&& r@[i].target@ == target_label_to_engine(routes@[i].target@)
                &&& r@[i].amount_percent == routes@[i].amount
                &&& r@[i].enabled == routes@[i].enabled
            },
{
    let mut out: Vec<ModRoute> = Vec::new();
    let mut i: usize = 0;
    while i < routes.len()
        invariant
            i <= routes@.len(),
            out@.len() == i,
            forall|j: int|
                0 <= j < i ==> {
                    &&& (#[trigger] out@[j]).source@ == source_label_to_engine(routes@[j].source@)
                    &&& out@[j].target@ == target_label_to_engine(routes@[j].target@)
                    &&& out@[j].amount_percent == routes@[j].amount
                    &&& out@[j].enabled == routes@[j].enabled
                },
        decreases routes@.len() - i,
    {
        let route = &routes[i];
        let source = match ui_source_to_engine(route.source) {
            Some(s) => s,
            None => string_of(route.source),
        };
        let target = match ui_target_to_engine(route.target) {
            Some(t) => t,
            None => string_of(route.target),
        };
        out.push(ModRoute { source, target, amount_percent: route.amount, enabled: route.enabled });
        i = i + 1;
    }
    out
}

/// UI row for one engine slot: labels from the engine ids, `Lin` curve.
pub fn mod_slot_from_engine(slot: &EngineModSlot) -> (r: ModSlotUi)
    ensures
        r.source@ == engine_source_label(slot.source@),
        r.target@ == engine_target_label(slot.target@),
        r.amount == slot.amount_percent,
        r.curve@ == "Lin"@,
        r.enabled == slot.enabled,
        r.polarity == slot.polarity,
{
    ModSlotUi {
        source: engine_source_to_ui(slot.source.as_str()),
        target: engine_target_to_ui(slot.target.as_str()),
        amount: slot.amount_percent,
        curve: "Lin",
        enabled: slot.enabled,
        polarity: slot.polarity,
    }
}

/// Hydrate UI rows from a patch's mod matrix; an empty matrix gives the default rows.
pub fn mod_slots_from_patch(slots: &[EngineModSlot]) -> (r: Vec<ModSlotUi>)
    ensures
        slots@.len() == 0 ==> r@.len() == 3,
        slots@.len() == 0 ==> slot_is(r@[0], "LFO 1"@, "WT Pos"@, 15, "Lin"@, ModPolarity::Bipolar),
        slots@.len() == 0 ==> slot_is(r@[1], "Env 2"@, "Cutoff"@, 25, "Exp"@, ModPolarity::Positive),
        slots@.len() == 0 ==> slot_is(r@[2], "Velo"@, "Level"@, 35, "Lin"@, ModPolarity::Positive),
        slots@.len() > 0 ==> r@.len() == slots@.len(),
        slots@.len() > 0 ==> forall|i: int|
            0 <= i < r@.len() ==> {
                &&& (#[trigger] r@[i]).source@ == engine_source_label(slots@[i].source@)
                &&& r@[i].target@ == engine_target_label(slots@[i].target@)
                &&& r@[i].amount == slots@[i].amount_percent
                &&& r@[i].curve@ == "Lin"@
                &&& r@[i].enabled == slots@[i].enabled
                &&& r@[i].polarity == slots@[i].polarity
            },
{
    if slots.len() == 0 {
        return default_mod_slots();
    }
    let mut out: Vec<ModSlotUi> = Vec::new();
    let mut i: usize = 0;
    while i < slots.len()
        invariant
            i <= slots@.len(),
            out@.len() == i,
            forall|j: int|
                0 <= j < i ==> {
                    &&& (#[trigger] out@[j]).source@ == engine_source_label(slots@[j].source@)
                    &&& out@[j].target@ == engine_target_label(slots@[j].target@)
                    &&& out@[j].amount == slots@[j].amount_percent
                    &&& out@[j].curve@ == "Lin"@
                    &&& out@[j].enabled == slots@[j].enabled
                    &&& out@[j].polarity == slots@[j].polarity
                },
        decreases slots@.len() - i,
    {
        out.push(mod_slot_from_engine(&slots[i]));
        i = i + 1;
    }
    out
}

/// Curve shown after clicking a row's curve button: Lin → Exp → Step → Lin.
pub fn next_mod_curve(curve: &str) -> (r: &'static str)
    ensures
        r@ == next_curve(curve@),
{
    if str_eq(curve, "Lin") {
        "Exp"
    } else if str_eq(curve, "Exp") {
        "Step"
    } else {
        "Lin"
    }
}

/// Polarity after the amount of a row is edited: a bipolar row stays bipolar, any other
/// row follows the sign of the new amount (zero counts as positive).
pub fn polarity_after_amount_edit(polarity: ModPolarity, amount: i32) -> (r: ModPolarity)
    ensures
        r == if polarity == ModPolarity::Bipolar {
            ModPolarity::Bipolar
        } else if amount < 0 {
            ModPolarity::Negative
        } else {
            ModPolarity::Positive
        },
{
    match polarity {
        ModPolarity::Bipolar => ModPolarity::Bipolar,
        _ => if amount < 0 {
            ModPolarity::Negative
        } else {
            ModPolarity::Positive
        },
    }
}

} // verus!

verus! {

/// The source labels offered in the matrix.
pub open spec fn known_source_labels() -> Seq<Seq<char>> {
    seq![
        "LFO 1"@,
        "LFO 2"@,
        "Env 2"@,
        "Env 1"@,
        "Velo"@,
        "ModWh"@,
        "After"@,
        "Step"@,
        "Rand"@,
        "M1"@,
        "M2"@,
        "M3"@,
        "M4"@,
    ]
}

/// Every source label offered in the matrix survives the trip to the engine id and back.
pub proof fn lemma_source_label_roundtrip(i: int)
    requires
        0 <= i < 13,
    ensures
        engine_source_label(source_label_to_engine(known_source_labels()[i]))
            == known_source_labels()[i],
{
    reveal_strlit("LFO 1");
    reveal_strlit("LFO 2");
    reveal_strlit("Env 2");
    reveal_strlit("Env 1");
    reveal_strlit("Velo");
    reveal_strlit("ModWh");
    reveal_strlit("After");
    reveal_strlit("Step");
    reveal_strlit("Rand");
    reveal_strlit("M1");
    reveal_strlit("M2");
    reveal_strlit("M3");
    reveal_strlit("M4");
    reveal_strlit("lfo1");
    reveal_strlit("lfo");
    reveal_strlit("lfo2");
    reveal_strlit("filt_env");
    reveal_strlit("env2");
    reveal_strlit("env1");
    reveal_strlit("env");
    reveal_strlit("velocity");
    reveal_strlit("vel");
    reveal_strlit("modwheel");
    reveal_strlit("aftertouch");
    reveal_strlit("step");
    reveal_strlit("rand");
    reveal_strlit("macro1");
    reveal_strlit("m1");
    reveal_strlit("macro2");
    reveal_strlit("m2");
    reveal_strlit("macro3");
    reveal_strlit("m3");
    reveal_strlit("macro4");
    reveal_strlit("m4");
    let l = known_source_labels()[i];
    let e = source_label_to_engine(l);
    if i == 0 {
        assert(l == "LFO 1"@);
        assert(e == "lfo1"@) by {
        }
        assert(engine_source_label(e) == l) by {
        }
    } else if i == 1 {
        assert(l == "LFO 2"@);
        assert(e == "lfo2"@) by {
            assert(l != "LFO 1"@) by { assert(l[4] != "LFO 1"@[4]); }
        }
        assert(engine_source_label(e) == l) by {
            assert(e != "lfo1"@) by { assert(e[3] != "lfo1"@[3]); }
            assert(e != "lfo"@) by { assert(e.len() != "lfo"@.len()); }
        }
    } else if i == 2 {
        assert(l == "Env 2"@);
        assert(e == "filt_env"@) by {
            assert(l != "LFO 1"@) by { assert(l[0] != "LFO 1"@[0]); }
            assert(l != "LFO 2"@) by { assert(l[0] != "LFO 2"@[0]); }
        }
        assert(engine_source_label(e) == l) by {
            assert(e != "lfo1"@) by { assert(e.len() != "lfo1"@.len()); }
            assert(e != "lfo"@) by { assert(e.len() != "lfo"@.len()); }
            assert(e != "lfo2"@) by { assert(e.len() != "lfo2"@.len()); }
        }
    } else if i == 3 {
        assert(l == "Env 1"@);
        assert(e == "env"@) by {
            assert(l != "LFO 1"@) by { assert(l[0] != "LFO 1"@[0]); }
            assert(l != "LFO 2"@) by { assert(l[0] != "LFO 2"@[0]); }
            assert(l != "Env 2"@) by { assert(l[4] != "Env 2"@[4]); }
        }
        assert(engine_source_label(e) == l) by {
            assert(e != "lfo1"@) by { assert(e.len() != "lfo1"@.len()); }
            assert(e != "lfo"@) by { assert(e[0] != "lfo"@[0]); }
            assert(e != "lfo2"@) by { assert(e.len() != "lfo2"@.len()); }
            assert(e != "filt_env"@) by { assert(e.len() != "filt_env"@.len()); }
            assert(e != "env2"@) by { assert(e.len() != "env2"@.len()); }
        }
    } else if i == 4 {
        assert(l == "Velo"@);
        assert(e == "velocity"@) by {
            assert(l != "LFO 1"@) by { assert(l.len() != "LFO 1"@.len()); }
            assert(l != "LFO 2"@) by { assert(l.len() != "LFO 2"@.len()); }
            assert(l != "Env 2"@) by { assert(l.len() != "Env 2"@.len()); }
            assert(l != "Env 1"@) by { assert(l.len() != "Env 1"@.len()); }
        }
        assert(engine_source_label(e) == l) by {
            assert(e != "lfo1"@) by { assert(e.len() != "lfo1"@.len()); }
            assert(e != "lfo"@) by { assert(e.len() != "lfo"@.len()); }
            assert(e != "lfo2"@) by { assert(e.len() != "lfo2"@.len()); }
            assert(e != "filt_env"@) by { assert(e[0] != "filt_env"@[0]); }
            assert(e != "env2"@) by { assert(e.len() != "env2"@.len()); }
            assert(e != "env1"@) by { assert(e.len() != "env1"@.len()); }
            assert(e != "env"@) by { assert(e.len() != "env"@.len()); }
        }
    } else if i == 5 {
        assert(l == "ModWh"@);
        assert(e == "modwheel"@) by {
            assert(l != "LFO 1"@) by { assert(l[0] != "LFO 1"@[0]); }
            assert(l != "LFO 2"@) by { assert(l[0] != "LFO 2"@[0]); }
            assert(l != "Env 2"@) by { assert(l[0] != "Env 2"@[0]); }
            assert(l != "Env 1"@) by { assert(l[0] != "Env 1"@[0]); }
            assert(l != "Velo"@) by { assert(l.len() != "Velo"@.len()); }
        }
        assert(engine_source_label(e) == l) by {
            assert(e != "lfo1"@) by { assert(e.len() != "lfo1"@.len()); }
            assert(e != "lfo"@) by { assert(e.len() != "lfo"@.len()); }
            assert(e != "lfo2"@) by { assert(e.len() != "lfo2"@.len()); }
            assert(e != "filt_env"@) by { assert(e[0] != "filt_env"@[0]); }
            assert(e != "env2"@) by { assert(e.len() != "env2"@.len()); }
            assert(e != "env1"@) by { assert(e.len() != "env1"@.len()); }
            assert(e != "env"@) by { assert(e.len() != "env"@.len()); }
            assert(e != "velocity"@) by { assert(e[0] != "velocity"@[0]); }
            assert(e != "vel"@) by { assert(e.len() != "vel"@.len()); }
        }
    } else if i == 6 {
        assert(l == "After"@);
        assert(e == "aftertouch"@) by {
            assert(l != "LFO 1"@) by { assert(l[0] != "LFO 1"@[0]); }
            assert(l != "LFO 2"@) by { assert(l[0] != "LFO 2"@[0]); }
            assert(l != "Env 2"@) by { assert(l[0] != "Env 2"@[0]); }
            assert(l != "Env 1"@) by { assert(l[0] != "Env 1"@[0]); }
            assert(l != "Velo"@) by { assert(l.len() != "Velo"@.len()); }
            assert(l != "ModWh"@) by { assert(l[0] != "ModWh"@[0]); }
        }
        assert(engine_source_label(e) == l) by {
            assert(e != "lfo1"@) by { assert(e.len() != "lfo1"@.len()); }
            assert(e != "lfo"@) by { assert(e.len() != "lfo"@.len()); }
            assert(e != "lfo2"@) by { assert(e.len() != "lfo2"@.len()); }
            assert(e != "filt_env"@) by { assert(e.len() != "filt_env"@.len()); }
            assert(e != "env2"@) by { assert(e.len() != "env2"@.len()); }
            assert(e != "env1"@) by { assert(e.len() != "env1"@.len()); }
            assert(e != "env"@) by { assert(e.len() != "env"@.len()); }
            assert(e != "velocity"@) by { assert(e.len() != "velocity"@.len()); }
            assert(e != "vel"@) by { assert(e.len() != "vel"@.len()); }
            assert(e != "modwheel"@) by { assert(e.len() != "modwheel"@.len()); }
        }
    } else if i == 7 {
        assert(l == "Step"@);
        assert(e == "step"@) by {
            assert(l != "LFO 1"@) by { assert(l.len() != "LFO 1"@.len()); }
            assert(l != "LFO 2"@) by { assert(l.len() != "LFO 2"@.len()); }
            assert(l != "Env 2"@) by { assert(l.len() != "Env 2"@.len()); }
            assert(l != "Env 1"@) by { assert(l.len() != "Env 1"@.len()); }
            assert(l != "Velo"@) by { assert(l[0] != "Velo"@[0]); }
            assert(l != "ModWh"@) by { assert(l.len() != "ModWh"@.len()); }
            assert(l != "After"@) by { assert(l.len() != "After"@.len()); }
        }
        assert(engine_source_label(e) == l) by {
            assert(e != "lfo1"@) by { assert(e[0] != "lfo1"@[0]); }
            assert(e != "lfo"@) by { assert(e.len() != "lfo"@.len()); }
            assert(e != "lfo2"@) by { assert(e[0] != "lfo2"@[0]); }
            assert(e != "filt_env"@) by { assert(e.len() != "filt_env"@.len()); }
            assert(e != "env2"@) by { assert(e[0] != "env2"@[0]); }
            assert(e != "env1"@) by { assert(e[0] != "env1"@[0]); }
            assert(e != "env"@) by { assert(e.len() != "env"@.len()); }
            assert(e != "velocity"@) by { assert(e.len() != "velocity"@.len()); }
            assert(e != "vel"@) by { assert(e.len() != "vel"@.len()); }
            assert(e != "modwheel"@) by { assert(e.len() != "modwheel"@.len()); }
            assert(e != "aftertouch"@) by { assert(e.len() != "aftertouch"@.len()); }
        }
    } else if i == 8 {
        assert(l == "Rand"@);
        assert(e == "rand"@) by {
            assert(l != "LFO 1"@) by { assert(l.len() != "LFO 1"@.len()); }
            assert(l != "LFO 2"@) by { assert(l.len() != "LFO 2"@.len()); }
            assert(l != "Env 2"@) by { assert(l.len() != "Env 2"@.len()); }
            assert(l != "Env 1"@) by { assert(l.len() != "Env 1"@.len()); }
            assert(l != "Velo"@) by { assert(l[0] != "Velo"@[0]); }
            assert(l != "ModWh"@) by { assert(l.len() != "ModWh"@.len()); }
            assert(l != "After"@) by { assert(l.len() != "After"@.len()); }
            assert(l != "Step"@) by { assert(l[0] != "Step"@[0]); }
        }
        assert(engine_source_label(e) == l) by {
            assert(e != "lfo1"@) by { assert(e[0] != "lfo1"@[0]); }
            assert(e != "lfo"@) by { assert(e.len() != "lfo"@.len()); }
            assert(e != "lfo2"@) by { assert(e[0] != "lfo2"@[0]); }
            assert(e != "filt_env"@) by { assert(e.len() != "filt_env"@.len()); }
            assert(e != "env2"@) by { assert(e[0] != "env2"@[0]); }
            assert(e != "env1"@) by { assert(e[0] != "env1"@[0]); }
            assert(e != "env"@) by { assert(e.len() != "env"@.len()); }
            assert(e != "velocity"@) by { assert(e.len() != "velocity"@.len()); }
            assert(e != "vel"@) by { assert(e.len() != "vel"@.len()); }
            assert(e != "modwheel"@) by { assert(e.len() != "modwheel"@.len()); }
            assert(e != "aftertouch"@) by { assert(e.len() != "aftertouch"@.len()); }
            assert(e != "step"@) by { assert(e[0] != "step"@[0]); }
        }
    } else if i == 9 {
        assert(l == "M1"@);
        assert(e == "macro1"@) by {
            assert(l != "LFO 1"@) by { assert(l.len() != "LFO 1"@.len()); }
            assert(l != "LFO 2"@) by { assert(l.len() != "LFO 2"@.len()); }
            assert(l != "Env 2"@) by { assert(l.len() != "Env 2"@.len()); }
            assert(l != "Env 1"@) by { assert(l.len() != "Env 1"@.len()); }
            assert(l != "Velo"@) by { assert(l.len() != "Velo"@.len()); }
            assert(l != "ModWh"@) by { assert(l.len() != "ModWh"@.len()); }
            assert(l != "After"@) by { assert(l.len() != "After"@.len()); }
            assert(l != "Step"@) by { assert(l.len() != "Step"@.len()); }
            assert(l != "Rand"@) by { assert(l.len() != "Rand"@.len()); }
        }
        assert(engine_source_label(e) == l) by {
            assert(e != "lfo1"@) by { assert(e.len() != "lfo1"@.len()); }
            assert(e != "lfo"@) by { assert(e.len() != "lfo"@.len()); }
            assert(e != "lfo2"@) by { assert(e.len() != "lfo2"@.len()); }
            assert(e != "filt_env"@) by { assert(e.len() != "filt_env"@.len()); }
            assert(e != "env2"@) by { assert(e.len() != "env2"@.len()); }
            assert(e != "env1"@) by { assert(e.len() != "env1"@.len()); }
            assert(e != "env"@) by { assert(e.len() != "env"@.len()); }
            assert(e != "velocity"@) by { assert(e.len() != "velocity"@.len()); }
            assert(e != "vel"@) by { assert(e.len() != "vel"@.len()); }
            assert(e != "modwheel"@) by { assert(e.len() != "modwheel"@.len()); }
            assert(e != "aftertouch"@) by { assert(e.len() != "aftertouch"@.len()); }
            assert(e != "step"@) by { assert(e.len() != "step"@.len()); }
            assert(e != "rand"@) by { assert(e.len() != "rand"@.len()); }
        }
    } else if i == 10 {
        assert(l == "M2"@);
        assert(e == "macro2"@) by {
            assert(l != "LFO 1"@) by { assert(l.len() != "LFO 1"@.len()); }
            assert(l != "LFO 2"@) by { assert(l.len() != "LFO 2"@.len()); }
            assert(l != "Env 2"@) by { assert(l.len() != "Env 2"@.len()); }
            assert(l != "Env 1"@) by { assert(l.len() != "Env 1"@.len()); }
            assert(l != "Velo"@) by { assert(l.len() != "Velo"@.len()); }
            assert(l != "ModWh"@) by { assert(l.len() != "ModWh"@.len()); }
            assert(l != "After"@) by { assert(l.len() != "After"@.len()); }
            assert(l != "Step"@) by { assert(l.len() != "Step"@.len()); }
            assert(l != "Rand"@) by { assert(l.len() != "Rand"@.len()); }
            assert(l != "M1"@) by { assert(l[1] != "M1"@[1]); }
        }
        assert(engine_source_label(e) == l) by {
            assert(e != "lfo1"@) by { assert(e.len() != "lfo1"@.len()); }
            assert(e != "lfo"@) by { assert(e.len() != "lfo"@.len()); }
            assert(e != "lfo2"@) by { assert(e.len() != "lfo2"@.len()); }
            assert(e != "filt_env"@) by { assert(e.len() != "filt_env"@.len()); }
            assert(e != "env2"@) by { assert(e.len() != "env2"@.len()); }
            assert(e != "env1"@) by { assert(e.len() != "env1"@.len()); }
            assert(e != "env"@) by { assert(e.len() != "env"@.len()); }
            assert(e != "velocity"@) by { assert(e.len() != "velocity"@.len()); }
            assert(e != "vel"@) by { assert(e.len() != "vel"@.len()); }
            assert(e != "modwheel"@) by { assert(e.len() != "modwheel"@.len()); }
            assert(e != "aftertouch"@) by { assert(e.len() != "aftertouch"@.len()); }
            assert(e != "step"@) by { assert(e.len() != "step"@.len()); }
            assert(e != "rand"@) by { assert(e.len() != "rand"@.len()); }
            assert(e != "macro1"@) by { assert(e[5] != "macro1"@[5]); }
            assert(e != "m1"@) by { assert(e.len() != "m1"@.len()); }
        }
    } else if i == 11 {
        assert(l == "M3"@);
        assert(e == "macro3"@) by {
            assert(l != "LFO 1"@) by { assert(l.len() != "LFO 1"@.len()); }
            assert(l != "LFO 2"@) by { assert(l.len() != "LFO 2"@.len()); }
            assert(l != "Env 2"@) by { assert(l.len() != "Env 2"@.len()); }
            assert(l != "Env 1"@) by { assert(l.len() != "Env 1"@.len()); }
            assert(l != "Velo"@) by { assert(l.len() != "Velo"@.len()); }
            assert(l != "ModWh"@) by { assert(l.len() != "ModWh"@.len()); }
            assert(l != "After"@) by { assert(l.len() != "After"@.len()); }
            assert(l != "Step"@) by { assert(l.len() != "Step"@.len()); }
            assert(l != "Rand"@) by { assert(l.len() != "Rand"@.len()); }
            assert(l != "M1"@) by { assert(l[1] != "M1"@[1]); }
            assert(l != "M2"@) by { assert(l[1] != "M2"@[1]); }
        }
        assert(engine_source_label(e) == l) by {
            assert(e != "lfo1"@) by { assert(e.len() != "lfo1"@.len()); }
            assert(e != "lfo"@) by { assert(e.len() != "lfo"@.len()); }
            assert(e != "lfo2"@) by { assert(e.len() != "lfo2"@.len()); }
            assert(e != "filt_env"@) by { assert(e.len() != "filt_env"@.len()); }
            assert(e != "env2"@) by { assert(e.len() != "env2"@.len()); }
            assert(e != "env1"@) by { assert(e.len() != "env1"@.len()); }
            assert(e != "env"@) by { assert(e.len() != "env"@.len()); }
            assert(e != "velocity"@) by { assert(e.len() != "velocity"@.len()); }
            assert(e != "vel"@) by { assert(e.len() != "vel"@.len()); }
            assert(e != "modwheel"@) by { assert(e.len() != "modwheel"@.len()); }
            assert(e != "aftertouch"@) by { assert(e.len() != "aftertouch"@.len()); }
            assert(e != "step"@) by { assert(e.len() != "step"@.len()); }
            assert(e != "rand"@) by { assert(e.len() != "rand"@.len()); }
            assert(e != "macro1"@) by { assert(e[5] != "macro1"@[5]); }
            assert(e != "m1"@) by { assert(e.len() != "m1"@.len()); }
            assert(e != "macro2"@) by { assert(e[5] != "macro2"@[5]); }
            assert(e != "m2"@) by { assert(e.len() != "m2"@.len()); }
        }
    } else if i == 12 {
        assert(l == "M4"@);
        assert(e == "macro4"@) by {
            assert(l != "LFO 1"@) by { assert(l.len() != "LFO 1"@.len()); }
            assert(l != "LFO 2"@) by { assert(l.len() != "LFO 2"@.len()); }
            assert(l != "Env 2"@) by { assert(l.len() != "Env 2"@.len()); }
            assert(l != "Env 1"@) by { assert(l.len() != "Env 1"@.len()); }
            assert(l != "Velo"@) by { assert(l.len() != "Velo"@.len()); }
            assert(l != "ModWh"@) by { assert(l.len() != "ModWh"@.len()); }
            assert(l != "After"@) by { assert(l.len() != "After"@.len()); }
            assert(l != "Step"@) by { assert(l.len() != "Step"@.len()); }
            assert(l != "Rand"@) by { assert(l.len() != "Rand"@.len()); }
            assert(l != "M1"@) by { assert(l[1] != "M1"@[1]); }
            assert(l != "M2"@) by { assert(l[1] != "M2"@[1]); }
            assert(l != "M3"@) by { assert(l[1] != "M3"@[1]); }
        }
        assert(engine_source_label(e) == l) by {
            assert(e != "lfo1"@) by { assert(e.len() != "lfo1"@.len()); }
            assert(e != "lfo"@) by { assert(e.len() != "lfo"@.len()); }
            assert(e != "lfo2"@) by { assert(e.len() != "lfo2"@.len()); }
            assert(e != "filt_env"@) by { assert(e.len() != "filt_env"@.len()); }
            assert(e != "env2"@) by { assert(e.len() != "env2"@.len()); }
            assert(e != "env1"@) by { assert(e.len() != "env1"@.len()); }
            assert(e != "env"@) by { assert(e.len() != "env"@.len()); }
            assert(e != "velocity"@) by { assert(e.len() != "velocity"@.len()); }
            assert(e != "vel"@) by { assert(e.len() != "vel"@.len()); }
            assert(e != "modwheel"@) by { assert(e.len() != "modwheel"@.len()); }
            assert(e != "aftertouch"@) by { assert(e.len() != "aftertouch"@.len()); }
            assert(e != "step"@) by { assert(e.len() != "step"@.len()); }
            assert(e != "rand"@) by { assert(e.len() != "rand"@.len()); }
            assert(e != "macro1"@) by { assert(e[5] != "macro1"@[5]); }
            assert(e != "m1"@) by { assert(e.len() != "m1"@.len()); }
            assert(e != "macro2"@) by { assert(e[5] != "macro2"@[5]); }
            assert(e != "m2"@) by { assert(e.len() != "m2"@.len()); }
            assert(e != "macro3"@) by { assert(e[5] != "macro3"@[5]); }
            assert(e != "m3"@) by { assert(e.len() != "m3"@.len()); }
        }
    }
}

} // verus!

verus! {

/// The target labels offered in the matrix.
pub open spec fn known_target_labels() -> Seq<Seq<char>> {
    seq!["WT Pos"@, "WT Fine"@, "WT Slot"@, "Cutoff"@, "Res"@, "FM Idx"@, "Pitch"@, "Detune"@, "Level"@, "Pan"@]
}

/// The label each offered target shows after a trip through the engine: `WT Fine`
/// shares the position id with `WT Pos`, and `Pitch` shares the detune id with `Detune`.
pub open spec fn canonical_target_labels() -> Seq<Seq<char>> {
    seq!["WT Pos"@, "WT Pos"@, "WT Slot"@, "Cutoff"@, "Res"@, "FM Idx"@, "Detune"@, "Detune"@, "Level"@, "Pan"@]
}

/// Every target label offered in the matrix comes back from the engine as its
/// canonical label.
pub proof fn lemma_target_label_roundtrip(i: int)
    requires
        0 <= i < 10,
    ensures
        engine_target_label(target_label_to_engine(known_target_labels()[i]))
            == canonical_target_labels()[i],
{
    reveal_strlit("Cutoff");
    reveal_strlit("Detune");
    reveal_strlit("FM Idx");
    reveal_strlit("Level");
    reveal_strlit("Pan");
    reveal_strlit("Pitch");
    reveal_strlit("Res");
    reveal_strlit("WT Fine");
    reveal_strlit("WT Pos");
    reveal_strlit("WT Slot");
    reveal_strlit("_detune");
    reveal_strlit("_fm_index");
    reveal_strlit("_level");
    reveal_strlit("_pan");
    reveal_strlit("_position");
    reveal_strlit("_wave_slot");
    reveal_strlit("filter_cutoff");
    reveal_strlit("filter_resonance");
    reveal_strlit("osc1_detune");
    reveal_strlit("osc1_fm_index");
    reveal_strlit("osc1_level");
    reveal_strlit("osc1_pan");
    reveal_strlit("osc1_position");
    reveal_strlit("osc1_wave_slot");
    let l = known_target_labels()[i];
    let e = target_label_to_engine(l);
    if i == 0 {
        assert(l == "WT Pos"@);
        assert(canonical_target_labels()[i] == "WT Pos"@);
        assert(e == "osc1_position"@) by {
        }
        assert(!ends_with(e, "_wave_slot"@)) by { assert(e.subrange(3, 13)[0] != "_wave_slot"@[0]); }
        assert(e.subrange(4, 13) =~= "_position"@);
    } else if i == 1 {
        assert(l == "WT Fine"@);
        assert(canonical_target_labels()[i] == "WT Pos"@);
        assert(e == "osc1_position"@) by {
            assert(l != "WT Pos"@) by { assert(l.len() != "WT Pos"@.len()); }
        }
        assert(!ends_with(e, "_wave_slot"@)) by { assert(e.subrange(3, 13)[0] != "_wave_slot"@[0]); }
        assert(e.subrange(4, 13) =~= "_position"@);
    } else if i == 2 {
        assert(l == "WT Slot"@);
        assert(canonical_target_labels()[i] == "WT Slot"@);
        assert(e == "osc1_wave_slot"@) by {
            assert(l != "WT Pos"@) by { assert(l.len() != "WT Pos"@.len()); }
            assert(l != "WT Fine"@) by { assert(l[3] != "WT Fine"@[3]); }
        }
        assert(e.subrange(4, 14) =~= "_wave_slot"@);
    } else if i == 3 {
        assert(l == "Cutoff"@);
        assert(canonical_target_labels()[i] == "Cutoff"@);
        assert(e == "filter_cutoff"@) by {
            assert(l != "WT Pos"@) by { assert(l[0] != "WT Pos"@[0]); }
            assert(l != "WT Fine"@) by { assert(l.len() != "WT Fine"@.len()); }
            assert(l != "WT Slot"@) by { assert(l.len() != "WT Slot"@.len()); }
        }
        assert(!ends_with(e, "_wave_slot"@)) by { assert(e.subrange(3, 13)[0] != "_wave_slot"@[0]); }
        assert(!ends_with(e, "_position"@)) by { assert(e.subrange(4, 13)[0] != "_position"@[0]); }
    } else if i == 4 {
        assert(l == "Res"@);
        assert(canonical_target_labels()[i] == "Res"@);
        assert(e == "filter_resonance"@) by {
            assert(l != "WT Pos"@) by { assert(l.len() != "WT Pos"@.len()); }
            assert(l != "WT Fine"@) by { assert(l.len() != "WT Fine"@.len()); }
            assert(l != "WT Slot"@) by { assert(l.len() != "WT Slot"@.len()); }
            assert(l != "Cutoff"@) by { assert(l.len() != "Cutoff"@.len()); }
        }
        assert(!ends_with(e, "_wave_slot"@)) by { assert(e.subrange(6, 16)[1] != "_wave_slot"@[1]); }
        assert(!ends_with(e, "_position"@)) by { assert(e.subrange(7, 16)[0] != "_position"@[0]); }
        assert(e != "filter_cutoff"@) by { assert(e.len() != "filter_cutoff"@.len()); }
    } else if i == 5 {
        assert(l == "FM Idx"@);
        assert(canonical_target_labels()[i] == "FM Idx"@);
        assert(e == "osc1_fm_index"@) by {
            assert(l != "WT Pos"@) by { assert(l[0] != "WT Pos"@[0]); }
            assert(l != "WT Fine"@) by { assert(l.len() != "WT Fine"@.len()); }
            assert(l != "WT Slot"@) by { assert(l.len() != "WT Slot"@.len()); }
            assert(l != "Cutoff"@) by { assert(l[0] != "Cutoff"@[0]); }
            assert(l != "Res"@) by { assert(l.len() != "Res"@.len()); }
        }
        assert(!ends_with(e, "_wave_slot"@)) by { assert(e.subrange(3, 13)[0] != "_wave_slot"@[0]); }
        assert(!ends_with(e, "_position"@)) by { assert(e.subrange(4, 13)[1] != "_position"@[1]); }
        assert(e != "filter_cutoff"@) by { assert(e[0] != "filter_cutoff"@[0]); }
        assert(e != "filter_resonance"@) by { assert(e.len() != "filter_resonance"@.len()); }
        assert(e.subrange(4, 13) =~= "_fm_index"@);
    } else if i == 6 {
        assert(l == "Pitch"@);
        assert(canonical_target_labels()[i] == "Detune"@);
        assert(e == "osc1_detune"@) by {
            assert(l != "WT Pos"@) by { assert(l.len() != "WT Pos"@.len()); }
            assert(l != "WT Fine"@) by { assert(l.len() != "WT Fine"@.len()); }
            assert(l != "WT Slot"@) by { assert(l.len() != "WT Slot"@.len()); }
            assert(l != "Cutoff"@) by { assert(l.len() != "Cutoff"@.len()); }
            assert(l != "Res"@) by { assert(l.len() != "Res"@.len()); }
            assert(l != "FM Idx"@) by { assert(l.len() != "FM Idx"@.len()); }
        }
        assert(!ends_with(e, "_wave_slot"@)) by { assert(e.subrange(1, 11)[0] != "_wave_slot"@[0]); }
        assert(!ends_with(e, "_position"@)) by { assert(e.subrange(2, 11)[0] != "_position"@[0]); }
        assert(e != "filter_cutoff"@) by { assert(e.len() != "filter_cutoff"@.len()); }
        assert(e != "filter_resonance"@) by { assert(e.len() != "filter_resonance"@.len()); }
        assert(!ends_with(e, "_fm_index"@)) by { assert(e.subrange(2, 11)[0] != "_fm_index"@[0]); }
        assert(e.subrange(4, 11) =~= "_detune"@);
    } else if i == 7 {
        assert(l == "Detune"@);
        assert(canonical_target_labels()[i] == "Detune"@);
        assert(e == "osc1_detune"@) by {
            assert(l != "WT Pos"@) by { assert(l[0] != "WT Pos"@[0]); }
            assert(l != "WT Fine"@) by { assert(l.len() != "WT Fine"@.len()); }
            assert(l != "WT Slot"@) by { assert(l.len() != "WT Slot"@.len()); }
            assert(l != "Cutoff"@) by { assert(l[0] != "Cutoff"@[0]); }
            assert(l != "Res"@) by { assert(l.len() != "Res"@.len()); }
            assert(l != "FM Idx"@) by { assert(l[0] != "FM Idx"@[0]); }
            assert(l != "Pitch"@) by { assert(l.len() != "Pitch"@.len()); }
        }
        assert(!ends_with(e, "_wave_slot"@)) by { assert(e.subrange(1, 11)[0] != "_wave_slot"@[0]); }
        assert(!ends_with(e, "_position"@)) by { assert(e.subrange(2, 11)[0] != "_position"@[0]); }
        assert(e != "filter_cutoff"@) by { assert(e.len() != "filter_cutoff"@.len()); }
        assert(e != "filter_resonance"@) by { assert(e.len() != "filter_resonance"@.len()); }
        assert(!ends_with(e, "_fm_index"@)) by { assert(e.subrange(2, 11)[0] != "_fm_index"@[0]); }
        assert(e.subrange(4, 11) =~= "_detune"@);
    } else if i == 8 {
        assert(l == "Level"@);
        assert(canonical_target_labels()[i] == "Level"@);
        assert(e == "osc1_level"@) by {
            assert(l != "WT Pos"@) by { assert(l.len() != "WT Pos"@.len()); }
            assert(l != "WT Fine"@) by { assert(l.len() != "WT Fine"@.len()); }
            assert(l != "WT Slot"@) by { assert(l.len() != "WT Slot"@.len()); }
            assert(l != "Cutoff"@) by { assert(l.len() != "Cutoff"@.len()); }
            assert(l != "Res"@) by { assert(l.len() != "Res"@.len()); }
            assert(l != "FM Idx"@) by { assert(l.len() != "FM Idx"@.len()); }
            assert(l != "Pitch"@) by { assert(l[0] != "Pitch"@[0]); }
            assert(l != "Detune"@) by { assert(l.len() != "Detune"@.len()); }
        }
        assert(!ends_with(e, "_wave_slot"@)) by { assert(e.subrange(0, 10)[0] != "_wave_slot"@[0]); }
        assert(!ends_with(e, "_position"@)) by { assert(e.subrange(1, 10)[0] != "_position"@[0]); }
        assert(e != "filter_cutoff"@) by { assert(e.len() != "filter_cutoff"@.len()); }
        assert(e != "filter_resonance"@) by { assert(e.len() != "filter_resonance"@.len()); }
        assert(!ends_with(e, "_fm_index"@)) by { assert(e.subrange(1, 10)[0] != "_fm_index"@[0]); }
        assert(!ends_with(e, "_detune"@)) by { assert(e.subrange(3, 10)[0] != "_detune"@[0]); }
        assert(e.subrange(4, 10) =~= "_level"@);
    } else if i == 9 {
        assert(l == "Pan"@);
        assert(canonical_target_labels()[i] == "Pan"@);
        assert(e == "osc1_pan"@) by {
            assert(l != "WT Pos"@) by { assert(l.len() != "WT Pos"@.len()); }
            assert(l != "WT Fine"@) by { assert(l.len() != "WT Fine"@.len()); }
            assert(l != "WT Slot"@) by { assert(l.len() != "WT Slot"@.len()); }
            assert(l != "Cutoff"@) by { assert(l.len() != "Cutoff"@.len()); }
            assert(l != "Res"@) by { assert(l[0] != "Res"@[0]); }
            assert(l != "FM Idx"@) by { assert(l.len() != "FM Idx"@.len()); }
            assert(l != "Pitch"@) by { assert(l.len() != "Pitch"@.len()); }
            assert(l != "Detune"@) by { assert(l.len() != "Detune"@.len()); }
            assert(l != "Level"@) by { assert(l.len() != "Level"@.len()); }
        }
        assert(!ends_with(e, "_wave_slot"@)) by { assert("_wave_slot"@.len() > e.len()); }
        assert(!ends_with(e, "_position"@)) by { assert("_position"@.len() > e.len()); }
        assert(e != "filter_cutoff"@) by { assert(e.len() != "filter_cutoff"@.len()); }
        assert(e != "filter_resonance"@) by { assert(e.len() != "filter_resonance"@.len()); }
        assert(!ends_with(e, "_fm_index"@)) by { assert("_fm_index"@.len() > e.len()); }
        assert(!ends_with(e, "_detune"@)) by { assert(e.subrange(1, 8)[0] != "_detune"@[0]); }
        assert(!ends_with(e, "_level"@)) by { assert(e.subrange(2, 8)[0] != "_level"@[0]); }
        assert(e.subrange(4, 8) =~= "_pan"@);
    }
}

} // verus!

verus! {

/// How the engine reports back a route it was given: the same ids and flag, the amount
/// (a whole percentage) unchanged, and the polarity its sign gives.
pub open spec fn spec_readback_polarity(amount_percent: i32) -> ModPolarity {
    if amount_percent < 0 {
        ModPolarity::Negative
    } else if amount_percent > 0 {
        ModPolarity::Positive
    } else {
        ModPolarity::Bipolar
    }
}

/// The slot a patch holds after storing `route`.
pub fn route_readback(route: &ModRoute) -> (r: EngineModSlot)
    ensures
        r.source@ == route.source@,
        r.target@ == route.target@,
        r.amount_percent == route.amount_percent,
        r.polarity == spec_readback_polarity(route.amount_percent),
        r.enabled == route.enabled,
{
    let polarity = if route.amount_percent < 0 {
        ModPolarity::Negative
    } else if route.amount_percent > 0 {
        ModPolarity::Positive
    } else {
        ModPolarity::Bipolar
    };
    EngineModSlot {
        source: string_of(route.source.as_str()),
        target: string_of(route.target.as_str()),
        amount_percent: route.amount_percent,
        polarity,
        enabled: route.enabled,
    }
}

/// The slots a patch holds after storing `routes`, in order.
pub fn routes_readback(routes: &[ModRoute]) -> (r: Vec<EngineModSlot>)
    ensures
        r@.len() == routes@.len(),
        forall|i: int|
            0 <= i < r@.len() ==> {
                &&& (#[trigger] r@[i]).source@ == routes@[i].source@
                &&& r@[i].target@ == routes@[i].target@
                &&& r@[i].amount_percent == routes@[i].amount_percent
                &&& r@[i].polarity == spec_readback_polarity(routes@[i].amount_percent)
                &&& r@[i].enabled == routes@[i].enabled
            },
{
    let mut out: Vec<EngineModSlot> = Vec::new();
    let mut i: usize = 0;
    while i < routes.len()
        invariant
            i <= routes@.len(),
            out@.len() == i,
            forall|j: int|
                0 <= j < i ==> {
                    &&& (#[trigger] out@[j]).source@ == routes@[j].source@
                    &&& out@[j].target@ == routes@[j].target@
                    &&& out@[j].amount_percent == routes@[j].amount_percent
                    &&& out@[j].polarity == spec_readback_polarity(routes@[j].amount_percent)
                    &&& out@[j].enabled == routes@[j].enabled
                },
        decreases routes@.len() - i,
    {
        out.push(route_readback(&routes[i]));
        i = i + 1;
    }
    out
}

/// The engine id of every source the matrix offers, and the label every engine source
/// id (and its short alias) reads back as: `LFO 1`/`LFO 2` are `lfo1`/`lfo2`, `Env 2`
/// is the filter envelope `filt_env`, `Env 1` the amp envelope `env`, `Velo` is
/// `velocity`, `ModWh` `modwheel`, `After` `aftertouch`, `Step` `step`, `Rand` `rand`,
/// and `M1`–`M4` the macros `macro1`–`macro4`.
pub proof fn lemma_source_engine_ids()
    ensures
        source_label_to_engine("LFO 1"@) == "lfo1"@,
        source_label_to_engine("LFO 2"@) == "lfo2"@,
        source_label_to_engine("Env 2"@) == "filt_env"@,
        source_label_to_engine("Env 1"@) == "env"@,
        source_label_to_engine("Velo"@) == "velocity"@,
        source_label_to_engine("ModWh"@) == "modwheel"@,
        source_label_to_engine("After"@) == "aftertouch"@,
        source_label_to_engine("Step"@) == "step"@,
        source_label_to_engine("Rand"@) == "rand"@,
        source_label_to_engine("M1"@) == "macro1"@,
        source_label_to_engine("M2"@) == "macro2"@,
        source_label_to_engine("M3"@) == "macro3"@,
        source_label_to_engine("M4"@) == "macro4"@,
        engine_source_label("lfo1"@) == "LFO 1"@,
        engine_source_label("lfo"@) == "LFO 1"@,
        engine_source_label("lfo2"@) == "LFO 2"@,
        engine_source_label("filt_env"@) == "Env 2"@,
        engine_source_label("env2"@) == "Env 2"@,
        engine_source_label("env1"@) == "Env 1"@,
        engine_source_label("env"@) == "Env 1"@,
        engine_source_label("velocity"@) == "Velo"@,
        engine_source_label("vel"@) == "Velo"@,
        engine_source_label("modwheel"@) == "ModWh"@,
        engine_source_label("aftertouch"@) == "After"@,
        engine_source_label("step"@) == "Step"@,
        engine_source_label("rand"@) == "Rand"@,
        engine_source_label("macro1"@) == "M1"@,
        engine_source_label("m1"@) == "M1"@,
        engine_source_label("macro2"@) == "M2"@,
        engine_source_label("m2"@) == "M2"@,
        engine_source_label("macro3"@) == "M3"@,
        engine_source_label("m3"@) == "M3"@,
        engine_source_label("macro4"@) == "M4"@,
        engine_source_label("m4"@) == "M4"@,
{
    reveal_strlit("After");
    reveal_strlit("Env 1");
    reveal_strlit("Env 2");
    reveal_strlit("LFO 1");
    reveal_strlit("LFO 2");
    reveal_strlit("M1");
    reveal_strlit("M2");
    reveal_strlit("M3");
    reveal_strlit("M4");
    reveal_strlit("ModWh");
    reveal_strlit("Rand");
    reveal_strlit("Step");
    reveal_strlit("Velo");
    reveal_strlit("aftertouch");
    reveal_strlit("env");
    reveal_strlit("env1");
    reveal_strlit("env2");
    reveal_strlit("filt_env");
    reveal_strlit("lfo");
    reveal_strlit("lfo1");
    reveal_strlit("lfo2");
    reveal_strlit("m1");
    reveal_strlit("m2");
    reveal_strlit("m3");
    reveal_strlit("m4");
    reveal_strlit("macro1");
    reveal_strlit("macro2");
    reveal_strlit("macro3");
    reveal_strlit("macro4");
    reveal_strlit("modwheel");
    reveal_strlit("rand");
    reveal_strlit("step");
    reveal_strlit("vel");
    reveal_strlit("velocity");
        assert("LFO 2"@ != "LFO 1"@) by { assert("LFO 2"@[4] != "LFO 1"@[4]); }
        assert("Env 2"@ != "LFO 1"@) by { assert("Env 2"@[0] != "LFO 1"@[0]); }
        assert("Env 2"@ != "LFO 2"@) by { assert("Env 2"@[0] != "LFO 2"@[0]); }
        assert("Env 1"@ != "LFO 1"@) by { assert("Env 1"@[0] != "LFO 1"@[0]); }
        assert("Env 1"@ != "LFO 2"@) by { assert("Env 1"@[0] != "LFO 2"@[0]); }
        assert("Env 1"@ != "Env 2"@) by { assert("Env 1"@[4] != "Env 2"@[4]); }
        assert("Velo"@ != "LFO 1"@) by { assert("Velo"@.len() != "LFO 1"@.len()); }
        assert("Velo"@ != "LFO 2"@) by { assert("Velo"@.len() != "LFO 2"@.len()); }
        assert("Velo"@ != "Env 2"@) by { assert("Velo"@.len() != "Env 2"@.len()); }
        assert("Velo"@ != "Env 1"@) by { assert("Velo"@.len() != "Env 1"@.len()); }
        assert("ModWh"@ != "LFO 1"@) by { assert("ModWh"@[0] != "LFO 1"@[0]); }
        assert("ModWh"@ != "LFO 2"@) by { assert("ModWh"@[0] != "LFO 2"@[0]); }
        assert("ModWh"@ != "Env 2"@) by { assert("ModWh"@[0] != "Env 2"@[0]); }
        assert("ModWh"@ != "Env 1"@) by { assert("ModWh"@[0] != "Env 1"@[0]); }
        assert("ModWh"@ != "Velo"@) by { assert("ModWh"@.len() != "Velo"@.len()); }
        assert("After"@ != "LFO 1"@) by { assert("After"@[0] != "LFO 1"@[0]); }
        assert("After"@ != "LFO 2"@) by { assert("After"@[0] != "LFO 2"@[0]); }
        assert("After"@ != "Env 2"@) by { assert("After"@[0] != "Env 2"@[0]); }
        assert("After"@ != "Env 1"@) by { assert("After"@[0] != "Env 1"@[0]); }
        assert("After"@ != "Velo"@) by { assert("After"@.len() != "Velo"@.len()); }
        assert("After"@ != "ModWh"@) by { assert("After"@[0] != "ModWh"@[0]); }
        assert("Step"@ != "LFO 1"@) by { assert("Step"@.len() != "LFO 1"@.len()); }
        assert("Step"@ != "LFO 2"@) by { assert("Step"@.len() != "LFO 2"@.len()); }
        assert("Step"@ != "Env 2"@) by { assert("Step"@.len() != "Env 2"@.len()); }
        assert("Step"@ != "Env 1"@) by { assert("Step"@.len() != "Env 1"@.len()); }
        assert("Step"@ != "Velo"@) by { assert("Step"@[0] != "Velo"@[0]); }
        assert("Step"@ != "ModWh"@) by { assert("Step"@.len() != "ModWh"@.len()); }
        assert("Step"@ != "After"@) by { assert("Step"@.len() != "After"@.len()); }
        assert("Rand"@ != "LFO 1"@) by { assert("Rand"@.len() != "LFO 1"@.len()); }
        assert("Rand"@ != "LFO 2"@) by { assert("Rand"@.len() != "LFO 2"@.len()); }
        assert("Rand"@ != "Env 2"@) by { assert("Rand"@.len() != "Env 2"@.len()); }
        assert("Rand"@ != "Env 1"@) by { assert("Rand"@.len() != "Env 1"@.len()); }
        assert("Rand"@ != "Velo"@) by { assert("Rand"@[0] != "Velo"@[0]); }
        assert("Rand"@ != "ModWh"@) by { assert("Rand"@.len() != "ModWh"@.len()); }
        assert("Rand"@ != "After"@) by { assert("Rand"@.len() != "After"@.len()); }
        assert("Rand"@ != "Step"@) by { assert("Rand"@[0] != "Step"@[0]); }
        assert("M1"@ != "LFO 1"@) by { assert("M1"@.len() != "LFO 1"@.len()); }
        assert("M1"@ != "LFO 2"@) by { assert("M1"@.len() != "LFO 2"@.len()); }
        assert("M1"@ != "Env 2"@) by { assert("M1"@.len() != "Env 2"@.len()); }
        assert("M1"@ != "Env 1"@) by { assert("M1"@.len() != "Env 1"@.len()); }
        assert("M1"@ != "Velo"@) by { assert("M1"@.len() != "Velo"@.len()); }
        assert("M1"@ != "ModWh"@) by { assert("M1"@.len() != "ModWh"@.len()); }
        assert("M1"@ != "After"@) by { assert("M1"@.len() != "After"@.len()); }
        assert("M1"@ != "Step"@) by { assert("M1"@.len() != "Step"@.len()); }
        assert("M1"@ != "Rand"@) by { assert("M1"@.len() != "Rand"@.len()); }
        assert("M2"@ != "LFO 1"@) by { assert("M2"@.len() != "LFO 1"@.len()); }
        assert("M2"@ != "LFO 2"@) by { assert("M2"@.len() != "LFO 2"@.len()); }
        assert("M2"@ != "Env 2"@) by { assert("M2"@.len() != "Env 2"@.len()); }
        assert("M2"@ != "Env 1"@) by { assert("M2"@.len() != "Env 1"@.len()); }
        assert("M2"@ != "Velo"@) by { assert("M2"@.len() != "Velo"@.len()); }
        assert("M2"@ != "ModWh"@) by { assert("M2"@.len() != "ModWh"@.len()); }
        assert("M2"@ != "After"@) by { assert("M2"@.len() != "After"@.len()); }
        assert("M2"@ != "Step"@) by { assert("M2"@.len() != "Step"@.len()); }
        assert("M2"@ != "Rand"@) by { assert("M2"@.len() != "Rand"@.len()); }
        assert("M2"@ != "M1"@) by { assert("M2"@[1] != "M1"@[1]); }
        assert("M3"@ != "LFO 1"@) by { assert("M3"@.len() != "LFO 1"@.len()); }
        assert("M3"@ != "LFO 2"@) by { assert("M3"@.len() != "LFO 2"@.len()); }
        assert("M3"@ != "Env 2"@) by { assert("M3"@.len() != "Env 2"@.len()); }
        assert("M3"@ != "Env 1"@) by { assert("M3"@.len() != "Env 1"@.len()); }
        assert("M3"@ != "Velo"@) by { assert("M3"@.len() != "Velo"@.len()); }
        assert("M3"@ != "ModWh"@) by { assert("M3"@.len() != "ModWh"@.len()); }
        assert("M3"@ != "After"@) by { assert("M3"@.len() != "After"@.len()); }
        assert("M3"@ != "Step"@) by { assert("M3"@.len() != "Step"@.len()); }
        assert("M3"@ != "Rand"@) by { assert("M3"@.len() != "Rand"@.len()); }
        assert("M3"@ != "M1"@) by { assert("M3"@[1] != "M1"@[1]); }
        assert("M3"@ != "M2"@) by { assert("M3"@[1] != "M2"@[1]); }
        assert("M4"@ != "LFO 1"@) by { assert("M4"@.len() != "LFO 1"@.len()); }
        assert("M4"@ != "LFO 2"@) by { assert("M4"@.len() != "LFO 2"@.len()); }
        assert("M4"@ != "Env 2"@) by { assert("M4"@.len() != "Env 2"@.len()); }
        assert("M4"@ != "Env 1"@) by { assert("M4"@.len() != "Env 1"@.len()); }
        assert("M4"@ != "Velo"@) by { assert("M4"@.len() != "Velo"@.len()); }
        assert("M4"@ != "ModWh"@) by { assert("M4"@.len() != "ModWh"@.len()); }
        assert("M4"@ != "After"@) by { assert("M4"@.len() != "After"@.len()); }
        assert("M4"@ != "Step"@) by { assert("M4"@.len() != "Step"@.len()); }
        assert("M4"@ != "Rand"@) by { assert("M4"@.len() != "Rand"@.len()); }
        assert("M4"@ != "M1"@) by { assert("M4"@[1] != "M1"@[1]); }
        assert("M4"@ != "M2"@) by { assert("M4"@[1] != "M2"@[1]); }
        assert("M4"@ != "M3"@) by { assert("M4"@[1] != "M3"@[1]); }
        assert("lfo2"@ != "lfo1"@) by { assert("lfo2"@[3] != "lfo1"@[3]); }
        assert("lfo2"@ != "lfo"@) by { assert("lfo2"@.len() != "lfo"@.len()); }
        assert("filt_env"@ != "lfo1"@) by { assert("filt_env"@.len() != "lfo1"@.len()); }
        assert("filt_env"@ != "lfo"@) by { assert("filt_env"@.len() != "lfo"@.len()); }
        assert("filt_env"@ != "lfo2"@) by { assert("filt_env"@.len() != "lfo2"@.len()); }
        assert("env2"@ != "lfo1"@) by { assert("env2"@[0] != "lfo1"@[0]); }
        assert("env2"@ != "lfo"@) by { assert("env2"@.len() != "lfo"@.len()); }
        assert("env2"@ != "lfo2"@) by { assert("env2"@[0] != "lfo2"@[0]); }
        assert("env1"@ != "lfo1"@) by { assert("env1"@[0] != "lfo1"@[0]); }
        assert("env1"@ != "lfo"@) by { assert("env1"@.len() != "lfo"@.len()); }
        assert("env1"@ != "lfo2"@) by { assert("env1"@[0] != "lfo2"@[0]); }
        assert("env1"@ != "filt_env"@) by { assert("env1"@.len() != "filt_env"@.len()); }
        assert("env1"@ != "env2"@) by { assert("env1"@[3] != "env2"@[3]); }
        assert("env"@ != "lfo1"@) by { assert("env"@.len() != "lfo1"@.len()); }
        assert("env"@ != "lfo"@) by { assert("env"@[0] != "lfo"@[0]); }
        assert("env"@ != "lfo2"@) by { assert("env"@.len() != "lfo2"@.len()); }
        assert("env"@ != "filt_env"@) by { assert("env"@.len() != "filt_env"@.len()); }
        assert("env"@ != "env2"@) by { assert("env"@.len() != "env2"@.len()); }
        assert("velocity"@ != "lfo1"@) by { assert("velocity"@.len() != "lfo1"@.len()); }
        assert("velocity"@ != "lfo"@) by { assert("velocity"@.len() != "lfo"@.len()); }
        assert("velocity"@ != "lfo2"@) by { assert("velocity"@.len() != "lfo2"@.len()); }
        assert("velocity"@ != "filt_env"@) by { assert("velocity"@[0] != "filt_env"@[0]); }
        assert("velocity"@ != "env2"@) by { assert("velocity"@.len() != "env2"@.len()); }
        assert("velocity"@ != "env1"@) by { assert("velocity"@.len() != "env1"@.len()); }
        assert("velocity"@ != "env"@) by { assert("velocity"@.len() != "env"@.len()); }
        assert("vel"@ != "lfo1"@) by { assert("vel"@.len() != "lfo1"@.len()); }
        assert("vel"@ != "lfo"@) by { assert("vel"@[0] != "lfo"@[0]); }
        assert("vel"@ != "lfo2"@) by { assert("vel"@.len() != "lfo2"@.len()); }
        assert("vel"@ != "filt_env"@) by { assert("vel"@.len() != "filt_env"@.len()); }
        assert("vel"@ != "env2"@) by { assert("vel"@.len() != "env2"@.len()); }
        assert("vel"@ != "env1"@) by { assert("vel"@.len() != "env1"@.len()); }
        assert("vel"@ != "env"@) by { assert("vel"@[0] != "env"@[0]); }
        assert("modwheel"@ != "lfo1"@) by { assert("modwheel"@.len() != "lfo1"@.len()); }
        assert("modwheel"@ != "lfo"@) by { assert("modwheel"@.len() != "lfo"@.len()); }
        assert("modwheel"@ != "lfo2"@) by { assert("modwheel"@.len() != "lfo2"@.len()); }
        assert("modwheel"@ != "filt_env"@) by { assert("modwheel"@[0] != "filt_env"@[0]); }
        assert("modwheel"@ != "env2"@) by { assert("modwheel"@.len() != "env2"@.len()); }
        assert("modwheel"@ != "env1"@) by { assert("modwheel"@.len() != "env1"@.len()); }
        assert("modwheel"@ != "env"@) by { assert("modwheel"@.len() != "env"@.len()); }
        assert("modwheel"@ != "velocity"@) by { assert("modwheel"@[0] != "velocity"@[0]); }
        assert("modwheel"@ != "vel"@) by { assert("modwheel"@.len() != "vel"@.len()); }
        assert("aftertouch"@ != "lfo1"@) by { assert("aftertouch"@.len() != "lfo1"@.len()); }
        assert("aftertouch"@ != "lfo"@) by { assert("aftertouch"@.len() != "lfo"@.len()); }
        assert("aftertouch"@ != "lfo2"@) by { assert("aftertouch"@.len() != "lfo2"@.len()); }
        assert("aftertouch"@ != "filt_env"@) by { assert("aftertouch"@.len() != "filt_env"@.len()); }
        assert("aftertouch"@ != "env2"@) by { assert("aftertouch"@.len() != "env2"@.len()); }
        assert("aftertouch"@ != "env1"@) by { assert("aftertouch"@.len() != "env1"@.len()); }
        assert("aftertouch"@ != "env"@) by { assert("aftertouch"@.len() != "env"@.len()); }
        assert("aftertouch"@ != "velocity"@) by { assert("aftertouch"@.len() != "velocity"@.len()); }
        assert("aftertouch"@ != "vel"@) by { assert("aftertouch"@.len() != "vel"@.len()); }
        assert("aftertouch"@ != "modwheel"@) by { assert("aftertouch"@.len() != "modwheel"@.len()); }
        assert("step"@ != "lfo1"@) by { assert("step"@[0] != "lfo1"@[0]); }
        assert("step"@ != "lfo"@) by { assert("step"@.len() != "lfo"@.len()); }
        assert("step"@ != "lfo2"@) by { assert("step"@[0] != "lfo2"@[0]); }
        assert("step"@ != "filt_env"@) by { assert("step"@.len() != "filt_env"@.len()); }
        assert("step"@ != "env2"@) by { assert("step"@[0] != "env2"@[0]); }
        assert("step"@ != "env1"@) by { assert("step"@[0] != "env1"@[0]); }
        assert("step"@ != "env"@) by { assert("step"@.len() != "env"@.len()); }
        assert("step"@ != "velocity"@) by { assert("step"@.len() != "velocity"@.len()); }
        assert("step"@ != "vel"@) by { assert("step"@.len() != "vel"@.len()); }
        assert("step"@ != "modwheel"@) by { assert("step"@.len() != "modwheel"@.len()); }
        assert("step"@ != "aftertouch"@) by { assert("step"@.len() != "aftertouch"@.len()); }
        assert("rand"@ != "lfo1"@) by { assert("rand"@[0] != "lfo1"@[0]); }
        assert("rand"@ != "lfo"@) by { assert("rand"@.len() != "lfo"@.len()); }
        assert("rand"@ != "lfo2"@) by { assert("rand"@[0] != "lfo2"@[0]); }
        assert("rand"@ != "filt_env"@) by { assert("rand"@.len() != "filt_env"@.len()); }
        assert("rand"@ != "env2"@) by { assert("rand"@[0] != "env2"@[0]); }
        assert("rand"@ != "env1"@) by { assert("rand"@[0] != "env1"@[0]); }
        assert("rand"@ != "env"@) by { assert("rand"@.len() != "env"@.len()); }
        assert("rand"@ != "velocity"@) by { assert("rand"@.len() != "velocity"@.len()); }
        assert("rand"@ != "vel"@) by { assert("rand"@.len() != "vel"@.len()); }
        assert("rand"@ != "modwheel"@) by { assert("rand"@.len() != "modwheel"@.len()); }
        assert("rand"@ != "aftertouch"@) by { assert("rand"@.len() != "aftertouch"@.len()); }
        assert("rand"@ != "step"@) by { assert("rand"@[0] != "step"@[0]); }
        assert("macro1"@ != "lfo1"@) by { assert("macro1"@.len() != "lfo1"@.len()); }
        assert("macro1"@ != "lfo"@) by { assert("macro1"@.len() != "lfo"@.len()); }
        assert("macro1"@ != "lfo2"@) by { assert("macro1"@.len() != "lfo2"@.len()); }
        assert("macro1"@ != "filt_env"@) by { assert("macro1"@.len() != "filt_env"@.len()); }
        assert("macro1"@ != "env2"@) by { assert("macro1"@.len() != "env2"@.len()); }
        assert("macro1"@ != "env1"@) by { assert("macro1"@.len() != "env1"@.len()); }
        assert("macro1"@ != "env"@) by { assert("macro1"@.len() != "env"@.len()); }
        assert("macro1"@ != "velocity"@) by { assert("macro1"@.len() != "velocity"@.len()); }
        assert("macro1"@ != "vel"@) by { assert("macro1"@.len() != "vel"@.len()); }
        assert("macro1"@ != "modwheel"@) by { assert("macro1"@.len() != "modwheel"@.len()); }
        assert("macro1"@ != "aftertouch"@) by { assert("macro1"@.len() != "aftertouch"@.len()); }
        assert("macro1"@ != "step"@) by { assert("macro1"@.len() != "step"@.len()); }
        assert("macro1"@ != "rand"@) by { assert("macro1"@.len() != "rand"@.len()); }
        assert("m1"@ != "lfo1"@) by { assert("m1"@.len() != "lfo1"@.len()); }
        assert("m1"@ != "lfo"@) by { assert("m1"@.len() != "lfo"@.len()); }
        assert("m1"@ != "lfo2"@) by { assert("m1"@.len() != "lfo2"@.len()); }
        assert("m1"@ != "filt_env"@) by { assert("m1"@.len() != "filt_env"@.len()); }
        assert("m1"@ != "env2"@) by { assert("m1"@.len() != "env2"@.len()); }
        assert("m1"@ != "env1"@) by { assert("m1"@.len() != "env1"@.len()); }
        assert("m1"@ != "env"@) by { assert("m1"@.len() != "env"@.len()); }
        assert("m1"@ != "velocity"@) by { assert("m1"@.len() != "velocity"@.len()); }
        assert("m1"@ != "vel"@) by { assert("m1"@.len() != "vel"@.len()); }
        assert("m1"@ != "modwheel"@) by { assert("m1"@.len() != "modwheel"@.len()); }
        assert("m1"@ != "aftertouch"@) by { assert("m1"@.len() != "aftertouch"@.len()); }
        assert("m1"@ != "step"@) by { assert("m1"@.len() != "step"@.len()); }
        assert("m1"@ != "rand"@) by { assert("m1"@.len() != "rand"@.len()); }
        assert("macro2"@ != "lfo1"@) by { assert("macro2"@.len() != "lfo1"@.len()); }
        assert("macro2"@ != "lfo"@) by { assert("macro2"@.len() != "lfo"@.len()); }
        assert("macro2"@ != "lfo2"@) by { assert("macro2"@.len() != "lfo2"@.len()); }
        assert("macro2"@ != "filt_env"@) by { assert("macro2"@.len() != "filt_env"@.len()); }
        assert("macro2"@ != "env2"@) by { assert("macro2"@.len() != "env2"@.len()); }
        assert("macro2"@ != "env1"@) by { assert("macro2"@.len() != "env1"@.len()); }
        assert("macro2"@ != "env"@) by { assert("macro2"@.len() != "env"@.len()); }
        assert("macro2"@ != "velocity"@) by { assert("macro2"@.len() != "velocity"@.len()); }
        assert("macro2"@ != "vel"@) by { assert("macro2"@.len() != "vel"@.len()); }
        assert("macro2"@ != "modwheel"@) by { assert("macro2"@.len() != "modwheel"@.len()); }
        assert("macro2"@ != "aftertouch"@) by { assert("macro2"@.len() != "aftertouch"@.len()); }
        assert("macro2"@ != "step"@) by { assert("macro2"@.len() != "step"@.len()); }
        assert("macro2"@ != "rand"@) by { assert("macro2"@.len() != "rand"@.len()); }
        assert("macro2"@ != "macro1"@) by { assert("macro2"@[5] != "macro1"@[5]); }
        assert("macro2"@ != "m1"@) by { assert("macro2"@.len() != "m1"@.len()); }
        assert("m2"@ != "lfo1"@) by { assert("m2"@.len() != "lfo1"@.len()); }
        assert("m2"@ != "lfo"@) by { assert("m2"@.len() != "lfo"@.len()); }
        assert("m2"@ != "lfo2"@) by { assert("m2"@.len() != "lfo2"@.len()); }
        assert("m2"@ != "filt_env"@) by { assert("m2"@.len() != "filt_env"@.len()); }
        assert("m2"@ != "env2"@) by { assert("m2"@.len() != "env2"@.len()); }
        assert("m2"@ != "env1"@) by { assert("m2"@.len() != "env1"@.len()); }
        assert("m2"@ != "env"@) by { assert("m2"@.len() != "env"@.len()); }
        assert("m2"@ != "velocity"@) by { assert("m2"@.len() != "velocity"@.len()); }
        assert("m2"@ != "vel"@) by { assert("m2"@.len() != "vel"@.len()); }
        assert("m2"@ != "modwheel"@) by { assert("m2"@.len() != "modwheel"@.len()); }
        assert("m2"@ != "aftertouch"@) by { assert("m2"@.len() != "aftertouch"@.len()); }
        assert("m2"@ != "step"@) by { assert("m2"@.len() != "step"@.len()); }
        assert("m2"@ != "rand"@) by { assert("m2"@.len() != "rand"@.len()); }
        assert("m2"@ != "macro1"@) by { assert("m2"@.len() != "macro1"@.len()); }
        assert("m2"@ != "m1"@) by { assert("m2"@[1] != "m1"@[1]); }
        assert("macro3"@ != "lfo1"@) by { assert("macro3"@.len() != "lfo1"@.len()); }
        assert("macro3"@ != "lfo"@) by { assert("macro3"@.len() != "lfo"@.len()); }
        assert("macro3"@ != "lfo2"@) by { assert("macro3"@.len() != "lfo2"@.len()); }
        assert("macro3"@ != "filt_env"@) by { assert("macro3"@.len() != "filt_env"@.len()); }
        assert("macro3"@ != "env2"@) by { assert("macro3"@.len() != "env2"@.len()); }
        assert("macro3"@ != "env1"@) by { assert("macro3"@.len() != "env1"@.len()); }
        assert("macro3"@ != "env"@) by { assert("macro3"@.len() != "env"@.len()); }
        assert("macro3"@ != "velocity"@) by { assert("macro3"@.len() != "velocity"@.len()); }
        assert("macro3"@ != "vel"@) by { assert("macro3"@.len() != "vel"@.len()); }
        assert("macro3"@ != "modwheel"@) by { assert("macro3"@.len() != "modwheel"@.len()); }
        assert("macro3"@ != "aftertouch"@) by { assert("macro3"@.len() != "aftertouch"@.len()); }
        assert("macro3"@ != "step"@) by { assert("macro3"@.len() != "step"@.len()); }
        assert("macro3"@ != "rand"@) by { assert("macro3"@.len() != "rand"@.len()); }
        assert("macro3"@ != "macro1"@) by { assert("macro3"@[5] != "macro1"@[5]); }
        assert("macro3"@ != "m1"@) by { assert("macro3"@.len() != "m1"@.len()); }
        assert("macro3"@ != "macro2"@) by { assert("macro3"@[5] != "macro2"@[5]); }
        assert("macro3"@ != "m2"@) by { assert("macro3"@.len() != "m2"@.len()); }
        assert("m3"@ != "lfo1"@) by { assert("m3"@.len() != "lfo1"@.len()); }
        assert("m3"@ != "lfo"@) by { assert("m3"@.len() != "lfo"@.len()); }
        assert("m3"@ != "lfo2"@) by { assert("m3"@.len() != "lfo2"@.len()); }
        assert("m3"@ != "filt_env"@) by { assert("m3"@.len() != "filt_env"@.len()); }
        assert("m3"@ != "env2"@) by { assert("m3"@.len() != "env2"@.len()); }
        assert("m3"@ != "env1"@) by { assert("m3"@.len() != "env1"@.len()); }
        assert("m3"@ != "env"@) by { assert("m3"@.len() != "env"@.len()); }
        assert("m3"@ != "velocity"@) by { assert("m3"@.len() != "velocity"@.len()); }
        assert("m3"@ != "vel"@) by { assert("m3"@.len() != "vel"@.len()); }
        assert("m3"@ != "modwheel"@) by { assert("m3"@.len() != "modwheel"@.len()); }
        assert("m3"@ != "aftertouch"@) by { assert("m3"@.len() != "aftertouch"@.len()); }
        assert("m3"@ != "step"@) by { assert("m3"@.len() != "step"@.len()); }
        assert("m3"@ != "rand"@) by { assert("m3"@.len() != "rand"@.len()); }
        assert("m3"@ != "macro1"@) by { assert("m3"@.len() != "macro1"@.len()); }
        assert("m3"@ != "m1"@) by { assert("m3"@[1] != "m1"@[1]); }
        assert("m3"@ != "macro2"@) by { assert("m3"@.len() != "macro2"@.len()); }
        assert("m3"@ != "m2"@) by { assert("m3"@[1] != "m2"@[1]); }
        assert("macro4"@ != "lfo1"@) by { assert("macro4"@.len() != "lfo1"@.len()); }
        assert("macro4"@ != "lfo"@) by { assert("macro4"@.len() != "lfo"@.len()); }
        assert("macro4"@ != "lfo2"@) by { assert("macro4"@.len() != "lfo2"@.len()); }
        assert("macro4"@ != "filt_env"@) by { assert("macro4"@.len() != "filt_env"@.len()); }
        assert("macro4"@ != "env2"@) by { assert("macro4"@.len() != "env2"@.len()); }
        assert("macro4"@ != "env1"@) by { assert("macro4"@.len() != "env1"@.len()); }
        assert("macro4"@ != "env"@) by { assert("macro4"@.len() != "env"@.len()); }
        assert("macro4"@ != "velocity"@) by { assert("macro4"@.len() != "velocity"@.len()); }
        assert("macro4"@ != "vel"@) by { assert("macro4"@.len() != "vel"@.len()); }
        assert("macro4"@ != "modwheel"@) by { assert("macro4"@.len() != "modwheel"@.len()); }
        assert("macro4"@ != "aftertouch"@) by { assert("macro4"@.len() != "aftertouch"@.len()); }
        assert("macro4"@ != "step"@) by { assert("macro4"@.len() != "step"@.len()); }
        assert("macro4"@ != "rand"@) by { assert("macro4"@.len() != "rand"@.len()); }
        assert("macro4"@ != "macro1"@) by { assert("macro4"@[5] != "macro1"@[5]); }
        assert("macro4"@ != "m1"@) by { assert("macro4"@.len() != "m1"@.len()); }
        assert("macro4"@ != "macro2"@) by { assert("macro4"@[5] != "macro2"@[5]); }
        assert("macro4"@ != "m2"@) by { assert("macro4"@.len() != "m2"@.len()); }
        assert("macro4"@ != "macro3"@) by { assert("macro4"@[5] != "macro3"@[5]); }
        assert("macro4"@ != "m3"@) by { assert("macro4"@.len() != "m3"@.len()); }
        assert("m4"@ != "lfo1"@) by { assert("m4"@.len() != "lfo1"@.len()); }
        assert("m4"@ != "lfo"@) by { assert("m4"@.len() != "lfo"@.len()); }
        assert("m4"@ != "lfo2"@) by { assert("m4"@.len() != "lfo2"@.len()); }
        assert("m4"@ != "filt_env"@) by { assert("m4"@.len() != "filt_env"@.len()); }
        assert("m4"@ != "env2"@) by { assert("m4"@.len() != "env2"@.len()); }
        assert("m4"@ != "env1"@) by { assert("m4"@.len() != "env1"@.len()); }
        assert("m4"@ != "env"@) by { assert("m4"@.len() != "env"@.len()); }
        assert("m4"@ != "velocity"@) by { assert("m4"@.len() != "velocity"@.len()); }
        assert("m4"@ != "vel"@) by { assert("m4"@.len() != "vel"@.len()); }
        assert("m4"@ != "modwheel"@) by { assert("m4"@.len() != "modwheel"@.len()); }
        assert("m4"@ != "aftertouch"@) by { assert("m4"@.len() != "aftertouch"@.len()); }
        assert("m4"@ != "step"@) by { assert("m4"@.len() != "step"@.len()); }
        assert("m4"@ != "rand"@) by { assert("m4"@.len() != "rand"@.len()); }
        assert("m4"@ != "macro1"@) by { assert("m4"@.len() != "macro1"@.len()); }
        assert("m4"@ != "m1"@) by { assert("m4"@[1] != "m1"@[1]); }
        assert("m4"@ != "macro2"@) by { assert("m4"@.len() != "macro2"@.len()); }
        assert("m4"@ != "m2"@) by { assert("m4"@[1] != "m2"@[1]); }
        assert("m4"@ != "macro3"@) by { assert("m4"@.len() != "macro3"@.len()); }
        assert("m4"@ != "m3"@) by { assert("m4"@[1] != "m3"@[1]); }
}

/// The engine parameter every target the matrix offers drives, and the label each of
/// those parameters reads back as: wavetable position (`WT Pos`, also `WT Fine`), wave
/// slot, filter cutoff and resonance, FM index, detune (`Pitch` and `Detune`), level and
/// pan of oscillator 1.
pub proof fn lemma_target_engine_ids()
    ensures
        target_label_to_engine("WT Pos"@) == "osc1_position"@,
        target_label_to_engine("WT Fine"@) == "osc1_position"@,
        target_label_to_engine("WT Slot"@) == "osc1_wave_slot"@,
        target_label_to_engine("Cutoff"@) == "filter_cutoff"@,
        target_label_to_engine("Res"@) == "filter_resonance"@,
        target_label_to_engine("FM Idx"@) == "osc1_fm_index"@,
        target_label_to_engine("Pitch"@) == "osc1_detune"@,
        target_label_to_engine("Detune"@) == "osc1_detune"@,
        target_label_to_engine("Level"@) == "osc1_level"@,
        target_label_to_engine("Pan"@) == "osc1_pan"@,
        engine_target_label("osc1_position"@) == "WT Pos"@,
        engine_target_label("osc1_wave_slot"@) == "WT Slot"@,
        engine_target_label("filter_cutoff"@) == "Cutoff"@,
        engine_target_label("filter_resonance"@) == "Res"@,
        engine_target_label("osc1_fm_index"@) == "FM Idx"@,
        engine_target_label("osc1_detune"@) == "Detune"@,
        engine_target_label("osc1_level"@) == "Level"@,
        engine_target_label("osc1_pan"@) == "Pan"@,
{
    reveal_strlit("Cutoff");
    reveal_strlit("Detune");
    reveal_strlit("FM Idx");
    reveal_strlit("Level");
    reveal_strlit("Pan");
    reveal_strlit("Pitch");
    reveal_strlit("Res");
    reveal_strlit("WT Fine");
    reveal_strlit("WT Pos");
    reveal_strlit("WT Slot");
    reveal_strlit("_detune");
    reveal_strlit("_fm_index");
    reveal_strlit("_level");
    reveal_strlit("_pan");
    reveal_strlit("_position");
    reveal_strlit("_wave_slot");
    reveal_strlit("filter_cutoff");
    reveal_strlit("filter_resonance");
    reveal_strlit("osc1_detune");
    reveal_strlit("osc1_fm_index");
    reveal_strlit("osc1_level");
    reveal_strlit("osc1_pan");
    reveal_strlit("osc1_position");
    reveal_strlit("osc1_wave_slot");
        assert("WT Slot"@ != "WT Pos"@) by { assert("WT Slot"@.len() != "WT Pos"@.len()); }
        assert("WT Slot"@ != "WT Fine"@) by { assert("WT Slot"@[3] != "WT Fine"@[3]); }
        assert("Cutoff"@ != "WT Pos"@) by { assert("Cutoff"@[0] != "WT Pos"@[0]); }
        assert("Cutoff"@ != "WT Fine"@) by { assert("Cutoff"@.len() != "WT Fine"@.len()); }
        assert("Cutoff"@ != "WT Slot"@) by { assert("Cutoff"@.len() != "WT Slot"@.len()); }
        assert("Res"@ != "WT Pos"@) by { assert("Res"@.len() != "WT Pos"@.len()); }
        assert("Res"@ != "WT Fine"@) by { assert("Res"@.len() != "WT Fine"@.len()); }
        assert("Res"@ != "WT Slot"@) by { assert("Res"@.len() != "WT Slot"@.len()); }
        assert("Res"@ != "Cutoff"@) by { assert("Res"@.len() != "Cutoff"@.len()); }
        assert("FM Idx"@ != "WT Pos"@) by { assert("FM Idx"@[0] != "WT Pos"@[0]); }
        assert("FM Idx"@ != "WT Fine"@) by { assert("FM Idx"@.len() != "WT Fine"@.len()); }
        assert("FM Idx"@ != "WT Slot"@) by { assert("FM Idx"@.len() != "WT Slot"@.len()); }
        assert("FM Idx"@ != "Cutoff"@) by { assert("FM Idx"@[0] != "Cutoff"@[0]); }
        assert("FM Idx"@ != "Res"@) by { assert("FM Idx"@.len() != "Res"@.len()); }
        assert("Pitch"@ != "WT Pos"@) by { assert("Pitch"@.len() != "WT Pos"@.len()); }
        assert("Pitch"@ != "WT Fine"@) by { assert("Pitch"@.len() != "WT Fine"@.len()); }
        assert("Pitch"@ != "WT Slot"@) by { assert("Pitch"@.len() != "WT Slot"@.len()); }
        assert("Pitch"@ != "Cutoff"@) by { assert("Pitch"@.len() != "Cutoff"@.len()); }
        assert("Pitch"@ != "Res"@) by { assert("Pitch"@.len() != "Res"@.len()); }
        assert("Pitch"@ != "FM Idx"@) by { assert("Pitch"@.len() != "FM Idx"@.len()); }
        assert("Detune"@ != "WT Pos"@) by { assert("Detune"@[0] != "WT Pos"@[0]); }
        assert("Detune"@ != "WT Fine"@) by { assert("Detune"@.len() != "WT Fine"@.len()); }
        assert("Detune"@ != "WT Slot"@) by { assert("Detune"@.len() != "WT Slot"@.len()); }
        assert("Detune"@ != "Cutoff"@) by { assert("Detune"@[0] != "Cutoff"@[0]); }
        assert("Detune"@ != "Res"@) by { assert("Detune"@.len() != "Res"@.len()); }
        assert("Detune"@ != "FM Idx"@) by { assert("Detune"@[0] != "FM Idx"@[0]); }
        assert("Level"@ != "WT Pos"@) by { assert("Level"@.len() != "WT Pos"@.len()); }
        assert("Level"@ != "WT Fine"@) by { assert("Level"@.len() != "WT Fine"@.len()); }
        assert("Level"@ != "WT Slot"@) by { assert("Level"@.len() != "WT Slot"@.len()); }
        assert("Level"@ != "Cutoff"@) by { assert("Level"@.len() != "Cutoff"@.len()); }
        assert("Level"@ != "Res"@) by { assert("Level"@.len() != "Res"@.len()); }
        assert("Level"@ != "FM Idx"@) by { assert("Level"@.len() != "FM Idx"@.len()); }
        assert("Level"@ != "Pitch"@) by { assert("Level"@[0] != "Pitch"@[0]); }
        assert("Level"@ != "Detune"@) by { assert("Level"@.len() != "Detune"@.len()); }
        assert("Pan"@ != "WT Pos"@) by { assert("Pan"@.len() != "WT Pos"@.len()); }
        assert("Pan"@ != "WT Fine"@) by { assert("Pan"@.len() != "WT Fine"@.len()); }
        assert("Pan"@ != "WT Slot"@) by { assert("Pan"@.len() != "WT Slot"@.len()); }
        assert("Pan"@ != "Cutoff"@) by { assert("Pan"@.len() != "Cutoff"@.len()); }
        assert("Pan"@ != "Res"@) by { assert("Pan"@[0] != "Res"@[0]); }
        assert("Pan"@ != "FM Idx"@) by { assert("Pan"@.len() != "FM Idx"@.len()); }
        assert("Pan"@ != "Pitch"@) by { assert("Pan"@.len() != "Pitch"@.len()); }
        assert("Pan"@ != "Detune"@) by { assert("Pan"@.len() != "Detune"@.len()); }
        assert("Pan"@ != "Level"@) by { assert("Pan"@.len() != "Level"@.len()); }
        assert(!ends_with("osc1_position"@, "_wave_slot"@)) by { assert("osc1_position"@.subrange(3, 13)[0] != "_wave_slot"@[0]); }
        assert(ends_with("osc1_position"@, "_position"@)) by { assert("osc1_position"@.subrange(4, 13) =~= "_position"@); }
        assert(ends_with("osc1_wave_slot"@, "_wave_slot"@)) by { assert("osc1_wave_slot"@.subrange(4, 14) =~= "_wave_slot"@); }
        assert(!ends_with("filter_cutoff"@, "_wave_slot"@)) by { assert("filter_cutoff"@.subrange(3, 13)[0] != "_wave_slot"@[0]); }
        assert(!ends_with("filter_cutoff"@, "_position"@)) by { assert("filter_cutoff"@.subrange(4, 13)[0] != "_position"@[0]); }
        assert(!ends_with("filter_resonance"@, "_wave_slot"@)) by { assert("filter_resonance"@.subrange(6, 16)[1] != "_wave_slot"@[1]); }
        assert(!ends_with("filter_resonance"@, "_position"@)) by { assert("filter_resonance"@.subrange(7, 16)[0] != "_position"@[0]); }
        assert("filter_resonance"@ != "filter_cutoff"@) by { assert("filter_resonance"@.len() != "filter_cutoff"@.len()); }
        assert(!ends_with("osc1_fm_index"@, "_wave_slot"@)) by { assert("osc1_fm_index"@.subrange(3, 13)[0] != "_wave_slot"@[0]); }
        assert(!ends_with("osc1_fm_index"@, "_position"@)) by { assert("osc1_fm_index"@.subrange(4, 13)[1] != "_position"@[1]); }
        assert("osc1_fm_index"@ != "filter_cutoff"@) by { assert("osc1_fm_index"@[0] != "filter_cutoff"@[0]); }
        assert("osc1_fm_index"@ != "filter_resonance"@) by { assert("osc1_fm_index"@.len() != "filter_resonance"@.len()); }
        assert(ends_with("osc1_fm_index"@, "_fm_index"@)) by { assert("osc1_fm_index"@.subrange(4, 13) =~= "_fm_index"@); }
        assert(!ends_with("osc1_detune"@, "_wave_slot"@)) by { assert("osc1_detune"@.subrange(1, 11)[0] != "_wave_slot"@[0]); }
        assert(!ends_with("osc1_detune"@, "_position"@)) by { assert("osc1_detune"@.subrange(2, 11)[0] != "_position"@[0]); }
        assert("osc1_detune"@ != "filter_cutoff"@) by { assert("osc1_detune"@.len() != "filter_cutoff"@.len()); }
        assert("osc1_detune"@ != "filter_resonance"@) by { assert("osc1_detune"@.len() != "filter_resonance"@.len()); }
        assert(!ends_with("osc1_detune"@, "_fm_index"@)) by { assert("osc1_detune"@.subrange(2, 11)[0] != "_fm_index"@[0]); }
        assert(ends_with("osc1_detune"@, "_detune"@)) by { assert("osc1_detune"@.subrange(4, 11) =~= "_detune"@); }
        assert(!ends_with("osc1_level"@, "_wave_slot"@)) by { assert("osc1_level"@.subrange(0, 10)[0] != "_wave_slot"@[0]); }
        assert(!ends_with("osc1_level"@, "_position"@)) by { assert("osc1_level"@.subrange(1, 10)[0] != "_position"@[0]); }
        assert("osc1_level"@ != "filter_cutoff"@) by { assert("osc1_level"@.len() != "filter_cutoff"@.len()); }
        assert("osc1_level"@ != "filter_resonance"@) by { assert("osc1_level"@.len() != "filter_resonance"@.len()); }
        assert(!ends_with("osc1_level"@, "_fm_index"@)) by { assert("osc1_level"@.subrange(1, 10)[0] != "_fm_index"@[0]); }
        assert(!ends_with("osc1_level"@, "_detune"@)) by { assert("osc1_level"@.subrange(3, 10)[0] != "_detune"@[0]); }
        assert(ends_with("osc1_level"@, "_level"@)) by { assert("osc1_level"@.subrange(4, 10) =~= "_level"@); }
        assert(!ends_with("osc1_pan"@, "_wave_slot"@)) by { assert("_wave_slot"@.len() > "osc1_pan"@.len()); }
        assert(!ends_with("osc1_pan"@, "_position"@)) by { assert("_position"@.len() > "osc1_pan"@.len()); }
        assert("osc1_pan"@ != "filter_cutoff"@) by { assert("osc1_pan"@.len() != "filter_cutoff"@.len()); }
        assert("osc1_pan"@ != "filter_resonance"@) by { assert("osc1_pan"@.len() != "filter_resonance"@.len()); }
        assert(!ends_with("osc1_pan"@, "_fm_index"@)) by { assert("_fm_index"@.len() > "osc1_pan"@.len()); }
        assert(!ends_with("osc1_pan"@, "_detune"@)) by { assert("osc1_pan"@.subrange(1, 8)[0] != "_detune"@[0]); }
        assert(!ends_with("osc1_pan"@, "_level"@)) by { assert("osc1_pan"@.subrange(2, 8)[0] != "_level"@[0]); }
        assert(ends_with("osc1_pan"@, "_pan"@)) by { assert("osc1_pan"@.subrange(4, 8) =~= "_pan"@); }
}

/// Clicking a row's curve button steps Lin → Exp → Step and back to Lin, and any other
/// curve name starts the cycle over at Lin.
pub proof fn lemma_curve_cycle(c: Seq<char>)
    ensures
        next_curve("Lin"@) == "Exp"@,
        next_curve("Exp"@) == "Step"@,
        next_curve("Step"@) == "Lin"@,
        c != "Lin"@ && c != "Exp"@ ==> next_curve(c) == "Lin"@,
{
    reveal_strlit("Lin");
    reveal_strlit("Exp");
    reveal_strlit("Step");
    assert("Exp"@ != "Lin"@) by { assert("Exp"@[0] != "Lin"@[0]); }
    assert("Step"@ != "Lin"@) by { assert("Step"@.len() != "Lin"@.len()); }
    assert("Step"@ != "Exp"@) by { assert("Step"@.len() != "Exp"@.len()); }
}

} // verus!
