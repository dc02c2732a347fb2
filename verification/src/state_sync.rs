//! Patch ↔ UI-state token mappings and selection bookkeeping used when syncing.
use vstd::prelude::*;

use crate::text::{ascii_lowercase, chars_eq, chars_of, lower_chars, push_char, string_of};

verus! {

/// `s` with every underscore shown as a space.
pub open spec fn underscores_to_spaces(s: Seq<char>) -> Seq<char> {
    Seq::new(s.len(), |i: int| if s[i] == '_' { ' ' } else { s[i] })
}

/// Header label of a loaded preset: its wavetable id, underscores shown as spaces
/// ("wavetable" when the preset names none), after "Preset · Wavetable · ".
pub fn preset_category_label(wavetable_id: Option<&str>) -> (r: String)
    ensures
        r@ == "Preset · Wavetable · "@ + underscores_to_spaces(
            match wavetable_id {
                Some(id) => id@,
                None => "wavetable"@,
            },
        ),
{
    let id: &str = match wavetable_id {
        Some(s) => s,
        None => "wavetable",
    };
    let v = chars_of(id);
    let mut out = string_of("Preset · Wavetable · ");
    let ghost head = "Preset · Wavetable · "@;
    let mut i: usize = 0;
    while i < v.len()
        invariant
            i <= v@.len(),
            v@ == id@,
            out@ == head + underscores_to_spaces(v@.subrange(0, i as int)),
        decreases v@.len() - i,
    {
        let c = v[i];
        let shown = if c == '_' {
            ' '
        } else {
            c
        };
        push_char(&mut out, shown);
        assert(underscores_to_spaces(v@.subrange(0, i + 1)) =~= underscores_to_spaces(
            v@.subrange(0, i as int),
        ).push(shown));
        i = i + 1;
    }
    assert(v@.subrange(0, v@.len() as int) =~= v@);
    out
}

/// Patch token of an LFO shape index.
pub open spec fn lfo_shape_token(i: nat) -> Seq<char> {
    if i == 1 {
        "tri"@
    } else if i == 2 {
        "saw"@
    } else if i == 3 {
        "sh"@
    } else {
        "sine"@
    }
}

/// LFO shape index of a lowercased patch token.
pub open spec fn lfo_shape_key_index(k: Seq<char>) -> nat {
    if k == "tri"@ || k == "triangle"@ {
        1
    } else if k == "saw"@ {
        2
    } else if k == "sh"@ || k == "s&h"@ {
        3
    } else {
        0
    }
}

/// Filter mode index of a lowercased filter type.
pub open spec fn filter_mode_key_index(k: Seq<char>) -> nat {
    if k == "highpass"@ || k == "hp"@ {
        1
    } else if k == "bandpass"@ || k == "bp"@ {
        2
    } else if k == "notch"@ {
        3
    } else {
        0
    }
}

/// Filter type token of a filter mode index.
pub open spec fn filter_type_token(i: nat) -> Seq<char> {
    if i == 1 {
        "highpass"@
    } else if i == 2 {
        "bandpass"@
    } else if i == 3 {
        "notch"@
    } else {
        "lowpass"@
    }
}

/// Whether a layer source type names a wavetable (ASCII case-insensitively).
pub open spec fn is_wavetable_token(s: Seq<char>) -> bool {
    ascii_lowercase(s) == "wavetable"@
}

pub fn lfo_shape_from_index(idx: usize) -> (r: &'static str)
    ensures
        r@ == lfo_shape_token(idx as nat),
{
    match idx {
        1 => "tri",
        2 => "saw",
        3 => "sh",
        _ => "sine",
    }
}

pub fn lfo_shape_index(shape: &str) -> (r: usize)
    ensures
        r == lfo_shape_key_index(ascii_lowercase(shape@)),
{
    let k = lower_chars(shape);
    let k = k.as_slice();
    if chars_eq(k, "tri") || chars_eq(k, "triangle") {
        1
    } else if chars_eq(k, "saw") {
        2
    } else if chars_eq(k, "sh") || chars_eq(k, "s&h") {
        3
    } else {
        0
    }
}

pub fn filter_mode_from_type(filter_type: &str) -> (r: usize)
    ensures
        r == filter_mode_key_index(ascii_lowercase(filter_type@)),
{
    let k = lower_chars(filter_type);
    let k = k.as_slice();
    if chars_eq(k, "highpass") || chars_eq(k, "hp") {
        1
    } else if chars_eq(k, "bandpass") || chars_eq(k, "bp") {
        2
    } else if chars_eq(k, "notch") {
        3
    } else {
        0
    }
}

pub fn filter_type_from_mode(mode: usize) -> (r: &'static str)
    ensures
        r@ == filter_type_token(mode as nat),
{
    match mode {
        1 => "highpass",
        2 => "bandpass",
        3 => "notch",
        _ => "lowpass",
    }
}

/// Whether a wave layer source type is a wavetable (`eq_ignore_ascii_case("wavetable")`).
pub fn is_wavetable_source(source_type: &str) -> (r: bool)
    ensures
        r == is_wavetable_token(source_type@),
{
    let k = lower_chars(source_type);
    chars_eq(k.as_slice(), "wavetable")
}

/// Selected stack layer after a patch sync: an unset selection becomes layer 0,
/// and a selection past the last layer moves to the last layer (0 when there are none).
pub fn selected_layer_after_sync(selected: Option<usize>, layer_count: usize) -> (r: Option<usize>)
    ensures
        r == Some(
            if selected is None {
                0
            } else if selected->0 >= layer_count {
                if layer_count == 0 {
                    0
                } else {
                    (layer_count - 1) as usize
                }
            } else {
                selected->0
            },
        ),
{
    let idx = match selected {
        Some(i) => i,
        None => 0,
    };
    if idx >= layer_count {
        Some(if layer_count == 0 {
            0
        } else {
            layer_count - 1
        })
    } else {
        Some(idx)
    }
}

/// Layer that receives a freshly loaded wavetable bank: the first layer that is already a
/// wavetable, otherwise the selected layer (0 when unset) clamped to the last layer.
pub fn loaded_bank_layer_index(is_wavetable: &[bool], selected: Option<usize>) -> (r: usize)
    ensures
        (exists|i: int| 0 <= i < is_wavetable@.len() && is_wavetable@[i]) ==> {
            &&& r < is_wavetable@.len()
            &&& is_wavetable@[r as int]
            &&& forall|j: int| 0 <= j < r ==> !is_wavetable@[j]
        },
        !(exists|i: int| 0 <= i < is_wavetable@.len() && is_wavetable@[i]) ==> r == ({
            let want: int = if selected is None {
                0
            } else {
                selected->0 as int
            };
            let last: int = if is_wavetable@.len() == 0 {
                0
            } else {
                is_wavetable@.len() - 1
            };
            if want < last {
                want
            } else {
                last
            }
        }),
{
    let mut i: usize = 0;
    while i < is_wavetable.len()
        invariant
            i <= is_wavetable@.len(),
            forall|j: int| 0 <= j < i ==> !is_wavetable@[j],
        decreases is_wavetable@.len() - i,
    {
        if is_wavetable[i] {
            return i;
        }
        i = i + 1;
    }
    let want = match selected {
        Some(s) => s,
        None => 0,
    };
    let last = if is_wavetable.len() == 0 {
        0
    } else {
        is_wavetable.len() - 1
    };
    if want < last {
        want
    } else {
        last
    }
}

/// Every LFO shape token reads back as its own index.
pub proof fn lemma_lfo_shape_roundtrip(i: nat)
    requires
        i < 4,
    ensures
        lfo_shape_key_index(ascii_lowercase(lfo_shape_token(i))) == i,
{
    reveal_strlit("sine");
    reveal_strlit("tri");
    reveal_strlit("triangle");
    reveal_strlit("saw");
    reveal_strlit("sh");
    reveal_strlit("s&h");
    let t = lfo_shape_token(i);
    crate::text::lemma_lowercase_identity(t);
    if i == 2 {
        assert(t[0] == 's' && "tri"@[0] == 't');
        assert(t != "tri"@);
    } else if i == 3 {
        assert(t != "saw"@);
    }
}

/// Every filter type token reads back as its own mode index.
pub proof fn lemma_filter_mode_roundtrip(i: nat)
    requires
        i < 4,
    ensures
        filter_mode_key_index(ascii_lowercase(filter_type_token(i))) == i,
{
    reveal_strlit("lowpass");
    reveal_strlit("highpass");
    reveal_strlit("hp");
    reveal_strlit("bandpass");
    reveal_strlit("bp");
    reveal_strlit("notch");
    let t = filter_type_token(i);
    crate::text::lemma_lowercase_identity(t);
    if i == 0 {
        assert(t[0] == 'l');
        assert(t != "highpass"@ && t != "bandpass"@);
    } else if i == 2 {
        assert(t[0] == 'b');
        assert(t != "highpass"@);
    }
}

/// Names on the LFO shape selector, by index.
pub open spec fn lfo_shape_labels() -> Seq<Seq<char>> {
    seq!["Sine"@, "Tri"@, "Saw"@, "S&H"@]
}

/// Names on the filter mode tabs, by index.
pub open spec fn filter_mode_labels() -> Seq<Seq<char>> {
    seq!["LP"@, "HP"@, "BP"@, "Notch"@]
}

/// A shape's name on the selector, read as a patch token, gives that shape's index,
/// which is also the index of the token the shape is stored under.
pub proof fn lemma_lfo_shape_names(i: nat)
    requires
        i < 4,
    ensures
        lfo_shape_key_index(ascii_lowercase(lfo_shape_labels()[i as int])) == i,
        lfo_shape_key_index(ascii_lowercase(lfo_shape_token(i))) == i,
{
    reveal_strlit("Sine");
    reveal_strlit("Tri");
    reveal_strlit("Saw");
    reveal_strlit("S&H");
    reveal_strlit("tri");
    reveal_strlit("triangle");
    reveal_strlit("saw");
    reveal_strlit("sh");
    reveal_strlit("s&h");
    lemma_lfo_shape_roundtrip(i);
    let l = ascii_lowercase(lfo_shape_labels()[i as int]);
    if i == 0 {
        assert(l.len() == 4 && l[0] == 's' && l[1] == 'i');
        assert(l != "triangle"@);
        assert(l != "saw"@);
        assert(l != "s&h"@);
        assert(l != "tri"@);
        assert(l != "sh"@);
    } else if i == 1 {
        assert(l =~= "tri"@);
    } else if i == 2 {
        assert(l =~= "saw"@);
        assert(l != "tri"@) by { assert(l[0] != "tri"@[0]); }
    } else {
        assert(l =~= "s&h"@);
        assert(l != "tri"@) by { assert(l[0] != "tri"@[0]); }
        assert(l != "saw"@) by { assert(l[1] != "saw"@[1]); }
    }
}

/// A mode's name on the filter tabs, read as a filter type, gives that mode's index,
/// which is also the index of the type the mode is stored as.
pub proof fn lemma_filter_mode_names(i: nat)
    requires
        i < 4,
    ensures
        filter_mode_key_index(ascii_lowercase(filter_mode_labels()[i as int])) == i,
        filter_mode_key_index(ascii_lowercase(filter_type_token(i))) == i,
{
    reveal_strlit("LP");
    reveal_strlit("HP");
    reveal_strlit("BP");
    reveal_strlit("Notch");
    reveal_strlit("highpass");
    reveal_strlit("hp");
    reveal_strlit("bandpass");
    reveal_strlit("bp");
    reveal_strlit("notch");
    lemma_filter_mode_roundtrip(i);
    let l = ascii_lowercase(filter_mode_labels()[i as int]);
    if i == 0 {
        assert(l.len() == 2 && l[0] == 'l');
        assert(l != "hp"@);
        assert(l != "bp"@);
        assert(l != "highpass"@);
        assert(l != "bandpass"@);
        assert(l != "notch"@);
    } else if i == 1 {
        assert(l =~= "hp"@);
        assert(l != "highpass"@);
    } else if i == 2 {
        assert(l =~= "bp"@);
        assert(l != "hp"@) by { assert(l[0] != "hp"@[0]); }
        assert(l != "highpass"@);
        assert(l != "bandpass"@);
    } else {
        assert(l =~= "notch"@);
        assert(l != "hp"@);
        assert(l != "bp"@);
        assert(l != "highpass"@);
        assert(l != "bandpass"@);
    }
}

} // verus!
