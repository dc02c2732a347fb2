//! Oscillator-column selector mappings between patch tokens and dropdown indices.
//!
//! Patch tokens are matched ASCII-case-insensitively; unknown tokens select the
//! first entry of each list.
use vstd::prelude::*;

use crate::text::{ascii_lowercase, chars_eq, lower_chars};

verus! {

/// Dropdown index of a stack mode token (lowercased).
pub open spec fn stack_mode_key_index(k: Seq<char>) -> nat {
    if k == "avg"@ || k == "average"@ {
        1
    } else if k == "avg_equal"@ || k == "avgequal"@ || k == "avg equal"@ {
        2
    } else {
        0
    }
}

/// Patch token of a stack mode index.
pub open spec fn stack_mode_token(i: nat) -> Seq<char> {
    if i == 1 {
        "avg"@
    } else if i == 2 {
        "avg_equal"@
    } else {
        "add"@
    }
}

/// User-facing label of a stack mode index (below three).
pub open spec fn stack_mode_name(i: nat) -> Seq<char> {
    if i == 1 {
        "Avg"@
    } else if i == 2 {
        "Avg Equal"@
    } else {
        "Add"@
    }
}

/// Dropdown index of a stack layer source type (lowercased).
pub open spec fn stack_layer_key_index(k: Seq<char>) -> nat {
    if k == "sine"@ {
        1
    } else if k == "square"@ {
        2
    } else if k == "triangle"@ || k == "tri"@ {
        3
    } else if k == "pulse"@ {
        4
    } else if k == "wavetable"@ {
        5
    } else {
        0
    }
}

/// Patch token of a stack layer source index.
pub open spec fn stack_layer_token(i: nat) -> Seq<char> {
    if i == 1 {
        "sine"@
    } else if i == 2 {
        "square"@
    } else if i == 3 {
        "triangle"@
    } else if i == 4 {
        "pulse"@
    } else if i == 5 {
        "wavetable"@
    } else {
        "saw"@
    }
}

/// Dropdown index of an oscillator type (lowercased).
pub open spec fn osc_type_key_index(k: Seq<char>) -> nat {
    if k == "saw"@ {
        1
    } else if k == "square"@ {
        2
    } else if k == "triangle"@ {
        3
    } else if k == "pulse"@ {
        4
    } else {
        0
    }
}

/// Patch token of an oscillator type index.
pub open spec fn osc_type_token(i: nat) -> Seq<char> {
    if i == 1 {
        "saw"@
    } else if i == 2 {
        "square"@
    } else if i == 3 {
        "triangle"@
    } else if i == 4 {
        "pulse"@
    } else {
        "wavetable"@
    }
}

/// Dropdown index of a warp mode (lowercased).
pub open spec fn warp_mode_key_index(k: Seq<char>) -> nat {
    if k == "sync"@ {
        1
    } else if k == "bend"@ {
        2
    } else {
        0
    }
}

/// Patch token of a warp mode index.
pub open spec fn warp_mode_token(i: nat) -> Seq<char> {
    if i == 1 {
        "sync"@
    } else if i == 2 {
        "bend"@
    } else {
        "none"@
    }
}

/// Dropdown index of an FM source (lowercased).
pub open spec fn fm_source_key_index(k: Seq<char>) -> nat {
    if k == "osc2"@ {
        1
    } else if k == "osc3"@ {
        2
    } else if k == "osc2_osc3"@ || k == "osc2+osc3"@ {
        3
    } else if k == "feedback"@ {
        4
    } else {
        0
    }
}

/// Patch token of an FM source index.
pub open spec fn fm_source_token(i: nat) -> Seq<char> {
    if i == 1 {
        "osc2"@
    } else if i == 2 {
        "osc3"@
    } else if i == 3 {
        "osc2_osc3"@
    } else if i == 4 {
        "feedback"@
    } else {
        "none"@
    }
}

/// FM algorithm index of an FM source (lowercased); feedback has no algorithm.
pub open spec fn fm_algorithm_key_index(k: Seq<char>) -> nat {
    if k == "osc2"@ {
        1
    } else if k == "osc3"@ {
        2
    } else if k == "osc2_osc3"@ || k == "osc2+osc3"@ {
        3
    } else {
        0
    }
}

/// FM source token of an FM algorithm index.
pub open spec fn fm_algorithm_token(i: nat) -> Seq<char> {
    if i == 1 {
        "osc2"@
    } else if i == 2 {
        "osc3"@
    } else if i == 3 {
        "osc2_osc3"@
    } else {
        "none"@
    }
}

pub fn stack_mode_index(mode: &str) -> (r: usize)
    ensures
        r == stack_mode_key_index(ascii_lowercase(mode@)),
{
    let k = lower_chars(mode);
    let k = k.as_slice();
    if chars_eq(k, "avg") || chars_eq(k, "average") {
        1
    } else if chars_eq(k, "avg_equal") || chars_eq(k, "avgequal") || chars_eq(k, "avg equal") {
        2
    } else {
        0
    }
}

pub fn stack_mode_from_index(idx: usize) -> (r: &'static str)
    ensures
        r@ == stack_mode_token(idx as nat),
{
    match idx {
        1 => "avg",
        2 => "avg_equal",
        _ => "add",
    }
}

pub fn stack_mode_tooltip(mode: &str) -> (r: &'static str)
    ensures
        r@ == if stack_mode_key_index(ascii_lowercase(mode@)) == 1 {
            "Level-weighted mean (sign-sensitive)"@
        } else if stack_mode_key_index(ascii_lowercase(mode@)) == 2 {
            "Each layer counts equally (1/N)"@
        } else {
            "Signed sum of all layers"@
        },
{
    match stack_mode_index(mode) {
        1 => "Level-weighted mean (sign-sensitive)",
        2 => "Each layer counts equally (1/N)",
        _ => "Signed sum of all layers",
    }
}

/// User-facing stack mode label (never raw patch tokens like `none`).
pub fn stack_mode_label(mode: &str) -> (r: &'static str)
    ensures
        r@ == stack_mode_name(stack_mode_key_index(ascii_lowercase(mode@))),
{
    match stack_mode_index(mode) {
        1 => "Avg",
        2 => "Avg Equal",
        _ => "Add",
    }
}

pub fn stack_layer_type_index(ty: &str) -> (r: usize)
    ensures
        r == stack_layer_key_index(ascii_lowercase(ty@)),
{
    let k = lower_chars(ty);
    let k = k.as_slice();
    if chars_eq(k, "sine") {
        1
    } else if chars_eq(k, "square") {
        2
    } else if chars_eq(k, "triangle") || chars_eq(k, "tri") {
        3
    } else if chars_eq(k, "pulse") {
        4
    } else if chars_eq(k, "wavetable") {
        5
    } else {
        0
    }
}

pub fn stack_layer_type_from_index(idx: usize) -> (r: &'static str)
    ensures
        r@ == stack_layer_token(idx as nat),
{
    match idx {
        1 => "sine",
        2 => "square",
        3 => "triangle",
        4 => "pulse",
        5 => "wavetable",
        _ => "saw",
    }
}

pub fn osc_type_index(ty: &str) -> (r: usize)
    ensures
        r == osc_type_key_index(ascii_lowercase(ty@)),
{
    let k = lower_chars(ty);
    let k = k.as_slice();
    if chars_eq(k, "saw") {
        1
    } else if chars_eq(k, "square") {
        2
    } else if chars_eq(k, "triangle") {
        3
    } else if chars_eq(k, "pulse") {
        4
    } else {
        0
    }
}

pub fn osc_type_from_index(idx: usize) -> (r: &'static str)
    ensures
        r@ == osc_type_token(idx as nat),
{
    match idx {
        1 => "saw",
        2 => "square",
        3 => "triangle",
        4 => "pulse",
        _ => "wavetable",
    }
}

pub fn warp_mode_index(mode: &str) -> (r: usize)
    ensures
        r == warp_mode_key_index(ascii_lowercase(mode@)),
{
    let k = lower_chars(mode);
    let k = k.as_slice();
    if chars_eq(k, "sync") {
        1
    } else if chars_eq(k, "bend") {
        2
    } else {
        0
    }
}

pub fn warp_mode_from_index(idx: usize) -> (r: &'static str)
    ensures
        r@ == warp_mode_token(idx as nat),
{
    match idx {
        1 => "sync",
        2 => "bend",
        _ => "none",
    }
}

pub fn fm_source_index(source: &str) -> (r: usize)
    ensures
        r == fm_source_key_index(ascii_lowercase(source@)),
{
    let k = lower_chars(source);
    let k = k.as_slice();
    if chars_eq(k, "osc2") {
        1
    } else if chars_eq(k, "osc3") {
        2
    } else if chars_eq(k, "osc2_osc3") || chars_eq(k, "osc2+osc3") {
        3
    } else if chars_eq(k, "feedback") {
        4
    } else {
        0
    }
}

pub fn fm_source_from_index(idx: usize) -> (r: &'static str)
    ensures
        r@ == fm_source_token(idx as nat),
{
    match idx {
        1 => "osc2",
        2 => "osc3",
        3 => "osc2_osc3",
        4 => "feedback",
        _ => "none",
    }
}

pub fn fm_algorithm_index(source: &str) -> (r: usize)
    ensures
        r == fm_algorithm_key_index(ascii_lowercase(source@)),
{
    let k = lower_chars(source);
    let k = k.as_slice();
    if chars_eq(k, "osc2") {
        1
    } else if chars_eq(k, "osc3") {
        2
    } else if chars_eq(k, "osc2_osc3") || chars_eq(k, "osc2+osc3") {
        3
    } else {
        0
    }
}

pub fn fm_source_from_algorithm(idx: usize) -> (r: &'static str)
    ensures
        r@ == fm_algorithm_token(idx as nat),
{
    match idx {
        1 => "osc2",
        2 => "osc3",
        3 => "osc2_osc3",
        _ => "none",
    }
}

} // verus!

verus! {

/// Every stack mode token reads back as its own index.
pub proof fn lemma_stack_mode_roundtrip(i: nat)
    requires
        i < 3,
    ensures
        stack_mode_key_index(ascii_lowercase(stack_mode_token(i))) == i,
{
    reveal_strlit("avg");
    reveal_strlit("average");
    reveal_strlit("avg_equal");
    reveal_strlit("avgequal");
    reveal_strlit("avg equal");
    reveal_strlit("add");
    let t = stack_mode_token(i);
    crate::text::lemma_lowercase_identity(t);
    if i == 0 {
        assert(t[1] == 'd');
        assert(t != "avg"@);
    } else if i == 2 {
        assert(t[3] == '_');
        assert(t != "avg equal"@);
    }
}

/// Every stack layer source token reads back as its own index.
pub proof fn lemma_stack_layer_roundtrip(i: nat)
    requires
        i < 6,
    ensures
        stack_layer_key_index(ascii_lowercase(stack_layer_token(i))) == i,
{
    reveal_strlit("saw");
    reveal_strlit("sine");
    reveal_strlit("square");
    reveal_strlit("triangle");
    reveal_strlit("tri");
    reveal_strlit("pulse");
    reveal_strlit("wavetable");
    let t = stack_layer_token(i);
    crate::text::lemma_lowercase_identity(t);
    if i == 0 {
        assert(t[1] == 'a');
    } else if i == 2 {
        assert(t[1] == 'q');
    }
}

/// Every oscillator type token reads back as its own index.
pub proof fn lemma_osc_type_roundtrip(i: nat)
    requires
        i < 5,
    ensures
        osc_type_key_index(ascii_lowercase(osc_type_token(i))) == i,
{
    reveal_strlit("wavetable");
    reveal_strlit("saw");
    reveal_strlit("square");
    reveal_strlit("triangle");
    reveal_strlit("pulse");
    let t = osc_type_token(i);
    crate::text::lemma_lowercase_identity(t);
}

/// Every warp mode token reads back as its own index.
pub proof fn lemma_warp_mode_roundtrip(i: nat)
    requires
        i < 3,
    ensures
        warp_mode_key_index(ascii_lowercase(warp_mode_token(i))) == i,
{
    reveal_strlit("none");
    reveal_strlit("sync");
    reveal_strlit("bend");
    let t = warp_mode_token(i);
    crate::text::lemma_lowercase_identity(t);
    assert(t[0] != 's' || i == 1);
}

/// Every FM source token reads back as its own index.
pub proof fn lemma_fm_source_roundtrip(i: nat)
    requires
        i < 5,
    ensures
        fm_source_key_index(ascii_lowercase(fm_source_token(i))) == i,
{
    reveal_strlit("none");
    reveal_strlit("osc2");
    reveal_strlit("osc3");
    reveal_strlit("osc2_osc3");
    reveal_strlit("osc2+osc3");
    reveal_strlit("feedback");
    let t = fm_source_token(i);
    crate::text::lemma_lowercase_identity(t);
    assert(t[3] != '2' || i == 1 || i == 3);
}

/// Every FM algorithm token reads back as its own index.
pub proof fn lemma_fm_algorithm_roundtrip(i: nat)
    requires
        i < 4,
    ensures
        fm_algorithm_key_index(ascii_lowercase(fm_algorithm_token(i))) == i,
{
    reveal_strlit("none");
    reveal_strlit("osc2");
    reveal_strlit("osc3");
    reveal_strlit("osc2_osc3");
    reveal_strlit("osc2+osc3");
    let t = fm_algorithm_token(i);
    crate::text::lemma_lowercase_identity(t);
    assert(t[3] != '2' || i == 1 || i == 3);
}

/// FM source set when an algorithm is picked: algorithm 0 (none) clears the source
/// and algorithms 1–3 select the source of the same index.
pub fn fm_source_for_algorithm(algorithm: usize) -> (r: usize)
    ensures
        r == algorithm,
{
    if algorithm == 0 {
        0
    } else {
        algorithm
    }
}

/// FM algorithm set when a source is picked: the algorithm that the source's token
/// names, so the single and dual oscillator sources keep their index and feedback or
/// none leave no algorithm.
pub fn fm_algorithm_for_source(source: usize) -> (r: usize)
    ensures
        r == fm_algorithm_key_index(ascii_lowercase(fm_source_token(source as nat))),
        r == if 1 <= source <= 3 {
            source
        } else {
            0
        },
{
    proof {
        reveal_strlit("none");
        reveal_strlit("osc2");
        reveal_strlit("osc3");
        reveal_strlit("osc2_osc3");
        reveal_strlit("osc2+osc3");
        reveal_strlit("feedback");
        let t = fm_source_token(source as nat);
        crate::text::lemma_lowercase_identity(t);
        assert(t[3] != '2' || source == 1 || source == 3);
        assert(t[0] != 'f' || source == 4);
    }
    fm_algorithm_index(fm_source_from_index(source))
}

/// Picking an algorithm and then reading back the algorithm of the source it set gives
/// the picked algorithm.
pub proof fn lemma_fm_pick_consistent(algorithm: nat)
    requires
        algorithm < 4,
    ensures
        fm_algorithm_key_index(ascii_lowercase(fm_source_token(algorithm))) == algorithm,
{
    reveal_strlit("none");
    reveal_strlit("osc2");
    reveal_strlit("osc3");
    reveal_strlit("osc2_osc3");
    reveal_strlit("osc2+osc3");
    let t = fm_source_token(algorithm);
    crate::text::lemma_lowercase_identity(t);
    assert(t[3] != '2' || algorithm == 1 || algorithm == 3);
}

/// Names in the oscillator type dropdown, by index.
pub open spec fn osc_type_labels() -> Seq<Seq<char>> {
    seq!["Wavetable"@, "Saw"@, "Square"@, "Triangle"@, "Pulse"@]
}

/// Each entry of the dropdown is stored as its own name in lowercase, and that
/// lowercase name reads back as the entry's index.
pub proof fn lemma_osc_type_dropdown(i: nat)
    requires
        i < 5,
    ensures
        osc_type_token(i) == ascii_lowercase(osc_type_labels()[i as int]),
        osc_type_key_index(ascii_lowercase(osc_type_labels()[i as int])) == i,
{
    reveal_strlit("Pulse");
    reveal_strlit("Saw");
    reveal_strlit("Square");
    reveal_strlit("Triangle");
    reveal_strlit("Wavetable");
    reveal_strlit("pulse");
    reveal_strlit("saw");
    reveal_strlit("square");
    reveal_strlit("triangle");
    reveal_strlit("wavetable");
    assert(osc_type_token(i) =~= ascii_lowercase(osc_type_labels()[i as int]));
    lemma_osc_type_roundtrip(i);
    crate::text::lemma_lowercase_identity(osc_type_token(i));
}

/// Names in the warp mode dropdown, by index.
pub open spec fn warp_mode_labels() -> Seq<Seq<char>> {
    seq!["None"@, "Sync"@, "Bend"@]
}

/// Each entry of the dropdown is stored as its own name in lowercase, and that
/// lowercase name reads back as the entry's index.
pub proof fn lemma_warp_mode_dropdown(i: nat)
    requires
        i < 3,
    ensures
        warp_mode_token(i) == ascii_lowercase(warp_mode_labels()[i as int]),
        warp_mode_key_index(ascii_lowercase(warp_mode_labels()[i as int])) == i,
{
    reveal_strlit("Bend");
    reveal_strlit("None");
    reveal_strlit("Sync");
    reveal_strlit("bend");
    reveal_strlit("none");
    reveal_strlit("sync");
    assert(warp_mode_token(i) =~= ascii_lowercase(warp_mode_labels()[i as int]));
    lemma_warp_mode_roundtrip(i);
    crate::text::lemma_lowercase_identity(warp_mode_token(i));
}

/// Names in the stack layer source dropdown, by index.
pub open spec fn stack_layer_labels() -> Seq<Seq<char>> {
    seq!["Saw"@, "Sine"@, "Square"@, "Triangle"@, "Pulse"@, "Wavetable"@]
}

/// Each entry of the dropdown is stored as its own name in lowercase, and that
/// lowercase name reads back as the entry's index.
pub proof fn lemma_stack_layer_dropdown(i: nat)
    requires
        i < 6,
    ensures
        stack_layer_token(i) == ascii_lowercase(stack_layer_labels()[i as int]),
        stack_layer_key_index(ascii_lowercase(stack_layer_labels()[i as int])) == i,
{
    reveal_strlit("Pulse");
    reveal_strlit("Saw");
    reveal_strlit("Sine");
    reveal_strlit("Square");
    reveal_strlit("Triangle");
    reveal_strlit("Wavetable");
    reveal_strlit("pulse");
    reveal_strlit("saw");
    reveal_strlit("sine");
    reveal_strlit("square");
    reveal_strlit("triangle");
    reveal_strlit("wavetable");
    assert(stack_layer_token(i) =~= ascii_lowercase(stack_layer_labels()[i as int]));
    lemma_stack_layer_roundtrip(i);
    crate::text::lemma_lowercase_identity(stack_layer_token(i));
}

/// Each stack mode's user-facing name, lowercased, reads back as that mode, and the
/// stored tokens are `add`, `avg` and `avg_equal`.
pub proof fn lemma_stack_mode_names(i: nat)
    requires
        i < 3,
    ensures
        stack_mode_key_index(ascii_lowercase(stack_mode_name(i))) == i,
        stack_mode_token(0) == "add"@,
        stack_mode_token(1) == "avg"@,
        stack_mode_token(2) == "avg_equal"@,
{
    reveal_strlit("Add");
    reveal_strlit("Avg");
    reveal_strlit("Avg Equal");
    reveal_strlit("add");
    reveal_strlit("avg");
    reveal_strlit("average");
    reveal_strlit("avg_equal");
    reveal_strlit("avgequal");
    reveal_strlit("avg equal");
    let l = ascii_lowercase(stack_mode_name(i));
    if i == 0 {
        assert(l =~= "add"@);
        assert(l[1] == 'd');
    } else if i == 1 {
        assert(l =~= "avg"@);
    } else {
        assert(l =~= "avg equal"@);
        assert(l[3] != "avg_equal"@[3]);
        assert(l.len() != "avgequal"@.len());
    }
}

/// The FM source dropdown (None, Osc 2, Osc 3, 2+3, Feedback) stores `none`, `osc2`,
/// `osc3`, `osc2_osc3` and `feedback`; `osc2+osc3` also reads as the dual source. The
/// FM algorithm of each dual or single source is the same index, and feedback has none.
pub proof fn lemma_fm_tokens()
    ensures
        fm_source_token(0) == "none"@,
        fm_source_token(1) == "osc2"@,
        fm_source_token(2) == "osc3"@,
        fm_source_token(3) == "osc2_osc3"@,
        fm_source_token(4) == "feedback"@,
        fm_source_key_index("osc2+osc3"@) == 3,
        fm_algorithm_key_index("osc2+osc3"@) == 3,
        fm_algorithm_key_index("feedback"@) == 0,
        fm_algorithm_token(1) == "osc2"@,
        fm_algorithm_token(2) == "osc3"@,
        fm_algorithm_token(3) == "osc2_osc3"@,
{
    reveal_strlit("osc2");
    reveal_strlit("osc3");
    reveal_strlit("osc2_osc3");
    reveal_strlit("osc2+osc3");
    reveal_strlit("feedback");
    assert("osc2+osc3"@ != "osc2"@) by { assert("osc2+osc3"@.len() != "osc2"@.len()); }
    assert("osc2+osc3"@ != "osc3"@) by { assert("osc2+osc3"@.len() != "osc3"@.len()); }
    assert("osc2+osc3"@ != "osc2_osc3"@) by { assert("osc2+osc3"@[4] != "osc2_osc3"@[4]); }
    assert("feedback"@ != "osc2"@) by { assert("feedback"@.len() != "osc2"@.len()); }
    assert("feedback"@ != "osc3"@) by { assert("feedback"@.len() != "osc3"@.len()); }
    assert("feedback"@ != "osc2_osc3"@) by { assert("feedback"@.len() != "osc2_osc3"@.len()); }
    assert("feedback"@ != "osc2+osc3"@) by { assert("feedback"@.len() != "osc2+osc3"@.len()); }
}

} // verus!
