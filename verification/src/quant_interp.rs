//! Quant-knob interpolation modes for wavetable reshape.
//!
//! Modes apply per segment between consecutive knobs (`0→1`, …, `(N-2)→(N-1)`).
//! The last knob has no outgoing segment. A curve-level default can fill all segments.
use vstd::prelude::*;
use vstd::string::StringExecFns;

use crate::text::{
    ascii_lowercase, chars_eq, concat, decimal, lower_trimmed_chars, trim, usize_to_decimal,
};

verus! {

/// How quant knob amplitudes are written into the frame on one segment.
#[derive(Debug, Clone, Copy, PartialEq, Eq, Structural)]
pub enum WtQuantInterp {
    /// Flat band for the segment (step / rectangular).
    Hold,
    /// Straight line between the two knobs.
    Linear,
    /// Catmull-Rom cubic using neighboring knobs for tangents.
    Spline,
    /// Local cubic Lagrange through four neighboring knobs.
    Polynomial,
    /// Exponential ease between the two knob heights.
    Exponential,
    /// Linear on the segment, then a short centered box (moving-average) filter.
    MovingAverage,
}

/// Position of a mode in the toolbar order.
pub open spec fn interp_index(m: WtQuantInterp) -> nat {
    match m {
        WtQuantInterp::Hold => 0,
        WtQuantInterp::Linear => 1,
        WtQuantInterp::Spline => 2,
        WtQuantInterp::Polynomial => 3,
        WtQuantInterp::Exponential => 4,
        WtQuantInterp::MovingAverage => 5,
    }
}

/// Mode at a toolbar position; out-of-range positions give `Hold`.
pub open spec fn interp_from_index(i: nat) -> WtQuantInterp {
    if i == 1 {
        WtQuantInterp::Linear
    } else if i == 2 {
        WtQuantInterp::Spline
    } else if i == 3 {
        WtQuantInterp::Polynomial
    } else if i == 4 {
        WtQuantInterp::Exponential
    } else if i == 5 {
        WtQuantInterp::MovingAverage
    } else {
        WtQuantInterp::Hold
    }
}

/// Short user-facing name of a mode.
pub open spec fn interp_label(m: WtQuantInterp) -> Seq<char> {
    match m {
        WtQuantInterp::Hold => "Hold"@,
        WtQuantInterp::Linear => "Linear"@,
        WtQuantInterp::Spline => "Spline"@,
        WtQuantInterp::Polynomial => "Poly"@,
        WtQuantInterp::Exponential => "Expo"@,
        WtQuantInterp::MovingAverage => "MA"@,
    }
}

/// Token a mode is stored under in a patch.
pub open spec fn interp_patch_str(m: WtQuantInterp) -> Seq<char> {
    match m {
        WtQuantInterp::Hold => "hold"@,
        WtQuantInterp::Linear => "linear"@,
        WtQuantInterp::Spline => "spline"@,
        WtQuantInterp::Polynomial => "poly"@,
        WtQuantInterp::Exponential => "expo"@,
        WtQuantInterp::MovingAverage => "ma"@,
    }
}

/// Mode named by a normalized (trimmed, lowercase) patch token; unknown tokens,
/// the empty token and the legacy `none` give `Hold`.
pub open spec fn interp_from_key(k: Seq<char>) -> WtQuantInterp {
    if k == "linear"@ {
        WtQuantInterp::Linear
    } else if k == "spline"@ || k == "cubic"@ {
        WtQuantInterp::Spline
    } else if k == "poly"@ || k == "polynomial"@ {
        WtQuantInterp::Polynomial
    } else if k == "expo"@ || k == "exponential"@ {
        WtQuantInterp::Exponential
    } else if k == "ma"@ || k == "moving_average"@ || k == "moving-average"@ {
        WtQuantInterp::MovingAverage
    } else {
        WtQuantInterp::Hold
    }
}

/// Mode a raw patch string decodes to.
pub open spec fn interp_from_patch(s: Seq<char>) -> WtQuantInterp {
    interp_from_key(ascii_lowercase(trim(s)))
}

/// Number of segments between `slot_count` knobs: `max(0, N − 1)`.
pub open spec fn spec_segment_count(slot_count: nat) -> nat {
    if slot_count == 0 {
        0
    } else {
        (slot_count - 1) as nat
    }
}

impl WtQuantInterp {
    /// The default mode (`Hold`).
    pub fn default_mode() -> (r: Self)
        ensures
            r == WtQuantInterp::Hold,
    {
        WtQuantInterp::Hold
    }

    pub fn label(self) -> (r: &'static str)
        ensures
            r@ == interp_label(self),
    {
        match self {
            WtQuantInterp::Hold => "Hold",
            WtQuantInterp::Linear => "Linear",
            WtQuantInterp::Spline => "Spline",
            WtQuantInterp::Polynomial => "Poly",
            WtQuantInterp::Exponential => "Expo",
            WtQuantInterp::MovingAverage => "MA",
        }
    }

    pub fn index(self) -> (r: usize)
        ensures
            r == interp_index(self),
    {
        match self {
            WtQuantInterp::Hold => 0,
            WtQuantInterp::Linear => 1,
            WtQuantInterp::Spline => 2,
            WtQuantInterp::Polynomial => 3,
            WtQuantInterp::Exponential => 4,
            WtQuantInterp::MovingAverage => 5,
        }
    }

    pub fn from_index(idx: usize) -> (r: Self)
        ensures
            r == interp_from_index(idx as nat),
    {
        match idx {
            1 => WtQuantInterp::Linear,
            2 => WtQuantInterp::Spline,
            3 => WtQuantInterp::Polynomial,
            4 => WtQuantInterp::Exponential,
            5 => WtQuantInterp::MovingAverage,
            _ => WtQuantInterp::Hold,
        }
    }

    pub fn tooltip(self) -> (r: &'static str)
        ensures
            r@ == match self {
                WtQuantInterp::Hold => "Step — flat band on this segment (rectangular)"@,
                WtQuantInterp::Linear => "Linear — straight line between knobs"@,
                WtQuantInterp::Spline => "Spline — Catmull-Rom cubic through knobs"@,
                WtQuantInterp::Polynomial => "Poly — cubic Lagrange through four neighboring knobs"@,
                WtQuantInterp::Exponential => "Expo — exponential ease between adjacent knobs"@,
                WtQuantInterp::MovingAverage => "MA — linear on segment, then short centered box filter"@,
            },
    {
        match self {
            WtQuantInterp::Hold => "Step — flat band on this segment (rectangular)",
            WtQuantInterp::Linear => "Linear — straight line between knobs",
            WtQuantInterp::Spline => "Spline — Catmull-Rom cubic through knobs",
            WtQuantInterp::Polynomial => "Poly — cubic Lagrange through four neighboring knobs",
            WtQuantInterp::Exponential => "Expo — exponential ease between adjacent knobs",
            WtQuantInterp::MovingAverage => "MA — linear on segment, then short centered box filter",
        }
    }

    pub fn to_patch_str(self) -> (r: &'static str)
        ensures
            r@ == interp_patch_str(self),
    {
        match self {
            WtQuantInterp::Hold => "hold",
            WtQuantInterp::Linear => "linear",
            WtQuantInterp::Spline => "spline",
            WtQuantInterp::Polynomial => "poly",
            WtQuantInterp::Exponential => "expo",
            WtQuantInterp::MovingAverage => "ma",
        }
    }

    pub fn from_patch_str(s: &str) -> (r: Self)
        ensures
            r == interp_from_patch(s@),
    {
        let k = lower_trimmed_chars(s);
        let k = k.as_slice();
        if chars_eq(k, "linear") {
            WtQuantInterp::Linear
        } else if chars_eq(k, "spline") || chars_eq(k, "cubic") {
            WtQuantInterp::Spline
        } else if chars_eq(k, "poly") || chars_eq(k, "polynomial") {
            WtQuantInterp::Polynomial
        } else if chars_eq(k, "expo") || chars_eq(k, "exponential") {
            WtQuantInterp::Exponential
        } else if chars_eq(k, "ma") || chars_eq(k, "moving_average") || chars_eq(k, "moving-average") {
            WtQuantInterp::MovingAverage
        } else {
            WtQuantInterp::Hold
        }
    }
}

/// User-facing label for the curve-wide toolbar combo (`All·Hold`, …).
pub fn toolbar_curve_label(mode: WtQuantInterp) -> (r: String)
    ensures
        r@ == "All·"@ + interp_label(mode),
{
    concat("All·", mode.label())
}

/// User-facing label for a per-segment toolbar combo (`1→2·Linear`, …).
pub fn toolbar_segment_label(slot: usize, mode: WtQuantInterp) -> (r: String)
    requires
        slot + 2 <= usize::MAX,
    ensures
        r@ == decimal((slot + 1) as nat) + "→"@ + decimal((slot + 2) as nat) + "·"@
            + interp_label(mode),
{
    let mut out = usize_to_decimal(slot + 1);
    out.append("→");
    let to = usize_to_decimal(slot + 2);
    out.append(to.as_str());
    out.append("·");
    out.append(mode.label());
    out
}

/// Map a patch / preset string to a toolbar-safe label (defaults to Hold).
pub fn display_label_from_patch_str(s: &str) -> (r: &'static str)
    ensures
        r@ == interp_label(interp_from_patch(s@)),
{
    WtQuantInterp::from_patch_str(s).label()
}

/// Number of interp segments for `slot_count` knobs (`max(0, N−1)`).
pub fn segment_count(slot_count: usize) -> (r: usize)
    ensures
        r == spec_segment_count(slot_count as nat),
{
    if slot_count == 0 {
        0
    } else {
        slot_count - 1
    }
}

/// Resize segment modes to match knob count, preserving existing entries and
/// filling new ones from `default`.
pub fn resize_segment_interps(
    segments: &mut Vec<WtQuantInterp>,
    slot_count: usize,
    default: WtQuantInterp,
)
    ensures
        final(segments)@.len() == spec_segment_count(slot_count as nat),
        forall|i: int|
            0 <= i < final(segments)@.len() ==> #[trigger] final(segments)@[i] == if i
                < old(segments)@.len() {
                old(segments)@[i]
            } else {
                default
            },
{
    let want = segment_count(slot_count);
    if segments.len() > want {
        segments.truncate(want);
    } else {
        while segments.len() < want
            invariant
                want == spec_segment_count(slot_count as nat),
                old(segments)@.len() <= segments@.len() <= want,
                forall|i: int|
                    0 <= i < segments@.len() ==> #[trigger] segments@[i] == if i
                        < old(segments)@.len() {
                        old(segments)@[i]
                    } else {
                        default
                    },
            decreases want - segments@.len(),
        {
            segments.push(default);
        }
    }
}

/// Replace all segment modes with `mode` (curve-wide default apply).
pub fn fill_segment_interps(segments: &mut Vec<WtQuantInterp>, slot_count: usize, mode: WtQuantInterp)
    ensures
        final(segments)@.len() == spec_segment_count(slot_count as nat),
        forall|i: int| 0 <= i < final(segments)@.len() ==> #[trigger] final(segments)@[i] == mode,
{
    let want = segment_count(slot_count);
    segments.clear();
    while segments.len() < want
        invariant
            want == spec_segment_count(slot_count as nat),
            segments@.len() <= want,
            forall|i: int| 0 <= i < segments@.len() ==> #[trigger] segments@[i] == mode,
        decreases want - segments@.len(),
    {
        segments.push(mode);
    }
}

/// Resolve mode for segment `seg_i` (outgoing from knob `seg_i`).
pub fn segment_mode(segments: &[WtQuantInterp], seg_i: usize, fallback: WtQuantInterp) -> (r:
    WtQuantInterp)
    ensures
        r == if seg_i < segments@.len() {
            segments@[seg_i as int]
        } else {
            fallback
        },
{
    if seg_i < segments.len() {
        segments[seg_i]
    } else {
        fallback
    }
}

} // verus!

verus! {

/// A token made only of lowercase letters, `_` and `-`.
pub open spec fn is_plain_key(s: Seq<char>) -> bool {
    forall|i: int| 0 <= i < s.len() ==> ('a' <= #[trigger] s[i] <= 'z' || s[i] == '_' || s[i] == '-')
}

/// A plain token is its own normalized form.
pub proof fn lemma_plain_key_normalized(s: Seq<char>)
    requires
        is_plain_key(s),
    ensures
        ascii_lowercase(trim(s)) == s,
{
    if s.len() > 0 {
        assert(!crate::text::is_white_space(s[0]));
        assert(!crate::text::is_white_space(s.last()));
    }
    assert(crate::text::trim_start(s) == s);
    assert(crate::text::trim_end(s) == s);
    assert(ascii_lowercase(s) =~= s);
}

/// Every mode sits at a toolbar position below six, and reading that position back
/// gives the same mode.
pub proof fn lemma_interp_index_roundtrip(m: WtQuantInterp)
    ensures
        interp_index(m) < 6,
        interp_from_index(interp_index(m)) == m,
{
}

/// Every toolbar position below six holds a mode whose position is that index.
pub proof fn lemma_interp_from_index_roundtrip(i: nat)
    requires
        i < 6,
    ensures
        interp_index(interp_from_index(i)) == i,
{
}

/// Writing a mode to a patch and reading it back gives the same mode.
pub proof fn lemma_interp_patch_roundtrip(m: WtQuantInterp)
    ensures
        interp_from_patch(interp_patch_str(m)) == m,
{
    reveal_strlit("hold");
    reveal_strlit("linear");
    reveal_strlit("spline");
    reveal_strlit("cubic");
    reveal_strlit("poly");
    reveal_strlit("polynomial");
    reveal_strlit("expo");
    reveal_strlit("exponential");
    reveal_strlit("ma");
    reveal_strlit("moving_average");
    reveal_strlit("moving-average");
    let s = interp_patch_str(m);
    lemma_plain_key_normalized(s);
    match m {
        WtQuantInterp::Hold => {
            assert(s[0] == 'h');
        },
        WtQuantInterp::Linear => {},
        WtQuantInterp::Spline => {},
        WtQuantInterp::Polynomial => {
            assert(s[0] == 'p');
        },
        WtQuantInterp::Exponential => {
            assert(s[0] == 'e');
        },
        WtQuantInterp::MovingAverage => {},
    }
}

/// No patch string ever surfaces as the label `none`.
pub proof fn lemma_display_label_never_none(s: Seq<char>)
    ensures
        interp_label(interp_from_patch(s)) != "none"@,
{
    reveal_strlit("none");
    reveal_strlit("Hold");
    reveal_strlit("Linear");
    reveal_strlit("Spline");
    reveal_strlit("Poly");
    reveal_strlit("Expo");
    reveal_strlit("MA");
    let l = interp_label(interp_from_patch(s));
    assert(l[0] != 'n');
}

/// A mode is stored in a patch under its own name in lowercase.
pub proof fn lemma_patch_token_is_lowercase_label(m: WtQuantInterp)
    ensures
        interp_patch_str(m) == ascii_lowercase(interp_label(m)),
{
    reveal_strlit("hold");
    reveal_strlit("linear");
    reveal_strlit("spline");
    reveal_strlit("poly");
    reveal_strlit("expo");
    reveal_strlit("ma");
    reveal_strlit("Hold");
    reveal_strlit("Linear");
    reveal_strlit("Spline");
    reveal_strlit("Poly");
    reveal_strlit("Expo");
    reveal_strlit("MA");
    assert(interp_patch_str(m) =~= ascii_lowercase(interp_label(m)));
}

/// The long spellings a patch may hold read as the mode they spell out, in any case and
/// with surrounding white space: `cubic` is the spline, `polynomial`, `exponential`,
/// `moving_average` / `moving-average` are the modes they name; `none` is `Hold`.
pub proof fn lemma_patch_aliases(k: Seq<char>)
    requires
        k == "cubic"@ || k == "polynomial"@ || k == "exponential"@ || k == "moving_average"@
            || k == "moving-average"@ || k == "none"@,
    ensures
        k == "cubic"@ ==> interp_from_patch(k) == WtQuantInterp::Spline,
        k == "polynomial"@ ==> interp_from_patch(k) == WtQuantInterp::Polynomial,
        k == "exponential"@ ==> interp_from_patch(k) == WtQuantInterp::Exponential,
        k == "moving_average"@ || k == "moving-average"@ ==> interp_from_patch(k)
            == WtQuantInterp::MovingAverage,
        k == "none"@ ==> interp_from_patch(k) == WtQuantInterp::Hold,
{
    reveal_strlit("linear");
    reveal_strlit("spline");
    reveal_strlit("cubic");
    reveal_strlit("poly");
    reveal_strlit("polynomial");
    reveal_strlit("expo");
    reveal_strlit("exponential");
    reveal_strlit("ma");
    reveal_strlit("moving_average");
    reveal_strlit("moving-average");
    reveal_strlit("none");
    lemma_plain_key_normalized(k);
    if k == "none"@ {
        assert(k[0] == 'n');
    }
    if k == "cubic"@ {
        assert(k[0] == 'c');
    }
    if k == "polynomial"@ {
        assert(k[0] == 'p');
    }
    if k == "exponential"@ {
        assert(k[0] == 'e');
    }
}

/// Mode names in toolbar order.
pub open spec fn interp_toolbar_labels() -> Seq<Seq<char>> {
    seq!["Hold"@, "Linear"@, "Spline"@, "Poly"@, "Expo"@, "MA"@]
}

/// Each mode is shown under its own name, at its toolbar position: hold, linear,
/// spline, polynomial (`Poly`), exponential (`Expo`) and moving average (`MA`).
pub proof fn lemma_interp_toolbar_names(m: WtQuantInterp)
    ensures
        interp_label(m) == interp_toolbar_labels()[interp_index(m) as int],
        interp_label(WtQuantInterp::Hold) == "Hold"@,
        interp_label(WtQuantInterp::Linear) == "Linear"@,
        interp_label(WtQuantInterp::Spline) == "Spline"@,
        interp_label(WtQuantInterp::Polynomial) == "Poly"@,
        interp_label(WtQuantInterp::Exponential) == "Expo"@,
        interp_label(WtQuantInterp::MovingAverage) == "MA"@,
{
}

} // verus!
