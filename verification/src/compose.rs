//! Piano-roll pitch range, clip selection, and what a press or click on the note
//! grid does with each tool in compose mode.
use vstd::prelude::*;
use crate::actions::PianoRollTool;

verus! {

/// Highest pitch row of the piano roll (C8).
pub const PITCH_TOP: u8 = 108;

/// Lowest pitch row of the piano roll (A0).
pub const PITCH_BOTTOM: u8 = 21;

/// `pitch + delta`, held inside the piano roll's rows.
pub open spec fn spec_moved_pitch(pitch: u8, delta: i8) -> u8 {
    let p = pitch as int + delta as int;
    if p < PITCH_BOTTOM {
        PITCH_BOTTOM
    } else if p > PITCH_TOP {
        PITCH_TOP
    } else {
        p as u8
    }
}

/// Pitch of a note dragged by `delta` semitones, held between A0 and C8.
pub fn moved_pitch(pitch: u8, delta: i8) -> (r: u8)
    ensures
        r == spec_moved_pitch(pitch, delta),
        PITCH_BOTTOM <= r <= PITCH_TOP,
        PITCH_BOTTOM <= pitch as int + delta as int <= PITCH_TOP ==> r == pitch as int + delta as int,
{
    let p: i16 = pitch as i16 + delta as i16;
    if p < PITCH_BOTTOM as i16 {
        PITCH_BOTTOM
    } else if p > PITCH_TOP as i16 {
        PITCH_TOP
    } else {
        p as u8
    }
}

/// The `(track, clip)` the piano roll edits: the selected clip of the selected track,
/// when both exist. `clip_counts[t]` is the number of clips on track `t`.
pub fn editable_clip(selected_track: usize, selected_clip: Option<usize>, clip_counts: &[usize]) -> (r:
    Option<(usize, usize)>)
    ensures
        r == if selected_clip is Some && selected_track < clip_counts@.len() && selected_clip->0
            < clip_counts@[selected_track as int] {
            Some((selected_track, selected_clip->0))
        } else {
            None::<(usize, usize)>
        },
{
    let ci = match selected_clip {
        Some(c) => c,
        None => return None,
    };
    if selected_track < clip_counts.len() && ci < clip_counts[selected_track] {
        Some((selected_track, ci))
    } else {
        None
    }
}

/// What making the selected clip editable had to change.
#[derive(Clone, Copy, Debug, PartialEq, Eq, Structural)]
pub struct ClipEnsured {
    /// A first (empty) track was added because the project had none.
    pub added_track: bool,
    /// A clip was added to the selected track because it had none.
    pub added_clip: bool,
    /// The clip selection pointed nowhere and was reset to the first clip; the
    /// selected notes are then cleared.
    pub selection_reset: bool,
}

/// Make the piano roll editable without an arrangement click: give the project a track
/// if it has none, fall back to the first track when the selection lies past the end,
/// give that track a clip if it has none, and point the clip selection at the first
/// clip unless it already names one. `clip_counts[t]` is the number of clips on track
/// `t`; the caller adds the track or clip that the result names.
pub fn ensure_editable_clip(
    clip_counts: &mut Vec<usize>,
    selected_track: &mut usize,
    selected_clip: &mut Option<usize>,
) -> (r: ClipEnsured)
    ensures
        ({
            let base = if old(clip_counts)@.len() == 0 {
                seq![0usize]
            } else {
                old(clip_counts)@
            };
            let t = if *old(selected_track) < base.len() {
                *old(selected_track)
            } else {
                0
            };
            let counts = if base[t as int] == 0 {
                base.update(t as int, 1)
            } else {
                base
            };
            let keep = *old(selected_clip) is Some && (*old(selected_clip))->0 < counts[t as int];
            &&& final(clip_counts)@ == counts
            &&& *final(selected_track) == t
            &&& *final(selected_clip) == if keep {
                *old(selected_clip)
            } else {
                Some(0usize)
            }
            &&& r.added_track == (old(clip_counts)@.len() == 0)
            &&& r.added_clip == (base[t as int] == 0)
            &&& r.selection_reset == !keep
        }),
        *final(selected_track) < final(clip_counts)@.len(),
        *final(selected_clip) is Some,
        (*final(selected_clip))->0 < final(clip_counts)@[*final(selected_track) as int],
{
    let added_track = clip_counts.len() == 0;
    if added_track {
        clip_counts.push(0);
    }
    if *selected_track >= clip_counts.len() {
        *selected_track = 0;
    }
    let ti = *selected_track;
    let added_clip = clip_counts[ti] == 0;
    if added_clip {
        clip_counts.set(ti, 1);
    }
    let clip_count = clip_counts[ti];
    let keep = match *selected_clip {
        Some(ci) => ci < clip_count,
        None => false,
    };
    if !keep {
        *selected_clip = Some(0);
    }
    ClipEnsured { added_track, added_clip, selection_reset: !keep }
}

/// Where the pointer lands on the note grid: on no note, or on a note's body or one
/// of its resize edges (the note by its index in the clip).
#[derive(Clone, Copy, Debug, PartialEq, Eq, Structural)]
pub enum HitRegion {
    Empty,
    Body(usize),
    LeftEdge(usize),
    RightEdge(usize),
}

/// What a press that starts a drag on the note grid does.
#[derive(Clone, Copy, Debug, PartialEq, Eq, Structural)]
pub enum RollPress {
    /// Start drawing a new note with the pencil.
    BeginPencil,
    /// Select only this note and drag its start edge.
    ResizeLeft(usize),
    /// Select only this note and drag its end edge.
    ResizeRight(usize),
    /// Duplicate this note, select the copy and drag it.
    DuplicateAndMove(usize),
    /// Drag the whole selection, which already holds the pressed note.
    MoveSelection,
    /// Select only this note and drag it.
    SelectAndMove(usize),
    /// Clear the selection.
    ClearSelection,
    /// Nothing happens.
    Nothing,
}

/// What a click (press and release without a drag) on the note grid does.
#[derive(Clone, Copy, Debug, PartialEq, Eq, Structural)]
pub enum RollClick {
    /// Delete this note (one undoable step) and clear the selection.
    Erase(usize),
    /// Clear the selection.
    ClearSelection,
    /// Play this note on the instrument.
    Audition(usize),
    /// Nothing happens.
    Nothing,
}

/// The press that starts a drag, by tool: the pencil starts a note anywhere; the
/// select tool resizes from an edge, duplicates the pressed note with shift held,
/// drags the selection from a note's body (first selecting only that note unless it
/// is already selected) and clears the selection on empty grid; the eraser ignores
/// drags. `hit_selected` says whether the pressed note is in the selection.
pub fn roll_press(tool: PianoRollTool, hit: HitRegion, shift: bool, hit_selected: bool) -> (r:
    RollPress)
    ensures
        tool == PianoRollTool::Pencil ==> r == RollPress::BeginPencil,
        tool == PianoRollTool::Eraser ==> r == RollPress::Nothing,
        tool == PianoRollTool::Select ==> r == match hit {
            HitRegion::Empty => RollPress::ClearSelection,
            HitRegion::LeftEdge(i) => RollPress::ResizeLeft(i),
            HitRegion::RightEdge(i) => RollPress::ResizeRight(i),
            HitRegion::Body(i) => if shift {
                RollPress::DuplicateAndMove(i)
            } else if hit_selected {
                RollPress::MoveSelection
            } else {
                RollPress::SelectAndMove(i)
            },
        },
{
    match tool {
        PianoRollTool::Pencil => RollPress::BeginPencil,
        PianoRollTool::Eraser => RollPress::Nothing,
        PianoRollTool::Select => match hit {
            HitRegion::Empty => RollPress::ClearSelection,
            HitRegion::LeftEdge(i) => RollPress::ResizeLeft(i),
            HitRegion::RightEdge(i) => RollPress::ResizeRight(i),
            HitRegion::Body(i) => {
                if shift {
                    RollPress::DuplicateAndMove(i)
                } else if hit_selected {
                    RollPress::MoveSelection
                } else {
                    RollPress::SelectAndMove(i)
                }
            },
        },
    }
}

/// A click, by tool: the eraser deletes the note under the pointer (body or edge);
/// the select tool clears the selection on empty grid and, while not recording,
/// auditions a note clicked on its body; the pencil does nothing on a click.
pub fn roll_click(tool: PianoRollTool, hit: HitRegion, recording: bool) -> (r: RollClick)
    ensures
        tool == PianoRollTool::Pencil ==> r == RollClick::Nothing,
        tool == PianoRollTool::Eraser ==> r == match hit {
            HitRegion::Empty => RollClick::Nothing,
            HitRegion::Body(i) => RollClick::Erase(i),
            HitRegion::LeftEdge(i) => RollClick::Erase(i),
            HitRegion::RightEdge(i) => RollClick::Erase(i),
        },
        tool == PianoRollTool::Select ==> r == match hit {
            HitRegion::Empty => RollClick::ClearSelection,
            HitRegion::Body(i) => if recording {
                RollClick::Nothing
            } else {
                RollClick::Audition(i)
            },
            _ => RollClick::Nothing,
        },
{
    match tool {
        PianoRollTool::Eraser => match hit {
            HitRegion::Body(i) => RollClick::Erase(i),
            HitRegion::LeftEdge(i) => RollClick::Erase(i),
            HitRegion::RightEdge(i) => RollClick::Erase(i),
            HitRegion::Empty => RollClick::Nothing,
        },
        PianoRollTool::Select => match hit {
            HitRegion::Empty => RollClick::ClearSelection,
            HitRegion::Body(i) => {
                if recording {
                    RollClick::Nothing
                } else {
                    RollClick::Audition(i)
                }
            },
            _ => RollClick::Nothing,
        },
        PianoRollTool::Pencil => RollClick::Nothing,
    }
}

/// Moving a note up and back down by the same amount returns it to its pitch when
/// both positions lie inside the roll.
pub proof fn lemma_move_pitch_reversible(pitch: u8, delta: i8)
    requires
        PITCH_BOTTOM <= pitch <= PITCH_TOP,
        PITCH_BOTTOM <= pitch as int + delta as int <= PITCH_TOP,
        delta > i8::MIN,
    ensures
        spec_moved_pitch(spec_moved_pitch(pitch, delta), (-delta) as i8) == pitch,
{
}

/// Pitches of a clip's notes after moving the first `k` listed notes by `delta`
/// semitones in turn, each held inside the roll; an index past the end is skipped.
pub open spec fn pitches_moved(p: Seq<u8>, entries: Seq<usize>, delta: i8, k: int) -> Seq<u8>
    decreases k,
{
    if k <= 0 {
        p
    } else {
        let s = pitches_moved(p, entries, delta, k - 1);
        let i = entries[k - 1];
        if i < s.len() {
            s.update(i as int, spec_moved_pitch(s[i as int], delta))
        } else {
            s
        }
    }
}

/// The pitch part of moving notes, and of its undo (the negated delta): each listed
/// note's pitch moves by `delta`, held between A0 and C8. `pitches[i]` is the pitch of
/// note `i` of the clip.
pub fn move_pitches(pitches: &mut Vec<u8>, entries: &[usize], delta: i8)
    ensures
        final(pitches)@ == pitches_moved(old(pitches)@, entries@, delta, entries@.len() as int),
{
    let mut k: usize = 0;
    while k < entries.len()
        invariant
            k <= entries@.len(),
            pitches@ == pitches_moved(old(pitches)@, entries@, delta, k as int),
        decreases entries@.len() - k,
    {
        let i = entries[k];
        if i < pitches.len() {
            let moved = moved_pitch(pitches[i], delta);
            pitches.set(i, moved);
        }
        k = k + 1;
    }
}

/// Listed notes are distinct.
pub open spec fn distinct_entries(entries: Seq<usize>) -> bool {
    forall|a: int, b: int| 0 <= a < b < entries.len() ==> entries[a] != entries[b]
}

/// With distinct entries, each note's pitch is moved once if listed, else kept.
pub proof fn lemma_pitches_moved_pointwise(p: Seq<u8>, entries: Seq<usize>, delta: i8, k: int)
    requires
        0 <= k <= entries.len(),
        distinct_entries(entries),
        p.len() <= usize::MAX,
    ensures
        pitches_moved(p, entries, delta, k).len() == p.len(),
        forall|j: int|
            0 <= j < p.len() ==> #[trigger] pitches_moved(p, entries, delta, k)[j] == if entries.subrange(
                0,
                k,
            ).contains(j as usize) {
                spec_moved_pitch(p[j], delta)
            } else {
                p[j]
            },
    decreases k,
{
    if k > 0 {
        lemma_pitches_moved_pointwise(p, entries, delta, k - 1);
        let s = pitches_moved(p, entries, delta, k - 1);
        let i = entries[k - 1];
        let pre = entries.subrange(0, k - 1);
        let cur = entries.subrange(0, k);
        assert(cur =~= pre.push(i));
        assert forall|j: int| 0 <= j < p.len() implies #[trigger] pitches_moved(p, entries, delta, k)[j]
            == if cur.contains(j as usize) {
            spec_moved_pitch(p[j], delta)
        } else {
            p[j]
        } by {
            assert((j as usize) as int == j);
            assert(cur.contains(j as usize) <==> (pre.contains(j as usize) || i == j as usize)) by {
                if cur.contains(j as usize) {
                    let w = choose|w: int| 0 <= w < cur.len() && cur[w] == j as usize;
                    if w < k - 1 {
                        assert(pre[w] == j as usize);
                    }
                }
                if pre.contains(j as usize) {
                    let w = choose|w: int| 0 <= w < pre.len() && pre[w] == j as usize;
                    assert(cur[w] == j as usize);
                }
                if i == j as usize {
                    assert(cur[k - 1] == j as usize);
                }
            }
            if i == j as usize {
                assert(!pre.contains(j as usize)) by {
                    if pre.contains(j as usize) {
                        let w = choose|w: int| 0 <= w < pre.len() && pre[w] == j as usize;
                        assert(entries[w] == entries[k - 1]);
                    }
                }
            }
        }
    }
}

/// Undoing a move of distinct notes (moving them back by the negated delta) restores
/// every pitch, provided each moved note starts and lands inside the roll.
pub proof fn lemma_move_undo_restores(p: Seq<u8>, entries: Seq<usize>, delta: i8)
    requires
        distinct_entries(entries),
        delta > i8::MIN,
        p.len() <= usize::MAX,
        forall|k: int|
            0 <= k < entries.len() && entries[k] < p.len() ==> {
                let q = #[trigger] p[entries[k] as int];
                &&& PITCH_BOTTOM <= q <= PITCH_TOP
                &&& PITCH_BOTTOM <= q as int + delta as int <= PITCH_TOP
            },
    ensures
        pitches_moved(
            pitches_moved(p, entries, delta, entries.len() as int),
            entries,
            (-delta) as i8,
            entries.len() as int,
        ) == p,
{
    let n = entries.len() as int;
    let m = pitches_moved(p, entries, delta, n);
    lemma_pitches_moved_pointwise(p, entries, delta, n);
    lemma_pitches_moved_pointwise(m, entries, (-delta) as i8, n);
    let back = pitches_moved(m, entries, (-delta) as i8, n);
    assert(entries.subrange(0, n) =~= entries);
    assert forall|j: int| 0 <= j < p.len() implies back[j] == p[j] by {
        assert(m[j] == if entries.contains(j as usize) {
            spec_moved_pitch(p[j], delta)
        } else {
            p[j]
        });
        if entries.contains(j as usize) {
            let w = choose|w: int| 0 <= w < entries.len() && entries[w] == j as usize;
            assert(p[entries[w] as int] == p[j]);
            lemma_move_pitch_reversible(p[j], delta);
        }
    }
    assert(back =~= p);
}

/// A dragged note moves by exactly the drag when it lands inside the roll, and stops
/// at the nearest end of the roll otherwise; dragging further never lowers it.
pub proof fn lemma_moved_pitch_follows_drag(pitch: u8, delta: i8, further: i8)
    ensures
        PITCH_BOTTOM <= pitch as int + delta as int <= PITCH_TOP ==> spec_moved_pitch(pitch, delta)
            == pitch as int + delta as int,
        (pitch as int + delta as int) < PITCH_BOTTOM ==> spec_moved_pitch(pitch, delta)
            == PITCH_BOTTOM,
        pitch as int + delta as int > PITCH_TOP ==> spec_moved_pitch(pitch, delta) == PITCH_TOP,
        delta <= further ==> spec_moved_pitch(pitch, delta) <= spec_moved_pitch(pitch, further),
{
}

} // verus!
