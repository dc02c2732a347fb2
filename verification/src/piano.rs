//! Piano keyboard geometry over MIDI note numbers: which keys are white, the white
//! keys of a range in order, and each black key with the white-key slot it sits on.
use vstd::prelude::*;

use crate::text::{concat, i32_to_decimal, signed_decimal};

verus! {

/// Semitones (within an octave, from C) that fall on white keys.
pub open spec fn white_semitone(s: int) -> bool {
    s == 0 || s == 2 || s == 4 || s == 5 || s == 7 || s == 9 || s == 11
}

/// Whether MIDI note `n` is a white key.
pub open spec fn is_white_note(n: int) -> bool {
    white_semitone(n % 12)
}

/// White keys of `start..=end`, ascending.
pub open spec fn spec_white_notes(start: int, end: int) -> Seq<u8>
    decreases end - start + 1,
{
    if end < start {
        seq![]
    } else {
        let prev = spec_white_notes(start, end - 1);
        if is_white_note(end) {
            prev.push(end as u8)
        } else {
            prev
        }
    }
}

/// Black keys of `start..=end`, ascending.
pub open spec fn spec_black_pitches(start: int, end: int) -> Seq<u8>
    decreases end - start + 1,
{
    if end < start {
        seq![]
    } else {
        let prev = spec_black_pitches(start, end - 1);
        if !is_white_note(end) {
            prev.push(end as u8)
        } else {
            prev
        }
    }
}

/// Index of the first element of `ws` that is at least `n` (`ws.len()` when none is).
pub open spec fn first_at_least(ws: Seq<u8>, n: u8) -> nat
    decreases ws.len(),
{
    if ws.len() == 0 {
        0
    } else if ws[0] >= n {
        0
    } else {
        1 + first_at_least(ws.drop_first(), n)
    }
}

/// White-key slot a black key is drawn on: the white key just before it (0 at the start).
pub open spec fn black_slot(whites: Seq<u8>, n: u8) -> nat {
    let k = first_at_least(whites, n);
    if k == 0 {
        0
    } else {
        (k - 1) as nat
    }
}

/// Note names of the twelve pitch classes.
pub open spec fn pitch_names() -> Seq<Seq<char>> {
    seq!["C"@, "C#"@, "D"@, "D#"@, "E"@, "F"@, "F#"@, "G"@, "G#"@, "A"@, "A#"@, "B"@]
}

pub fn is_white_semitone(semi: u8) -> (r: bool)
    ensures
        r == white_semitone(semi as int),
{
    semi == 0 || semi == 2 || semi == 4 || semi == 5 || semi == 7 || semi == 9 || semi == 11
}

/// Whether a MIDI pitch falls on a black key.
pub fn is_black_key(pitch: u8) -> (r: bool)
    ensures
        r == !is_white_note(pitch as int),
{
    let s = pitch % 12;
    s == 1 || s == 3 || s == 6 || s == 8 || s == 10
}

/// Note name with octave, C-1 at MIDI 0 (`C4` is 60).
pub fn pitch_label(pitch: u8) -> (r: String)
    ensures
        r@ == pitch_names()[(pitch % 12) as int] + signed_decimal(pitch as int / 12 - 1),
{
    let name = match pitch % 12 {
        0 => "C",
        1 => "C#",
        2 => "D",
        3 => "D#",
        4 => "E",
        5 => "F",
        6 => "F#",
        7 => "G",
        8 => "G#",
        9 => "A",
        10 => "A#",
        _ => "B",
    };
    let octave: i32 = (pitch / 12) as i32 - 1;
    let digits = i32_to_decimal(octave);
    concat(name, digits.as_str())
}

pub fn white_key_notes(start: u8, end: u8) -> (r: Vec<u8>)
    ensures
        r@ == spec_white_notes(start as int, end as int),
{
    let mut notes: Vec<u8> = Vec::new();
    let mut note: u16 = start as u16;
    assert(notes@ =~= spec_white_notes(start as int, start as int - 1));
    while note <= end as u16
        invariant
            start <= note <= end as u16 + 1 || end < start,
            note >= start,
            note <= 256,
            end < start ==> note == start,
            notes@ == spec_white_notes(start as int, note as int - 1),
        decreases end as u16 + 1 - note,
    {
        let n: u8 = note as u8;
        if is_white_semitone(n % 12) {
            notes.push(n);
        }
        note = note + 1;
    }
    if end < start {
        assert(spec_white_notes(start as int, end as int) =~= seq![]);
    }
    notes
}

pub fn white_key_count(start: u8, end: u8) -> (r: usize)
    ensures
        r == spec_white_notes(start as int, end as int).len(),
{
    white_key_notes(start, end).len()
}

/// Index of the first white key at or above `note` (`whites.len()` when none).
fn position_at_least(whites: &[u8], note: u8) -> (r: usize)
    ensures
        r == first_at_least(whites@, note),
{
    let mut i: usize = 0;
    assert(whites@.subrange(0, whites@.len() as int) =~= whites@);
    while i < whites.len() && whites[i] < note
        invariant
            i <= whites@.len(),
            first_at_least(whites@, note) == i + first_at_least(
                whites@.subrange(i as int, whites@.len() as int),
                note,
            ),
        decreases whites@.len() - i,
    {
        assert(whites@.subrange(i as int, whites@.len() as int).drop_first() =~= whites@.subrange(
            i + 1,
            whites@.len() as int,
        ));
        i = i + 1;
    }
    let ghost rest = whites@.subrange(i as int, whites@.len() as int);
    if i < whites.len() {
        assert(rest[0] == whites@[i as int]);
    }
    i
}

pub fn black_key_notes(start: u8, end: u8) -> (r: Vec<(u8, usize)>)
    ensures
        r@.len() == spec_black_pitches(start as int, end as int).len(),
        forall|i: int|
            0 <= i < r@.len() ==> #[trigger] r@[i] == (
                spec_black_pitches(start as int, end as int)[i],
                black_slot(
                    spec_white_notes(start as int, end as int),
                    spec_black_pitches(start as int, end as int)[i],
                ) as usize,
            ),
{
    let white_notes = white_key_notes(start, end);
    let ghost whites = spec_white_notes(start as int, end as int);
    let mut out: Vec<(u8, usize)> = Vec::new();
    let mut note: u16 = start as u16;
    while note <= end as u16
        invariant
            white_notes@ == whites,
            whites == spec_white_notes(start as int, end as int),
            note >= start,
            note <= 256,
            end < start ==> note == start,
            end >= start ==> note <= end as u16 + 1,
            out@.len() == spec_black_pitches(start as int, note as int - 1).len(),
            forall|i: int|
                0 <= i < out@.len() ==> #[trigger] out@[i] == (
                    spec_black_pitches(start as int, note as int - 1)[i],
                    black_slot(whites, spec_black_pitches(start as int, note as int - 1)[i]) as usize,
                ),
        decreases end as u16 + 1 - note,
    {
        let n: u8 = note as u8;
        if !is_white_semitone(n % 12) {
            let k = position_at_least(white_notes.as_slice(), n);
            proof {
                lemma_first_at_least_bound(whites, n);
            }
            let slot = if k == 0 {
                0
            } else {
                k - 1
            };
            out.push((n, slot));
        }
        note = note + 1;
    }
    out
}

proof fn lemma_first_at_least_bound(ws: Seq<u8>, n: u8)
    ensures
        first_at_least(ws, n) <= ws.len(),
    decreases ws.len(),
{
    if ws.len() > 0 && ws[0] < n {
        lemma_first_at_least_bound(ws.drop_first(), n);
    }
}

} // verus!

verus! {

/// Every note of `start..=end` is a white key or a black key, never both: the white
/// and black lists hold exactly the notes of the range of each colour, and their
/// lengths add up to the size of the range.
pub proof fn lemma_keys_partition_range(start: int, end: int)
    requires
        0 <= start,
        end < 256,
    ensures
        start <= end + 1 ==> spec_white_notes(start, end).len() + spec_black_pitches(start, end).len()
            == end - start + 1,
        forall|n: int|
            start <= n <= end ==> (spec_white_notes(start, end).contains(n as u8) <==> is_white_note(
                n,
            )),
        forall|n: int|
            start <= n <= end ==> (spec_black_pitches(start, end).contains(n as u8)
                <==> !is_white_note(n)),
        forall|i: int|
            0 <= i < spec_white_notes(start, end).len() ==> start <= #[trigger] spec_white_notes(
                start,
                end,
            )[i] <= end,
        forall|i: int|
            0 <= i < spec_black_pitches(start, end).len() ==> start <= #[trigger] spec_black_pitches(
                start,
                end,
            )[i] <= end,
    decreases end - start + 1,
{
    if end >= start {
        lemma_keys_partition_range(start, end - 1);
        let w = spec_white_notes(start, end - 1);
        let b = spec_black_pitches(start, end - 1);
        assert forall|n: int| start <= n <= end implies (spec_white_notes(start, end).contains(
            n as u8,
        ) <==> is_white_note(n)) by {
            if is_white_note(end) {
                assert(spec_white_notes(start, end) == w.push(end as u8));
                if n < end {
                    if w.push(end as u8).contains(n as u8) {
                        let wp = w.push(end as u8);
                        let k = choose|k: int| 0 <= k < wp.len() && #[trigger] wp[k] == n as u8;
                        if k < w.len() {
                            assert(w.contains(n as u8));
                        }
                    }
                    if w.contains(n as u8) {
                        let k = choose|k: int| 0 <= k < w.len() && w[k] == n as u8;
                        assert(w.push(end as u8)[k] == n as u8);
                    }
                } else {
                    assert(w.push(end as u8)[w.len() as int] == end as u8);
                }
            } else {
                if n == end {
                    if w.contains(n as u8) {
                        let k = choose|k: int| 0 <= k < w.len() && w[k] == n as u8;
                        assert(w[k] <= end - 1);
                    }
                }
            }
        }
        assert forall|n: int| start <= n <= end implies (spec_black_pitches(start, end).contains(
            n as u8,
        ) <==> !is_white_note(n)) by {
            if !is_white_note(end) {
                assert(spec_black_pitches(start, end) == b.push(end as u8));
                if n < end {
                    if b.push(end as u8).contains(n as u8) {
                        let bp = b.push(end as u8);
                        let k = choose|k: int| 0 <= k < bp.len() && #[trigger] bp[k] == n as u8;
                        if k < b.len() {
                            assert(b.contains(n as u8));
                        }
                    }
                    if b.contains(n as u8) {
                        let k = choose|k: int| 0 <= k < b.len() && b[k] == n as u8;
                        assert(b.push(end as u8)[k] == n as u8);
                    }
                } else {
                    assert(b.push(end as u8)[b.len() as int] == end as u8);
                }
            } else {
                if n == end {
                    if b.contains(n as u8) {
                        let k = choose|k: int| 0 <= k < b.len() && b[k] == n as u8;
                        assert(b[k] <= end - 1);
                    }
                }
            }
        }
    }
}

/// The white keys of a range are strictly ascending.
pub proof fn lemma_white_notes_ascending(start: int, end: int)
    requires
        0 <= start,
        end < 256,
    ensures
        forall|i: int, j: int|
            0 <= i < j < spec_white_notes(start, end).len() ==> spec_white_notes(start, end)[i]
                < spec_white_notes(start, end)[j],
    decreases end - start + 1,
{
    if end >= start {
        lemma_white_notes_ascending(start, end - 1);
        lemma_keys_partition_range(start, end - 1);
    }
}

/// When a range holds at least one white key, every black key is drawn on an existing
/// white-key slot.
pub proof fn lemma_black_slot_in_range(whites: Seq<u8>, n: u8)
    requires
        whites.len() > 0,
    ensures
        black_slot(whites, n) < whites.len(),
{
    lemma_first_at_least_bound(whites, n);
}

} // verus!

verus! {

/// What one frame of pointer input does to the on-screen piano.
pub struct PianoPointerStep {
    /// Note held by the pointer after this frame.
    pub mouse_note: Option<u8>,
    pub response: crate::actions::PianoResponse,
    /// Whether the held note is written back for the next frame.
    pub store: bool,
}

/// Whether a key can be played: every key when the keyboard is not scale-folded,
/// else only in-scale keys.
pub fn key_playable(scale_fold: bool, in_scale: bool) -> (r: bool)
    ensures
        r == (!scale_fold || in_scale),
{
    if !scale_fold {
        return true;
    }
    in_scale
}

/// One frame of pointer handling. `mouse_note` is the note held from the previous frame,
/// `pressed` the key under a pressed pointer inside the keyboard (if any),
/// `pressed_playable` whether that key can be played, and `released` whether the
/// primary button was released this frame.
///
/// Pressing an unplayable key does nothing this frame (nothing is stored). Moving the
/// pressed pointer onto a new key releases the held note and sounds the new one; a
/// release ends the held note.
pub fn piano_pointer_step(
    mouse_note: Option<u8>,
    pressed: Option<u8>,
    pressed_playable: bool,
    released: bool,
) -> (r: PianoPointerStep)
    ensures
        pressed is Some && !pressed_playable ==> r.mouse_note == mouse_note
            && r.response.note_on is None && r.response.note_off is None && !r.store,
        !(pressed is Some && !pressed_playable) ==> ({
            let moved = pressed is Some && pressed != mouse_note;
            let held = if moved {
                pressed
            } else {
                mouse_note
            };
            &&& r.store
            &&& r.response.note_on == if moved {
                pressed
            } else {
                None
            }
            &&& r.response.note_off == if released {
                held
            } else if moved {
                mouse_note
            } else {
                None
            }
            &&& r.mouse_note == if released {
                None
            } else {
                held
            }
        }),
        r.response.note_on is Some && !released ==> r.mouse_note == r.response.note_on,
        r.response.note_on is Some ==> r.response.note_on != mouse_note,
        r.response.note_off is Some ==> r.response.note_off == mouse_note
            || r.response.note_off == r.response.note_on,
        released && r.store ==> r.mouse_note is None,
{
    let mut out = crate::actions::PianoResponse { note_on: None, note_off: None };
    let mut held = mouse_note;
    if let Some(note) = pressed {
        if !pressed_playable {
            return PianoPointerStep { mouse_note, response: out, store: false };
        }
        let same = match held {
            Some(h) => h == note,
            None => false,
        };
        if !same {
            if let Some(old) = held {
                out.note_off = Some(old);
            }
            held = Some(note);
            out.note_on = Some(note);
        }
    }
    if released {
        if let Some(note) = held {
            out.note_off = Some(note);
        }
        held = None;
    }
    PianoPointerStep { mouse_note: held, response: out, store: true }
}

/// White keys are the natural notes: a note is on a white key exactly when the name
/// of its pitch class has no sharp.
pub proof fn lemma_white_keys_are_naturals(n: int)
    ensures
        is_white_note(n) <==> pitch_names()[n % 12].len() == 1,
        pitch_names()[n % 12][0] == 'C' || pitch_names()[n % 12][0] == 'D' || pitch_names()[n
            % 12][0] == 'E' || pitch_names()[n % 12][0] == 'F' || pitch_names()[n % 12][0] == 'G'
            || pitch_names()[n % 12][0] == 'A' || pitch_names()[n % 12][0] == 'B',
        pitch_names()[n % 12].len() == 2 ==> pitch_names()[n % 12][1] == '#',
        !is_white_note(n) ==> pitch_names()[n % 12] == pitch_names()[(n - 1) % 12] + "#"@,
{
    reveal_strlit("#");
    reveal_strlit("A");
    reveal_strlit("A#");
    reveal_strlit("B");
    reveal_strlit("C");
    reveal_strlit("C#");
    reveal_strlit("D");
    reveal_strlit("D#");
    reveal_strlit("E");
    reveal_strlit("F");
    reveal_strlit("F#");
    reveal_strlit("G");
    reveal_strlit("G#");
    let s = n % 12;
    assert(0 <= s < 12);
    assert((n - 1) % 12 == if s == 0 { 11 } else { s - 1 });
    if !is_white_note(n) {
        assert(pitch_names()[n % 12] =~= pitch_names()[(n - 1) % 12] + "#"@);
    }
}

} // verus!
