//! Performance settings as dropdown indices: scale, layout, chord and arpeggiator
//! selectors, their display names, and the header / arp summaries.
use vstd::prelude::*;

use crate::text::concat;

verus! {

/// How the arpeggiator picks its input notes.
#[derive(Debug, Clone, Copy, PartialEq, Eq, Structural)]
pub enum ArpInputMode {
    SingleNote,
    HeldChord,
    ScaleDegrees,
}

/// Order in which the arpeggiator steps through its notes.
#[derive(Debug, Clone, Copy, PartialEq, Eq, Structural)]
pub enum ArpDirection {
    Up,
    Down,
    UpDown,
    DownUp,
    Random,
    AsPlayed,
    Converge,
}

/// Arpeggiator step length.
#[derive(Debug, Clone, Copy, PartialEq, Eq, Structural)]
pub enum ArpRate {
    Quarter,
    Eighth,
    Sixteenth,
    ThirtySecond,
    EighthTriplet,
    SixteenthTriplet,
}

/// Musical scale for performance input.
#[derive(Debug, Clone, Copy, PartialEq, Eq, Structural)]
pub enum Scale {
    Major,
    Minor,
    NaturalMinor,
    HarmonicMinor,
    MelodicMinor,
    Dorian,
    Phrygian,
    Lydian,
    Mixolydian,
    Locrian,
    MajorPent,
    MinorPent,
    Blues,
    WholeTone,
    Chromatic,
}

/// On-screen performance surface.
#[derive(Debug, Clone, Copy, PartialEq, Eq, Structural)]
pub enum PerformanceLayout {
    Piano,
    Scale,
    Chords,
}

/// Chord family for the chord grid.
#[derive(Debug, Clone, Copy, PartialEq, Eq, Structural)]
pub enum ChordSet {
    Triads,
    Sevenths,
}

/// Chord voicing for the chord grid.
#[derive(Debug, Clone, Copy, PartialEq, Eq, Structural)]
pub enum ChordVoicing {
    Close,
    Spread,
    Root,
}

pub open spec fn spec_arp_input_index(m: ArpInputMode) -> nat {
    match m {
        ArpInputMode::SingleNote => 0,
        ArpInputMode::HeldChord => 1,
        ArpInputMode::ScaleDegrees => 2,
    }
}

pub open spec fn spec_arp_input_from_index(i: nat) -> ArpInputMode {
    if i == 1 {
        ArpInputMode::HeldChord
    } else if i == 2 {
        ArpInputMode::ScaleDegrees
    } else {
        ArpInputMode::SingleNote
    }
}

pub open spec fn spec_arp_direction_index(d: ArpDirection) -> nat {
    match d {
        ArpDirection::Up => 0,
        ArpDirection::Down => 1,
        ArpDirection::UpDown => 2,
        ArpDirection::DownUp => 3,
        ArpDirection::Random => 4,
        ArpDirection::AsPlayed => 5,
        ArpDirection::Converge => 6,
    }
}

pub open spec fn spec_arp_direction_from_index(i: nat) -> ArpDirection {
    if i == 1 {
        ArpDirection::Down
    } else if i == 2 {
        ArpDirection::UpDown
    } else if i == 3 {
        ArpDirection::DownUp
    } else if i == 4 {
        ArpDirection::Random
    } else if i == 5 {
        ArpDirection::AsPlayed
    } else if i == 6 {
        ArpDirection::Converge
    } else {
        ArpDirection::Up
    }
}

pub open spec fn spec_arp_rate_index(r: ArpRate) -> nat {
    match r {
        ArpRate::Quarter => 0,
        ArpRate::Eighth => 1,
        ArpRate::Sixteenth => 2,
        ArpRate::ThirtySecond => 3,
        ArpRate::EighthTriplet => 4,
        ArpRate::SixteenthTriplet => 5,
    }
}

pub open spec fn spec_arp_rate_from_index(i: nat) -> ArpRate {
    if i == 1 {
        ArpRate::Eighth
    } else if i == 2 {
        ArpRate::Sixteenth
    } else if i == 3 {
        ArpRate::ThirtySecond
    } else if i == 4 {
        ArpRate::EighthTriplet
    } else if i == 5 {
        ArpRate::SixteenthTriplet
    } else {
        ArpRate::Quarter
    }
}

pub open spec fn spec_scale_index(s: Scale) -> nat {
    match s {
        Scale::Major => 0,
        Scale::Minor => 1,
        Scale::NaturalMinor => 2,
        Scale::HarmonicMinor => 3,
        Scale::MelodicMinor => 4,
        Scale::Dorian => 5,
        Scale::Phrygian => 6,
        Scale::Lydian => 7,
        Scale::Mixolydian => 8,
        Scale::Locrian => 9,
        Scale::MajorPent => 10,
        Scale::MinorPent => 11,
        Scale::Blues => 12,
        Scale::WholeTone => 13,
        Scale::Chromatic => 14,
    }
}

pub open spec fn spec_scale_from_index(i: nat) -> Scale {
    if i == 1 {
        Scale::Minor
    } else if i == 2 {
        Scale::NaturalMinor
    } else if i == 3 {
        Scale::HarmonicMinor
    } else if i == 4 {
        Scale::MelodicMinor
    } else if i == 5 {
        Scale::Dorian
    } else if i == 6 {
        Scale::Phrygian
    } else if i == 7 {
        Scale::Lydian
    } else if i == 8 {
        Scale::Mixolydian
    } else if i == 9 {
        Scale::Locrian
    } else if i == 10 {
        Scale::MajorPent
    } else if i == 11 {
        Scale::MinorPent
    } else if i == 12 {
        Scale::Blues
    } else if i == 13 {
        Scale::WholeTone
    } else if i == 14 {
        Scale::Chromatic
    } else {
        Scale::Major
    }
}

pub open spec fn spec_layout_index(l: PerformanceLayout) -> nat {
    match l {
        PerformanceLayout::Piano => 0,
        PerformanceLayout::Scale => 1,
        PerformanceLayout::Chords => 2,
    }
}

pub open spec fn spec_layout_from_index(i: nat) -> PerformanceLayout {
    if i == 1 {
        PerformanceLayout::Scale
    } else if i == 2 {
        PerformanceLayout::Chords
    } else {
        PerformanceLayout::Piano
    }
}

pub open spec fn spec_chord_set_index(c: ChordSet) -> nat {
    match c {
        ChordSet::Triads => 0,
        ChordSet::Sevenths => 1,
    }
}

pub open spec fn spec_chord_set_from_index(i: nat) -> ChordSet {
    if i == 1 {
        ChordSet::Sevenths
    } else {
        ChordSet::Triads
    }
}

pub open spec fn spec_voicing_index(v: ChordVoicing) -> nat {
    match v {
        ChordVoicing::Close => 0,
        ChordVoicing::Spread => 1,
        ChordVoicing::Root => 2,
    }
}

pub open spec fn spec_voicing_from_index(i: nat) -> ChordVoicing {
    if i == 1 {
        ChordVoicing::Spread
    } else if i == 2 {
        ChordVoicing::Root
    } else {
        ChordVoicing::Close
    }
}

/// `min(i, n - 1)` for a non-empty name table of length `n`.
pub open spec fn clamp_index(i: nat, n: nat) -> nat {
    if i < n {
        i
    } else {
        (n - 1) as nat
    }
}

/// Pitch-class names, C to B.
pub open spec fn root_names() -> Seq<Seq<char>> {
    seq!["C"@, "C#"@, "D"@, "D#"@, "E"@, "F"@, "F#"@, "G"@, "G#"@, "A"@, "A#"@, "B"@]
}

pub open spec fn scale_names() -> Seq<Seq<char>> {
    seq![
        "Major"@,
        "Minor"@,
        "Natural Minor"@,
        "Harmonic Minor"@,
        "Melodic Minor"@,
        "Dorian"@,
        "Phrygian"@,
        "Lydian"@,
        "Mixolydian"@,
        "Locrian"@,
        "Major Pent"@,
        "Minor Pent"@,
        "Blues"@,
        "Whole Tone"@,
        "Chromatic"@,
    ]
}

pub open spec fn layout_names() -> Seq<Seq<char>> {
    seq!["Piano"@, "Scale"@, "Chords"@]
}

pub open spec fn chord_degree_labels() -> Seq<Seq<char>> {
    seq!["I"@, "ii"@, "iii"@, "IV"@, "V"@, "vi"@, "vii°"@]
}

pub open spec fn input_mode_names() -> Seq<Seq<char>> {
    seq!["Single"@, "Chord"@, "Scale"@]
}

pub open spec fn style_names() -> Seq<Seq<char>> {
    seq!["Up"@, "Down"@, "Up-Down"@, "Down-Up"@, "Random"@, "As Played"@, "Converge"@]
}

pub open spec fn rate_names() -> Seq<Seq<char>> {
    seq!["1/4"@, "1/8"@, "1/16"@, "1/32"@, "1/8T"@, "1/16T"@]
}

/// The header summary `root · scale · layout`, followed by ` · degree` when the
/// layout is Chords and a chord degree is held.
pub open spec fn spec_performance_summary(
    root: nat,
    scale: nat,
    layout: nat,
    degree: Option<usize>,
) -> Seq<char> {
    let base = root_names()[clamp_index(root, 12) as int] + " · "@ + scale_names()[clamp_index(
        scale,
        15,
    ) as int] + " · "@ + layout_names()[clamp_index(layout, 3) as int];
    if layout == 2 && degree is Some {
        base + " · "@ + chord_degree_labels()[clamp_index(degree->0 as nat, 7) as int]
    } else {
        base
    }
}

pub fn arp_input_index(mode: ArpInputMode) -> (r: usize)
    ensures
        r == spec_arp_input_index(mode),
{
    match mode {
        ArpInputMode::SingleNote => 0,
        ArpInputMode::HeldChord => 1,
        ArpInputMode::ScaleDegrees => 2,
    }
}

pub fn arp_input_from_index(idx: usize) -> (r: ArpInputMode)
    ensures
        r == spec_arp_input_from_index(idx as nat),
{
    match idx {
        1 => ArpInputMode::HeldChord,
        2 => ArpInputMode::ScaleDegrees,
        _ => ArpInputMode::SingleNote,
    }
}

pub fn arp_direction_index(dir: ArpDirection) -> (r: usize)
    ensures
        r == spec_arp_direction_index(dir),
{
    match dir {
        ArpDirection::Up => 0,
        ArpDirection::Down => 1,
        ArpDirection::UpDown => 2,
        ArpDirection::DownUp => 3,
        ArpDirection::Random => 4,
        ArpDirection::AsPlayed => 5,
        ArpDirection::Converge => 6,
    }
}

pub fn arp_direction_from_index(idx: usize) -> (r: ArpDirection)
    ensures
        r == spec_arp_direction_from_index(idx as nat),
{
    match idx {
        1 => ArpDirection::Down,
        2 => ArpDirection::UpDown,
        3 => ArpDirection::DownUp,
        4 => ArpDirection::Random,
        5 => ArpDirection::AsPlayed,
        6 => ArpDirection::Converge,
        _ => ArpDirection::Up,
    }
}

pub fn arp_rate_index(rate: ArpRate) -> (r: usize)
    ensures
        r == spec_arp_rate_index(rate),
{
    match rate {
        ArpRate::Quarter => 0,
        ArpRate::Eighth => 1,
        ArpRate::Sixteenth => 2,
        ArpRate::ThirtySecond => 3,
        ArpRate::EighthTriplet => 4,
        ArpRate::SixteenthTriplet => 5,
    }
}

pub fn arp_rate_from_index(idx: usize) -> (r: ArpRate)
    ensures
        r == spec_arp_rate_from_index(idx as nat),
{
    match idx {
        1 => ArpRate::Eighth,
        2 => ArpRate::Sixteenth,
        3 => ArpRate::ThirtySecond,
        4 => ArpRate::EighthTriplet,
        5 => ArpRate::SixteenthTriplet,
        _ => ArpRate::Quarter,
    }
}

pub fn scale_index(scale: Scale) -> (r: usize)
    ensures
        r == spec_scale_index(scale),
{
    match scale {
        Scale::Major => 0,
        Scale::Minor => 1,
        Scale::NaturalMinor => 2,
        Scale::HarmonicMinor => 3,
        Scale::MelodicMinor => 4,
        Scale::Dorian => 5,
        Scale::Phrygian => 6,
        Scale::Lydian => 7,
        Scale::Mixolydian => 8,
        Scale::Locrian => 9,
        Scale::MajorPent => 10,
        Scale::MinorPent => 11,
        Scale::Blues => 12,
        Scale::WholeTone => 13,
        Scale::Chromatic => 14,
    }
}

pub fn scale_from_index(idx: usize) -> (r: Scale)
    ensures
        r == spec_scale_from_index(idx as nat),
{
    match idx {
        1 => Scale::Minor,
        2 => Scale::NaturalMinor,
        3 => Scale::HarmonicMinor,
        4 => Scale::MelodicMinor,
        5 => Scale::Dorian,
        6 => Scale::Phrygian,
        7 => Scale::Lydian,
        8 => Scale::Mixolydian,
        9 => Scale::Locrian,
        10 => Scale::MajorPent,
        11 => Scale::MinorPent,
        12 => Scale::Blues,
        13 => Scale::WholeTone,
        14 => Scale::Chromatic,
        _ => Scale::Major,
    }
}

pub fn layout_index(layout: PerformanceLayout) -> (r: usize)
    ensures
        r == spec_layout_index(layout),
{
    match layout {
        PerformanceLayout::Piano => 0,
        PerformanceLayout::Scale => 1,
        PerformanceLayout::Chords => 2,
    }
}

pub fn layout_from_index(idx: usize) -> (r: PerformanceLayout)
    ensures
        r == spec_layout_from_index(idx as nat),
{
    match idx {
        1 => PerformanceLayout::Scale,
        2 => PerformanceLayout::Chords,
        _ => PerformanceLayout::Piano,
    }
}

/// Chord-set dropdown index.
pub fn chord_set_index(set: ChordSet) -> (r: usize)
    ensures
        r == spec_chord_set_index(set),
{
    match set {
        ChordSet::Triads => 0,
        ChordSet::Sevenths => 1,
    }
}

/// Chord set selected by a dropdown index; anything but 1 is Triads.
pub fn chord_set_from_index(idx: usize) -> (r: ChordSet)
    ensures
        r == spec_chord_set_from_index(idx as nat),
{
    if idx == 1 {
        ChordSet::Sevenths
    } else {
        ChordSet::Triads
    }
}

/// Voicing dropdown index.
pub fn voicing_index(voicing: ChordVoicing) -> (r: usize)
    ensures
        r == spec_voicing_index(voicing),
{
    match voicing {
        ChordVoicing::Close => 0,
        ChordVoicing::Spread => 1,
        ChordVoicing::Root => 2,
    }
}

/// Voicing selected by a dropdown index; unknown indices give Close.
pub fn voicing_from_index(idx: usize) -> (r: ChordVoicing)
    ensures
        r == spec_voicing_from_index(idx as nat),
{
    match idx {
        1 => ChordVoicing::Spread,
        2 => ChordVoicing::Root,
        _ => ChordVoicing::Close,
    }
}

/// Root dropdown index from a settings root: at most 11 (B).
pub fn root_index_from_settings(root: u8) -> (r: usize)
    ensures
        r == if root < 11 { root as usize } else { 11 },
{
    if root < 11 {
        root as usize
    } else {
        11
    }
}

/// Settings root from a root dropdown index, clamped to the last root name.
pub fn root_to_settings(root: usize) -> (r: u8)
    ensures
        r == clamp_index(root as nat, 12),
{
    if root < 12 {
        root as u8
    } else {
        11
    }
}

/// Arpeggiator octave spread held between 1 and 4.
pub fn clamp_octave_spread(spread: u8) -> (r: u8)
    ensures
        r == if spread < 1 {
            1
        } else if spread > 4 {
            4
        } else {
            spread
        },
{
    if spread < 1 {
        1
    } else if spread > 4 {
        4
    } else {
        spread
    }
}

/// Whether the shared on-screen piano should scale-fold (dim + block out-of-scale keys).
///
/// Design and Compose both use this — fold follows the Scale layout only, never shell mode.
pub fn piano_scale_fold_enabled(layout: PerformanceLayout) -> (r: bool)
    ensures
        r == (layout == PerformanceLayout::Scale),
{
    match layout {
        PerformanceLayout::Scale => true,
        _ => false,
    }
}

/// Name of a root dropdown index, clamped to the table.
pub fn root_name(i: usize) -> (r: &'static str)
    ensures
        r@ == root_names()[clamp_index(i as nat, 12) as int],
{
    match i {
        0 => "C",
        1 => "C#",
        2 => "D",
        3 => "D#",
        4 => "E",
        5 => "F",
        6 => "F#",
        7 => "G",
        8 => "G#",
        9 => "A",
        10 => "A#",
        _ => "B",
    }
}

/// Name of a scale dropdown index, clamped to the table.
pub fn scale_name(i: usize) -> (r: &'static str)
    ensures
        r@ == scale_names()[clamp_index(i as nat, 15) as int],
{
    match i {
        0 => "Major",
        1 => "Minor",
        2 => "Natural Minor",
        3 => "Harmonic Minor",
        4 => "Melodic Minor",
        5 => "Dorian",
        6 => "Phrygian",
        7 => "Lydian",
        8 => "Mixolydian",
        9 => "Locrian",
        10 => "Major Pent",
        11 => "Minor Pent",
        12 => "Blues",
        13 => "Whole Tone",
        _ => "Chromatic",
    }
}

/// Name of a layout dropdown index, clamped to the table.
pub fn layout_name(i: usize) -> (r: &'static str)
    ensures
        r@ == layout_names()[clamp_index(i as nat, 3) as int],
{
    match i {
        0 => "Piano",
        1 => "Scale",
        _ => "Chords",
    }
}

/// Roman-numeral label of a chord degree, clamped to the table.
pub fn chord_degree_label(i: usize) -> (r: &'static str)
    ensures
        r@ == chord_degree_labels()[clamp_index(i as nat, 7) as int],
{
    match i {
        0 => "I",
        1 => "ii",
        2 => "iii",
        3 => "IV",
        4 => "V",
        5 => "vi",
        _ => "vii°",
    }
}

/// Name of an arpeggiator input mode index, clamped to the table.
pub fn input_mode_name(i: usize) -> (r: &'static str)
    ensures
        r@ == input_mode_names()[clamp_index(i as nat, 3) as int],
{
    match i {
        0 => "Single",
        1 => "Chord",
        _ => "Scale",
    }
}

/// Name of an arpeggiator style index, clamped to the table.
pub fn style_name(i: usize) -> (r: &'static str)
    ensures
        r@ == style_names()[clamp_index(i as nat, 7) as int],
{
    match i {
        0 => "Up",
        1 => "Down",
        2 => "Up-Down",
        3 => "Down-Up",
        4 => "Random",
        5 => "As Played",
        _ => "Converge",
    }
}

/// Name of an arpeggiator rate index, clamped to the table.
pub fn rate_name(i: usize) -> (r: &'static str)
    ensures
        r@ == rate_names()[clamp_index(i as nat, 6) as int],
{
    match i {
        0 => "1/4",
        1 => "1/8",
        2 => "1/16",
        3 => "1/32",
        4 => "1/8T",
        _ => "1/16T",
    }
}

/// Arp panel summary: `Off` when disabled, else `style · rate`.
pub fn arp_summary(enabled: bool, direction: usize, rate: usize) -> (r: String)
    ensures
        r@ == if !enabled {
            "Off"@
        } else {
            style_names()[clamp_index(direction as nat, 7) as int] + " · "@
                + rate_names()[clamp_index(rate as nat, 6) as int]
        },
{
    if !enabled {
        return crate::text::string_of("Off");
    }
    let mut out = concat(style_name(direction), " · ");
    out.append(rate_name(rate));
    out
}

/// Performance header summary from the dropdown indices and the held chord degree.
pub fn performance_summary(root: usize, scale: usize, layout: usize, active_chord_degree: Option<usize>) -> (r: String)
    ensures
        r@ == spec_performance_summary(root as nat, scale as nat, layout as nat, active_chord_degree),
{
    let mut out = concat(root_name(root), " · ");
    out.append(scale_name(scale));
    out.append(" · ");
    out.append(layout_name(layout));
    if layout == 2 {
        if let Some(deg) = active_chord_degree {
            out.append(" · ");
            out.append(chord_degree_label(deg));
        }
    }
    out
}

} // verus!

verus! {

/// Each arpeggiator input mode survives the trip through its dropdown index, and every
/// index below three names a mode at that index.
pub proof fn lemma_arp_input_roundtrip(m: ArpInputMode, i: nat)
    ensures
        spec_arp_input_from_index(spec_arp_input_index(m)) == m,
        i < 3 ==> spec_arp_input_index(spec_arp_input_from_index(i)) == i,
{
}

/// Each arpeggiator direction survives the trip through its dropdown index, and every
/// index below seven names a direction at that index.
pub proof fn lemma_arp_direction_roundtrip(d: ArpDirection, i: nat)
    ensures
        spec_arp_direction_from_index(spec_arp_direction_index(d)) == d,
        i < 7 ==> spec_arp_direction_index(spec_arp_direction_from_index(i)) == i,
{
}

/// Each arpeggiator rate survives the trip through its dropdown index, and every index
/// below six names a rate at that index.
pub proof fn lemma_arp_rate_roundtrip(r: ArpRate, i: nat)
    ensures
        spec_arp_rate_from_index(spec_arp_rate_index(r)) == r,
        i < 6 ==> spec_arp_rate_index(spec_arp_rate_from_index(i)) == i,
{
}

/// Each scale survives the trip through its dropdown index, and every index below
/// fifteen names a scale at that index.
pub proof fn lemma_scale_roundtrip(s: Scale, i: nat)
    ensures
        spec_scale_from_index(spec_scale_index(s)) == s,
        i < 15 ==> spec_scale_index(spec_scale_from_index(i)) == i,
{
}

/// Each layout survives the trip through its dropdown index, and every index below
/// three names a layout at that index.
pub proof fn lemma_layout_roundtrip(l: PerformanceLayout, i: nat)
    ensures
        spec_layout_from_index(spec_layout_index(l)) == l,
        i < 3 ==> spec_layout_index(spec_layout_from_index(i)) == i,
{
}

/// Chord set and voicing survive the trip through their dropdown indices.
pub proof fn lemma_chord_roundtrip(c: ChordSet, v: ChordVoicing)
    ensures
        spec_chord_set_from_index(spec_chord_set_index(c)) == c,
        spec_voicing_from_index(spec_voicing_index(v)) == v,
{
}

/// A settings root of at most 11 survives the trip through the root dropdown.
pub proof fn lemma_root_roundtrip(root: u8)
    requires
        root <= 11,
    ensures
        clamp_index((if root < 11 { root as nat } else { 11nat }), 12) == root,
{
}

/// The name a scale is known by.
pub open spec fn scale_called(s: Scale) -> Seq<char> {
    match s {
        Scale::Major => "Major"@,
        Scale::Minor => "Minor"@,
        Scale::NaturalMinor => "Natural Minor"@,
        Scale::HarmonicMinor => "Harmonic Minor"@,
        Scale::MelodicMinor => "Melodic Minor"@,
        Scale::Dorian => "Dorian"@,
        Scale::Phrygian => "Phrygian"@,
        Scale::Lydian => "Lydian"@,
        Scale::Mixolydian => "Mixolydian"@,
        Scale::Locrian => "Locrian"@,
        Scale::MajorPent => "Major Pent"@,
        Scale::MinorPent => "Minor Pent"@,
        Scale::Blues => "Blues"@,
        Scale::WholeTone => "Whole Tone"@,
        Scale::Chromatic => "Chromatic"@,
    }
}

/// The name an arpeggiator direction (style) is known by.
pub open spec fn direction_called(d: ArpDirection) -> Seq<char> {
    match d {
        ArpDirection::Up => "Up"@,
        ArpDirection::Down => "Down"@,
        ArpDirection::UpDown => "Up-Down"@,
        ArpDirection::DownUp => "Down-Up"@,
        ArpDirection::Random => "Random"@,
        ArpDirection::AsPlayed => "As Played"@,
        ArpDirection::Converge => "Converge"@,
    }
}

/// The note value an arpeggiator rate is written as.
pub open spec fn rate_called(r: ArpRate) -> Seq<char> {
    match r {
        ArpRate::Quarter => "1/4"@,
        ArpRate::Eighth => "1/8"@,
        ArpRate::Sixteenth => "1/16"@,
        ArpRate::ThirtySecond => "1/32"@,
        ArpRate::EighthTriplet => "1/8T"@,
        ArpRate::SixteenthTriplet => "1/16T"@,
    }
}

/// The name an arpeggiator input mode is known by.
pub open spec fn input_mode_called(m: ArpInputMode) -> Seq<char> {
    match m {
        ArpInputMode::SingleNote => "Single"@,
        ArpInputMode::HeldChord => "Chord"@,
        ArpInputMode::ScaleDegrees => "Scale"@,
    }
}

/// The name a keyboard layout is known by.
pub open spec fn layout_called(l: PerformanceLayout) -> Seq<char> {
    match l {
        PerformanceLayout::Piano => "Piano"@,
        PerformanceLayout::Scale => "Scale"@,
        PerformanceLayout::Chords => "Chords"@,
    }
}

/// The scale dropdown shows each scale under its own name: the entry at a scale's
/// index is that scale's name, and the scale an index selects is the one named there.
pub proof fn lemma_scale_dropdown_names(s: Scale, i: nat)
    ensures
        spec_scale_index(s) < scale_names().len(),
        scale_names()[spec_scale_index(s) as int] == scale_called(s),
        i < scale_names().len() ==> scale_called(spec_scale_from_index(i)) == scale_names()[i as int],
{
}

/// The style dropdown shows each arpeggiator direction under its own name.
pub proof fn lemma_direction_dropdown_names(d: ArpDirection, i: nat)
    ensures
        spec_arp_direction_index(d) < style_names().len(),
        style_names()[spec_arp_direction_index(d) as int] == direction_called(d),
        i < style_names().len() ==> direction_called(spec_arp_direction_from_index(i))
            == style_names()[i as int],
{
}

/// The rate dropdown shows each arpeggiator rate as its own note value.
pub proof fn lemma_rate_dropdown_names(r: ArpRate, i: nat)
    ensures
        spec_arp_rate_index(r) < rate_names().len(),
        rate_names()[spec_arp_rate_index(r) as int] == rate_called(r),
        i < rate_names().len() ==> rate_called(spec_arp_rate_from_index(i)) == rate_names()[i as int],
{
}

/// The input-mode dropdown shows each arpeggiator input mode under its own name.
pub proof fn lemma_input_mode_dropdown_names(m: ArpInputMode, i: nat)
    ensures
        spec_arp_input_index(m) < input_mode_names().len(),
        input_mode_names()[spec_arp_input_index(m) as int] == input_mode_called(m),
        i < input_mode_names().len() ==> input_mode_called(spec_arp_input_from_index(i))
            == input_mode_names()[i as int],
{
}

/// The layout dropdown shows each keyboard layout under its own name.
pub proof fn lemma_layout_dropdown_names(l: PerformanceLayout, i: nat)
    ensures
        spec_layout_index(l) < layout_names().len(),
        layout_names()[spec_layout_index(l) as int] == layout_called(l),
        i < layout_names().len() ==> layout_called(spec_layout_from_index(i)) == layout_names()[i as int],
{
}

} // verus!
