use reelsynth_ui::performance::{
    arp_direction_from_index, arp_direction_index, arp_input_from_index, arp_input_index,
    arp_rate_from_index, arp_rate_index, arp_summary, chord_set_from_index, chord_set_index,
    clamp_octave_spread, layout_from_index, layout_index, performance_summary,
    root_index_from_settings, root_to_settings, scale_from_index, scale_index, voicing_from_index,
    voicing_index, ArpDirection, ArpInputMode, ArpRate, ChordSet, ChordVoicing, PerformanceLayout,
    Scale,
};

#[test]
fn dropdown_indices_round_trip() {
    for i in 0..3 {
        assert_eq!(arp_input_index(arp_input_from_index(i)), i);
        assert_eq!(layout_index(layout_from_index(i)), i);
        assert_eq!(voicing_index(voicing_from_index(i)), i);
    }
    for i in 0..7 {
        assert_eq!(arp_direction_index(arp_direction_from_index(i)), i);
    }
    for i in 0..6 {
        assert_eq!(arp_rate_index(arp_rate_from_index(i)), i);
    }
    for i in 0..15 {
        assert_eq!(scale_index(scale_from_index(i)), i);
    }
    for i in 0..2 {
        assert_eq!(chord_set_index(chord_set_from_index(i)), i);
    }
    assert_eq!(scale_from_index(15), Scale::Major);
    assert_eq!(scale_index(Scale::Chromatic), 14);
    assert_eq!(arp_direction_from_index(40), ArpDirection::Up);
    assert_eq!(arp_rate_from_index(2), ArpRate::Sixteenth);
    assert_eq!(arp_input_from_index(2), ArpInputMode::ScaleDegrees);
    assert_eq!(layout_from_index(2), PerformanceLayout::Chords);
    assert_eq!(chord_set_from_index(3), ChordSet::Triads);
    assert_eq!(voicing_from_index(9), ChordVoicing::Close);
}

#[test]
fn settings_roots_and_spreads_are_clamped() {
    assert_eq!(root_index_from_settings(7), 7);
    assert_eq!(root_index_from_settings(200), 11);
    assert_eq!(root_to_settings(7), 7);
    assert_eq!(root_to_settings(40), 11);
    assert_eq!(clamp_octave_spread(0), 1);
    assert_eq!(clamp_octave_spread(3), 3);
    assert_eq!(clamp_octave_spread(9), 4);
}

#[test]
fn summaries() {
    assert_eq!(arp_summary(false, 2, 2), "Off");
    assert_eq!(arp_summary(true, 2, 2), "Up-Down · 1/16");
    assert_eq!(arp_summary(true, 99, 99), "Converge · 1/16T");
    assert_eq!(performance_summary(7, 5, 0, Some(3)), "G · Dorian · Piano");
    assert_eq!(performance_summary(0, 0, 2, Some(6)), "C · Major · Chords · vii°");
    assert_eq!(performance_summary(0, 0, 2, None), "C · Major · Chords");
    assert_eq!(performance_summary(30, 30, 30, Some(30)), "B · Chromatic · Chords");
}
