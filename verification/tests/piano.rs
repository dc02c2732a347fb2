use reelsynth_ui::performance::{piano_scale_fold_enabled, PerformanceLayout};
use reelsynth_ui::piano::{
    black_key_notes, is_black_key, is_white_semitone, key_playable, piano_pointer_step,
    pitch_label, white_key_count, white_key_notes,
};

#[test]
fn scale_fold_follows_layout_not_shell_mode() {
    assert!(
        !piano_scale_fold_enabled(PerformanceLayout::Piano),
        "Piano layout (Design + Compose default) must keep chromatic black keys"
    );
    assert!(piano_scale_fold_enabled(PerformanceLayout::Scale));
    assert!(!piano_scale_fold_enabled(PerformanceLayout::Chords));
}

#[test]
fn one_octave_of_keys() {
    assert_eq!(white_key_notes(48, 59), vec![48, 50, 52, 53, 55, 57, 59]);
    assert_eq!(white_key_count(48, 59), 7);
    assert_eq!(black_key_notes(48, 59), vec![(49, 0), (51, 1), (54, 3), (56, 4), (58, 5)]);
}

#[test]
fn ranges_starting_on_black_keys_and_edges() {
    assert_eq!(black_key_notes(49, 52), vec![(49, 0), (51, 0)]);
    assert_eq!(white_key_notes(49, 52), vec![50, 52]);
    assert_eq!(white_key_notes(60, 59), Vec::<u8>::new());
    assert_eq!(black_key_notes(60, 59), vec![]);
    assert_eq!(white_key_notes(254, 255), vec![254]);
    assert_eq!(black_key_notes(254, 255), vec![(255, 0)]);
    assert_eq!(black_key_notes(61, 61), vec![(61, 0)]);
    let all_white = white_key_notes(0, 255);
    let all_black = black_key_notes(0, 255);
    assert_eq!(all_white.len() + all_black.len(), 256);
    assert_eq!(white_key_count(21, 108), 52);
}

#[test]
fn key_colours_and_names() {
    for s in 0..12u8 {
        assert_eq!(is_white_semitone(s), !is_black_key(s));
    }
    assert!(is_black_key(61));
    assert!(!is_black_key(60));
    assert_eq!(pitch_label(60), "C4");
    assert_eq!(pitch_label(69), "A4");
    assert_eq!(pitch_label(1), "C#-1");
    assert_eq!(pitch_label(127), "G9");
    assert_eq!(pitch_label(108), "C8");
}

#[test]
fn pointer_drag_and_release() {
    let s = piano_pointer_step(None, Some(60), true, false);
    assert_eq!((s.mouse_note, s.response.note_on, s.response.note_off, s.store), (Some(60), Some(60), None, true));
    let s = piano_pointer_step(Some(60), Some(60), true, false);
    assert_eq!((s.mouse_note, s.response.note_on, s.response.note_off), (Some(60), None, None));
    let s = piano_pointer_step(Some(60), Some(62), true, false);
    assert_eq!((s.mouse_note, s.response.note_on, s.response.note_off), (Some(62), Some(62), Some(60)));
    let s = piano_pointer_step(Some(62), None, true, true);
    assert_eq!((s.mouse_note, s.response.note_on, s.response.note_off), (None, None, Some(62)));
    let s = piano_pointer_step(Some(62), Some(61), false, true);
    assert_eq!((s.mouse_note, s.response.note_on, s.response.note_off, s.store), (Some(62), None, None, false));
    let s = piano_pointer_step(None, Some(64), true, true);
    assert_eq!((s.mouse_note, s.response.note_on, s.response.note_off), (None, Some(64), Some(64)));
    assert!(key_playable(false, false));
    assert!(!key_playable(true, false));
    assert!(key_playable(true, true));
}
