use reelsynth_ui::actions::PianoRollTool;
use reelsynth_ui::compose::{
    editable_clip, ensure_editable_clip, move_pitches, moved_pitch, roll_click, roll_press, HitRegion, RollClick, RollPress, PITCH_BOTTOM,
    PITCH_TOP,
};

#[test]
fn dragged_pitches_stay_in_the_roll() {
    assert_eq!(moved_pitch(60, 5), 65);
    assert_eq!(moved_pitch(60, -12), 48);
    assert_eq!(moved_pitch(105, 10), PITCH_TOP);
    assert_eq!(moved_pitch(22, -5), PITCH_BOTTOM);
    assert_eq!(moved_pitch(0, 0), PITCH_BOTTOM);
    assert_eq!(moved_pitch(255, -128), 108);
    assert_eq!(moved_pitch(moved_pitch(60, 7), -7), 60);
}

#[test]
fn edited_clip_must_exist() {
    assert_eq!(editable_clip(1, Some(0), &[1, 2]), Some((1, 0)));
    assert_eq!(editable_clip(1, Some(2), &[1, 2]), None);
    assert_eq!(editable_clip(2, Some(0), &[1, 2]), None);
    assert_eq!(editable_clip(0, None, &[1, 2]), None);
}

#[test]
fn press_decisions_by_tool() {
    assert_eq!(roll_press(PianoRollTool::Pencil, HitRegion::Body(2), false, false), RollPress::BeginPencil);
    assert_eq!(roll_press(PianoRollTool::Eraser, HitRegion::Body(2), true, true), RollPress::Nothing);
    assert_eq!(roll_press(PianoRollTool::Select, HitRegion::LeftEdge(1), false, false), RollPress::ResizeLeft(1));
    assert_eq!(roll_press(PianoRollTool::Select, HitRegion::RightEdge(4), true, false), RollPress::ResizeRight(4));
    assert_eq!(roll_press(PianoRollTool::Select, HitRegion::Body(3), true, true), RollPress::DuplicateAndMove(3));
    assert_eq!(roll_press(PianoRollTool::Select, HitRegion::Body(3), false, true), RollPress::MoveSelection);
    assert_eq!(roll_press(PianoRollTool::Select, HitRegion::Body(3), false, false), RollPress::SelectAndMove(3));
    assert_eq!(roll_press(PianoRollTool::Select, HitRegion::Empty, false, false), RollPress::ClearSelection);
}

#[test]
fn click_decisions_by_tool() {
    assert_eq!(roll_click(PianoRollTool::Eraser, HitRegion::RightEdge(5), false), RollClick::Erase(5));
    assert_eq!(roll_click(PianoRollTool::Eraser, HitRegion::Empty, false), RollClick::Nothing);
    assert_eq!(roll_click(PianoRollTool::Select, HitRegion::Empty, true), RollClick::ClearSelection);
    assert_eq!(roll_click(PianoRollTool::Select, HitRegion::Body(0), false), RollClick::Audition(0));
    assert_eq!(roll_click(PianoRollTool::Select, HitRegion::Body(0), true), RollClick::Nothing);
    assert_eq!(roll_click(PianoRollTool::Select, HitRegion::LeftEdge(0), false), RollClick::Nothing);
    assert_eq!(roll_click(PianoRollTool::Pencil, HitRegion::Body(0), false), RollClick::Nothing);
}

#[test]
fn ensure_editable_clip_creates_and_selects() {
    // Track 0 has had its clips cleared; a second track exists.
    let mut clip_counts = vec![0usize, 0];
    let mut selected_track = 0usize;
    let mut selected_clip: Option<usize> = None;
    let r = ensure_editable_clip(&mut clip_counts, &mut selected_track, &mut selected_clip);
    assert_eq!(selected_clip, Some(0));
    assert!(clip_counts[0] > 0);
    assert!(r.added_clip);
    assert!(r.selection_reset);
    assert!(!r.added_track);
}

#[test]
fn ensure_editable_clip_on_other_track() {
    // The default project: the first track holds one clip.
    let mut clip_counts = vec![1usize, 0];
    let mut selected_track = 1usize;
    let mut selected_clip: Option<usize> = None;
    ensure_editable_clip(&mut clip_counts, &mut selected_track, &mut selected_clip);
    assert_eq!(selected_track, 1);
    assert_eq!(selected_clip, Some(0));
    assert!(clip_counts[1] > 0);
}

#[test]
fn ensure_editable_clip_adds_a_track_and_keeps_a_valid_selection() {
    let mut clip_counts: Vec<usize> = Vec::new();
    let mut selected_track = 3usize;
    let mut selected_clip = Some(2usize);
    let r = ensure_editable_clip(&mut clip_counts, &mut selected_track, &mut selected_clip);
    assert_eq!(clip_counts, vec![1]);
    assert_eq!(selected_track, 0);
    assert_eq!(selected_clip, Some(0));
    assert!(r.added_track && r.added_clip && r.selection_reset);

    let mut clip_counts = vec![2usize, 3];
    let mut selected_track = 1usize;
    let mut selected_clip = Some(2usize);
    let r = ensure_editable_clip(&mut clip_counts, &mut selected_track, &mut selected_clip);
    assert_eq!(clip_counts, vec![2, 3]);
    assert_eq!((selected_track, selected_clip), (1, Some(2)));
    assert!(!r.added_track && !r.added_clip && !r.selection_reset);
    assert_eq!(editable_clip(selected_track, selected_clip, &clip_counts), Some((1, 2)));
}

#[test]
fn moving_notes_and_undoing_restores_pitches() {
    let mut pitches = vec![60u8, 64, 67, 72];
    move_pitches(&mut pitches, &[0, 2, 9], 5);
    assert_eq!(pitches, vec![65, 64, 72, 72]);
    move_pitches(&mut pitches, &[0, 2, 9], -5);
    assert_eq!(pitches, vec![60, 64, 67, 72]);

    // A move past the top of the roll is held at C8, so its undo cannot restore it.
    let mut pitches = vec![106u8, 50];
    move_pitches(&mut pitches, &[0, 1], 4);
    assert_eq!(pitches, vec![PITCH_TOP, 54]);
    move_pitches(&mut pitches, &[0, 1], -4);
    assert_eq!(pitches, vec![104, 50]);
}
