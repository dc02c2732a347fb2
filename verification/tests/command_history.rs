use reelsynth_ui::command_history::CommandHistory;

#[test]
fn push_undo_redo() {
    let mut h: CommandHistory<u32> = CommandHistory::new(3);
    assert!(!h.can_undo() && !h.can_redo());
    h.push(1);
    h.push(2);
    assert!(h.can_undo());
    assert_eq!(h.take_undo(), Some(2));
    assert!(h.can_redo());
    assert_eq!(h.take_redo(), Some(2));
    assert!(!h.can_redo());
    assert_eq!(h.take_undo(), Some(2));
    assert_eq!(h.take_undo(), Some(1));
    assert_eq!(h.take_undo(), None);
    assert_eq!(h.take_redo(), Some(1));
    assert_eq!(h.take_redo(), Some(2));
    assert_eq!(h.take_redo(), None);
}

#[test]
fn push_clears_redo_and_bounds_depth() {
    let mut h: CommandHistory<String> = CommandHistory::new(2);
    h.push("a".to_string());
    h.push("b".to_string());
    h.push("c".to_string());
    assert_eq!(h.take_undo().as_deref(), Some("c"));
    assert!(h.can_redo());
    h.push("d".to_string());
    assert!(!h.can_redo());
    assert_eq!(h.take_undo().as_deref(), Some("d"));
    assert_eq!(h.take_undo().as_deref(), Some("b"));
    assert_eq!(h.take_undo(), None);
}

#[test]
fn zero_depth_keeps_nothing() {
    let mut h: CommandHistory<u8> = CommandHistory::default();
    h.push(5);
    assert!(!h.can_undo());
    assert_eq!(h.take_undo(), None);
}

#[test]
fn redo_exactly_undoes_undo() {
    let mut h: CommandHistory<bool> = CommandHistory::new(8);
    h.push(true);
    h.push(false);
    h.push(true);
    assert_eq!(h.take_undo(), Some(true));
    assert_eq!(h.take_undo(), Some(false));
    assert_eq!(h.take_redo(), Some(false));
    assert_eq!(h.take_redo(), Some(true));
    assert!(!h.can_redo());
    assert_eq!(h.take_undo(), Some(true));
    assert_eq!(h.take_undo(), Some(false));
    assert_eq!(h.take_undo(), Some(true));
    assert_eq!(h.take_undo(), None);
}
