use reelsynth_ui::note_edit::{duplicate_selected, reinsert_removed, remove_selected, slice_contains};

#[test]
fn delete_highest_first_and_undo_single() {
    let mut notes = vec!['a', 'b', 'c', 'd'];
    let removed = remove_selected(&mut notes, &[1]);
    assert_eq!(notes, vec!['a', 'c', 'd']);
    assert_eq!(removed, vec![(1, 'b')]);
    reinsert_removed(&mut notes, removed.clone());
    assert_eq!(notes, vec!['a', 'b', 'c', 'd']);
    let indices: Vec<usize> = removed.iter().map(|(i, _)| *i).collect();
    remove_selected(&mut notes, &indices);
    assert_eq!(notes, vec!['a', 'c', 'd']);
}

#[test]
fn delete_ignores_out_of_range_and_repeats() {
    let mut notes = vec![10, 20, 30];
    let removed = remove_selected(&mut notes, &[0, 7, 2, 0]);
    assert_eq!(notes, vec![20]);
    assert_eq!(removed, vec![(2, 30), (0, 10)]);
    let removed = remove_selected(&mut notes, &[]);
    assert!(removed.is_empty());
    assert_eq!(notes, vec![20]);
}

#[test]
fn multi_delete_undo_restores_clip() {
    let mut notes = vec!['a', 'b', 'c', 'd'];
    let removed = remove_selected(&mut notes, &[2, 3]);
    assert_eq!(removed, vec![(3, 'd'), (2, 'c')]);
    assert_eq!(notes, vec!['a', 'b']);
    reinsert_removed(&mut notes, removed.clone());
    assert_eq!(notes, vec!['a', 'b', 'c', 'd']);
    let indices: Vec<usize> = removed.iter().map(|(i, _)| *i).collect();
    remove_selected(&mut notes, &indices);
    assert_eq!(notes, vec!['a', 'b']);

    let mut notes = vec!['a', 'b', 'c', 'd'];
    let removed = remove_selected(&mut notes, &[1, 2]);
    assert_eq!(notes, vec!['a', 'd']);
    reinsert_removed(&mut notes, removed);
    assert_eq!(notes, vec!['a', 'b', 'c', 'd']);

    let mut notes = vec![10, 20];
    let removed = remove_selected(&mut notes, &[0, 1]);
    assert!(notes.is_empty());
    reinsert_removed(&mut notes, removed);
    assert_eq!(notes, vec![10, 20]);

    let mut notes = vec![1, 2, 3, 4, 5, 6];
    let removed = remove_selected(&mut notes, &[5, 0, 3, 9, 3]);
    assert_eq!(notes, vec![2, 3, 5]);
    reinsert_removed(&mut notes, removed);
    assert_eq!(notes, vec![1, 2, 3, 4, 5, 6]);
}

#[test]
fn contains() {
    assert!(slice_contains(&[3, 1, 4], 4));
    assert!(!slice_contains(&[3, 1, 4], 2));
    assert!(!slice_contains(&[], 0));
}

#[test]
fn duplicate_appends_copies_and_reports_positions() {
    let mut notes = vec![60u8, 64, 67];
    let at = duplicate_selected(&mut notes, &[1]);
    assert_eq!(notes, vec![60, 64, 67, 64]);
    assert_eq!(at, vec![3]);
}

#[test]
fn duplicate_skips_indices_past_the_end_as_it_grows() {
    let mut notes = vec![1, 2];
    let at = duplicate_selected(&mut notes, &[3, 0, 2, 9]);
    assert_eq!(notes, vec![1, 2, 1, 1]);
    assert_eq!(at, vec![2, 3]);
}
