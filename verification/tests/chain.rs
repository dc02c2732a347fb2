use reelsynth_ui::chain::{apply_chain_edits, swap_entries};

#[test]
fn remove_wins_over_swap_and_add_respects_limit() {
    let mut slots = vec!['a', 'b', 'c'];
    assert!(apply_chain_edits(&mut slots, Some(1), Some((0, 1)), None, 4));
    assert_eq!(slots, vec!['a', 'c']);

    let mut slots = vec!['a', 'b', 'c'];
    assert!(apply_chain_edits(&mut slots, None, Some((2, 1)), None, 4));
    assert_eq!(slots, vec!['a', 'c', 'b']);

    let mut slots = vec!['a', 'b', 'c'];
    assert!(apply_chain_edits(&mut slots, None, None, Some('n'), 4));
    assert_eq!(slots, vec!['a', 'b', 'c', 'n']);

    let mut slots = vec!['a', 'b', 'c', 'd'];
    assert!(!apply_chain_edits(&mut slots, None, None, Some('n'), 4));
    assert_eq!(slots, vec!['a', 'b', 'c', 'd']);

    // Removing frees a place, so the add row is offered again in the same frame.
    let mut slots = vec!['a', 'b', 'c', 'd'];
    assert!(apply_chain_edits(&mut slots, Some(0), None, Some('n'), 4));
    assert_eq!(slots, vec!['b', 'c', 'd', 'n']);

    let mut slots: Vec<char> = Vec::new();
    assert!(!apply_chain_edits(&mut slots, None, None, None, 4));
    assert!(slots.is_empty());
}

#[test]
fn swap_exchanges_two_entries() {
    let mut v = vec![1, 2, 3, 4];
    swap_entries(&mut v, 0, 3);
    assert_eq!(v, vec![4, 2, 3, 1]);
    swap_entries(&mut v, 2, 2);
    assert_eq!(v, vec![4, 2, 3, 1]);
    swap_entries(&mut v, 2, 1);
    assert_eq!(v, vec![4, 3, 2, 1]);
}
