//! Index bookkeeping of clip-note edits: deleting the selected notes (highest index
//! first) and putting them back on undo, and duplicating notes at the end of the clip.
use vstd::prelude::*;

verus! {

/// Items of `v[lo..hi]` whose index is not selected, in order.
pub open spec fn kept_range<T>(v: Seq<T>, sel: Seq<usize>, lo: int, hi: int) -> Seq<T>
    decreases hi - lo,
{
    if lo >= hi {
        Seq::empty()
    } else {
        let rest = kept_range(v, sel, lo + 1, hi);
        if sel.contains(lo as usize) {
            rest
        } else {
            seq![v[lo]] + rest
        }
    }
}

/// Selected `(index, item)` pairs of `v[lo..hi]`, highest index first.
pub open spec fn removed_range<T>(v: Seq<T>, sel: Seq<usize>, lo: int, hi: int) -> Seq<(usize, T)>
    decreases hi - lo,
{
    if lo >= hi {
        Seq::empty()
    } else {
        let rest = removed_range(v, sel, lo + 1, hi);
        if sel.contains(lo as usize) {
            rest.push((lo as usize, v[lo]))
        } else {
            rest
        }
    }
}

/// `items` after putting the removed `(index, item)` entries back, the last-listed
/// (lowest index) first, so that each lands where it stood before the delete; an
/// entry whose index lies past the end is skipped.
pub open spec fn restored<T>(items: Seq<T>, removed: Seq<(usize, T)>) -> Seq<T>
    decreases removed.len(),
{
    if removed.len() == 0 {
        items
    } else {
        let (i, t) = removed.last();
        let s = if i <= items.len() {
            items.insert(i as int, t)
        } else {
            items
        };
        restored(s, removed.drop_last())
    }
}

/// The indices of a delete's removed entries, in the order recorded.
pub open spec fn removed_indices<T>(removed: Seq<(usize, T)>) -> Seq<usize> {
    removed.map_values(|e: (usize, T)| e.0)
}

/// Whether `x` occurs in `s`.
pub fn slice_contains(s: &[usize], x: usize) -> (r: bool)
    ensures
        r == s@.contains(x),
{
    let mut i: usize = 0;
    while i < s.len()
        invariant
            i <= s@.len(),
            forall|j: int| 0 <= j < i ==> s@[j] != x,
        decreases s@.len() - i,
    {
        if s[i] == x {
            assert(s@[i as int] == x);
            return true;
        }
        i = i + 1;
    }
    false
}

/// Delete the selected items, highest index first, and return each removed
/// `(index, item)` in that order. Indices past the end select nothing, and a repeated
/// index selects its item once. Removing a delete's recorded indices again this way is
/// its redo.
pub fn remove_selected<T>(items: &mut Vec<T>, selected: &[usize]) -> (r: Vec<(usize, T)>)
    ensures
        final(items)@ == kept_range(old(items)@, selected@, 0, old(items)@.len() as int),
        r@ == removed_range(old(items)@, selected@, 0, old(items)@.len() as int),
{
    let ghost v = items@;
    let n = items.len();
    let mut out: Vec<(usize, T)> = Vec::new();
    let mut i: usize = n;
    assert(v.subrange(0, n as int) =~= v);
    while i > 0
        invariant
            n == v.len(),
            i <= n,
            items@ == v.subrange(0, i as int) + kept_range(v, selected@, i as int, n as int),
            out@ == removed_range(v, selected@, i as int, n as int),
        decreases i,
    {
        let idx = i - 1;
        if slice_contains(selected, idx) {
            let t = items.remove(idx);
            assert(t == v[idx as int]);
            out.push((idx, t));
            assert(items@ =~= v.subrange(0, idx as int) + kept_range(
                v,
                selected@,
                idx as int,
                n as int,
            ));
        } else {
            assert(v.subrange(0, i as int) =~= v.subrange(0, idx as int) + seq![v[idx as int]]);
            assert(items@ =~= v.subrange(0, idx as int) + kept_range(
                v,
                selected@,
                idx as int,
                n as int,
            ));
        }
        i = idx;
    }
    assert(v.subrange(0, 0) + kept_range(v, selected@, 0, n as int) =~= kept_range(
        v,
        selected@,
        0,
        n as int,
    ));
    out
}

/// Undo of a delete: put each removed `(index, item)` back, lowest index first, so
/// every item returns to the index it had; an entry whose index lies past the end is
/// skipped.
pub fn reinsert_removed<T>(items: &mut Vec<T>, removed: Vec<(usize, T)>)
    ensures
        final(items)@ == restored(old(items)@, removed@),
{
    let ghost all = removed@;
    let mut rest = removed;
    while rest.len() > 0
        invariant
            restored(items@, rest@) == restored(old(items)@, all),
        decreases rest@.len(),
    {
        let ghost before = rest@;
        let (idx, t) = rest.pop().unwrap();
        assert(before.drop_last() =~= rest@);
        if idx <= items.len() {
            items.insert(idx, t);
        }
    }
    assert(restored(items@, rest@) == items@);
}

/// `items` after duplicating the first `k` listed indices in turn: each index that
/// lies inside the list as it then stands appends a copy of that item.
pub open spec fn duplicated_prefix<T>(items: Seq<T>, indices: Seq<usize>, k: int) -> Seq<T>
    decreases k,
{
    if k <= 0 {
        items
    } else {
        let s = duplicated_prefix(items, indices, k - 1);
        let i = indices[k - 1];
        if i < s.len() {
            s.push(s[i as int])
        } else {
            s
        }
    }
}

/// Positions of the copies made by the first `k` listed indices, in order.
pub open spec fn duplicate_positions<T>(items: Seq<T>, indices: Seq<usize>, k: int) -> Seq<usize>
    decreases k,
{
    if k <= 0 {
        Seq::empty()
    } else {
        let s = duplicated_prefix(items, indices, k - 1);
        let rest = duplicate_positions(items, indices, k - 1);
        if indices[k - 1] < s.len() {
            rest.push(s.len() as usize)
        } else {
            rest
        }
    }
}

proof fn lemma_duplicated_len<T>(items: Seq<T>, indices: Seq<usize>, k: int)
    requires
        0 <= k <= indices.len(),
    ensures
        items.len() <= duplicated_prefix(items, indices, k).len() <= items.len() + k,
    decreases k,
{
    if k > 0 {
        lemma_duplicated_len(items, indices, k - 1);
    }
}

/// Append a copy of the item at each listed index, in order, and return where each
/// copy landed. An index past the end of the list as it stands is skipped.
pub fn duplicate_selected<T: Copy>(items: &mut Vec<T>, indices: &[usize]) -> (r: Vec<usize>)
    requires
        old(items)@.len() + indices@.len() <= usize::MAX,
    ensures
        final(items)@ == duplicated_prefix(old(items)@, indices@, indices@.len() as int),
        r@ == duplicate_positions(old(items)@, indices@, indices@.len() as int),
{
    let ghost v = items@;
    let mut out: Vec<usize> = Vec::new();
    let mut k: usize = 0;
    while k < indices.len()
        invariant
            k <= indices@.len(),
            v.len() + indices@.len() <= usize::MAX,
            items@ == duplicated_prefix(v, indices@, k as int),
            out@ == duplicate_positions(v, indices@, k as int),
        decreases indices@.len() - k,
    {
        proof {
            lemma_duplicated_len(v, indices@, k as int);
        }
        let ni = indices[k];
        if ni < items.len() {
            let note = items[ni];
            let at = items.len();
            items.push(note);
            out.push(at);
        }
        k = k + 1;
    }
    out
}

} // verus!

verus! {

/// Every item of a range is either kept or removed, never both.
pub proof fn lemma_delete_partitions<T>(v: Seq<T>, sel: Seq<usize>, lo: int, hi: int)
    requires
        lo <= hi,
    ensures
        kept_range(v, sel, lo, hi).len() + removed_range(v, sel, lo, hi).len() == hi - lo,
    decreases hi - lo,
{
    if lo < hi {
        lemma_delete_partitions(v, sel, lo + 1, hi);
    }
}

/// Duplicating leaves every item that was there in place: the copies only extend
/// the list, and each copy lands at or past the old end.
pub proof fn lemma_duplicate_keeps_originals<T>(items: Seq<T>, indices: Seq<usize>, k: int)
    requires
        0 <= k <= indices.len(),
        items.len() + indices.len() <= usize::MAX,
    ensures
        duplicated_prefix(items, indices, k).subrange(0, items.len() as int) == items,
        forall|j: int|
            0 <= j < duplicate_positions(items, indices, k).len() ==> items.len()
                <= #[trigger] duplicate_positions(items, indices, k)[j],
    decreases k,
{
    if k > 0 {
        lemma_duplicate_keeps_originals(items, indices, k - 1);
        lemma_duplicated_len(items, indices, k - 1);
        let s = duplicated_prefix(items, indices, k - 1);
        let prev = duplicate_positions(items, indices, k - 1);
        let cur = duplicate_positions(items, indices, k);
        assert(s.subrange(0, items.len() as int) == items);
        if indices[k - 1] < s.len() {
            assert(s.push(s[indices[k - 1] as int]).subrange(0, items.len() as int) =~= s.subrange(
                0,
                items.len() as int,
            ));
            assert((s.len() as usize) as int == s.len());
            assert(cur == prev.push(s.len() as usize));
        } else {
            assert(cur == prev);
        }
        assert forall|j: int| 0 <= j < cur.len() implies items.len() <= #[trigger] cur[j] by {
            if j < prev.len() {
                assert(cur[j] == prev[j]);
                assert(items.len() <= prev[j]);
            }
        }
    } else {
        assert(items.subrange(0, items.len() as int) =~= items);
    }
}

/// Undo after a delete puts back everything from `lo` on, given the items before `lo`.
proof fn lemma_restore_from<T>(v: Seq<T>, sel: Seq<usize>, lo: int)
    requires
        0 <= lo <= v.len(),
        v.len() <= usize::MAX,
    ensures
        restored(
            v.subrange(0, lo) + kept_range(v, sel, lo, v.len() as int),
            removed_range(v, sel, lo, v.len() as int),
        ) == v,
    decreases v.len() - lo,
{
    let n = v.len() as int;
    if lo == n {
        assert(v.subrange(0, lo) + kept_range(v, sel, lo, n) =~= v);
    } else {
        lemma_restore_from(v, sel, lo + 1);
        let rest = kept_range(v, sel, lo + 1, n);
        let next = v.subrange(0, lo + 1) + rest;
        assert(v.subrange(0, lo + 1) =~= v.subrange(0, lo).push(v[lo]));
        if sel.contains(lo as usize) {
            let r = removed_range(v, sel, lo + 1, n);
            let e = (lo as usize, v[lo]);
            assert(removed_range(v, sel, lo, n) == r.push(e));
            assert(r.push(e).last() == e);
            assert(r.push(e).drop_last() =~= r);
            let items = v.subrange(0, lo) + rest;
            assert(items.insert(lo, v[lo]) =~= next);
        } else {
            assert(v.subrange(0, lo) + kept_range(v, sel, lo, n) =~= next);
        }
    }
}

/// Where the indices of a delete's removed entries point: exactly the selected
/// indices of the range.
proof fn lemma_removed_indices<T>(v: Seq<T>, sel: Seq<usize>, lo: int, x: usize)
    requires
        0 <= lo <= v.len(),
        v.len() <= usize::MAX,
    ensures
        removed_indices(removed_range(v, sel, lo, v.len() as int)).contains(x) <==> (lo <= x
            < v.len() && sel.contains(x)),
    decreases v.len() - lo,
{
    let n = v.len() as int;
    let r = removed_range(v, sel, lo, n);
    if lo < n {
        lemma_removed_indices(v, sel, lo + 1, x);
        let r1 = removed_range(v, sel, lo + 1, n);
        if sel.contains(lo as usize) {
            let e = (lo as usize, v[lo]);
            assert(removed_indices(r1.push(e)) =~= removed_indices(r1).push(lo as usize));
        }
        let ri = removed_indices(r);
        let ri1 = removed_indices(r1);
        if ri.contains(x) {
            let k = choose|k: int| 0 <= k < ri.len() && ri[k] == x;
            if k < ri1.len() {
                assert(ri1[k] == x);
            }
        }
        if lo + 1 <= x < n && sel.contains(x) {
            let k = choose|k: int| 0 <= k < ri1.len() && ri1[k] == x;
            assert(ri[k] == x);
        }
        if x == lo && sel.contains(x) {
            assert(ri[ri.len() - 1] == x);
        }
    } else {
        assert(removed_indices(r).len() == 0);
    }
}

/// Items kept from a range depend only on which of the range's indices are selected.
proof fn lemma_kept_same_selection<T>(v: Seq<T>, s1: Seq<usize>, s2: Seq<usize>, lo: int, hi: int)
    requires
        0 <= lo <= hi <= v.len(),
        v.len() <= usize::MAX,
        forall|j: usize| lo <= j < hi ==> (s1.contains(j) <==> s2.contains(j)),
    ensures
        kept_range(v, s1, lo, hi) == kept_range(v, s2, lo, hi),
    decreases hi - lo,
{
    if lo < hi {
        assert(s1.contains(lo as usize) <==> s2.contains(lo as usize));
        lemma_kept_same_selection(v, s1, s2, lo + 1, hi);
    }
}

/// Undo restores a clip exactly after deleting any selection of its notes: every
/// deleted note is back at its index and the order is the original one. Redoing then,
/// by removing the recorded indices again, gives the same notes as the delete did.
pub proof fn lemma_delete_undo_redo<T>(v: Seq<T>, sel: Seq<usize>)
    requires
        v.len() <= usize::MAX,
    ensures
        restored(
            kept_range(v, sel, 0, v.len() as int),
            removed_range(v, sel, 0, v.len() as int),
        ) == v,
        kept_range(
            v,
            removed_indices(removed_range(v, sel, 0, v.len() as int)),
            0,
            v.len() as int,
        ) == kept_range(v, sel, 0, v.len() as int),
{
    let n = v.len() as int;
    lemma_restore_from(v, sel, 0);
    assert(v.subrange(0, 0) + kept_range(v, sel, 0, n) =~= kept_range(v, sel, 0, n));
    let idx = removed_indices(removed_range(v, sel, 0, n));
    assert forall|j: usize| 0 <= j < n implies (idx.contains(j) <==> sel.contains(j)) by {
        lemma_removed_indices(v, sel, 0, j);
    }
    lemma_kept_same_selection(v, idx, sel, 0, n);
}

} // verus!
