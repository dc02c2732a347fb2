//! Edits of a serial slot chain such as the voice filter chain: removing a slot,
//! swapping neighbours, and appending a new slot while the chain is below its limit.
use vstd::prelude::*;

verus! {

/// `s` with the entries at `a` and `b` exchanged.
pub open spec fn swapped<T>(s: Seq<T>, a: int, b: int) -> Seq<T> {
    s.update(a, s[b]).update(b, s[a])
}

/// The chain after this frame's remove or swap; a removal takes precedence.
pub open spec fn chain_after_edit<T>(s: Seq<T>, remove: Option<usize>, swap: Option<(usize, usize)>) -> Seq<T> {
    if remove is Some {
        s.remove(remove->0 as int)
    } else if swap is Some {
        let (a, b) = swap->0;
        swapped(s, a as int, b as int)
    } else {
        s
    }
}

/// Exchange two entries of a vector.
pub fn swap_entries<T>(v: &mut Vec<T>, a: usize, b: usize)
    requires
        a < old(v)@.len(),
        b < old(v)@.len(),
    ensures
        final(v)@ == swapped(old(v)@, a as int, b as int),
{
    if a == b {
        assert(swapped(old(v)@, a as int, b as int) =~= old(v)@);
        return;
    }
    let (lo, hi) = if a < b {
        (a, b)
    } else {
        (b, a)
    };
    let ghost s = v@;
    let y = v.remove(hi);
    let x = v.remove(lo);
    v.insert(lo, y);
    v.insert(hi, x);
    assert(v@ =~= swapped(s, a as int, b as int));
}

/// Apply the chain buttons pressed in one frame: remove the slot whose ✕ was pressed,
/// otherwise exchange the slots an arrow named; then append `add` (the slot made by
/// "+ Add filter") if the chain is still below `max_slots`, since only then is the add
/// row offered. Returns whether the chain changed.
pub fn apply_chain_edits<T>(
    slots: &mut Vec<T>,
    remove: Option<usize>,
    swap: Option<(usize, usize)>,
    add: Option<T>,
    max_slots: usize,
) -> (changed: bool)
    requires
        remove is Some ==> remove->0 < old(slots)@.len(),
        remove is None && swap is Some ==> ({
            let (a, b) = swap->0;
            a < old(slots)@.len() && b < old(slots)@.len()
        }),
    ensures
        ({
            let edited = chain_after_edit(old(slots)@, remove, swap);
            let adds = add is Some && edited.len() < max_slots;
            &&& final(slots)@ == if adds {
                edited.push(add->0)
            } else {
                edited
            }
            &&& changed == (remove is Some || swap is Some || adds)
        }),
{
    let mut changed = false;
    match remove {
        Some(i) => {
            slots.remove(i);
            changed = true;
        },
        None => match swap {
            Some((a, b)) => {
                swap_entries(slots, a, b);
                changed = true;
            },
            None => {},
        },
    }
    if slots.len() < max_slots {
        match add {
            Some(slot) => {
                slots.push(slot);
                changed = true;
            },
            None => {},
        }
    }
    changed
}

} // verus!
