//! Bounded undo/redo stacks for compose edits.
use vstd::prelude::*;

verus! {

/// Undo and redo stacks of commands; the undo stack keeps at most `max_depth` of the
/// most recent commands.
pub struct CommandHistory<C> {
    undo: Vec<C>,
    redo: Vec<C>,
    max_depth: usize,
}

/// The undo stack after pushing `cmd` onto `undo` with depth limit `max`: the oldest
/// entries are dropped until at most `max` remain.
pub open spec fn pushed_bounded<C>(undo: Seq<C>, cmd: C, max: nat) -> Seq<C> {
    let s = undo.push(cmd);
    if s.len() > max {
        s.subrange(s.len() - max, s.len() as int)
    } else {
        s
    }
}

/// One entry moves from the top of stack `from` to the top of stack `to`: `out` is the
/// entry that left, and the entry that arrived is a clone of it.
pub open spec fn moved_top<C: Clone>(from0: Seq<C>, to0: Seq<C>, from1: Seq<C>, to1: Seq<C>, out: C) -> bool {
    &&& from0.len() > 0
    &&& out == from0.last()
    &&& from1 == from0.drop_last()
    &&& to1.len() == to0.len() + 1
    &&& to1.drop_last() == to0
    &&& cloned::<C>(out, to1.last())
}

impl<C: Clone> CommandHistory<C> {
    /// Commands that can be undone, oldest first.
    pub closed spec fn undo_stack(&self) -> Seq<C> {
        self.undo@
    }

    /// Commands that can be redone, oldest first.
    pub closed spec fn redo_stack(&self) -> Seq<C> {
        self.redo@
    }

    /// Most undo entries kept.
    pub closed spec fn depth_limit(&self) -> nat {
        self.max_depth as nat
    }

    pub fn new(max_depth: usize) -> (r: Self)
        ensures
            r.undo_stack() == Seq::<C>::empty(),
            r.redo_stack() == Seq::<C>::empty(),
            r.depth_limit() == max_depth,
    {
        CommandHistory { undo: Vec::new(), redo: Vec::new(), max_depth }
    }

    /// Record a new command: the redo stack is cleared and the command becomes the
    /// newest undo entry, dropping the oldest entries beyond the depth limit.
    pub fn push(&mut self, cmd: C)
        ensures
            final(self).undo_stack() == pushed_bounded(
                old(self).undo_stack(),
                cmd,
                old(self).depth_limit(),
            ),
            final(self).redo_stack() == Seq::<C>::empty(),
            final(self).depth_limit() == old(self).depth_limit(),
    {
        self.redo.clear();
        self.undo.push(cmd);
        let ghost s = self.undo@;
        let ghost max = self.max_depth as int;
        while self.undo.len() > self.max_depth
            invariant
                max == self.max_depth,
                s.len() >= self.undo@.len(),
                self.undo@ == s.subrange(s.len() - self.undo@.len(), s.len() as int),
                s.len() > max ==> self.undo@.len() >= max,
                s.len() <= max ==> self.undo@ == s,
                self.redo@ == Seq::<C>::empty(),
            decreases self.undo@.len(),
        {
            let ghost before = self.undo@;
            self.undo.remove(0);
            assert(self.undo@ =~= s.subrange(s.len() - self.undo@.len(), s.len() as int));
        }
        assert(s.len() > max ==> self.undo@.len() == max);
        assert(s.len() == old(self).undo@.len() + 1);
    }

    pub fn can_undo(&self) -> (r: bool)
        ensures
            r == (self.undo_stack().len() > 0),
    {
        self.undo.len() != 0
    }

    pub fn can_redo(&self) -> (r: bool)
        ensures
            r == (self.redo_stack().len() > 0),
    {
        self.redo.len() != 0
    }

    /// Pop the newest undo entry and return it; a clone of it becomes the newest redo entry.
    pub fn take_undo(&mut self) -> (r: Option<C>)
        ensures
            final(self).depth_limit() == old(self).depth_limit(),
            old(self).undo_stack().len() == 0 ==> r is None && final(self).undo_stack() == old(self).undo_stack()
                && final(self).redo_stack() == old(self).redo_stack(),
            old(self).undo_stack().len() > 0 ==> r is Some && moved_top(
                old(self).undo_stack(),
                old(self).redo_stack(),
                final(self).undo_stack(),
                final(self).redo_stack(),
                r->0,
            ),
    {
        match self.undo.pop() {
            Some(c) => {
                let d = c.clone();
                self.redo.push(d);
                assert(self.redo@.drop_last() =~= old(self).redo@);
                Some(c)
            },
            None => None,
        }
    }

    /// Pop the newest redo entry and return it; a clone of it becomes the newest undo entry.
    pub fn take_redo(&mut self) -> (r: Option<C>)
        ensures
            final(self).depth_limit() == old(self).depth_limit(),
            old(self).redo_stack().len() == 0 ==> r is None && final(self).undo_stack() == old(self).undo_stack()
                && final(self).redo_stack() == old(self).redo_stack(),
            old(self).redo_stack().len() > 0 ==> r is Some && moved_top(
                old(self).redo_stack(),
                old(self).undo_stack(),
                final(self).redo_stack(),
                final(self).undo_stack(),
                r->0,
            ),
    {
        match self.redo.pop() {
            Some(c) => {
                let d = c.clone();
                self.undo.push(d);
                assert(self.undo@.drop_last() =~= old(self).undo@);
                Some(c)
            },
            None => None,
        }
    }
}

impl<C: Clone> Default for CommandHistory<C> {
    /// Empty stacks and a depth limit of zero.
    fn default() -> (r: Self)
        ensures
            r.undo_stack() == Seq::<C>::empty(),
            r.redo_stack() == Seq::<C>::empty(),
            r.depth_limit() == 0,
    {
        CommandHistory::new(0)
    }
}

/// A push never leaves more than the depth limit on the undo stack, and (with a
/// non-zero limit) the pushed command is on top.
pub proof fn lemma_push_respects_depth<C>(undo: Seq<C>, cmd: C, max: nat)
    ensures
        pushed_bounded(undo, cmd, max).len() <= max,
        max > 0 ==> pushed_bounded(undo, cmd, max).last() == cmd,
{
    let s = undo.push(cmd);
    if s.len() > max {
        assert(pushed_bounded(undo, cmd, max).len() == max);
    } else {
        assert(pushed_bounded(undo, cmd, max).len() == undo.len() + 1);
        assert(undo.len() + 1 <= max);
    }
}

/// Undo followed by redo hands back the undone command (up to `clone`) and restores
/// both stacks: the redo stack exactly, and the undo stack up to a clone of its top.
pub proof fn lemma_undo_then_redo<C: Clone>(
    u0: Seq<C>,
    r0: Seq<C>,
    u1: Seq<C>,
    r1: Seq<C>,
    u2: Seq<C>,
    r2: Seq<C>,
    undone: C,
    redone: C,
)
    requires
        moved_top(u0, r0, u1, r1, undone),
        moved_top(r1, u1, r2, u2, redone),
    ensures
        r2 == r0,
        u2.len() == u0.len(),
        u2.drop_last() == u0.drop_last(),
        cloned::<C>(undone, redone),
        cloned::<C>(redone, u2.last()),
{
}

/// For commands whose clone is an exact copy, redo exactly undoes undo: it hands back
/// the undone command and both stacks are as they were before the undo.
pub proof fn lemma_undo_then_redo_exact<C: Clone>(
    u0: Seq<C>,
    r0: Seq<C>,
    u1: Seq<C>,
    r1: Seq<C>,
    u2: Seq<C>,
    r2: Seq<C>,
    undone: C,
    redone: C,
)
    requires
        forall|a: C, b: C| #[trigger] cloned::<C>(a, b) ==> a == b,
        moved_top(u0, r0, u1, r1, undone),
        moved_top(r1, u1, r2, u2, redone),
    ensures
        redone == undone,
        u2 == u0,
        r2 == r0,
{
    assert(cloned::<C>(undone, r1.last()));
    assert(cloned::<C>(redone, u2.last()));
    assert(u2 =~= u0) by {
        assert forall|k: int| 0 <= k < u2.len() implies u2[k] == u0[k] by {
            if k < u2.len() - 1 {
                assert(u2[k] == u2.drop_last()[k]);
                assert(u0[k] == u0.drop_last()[k]);
            }
        }
    }
}

} // verus!
