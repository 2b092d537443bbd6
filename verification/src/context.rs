//! The per-lane execution context stack: the chain of currently active
//! spans, root first, with strict LIFO enter/exit discipline.

use vstd::prelude::*;
use crate::record::SpanData;

verus! {

/// One execution lane's stack of active spans. The bottom entry is the root
/// of the ancestry, the top entry is the current span. Each lane owns its
/// own stack; there is no cross-lane visibility.
pub struct ContextStack {
    frames: Vec<SpanData>,
}

impl View for ContextStack {
    type V = Seq<SpanData>;

    closed spec fn view(&self) -> Seq<SpanData> {
        self.frames@
    }
}

impl ContextStack {
    /// A fresh lane starts with no active span.
    pub fn new() -> (r: ContextStack)
        ensures
            r@ == Seq::<SpanData>::empty(),
    {
        ContextStack { frames: Vec::new() }
    }

    /// Push `span` onto the stack: it becomes the current span of this lane.
    pub fn enter(&mut self, span: SpanData)
        ensures
            final(self)@ == old(self)@.push(span),
    {
        self.frames.push(span);
    }

    /// Pop the top of the stack, restoring the previous current span. The
    /// scoped-guard discipline guarantees the stack is non-empty here: every
    /// exit matches an earlier enter on the same lane.
    pub fn exit(&mut self) -> (r: SpanData)
        requires
            old(self)@.len() > 0,
        ensures
            final(self)@ == old(self)@.drop_last(),
            r == old(self)@.last(),
    {
        let r = self.frames.pop().unwrap();
        r
    }

    /// Read the current span without mutating the stack.
    pub fn current(&self) -> (r: Option<&SpanData>)
        ensures
            self@.len() == 0 ==> r is None,
            self@.len() > 0 ==> (r matches Some(s) && *s == self@.last()),
    {
        if self.frames.len() == 0 {
            None
        } else {
            Some(&self.frames[self.frames.len() - 1])
        }
    }

    /// The number of active spans on this lane.
    pub fn depth(&self) -> (r: usize)
        ensures
            r == self@.len(),
    {
        self.frames.len()
    }

    /// The whole active chain, root first; an event emitted now is enriched
    /// from exactly these spans.
    pub fn chain(&self) -> (r: &Vec<SpanData>)
        ensures
            r@ == self@,
    {
        &self.frames
    }
}

/// One step of a lane's history: entering a span or releasing the matching
/// guard.
pub enum StackOp {
    Enter(SpanData),
    Exit,
}

/// The stack left after running `op` on `s`.
pub open spec fn apply_op(s: Seq<SpanData>, op: StackOp) -> Seq<SpanData> {
    match op {
        StackOp::Enter(span) => s.push(span),
        StackOp::Exit => s.drop_last(),
    }
}

/// The stack left after running every operation of `ops`, in order, on `s`.
pub open spec fn apply_ops(s: Seq<SpanData>, ops: Seq<StackOp>) -> Seq<SpanData>
    decreases ops.len(),
{
    if ops.len() == 0 {
        s
    } else {
        apply_op(apply_ops(s, ops.drop_last()), ops.last())
    }
}

/// Net number of spans `ops` leaves on a stack: enters minus exits.
pub open spec fn net_depth(ops: Seq<StackOp>) -> int
    decreases ops.len(),
{
    if ops.len() == 0 {
        0
    } else {
        net_depth(ops.drop_last()) + (match ops.last() {
            StackOp::Enter(_) => 1int,
            StackOp::Exit => -1int,
        })
    }
}

/// `ops` is a guard-disciplined history: no prefix releases more guards than
/// it acquired, so every exit pops a span that `ops` itself entered.
pub open spec fn well_nested(ops: Seq<StackOp>) -> bool {
    forall|i: int| 0 <= i <= ops.len() ==> net_depth(#[trigger] ops.take(i)) >= 0
}

/// A guard-disciplined history only ever stacks new spans on top of the
/// prior state: the prior stack survives underneath, and the total growth is
/// the history's net depth.
pub proof fn lemma_well_nested_preserves_base(s: Seq<SpanData>, ops: Seq<StackOp>)
    requires
        well_nested(ops),
    ensures
        apply_ops(s, ops).len() == s.len() + net_depth(ops),
        forall|i: int| 0 <= i < s.len() ==> apply_ops(s, ops)[i] == s[i],
    decreases ops.len(),
{
    if ops.len() > 0 {
        let prefix = ops.drop_last();
        assert forall|i: int| 0 <= i <= prefix.len() implies net_depth(
            #[trigger] prefix.take(i),
        ) >= 0 by {
            assert(prefix.take(i) =~= ops.take(i));
        }
        lemma_well_nested_preserves_base(s, prefix);
        assert(ops.take(prefix.len() as int) =~= prefix);
        assert(ops.take(ops.len() as int) =~= ops);
    }
}

/// Stack balance: after a fully unwound, guard-disciplined sequence of
/// enter/exit pairs, the lane's stack — and with it `current()` — is exactly
/// the state from before the sequence.
pub proof fn lemma_stack_balance(s: Seq<SpanData>, ops: Seq<StackOp>)
    requires
        well_nested(ops),
        net_depth(ops) == 0,
    ensures
        apply_ops(s, ops) == s,
{
    lemma_well_nested_preserves_base(s, ops);
    assert(apply_ops(s, ops) =~= s);
}

} // verus!
