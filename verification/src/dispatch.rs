//! Context-propagating dispatch: running a blocking closure on a separate
//! worker lane without losing the caller's active span.
//!
//! A worker lane starts with an empty context stack, so work relocated onto
//! it would otherwise emit events with no ancestry. The dispatch primitive
//! therefore captures the caller's current span, threads it as an ordinary
//! value, enters it on the worker lane for the closure's whole duration,
//! and releases it again on every exit path before the result is handed
//! back.

use vstd::prelude::*;
use crate::context::ContextStack;
use crate::record::{Field, SpanData};

verus! {

/// Two field lists that agree entry by entry at the view level.
pub open spec fn fields_like(a: Seq<Field>, b: Seq<Field>) -> bool {
    &&& a.len() == b.len()
    &&& forall|i: int|
        0 <= i < a.len() ==> (#[trigger] a[i]).key@ == (#[trigger] b[i]).key@ && a[i].value@
            == b[i].value@
}

/// Two spans carrying the same identity, name, fields and ancestry.
pub open spec fn span_like(a: SpanData, b: SpanData) -> bool {
    &&& a.id == b.id
    &&& a.parent == b.parent
    &&& a.name@ == b.name@
    &&& fields_like(a.fields@, b.fields@)
}

impl SpanData {
    /// An exact copy of this span, entry by entry.
    pub fn duplicate(&self) -> (r: SpanData)
        ensures
            span_like(r, *self),
    {
        let mut fields: Vec<Field> = Vec::new();
        let mut i: usize = 0;
        while i < self.fields.len()
            invariant
                0 <= i <= self.fields@.len(),
                fields@.len() == i,
                forall|j: int|
                    0 <= j < i ==> (#[trigger] fields@[j]).key@ == (
                    #[trigger] self.fields@[j]).key@ && fields@[j].value@
                        == self.fields@[j].value@,
            decreases self.fields@.len() - i,
        {
            fields.push(
                Field { key: self.fields[i].key.clone(), value: self.fields[i].value.clone() },
            );
            i += 1;
        }
        SpanData {
            id: self.id,
            name: self.name.clone(),
            fields,
            parent: self.parent,
        }
    }
}

/// Capture the calling lane's current span as an ordinary value, without
/// consuming it: the caller's stack is untouched and keeps running.
pub fn capture_current(caller: &ContextStack) -> (r: Option<SpanData>)
    ensures
        caller@.len() == 0 ==> r is None,
        caller@.len() > 0 ==> (r matches Some(s) && span_like(s, caller@.last())),
{
    match caller.current() {
        Some(span) => Some(span.duplicate()),
        None => None,
    }
}

/// The span identity a closure dispatched under `captured` observes as its
/// current context.
pub open spec fn id_of(captured: Option<SpanData>) -> Option<u64> {
    match captured {
        Some(s) => Some(s.id),
        None => None,
    }
}

/// Run `f` on the worker lane `worker` with the captured span re-established
/// as current for exactly the closure's duration.
///
/// The closure receives the identity of the span that is current while it
/// runs — the captured one — so every event it emits is attributed to the
/// caller's span rather than to an empty lane. Whatever way `f` ends, the
/// matching exit runs and the worker lane's stack is exactly what it was
/// before; and the result is one `f` itself can yield on that argument, the
/// same as calling `f` directly under the caller's span.
pub fn dispatch_blocking<F, R>(captured: Option<SpanData>, worker: &mut ContextStack, f: F) -> (r:
    R) where F: FnOnce(Option<u64>) -> R
    requires
        call_requires(f, (id_of(captured),)),
    ensures
        final(worker)@ == old(worker)@,
        call_ensures(f, (id_of(captured),), r),
{
    match captured {
        Some(span) => {
            let id = span.id;
            worker.enter(span);
            let r = f(Some(id));
            worker.exit();
            r
        },
        None => f(None),
    }
}

} // verus!
