//! Scoped exclusive access to a value shared between the mainline and
//! interrupt handlers.
//!
//! An `Accessor` owns exactly one instance of a peripheral handle or shared
//! application state. The only sanctioned mutation path is `with`, which
//! enters a critical section, hands the callback the owned value, stores the
//! value the callback returns, and leaves the section again. Because a
//! handler can only be dispatched while interrupts are enabled, and they are
//! masked for the whole of the callback, two callbacks on the same accessor
//! never run interleaved (see `crate::exclusion` for the proof over traces).
//!
//! Read-only access through `deref` takes no critical section. It is a
//! deliberately narrower escape hatch for values with no concurrent writer;
//! each use must justify that at the call site.

use vstd::prelude::*;

use crate::cs::Interrupts;

verus! {

/// Wraps a value owned by the hardware side and shared across preemption
/// contexts. Created once while the registry is built, then alive for the
/// rest of the program.
///
/// The value sits in an always-full slot so that `with` can lend it to the
/// callback by value; `wf` says the slot is full, and every method keeps it
/// so.
pub struct Accessor<T> {
    slot: Option<T>,
}

impl<T> View for Accessor<T> {
    type V = T;

    /// The owned value.
    closed spec fn view(&self) -> T {
        self.slot->Some_0
    }
}

impl<T> Accessor<T> {
    /// The slot holding the owned value is full.
    pub closed spec fn wf(&self) -> bool {
        self.slot is Some
    }

    /// Wrap a value. Construction cannot fail.
    pub fn new(value: T) -> (r: Accessor<T>)
        ensures
            r.wf(),
            r@ == value,
    {
        Accessor { slot: Some(value) }
    }

    /// Run `f` on the owned value with interrupt delivery suppressed.
    ///
    /// The critical section is entered before `f` runs and left after it
    /// returns, restoring the interrupt state found on entry. The callback
    /// receives the owned value and returns its replacement together with a
    /// result that is handed back to the caller.
    pub fn with<R, F: FnOnce(T) -> (T, R)>(&mut self, ints: &mut Interrupts, f: F) -> (r: R)
        requires
            old(self).wf(),
            old(ints).wf(),
            old(ints).depth < u32::MAX,
            call_requires(f, (old(self)@,)),
        ensures
            final(self).wf(),
            final(ints).wf(),
            *final(ints) == *old(ints),
            call_ensures(f, (old(self)@,), (final(self)@, r)),
    {
        ints.enter();
        let lent = self.slot.take();
        let (value, r) = f(lent.unwrap());
        self.slot = Some(value);
        ints.exit();
        r
    }

    /// Read the owned value without a critical section.
    ///
    /// Sound only when the caller can rule out a concurrent writer (for
    /// example, configuration that is never mutated after the registry is
    /// built); every call site must document that justification.
    pub fn deref(&self) -> (r: &T)
        requires
            self.wf(),
        ensures
            *r == self@,
    {
        self.slot.as_ref().unwrap()
    }
}

} // verus!
