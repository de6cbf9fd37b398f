//! Blocking retry over non-blocking peripheral operations.
//!
//! Peripheral drivers expose non-blocking calls that complete immediately
//! with a value, report "not ready yet", or fail outright. With no scheduler
//! to suspend on, the uniform way to wait is to re-poll until the operation
//! resolves. `block` centralizes that policy — retry on every "not ready",
//! propagate a fatal error at once, no timeout — so that every call site has
//! identical semantics.
//!
//! An operation is modelled by the `NonBlocking` trait: `pending` counts the
//! polls it will still answer with `NotReady`, `outcome` is what it then
//! resolves to, and `polled` counts the polls made so far, which lets the
//! contracts pin down exactly how many polls a call performs.

use vstd::prelude::*;

verus! {

/// What one poll of a non-blocking operation reports.
pub enum Poll<V, E> {
    /// The operation completed with a value.
    Ready(V),
    /// Not finished yet; poll again later.
    NotReady,
    /// The operation failed; retrying cannot help.
    Fatal(E),
}

/// A non-blocking operation that resolves after finitely many polls.
///
/// `poll` answers `NotReady` while `pending` is positive, counting it down
/// by one per poll, and resolves to `outcome` once `pending` reaches zero:
/// `Ready` if the outcome is `Ok`, `Fatal` if it is `Err`. Every poll
/// advances `polled` by one; the bound on `polled` mirrors the width of the
/// counter an implementation can keep.
pub trait NonBlocking: Sized {
    /// What the operation yields on completion.
    type Value;

    /// The error a fatal failure carries.
    type Error;

    /// Polls that will still be answered with `NotReady`.
    spec fn pending(&self) -> nat;

    /// What the operation resolves to once no poll is pending.
    spec fn outcome(&self) -> Result<Self::Value, Self::Error>;

    /// Polls made so far.
    spec fn polled(&self) -> nat;

    /// Make one poll.
    fn poll(&mut self) -> (r: Poll<Self::Value, Self::Error>)
        requires
            old(self).polled() < u64::MAX,
        ensures
            final(self).polled() == old(self).polled() + 1,
            final(self).outcome() == old(self).outcome(),
            old(self).pending() > 0 ==> {
                &&& r is NotReady
                &&& final(self).pending() == old(self).pending() - 1
            },
            old(self).pending() == 0 ==> {
                &&& final(self).pending() == 0
                &&& match old(self).outcome() {
                    Ok(v) => r == Poll::<Self::Value, Self::Error>::Ready(v),
                    Err(e) => r == Poll::<Self::Value, Self::Error>::Fatal(e),
                }
            },
    ;
}

/// Law: re-poll `op` until it resolves, and return what it resolved to.
///
/// An operation that answers `NotReady` N times and then completes with `v`
/// returns `Ok(v)` after exactly N + 1 polls; one that fails fatally on its
/// first poll returns the error after exactly that one poll, never retried.
/// On hardware each `NotReady` turn spins or sits in a low-power wait
/// instruction; nothing of that changes the result.
pub fn block<O: NonBlocking>(op: &mut O) -> (r: Result<O::Value, O::Error>)
    requires
        old(op).polled() + old(op).pending() < u64::MAX,
    ensures
        r == old(op).outcome(),
        final(op).pending() == 0,
        final(op).outcome() == old(op).outcome(),
        final(op).polled() == old(op).polled() + old(op).pending() + 1,
{
    loop
        invariant
            op.outcome() == old(op).outcome(),
            op.polled() + op.pending() == old(op).polled() + old(op).pending(),
            op.polled() + op.pending() < u64::MAX,
        decreases op.pending(),
    {
        match op.poll() {
            Poll::Ready(v) => {
                return Ok(v);
            },
            Poll::NotReady => {
                // Not ready yet: fall through and poll again.
            },
            Poll::Fatal(e) => {
                return Err(e);
            },
        }
    }
}

/// A scripted operation: answers `NotReady` a fixed number of times, then
/// resolves to a preset result. It stands in for a peripheral in tests and
/// lets the retry policy be exercised without hardware.
pub struct ScriptedOp {
    /// Polls that will still be answered with `NotReady`.
    pub remaining: u64,
    /// What the operation resolves to.
    pub result: Result<u64, u64>,
    /// Polls made so far.
    pub polls: u64,
}

impl NonBlocking for ScriptedOp {
    type Value = u64;

    type Error = u64;

    open spec fn pending(&self) -> nat {
        self.remaining as nat
    }

    open spec fn outcome(&self) -> Result<u64, u64> {
        self.result
    }

    open spec fn polled(&self) -> nat {
        self.polls as nat
    }

    fn poll(&mut self) -> (r: Poll<u64, u64>) {
        self.polls = self.polls + 1;
        if self.remaining > 0 {
            self.remaining = self.remaining - 1;
            Poll::NotReady
        } else {
            match self.result {
                Ok(v) => Poll::Ready(v),
                Err(e) => Poll::Fatal(e),
            }
        }
    }
}

impl ScriptedOp {
    /// An operation that will report `NotReady` `remaining` times and then
    /// resolve to `result`.
    pub fn new(remaining: u64, result: Result<u64, u64>) -> (r: ScriptedOp)
        ensures
            r.pending() == remaining,
            r.outcome() == result,
            r.polled() == 0,
    {
        ScriptedOp { remaining, result, polls: 0 }
    }

    /// Polls made so far, for observing the retry policy from outside.
    pub fn polls_made(&self) -> (r: u64)
        ensures
            r == self.polled(),
    {
        self.polls
    }
}

} // verus!
