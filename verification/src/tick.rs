//! The interrupt-driven tick counter: the system's unit of elapsed time.
//!
//! A single unsigned counter is advanced by the timer interrupt handler,
//! always inside a critical section, and read from any context. Overflow is
//! not an error: the counter wraps silently, so its value is defined by
//! modular arithmetic over the counter width.

use vstd::arithmetic::div_mod::{lemma_add_mod_noop, lemma_small_mod};
use vstd::prelude::*;

use crate::cs::Interrupts;

verus! {

/// One more than the largest counter value: the modulus of the counter.
pub open spec fn tick_modulus() -> nat {
    0x1_0000_0000_0000_0000
}

/// The counter value after one more tick: a wrapping increment.
pub open spec fn wrap_inc(c: u64) -> u64 {
    if c == u64::MAX {
        0
    } else {
        (c + 1) as u64
    }
}

/// The counter value after `k` further ticks.
pub open spec fn ticks_after(c0: u64, k: nat) -> u64
    decreases k,
{
    if k == 0 {
        c0
    } else {
        wrap_inc(ticks_after(c0, (k - 1) as nat))
    }
}

/// A wraparound counter of timer ticks since boot.
pub struct TickCounter {
    count: u64,
}

impl View for TickCounter {
    type V = u64;

    /// The latest committed count.
    closed spec fn view(&self) -> u64 {
        self.count
    }
}

impl TickCounter {
    /// The counter as it stands at boot: zero ticks seen.
    pub fn new() -> (r: TickCounter)
        ensures
            r@ == 0,
    {
        TickCounter { count: 0 }
    }

    /// A counter resumed at a given value, as when attaching to a timer
    /// that has been running.
    pub fn starting_at(count: u64) -> (r: TickCounter)
        ensures
            r@ == count,
    {
        TickCounter { count }
    }

    /// Advance the counter by one tick, wrapping silently on overflow.
    ///
    /// Called only from the timer interrupt handler; the increment runs
    /// inside its own critical section, which is released before returning.
    pub fn inc(&mut self, ints: &mut Interrupts)
        requires
            old(ints).wf(),
            old(ints).depth < u32::MAX,
        ensures
            final(self)@ == wrap_inc(old(self)@),
            *final(ints) == *old(ints),
            final(ints).wf(),
    {
        ints.enter();
        if self.count == u64::MAX {
            self.count = 0;
        } else {
            self.count = self.count + 1;
        }
        ints.exit();
    }

    /// The latest committed count, readable from any context.
    ///
    /// Takes no critical section: the timer interrupt is the only writer,
    /// and on the target a word-sized read does not tear.
    pub fn count(&self) -> (r: u64)
        ensures
            r == self@,
    {
        self.count
    }
}

/// Law: after `k` ticks the counter reads its starting value plus `k`,
/// modulo the counter width; in particular, counting from zero it reads
/// `k % 2^64`, and a tick at the maximum value wraps to zero.
pub proof fn lemma_ticks_after_mod(c0: u64, k: nat)
    ensures
        ticks_after(c0, k) as nat == (c0 as nat + k) % tick_modulus(),
    decreases k,
{
    let m = tick_modulus();
    if k == 0 {
        lemma_small_mod(c0 as nat, m);
    } else {
        lemma_ticks_after_mod(c0, (k - 1) as nat);
        let prev = ticks_after(c0, (k - 1) as nat);
        lemma_add_mod_noop(c0 + k - 1, 1, m as int);
        lemma_small_mod(1, m);
        if prev == u64::MAX {
            assert((prev + 1) % (m as int) == 0) by {
                lemma_small_mod(0, m);
            };
        } else {
            lemma_small_mod((prev + 1) as nat, m);
        }
    }
}

} // verus!
