//! Uptime derived from the free-running system timer.
//!
//! The timer ticks at a fixed, non-zero rate known at compile time, so the
//! division can never see a zero divisor. Reading the timer is hardware's
//! side; the split into seconds and remainder, and its rendering, are
//! verified here.

use vstd::prelude::*;

use crate::text::{dec_bytes, digits};

verus! {

/// Timer ticks per second: the timer's fixed clock rate.
pub const TICKS_PER_SECOND: u64 = 16_000_000;

/// A point in time since boot, with seconds and the remaining ticks
/// separated. Rendered as `<secs>.<rem>`.
#[derive(Clone, Copy, PartialEq, Eq, Structural, Debug)]
pub struct Timestamp {
    /// Whole seconds since boot.
    pub secs: u64,
    /// Ticks into the current second.
    pub rem: u64,
}

impl Timestamp {
    /// Split a tick count since boot into seconds and remainder.
    pub fn uptime(ticks: u64) -> (r: Timestamp)
        ensures
            r.secs == ticks / TICKS_PER_SECOND,
            r.rem == ticks % TICKS_PER_SECOND,
            r.rem < TICKS_PER_SECOND,
    {
        Timestamp { secs: ticks / TICKS_PER_SECOND, rem: ticks % TICKS_PER_SECOND }
    }

    /// The timestamp's rendering: seconds, a dot, the remainder.
    pub open spec fn render_spec(self) -> Seq<u8> {
        digits(self.secs as nat, 10) + seq![0x2eu8] + digits(self.rem as nat, 10)
    }

    /// Render the timestamp as `<secs>.<rem>`.
    pub fn render(&self) -> (r: Vec<u8>)
        ensures
            r@ == self.render_spec(),
    {
        let mut out = dec_bytes(self.secs);
        out.push(0x2e);
        let mut rem = dec_bytes(self.rem);
        out.append(&mut rem);
        proof {
            assert(out@ =~= self.render_spec());
        }
        out
    }
}

} // verus!
