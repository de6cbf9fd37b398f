//! Bare-metal runtime substrate, modelled for verification.
//!
//! The library captures the core of a single-core, no-OS firmware runtime:
//!
//! - [`cs`]: the critical-section primitive that masks interrupt delivery,
//!   the system's only mutual-exclusion mechanism;
//! - [`accessor`]: critical-section-scoped exclusive access to hardware
//!   state shared between the mainline and interrupt handlers;
//! - [`exclusion`]: the proof that such accesses never interleave, over all
//!   traces of calls and simulated interrupts;
//! - [`peripherals`]: the registry of accessor-wrapped handles, built
//!   exactly once at startup with interrupts disabled;
//! - [`retry`]: the combinator that re-polls a non-blocking peripheral
//!   operation until it completes or fails fatally;
//! - [`tick`]: the interrupt-driven wraparound tick counter, and
//!   [`timestamp`]: uptime derived from it;
//! - [`fault`]: trap-cause decoding and diagnostic rendering, with
//!   [`text`]: verified byte-level number formatting;
//! - [`counters`], [`tasks`], [`utils`]: the mainline's bookkeeping, the
//!   handler bodies, and result helpers;
//! - [`device`], [`serial`]: the modelled register blocks those parts share.
//!
//! Hardware itself cannot be verified, so every register block is modelled
//! by a struct of plain values; the thin glue that touches real hardware
//! lives outside this crate and feeds those values in.

pub mod accessor;
pub mod counters;
pub mod cs;
pub mod device;
pub mod exclusion;
pub mod fault;
pub mod peripherals;
pub mod retry;
pub mod serial;
pub mod tasks;
pub mod text;
pub mod tick;
pub mod timestamp;
pub mod utils;
