//! The runtime's task and interrupt-handler bodies, factored into plain
//! functions so that the real vectors and a simulated invocation call the
//! same verified code.

use vstd::prelude::*;

use crate::counters::Counters;
use crate::cs::Interrupts;
use crate::device::{LedPin, TimerDevice};
use crate::tick::{wrap_inc, TickCounter};

verus! {

/// One turn of the idle loop: runs each time the wait-for-event instruction
/// (in the glue layer) wakes, and accounts the wakeup.
pub fn idle(counters: &mut Counters)
    requires
        old(counters).interrupt < u64::MAX,
    ensures
        final(counters).interrupt == old(counters).interrupt + 1,
{
    counters.interrupt = counters.interrupt + 1;
}

/// The system-timer interrupt vector: advance the tick counter by one,
/// wrapping silently. Dispatched by hardware only while interrupts are
/// enabled; the increment itself runs under a critical section.
pub fn sys_tick(ints: &mut Interrupts, tick: &mut TickCounter)
    requires
        old(ints).wf(),
        old(ints).can_dispatch(),
    ensures
        final(tick)@ == wrap_inc(old(tick)@),
        *final(ints) == *old(ints),
        final(ints).wf(),
{
    tick.inc(ints);
}

/// The blink-timer interrupt vector: acknowledge the timer and flip the red
/// LED. Dispatched with its resources locked by the runtime, as every
/// handler is.
pub fn toggle(timer: &mut TimerDevice, led: &mut LedPin)
    ensures
        *final(timer) == (TimerDevice { pending: false, ..*old(timer) }),
        final(led).lit == !old(led).lit,
{
    timer.clear_interrupt();
    if led.is_off() {
        led.on();
    } else {
        led.off();
    }
}

} // verus!
