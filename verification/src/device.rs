//! Models of the board's simple peripherals.
//!
//! Each struct holds, as plain values, exactly the state of the register
//! block that the runtime logic reads or writes: an LED's output latch, a
//! timer's interrupt flag and run state, the RTC's watchdog arming bits. The
//! real register blocks live behind the hardware glue, which keeps them in
//! step with these values.

use vstd::prelude::*;

verus! {

/// One LED output pin.
#[derive(Clone, Copy, PartialEq, Eq, Structural, Debug)]
pub struct LedPin {
    /// Whether the LED is currently driven on.
    pub lit: bool,
}

impl LedPin {
    /// A pin as configured at startup.
    pub fn new(lit: bool) -> (r: LedPin)
        ensures
            r.lit == lit,
    {
        LedPin { lit }
    }

    /// Drive the LED on.
    pub fn on(&mut self)
        ensures
            final(self).lit,
    {
        self.lit = true;
    }

    /// Drive the LED off.
    pub fn off(&mut self)
        ensures
            !final(self).lit,
    {
        self.lit = false;
    }

    /// Whether the LED is currently off.
    pub fn is_off(&self) -> (r: bool)
        ensures
            r == !self.lit,
    {
        !self.lit
    }
}

/// The LEDs available on the board.
#[derive(Clone, Copy, PartialEq, Eq, Structural, Debug)]
pub struct Led {
    /// The green status LED.
    pub green: LedPin,
    /// The red activity LED.
    pub red: LedPin,
}

impl Led {
    /// Configure the LEDs: the green one is switched on as a boot indicator,
    /// the red one starts off.
    pub fn new() -> (r: Led)
        ensures
            r.green.lit,
            !r.red.lit,
    {
        Led { green: LedPin::new(true), red: LedPin::new(false) }
    }
}

/// A hardware timer that raises a periodic interrupt.
#[derive(Clone, Copy, PartialEq, Eq, Structural, Debug)]
pub struct TimerDevice {
    /// Whether the timer's interrupt line is currently asserted.
    pub pending: bool,
    /// Whether the timer is counting.
    pub running: bool,
    /// The programmed period, in seconds.
    pub period_secs: u32,
}

impl TimerDevice {
    /// The timer as it stands out of reset: stopped, no interrupt pending.
    pub fn new() -> (r: TimerDevice)
        ensures
            !r.pending,
            !r.running,
            r.period_secs == 0,
    {
        TimerDevice { pending: false, running: false, period_secs: 0 }
    }

    /// Acknowledge the interrupt: deassert the line.
    pub fn clear_interrupt(&mut self)
        ensures
            *final(self) == (TimerDevice { pending: false, ..*old(self) }),
    {
        self.pending = false;
    }

    /// Start (or restart) the timer with the given period.
    pub fn start(&mut self, period_secs: u32)
        ensures
            *final(self) == (TimerDevice {
                running: true,
                period_secs,
                ..*old(self)
            }),
    {
        self.running = true;
        self.period_secs = period_secs;
    }

    /// The period elapses: hardware asserts the interrupt line. Simulates
    /// the timer event that on the board arrives of its own accord.
    pub fn fire(&mut self)
        requires
            old(self).running,
        ensures
            *final(self) == (TimerDevice { pending: true, ..*old(self) }),
    {
        self.pending = true;
    }
}

/// The real-time-clock block, as far as startup touches it: its watchdogs.
#[derive(Clone, Copy, PartialEq, Eq, Structural, Debug)]
pub struct Rtc {
    /// Whether the super watchdog is armed.
    pub swd_armed: bool,
    /// Whether the RTC watchdog is armed.
    pub rwdt_armed: bool,
}

impl Rtc {
    /// The block out of reset: both watchdogs armed.
    pub fn new() -> (r: Rtc)
        ensures
            r.swd_armed,
            r.rwdt_armed,
    {
        Rtc { swd_armed: true, rwdt_armed: true }
    }

    /// Disarm the super watchdog.
    pub fn disable_swd(&mut self)
        ensures
            *final(self) == (Rtc { swd_armed: false, ..*old(self) }),
    {
        self.swd_armed = false;
    }

    /// Disarm the RTC watchdog.
    pub fn disable_rwdt(&mut self)
        ensures
            *final(self) == (Rtc { rwdt_armed: false, ..*old(self) }),
    {
        self.rwdt_armed = false;
    }
}

} // verus!
