//! The peripheral registry: built exactly once at startup, then read-only as
//! a container for the rest of program life.
//!
//! `init` performs the whole boot-side configuration with interrupts
//! disabled — disarming the watchdogs, configuring and starting the periodic
//! timer, bringing up the serial port and the LEDs — wraps each handle in an
//! `Accessor`, stores the result, and only then re-enables interrupts.
//! Calling `init` a second time is a programming error; it is flagged, never
//! silently re-run. Reading the registry before `init` completed is ruled
//! out by contract: `instance` demands the `Ready` state.

use vstd::prelude::*;

use crate::accessor::Accessor;
use crate::cs::Interrupts;
use crate::device::{Led, LedPin, Rtc, TimerDevice};
use crate::serial::SerialPort;

verus! {

/// The period, in seconds, the boot code programs into the timer.
pub const TIMER_PERIOD_SECS: u32 = 1;

/// The registry's lifecycle. It moves `Uninitialized -> Initializing ->
/// Ready` during the one permitted `init` call and then never again.
#[derive(Clone, Copy, PartialEq, Eq, Structural, Debug)]
pub enum BootState {
    /// `init` has not run.
    Uninitialized,
    /// `init` is configuring the hardware, interrupts disabled.
    Initializing,
    /// The registry is built; interrupts are enabled.
    Ready,
}

/// The failure `init` reports instead of ever running twice.
#[derive(Clone, Copy, PartialEq, Eq, Structural, Debug)]
pub enum InitError {
    /// `init` had already been called.
    AlreadyInitialized,
}

/// The peripherals the runtime manages, each behind its own `Accessor`.
/// No two accessors alias the same register block: the registry is built
/// once, from handles that can be taken only once.
pub struct Peripherals {
    /// The real-time-clock block (watchdogs).
    pub rtc: Accessor<Rtc>,
    /// The periodic timer that drives the tick interrupt.
    pub timer0: Accessor<TimerDevice>,
    /// The serial port.
    pub serial1: Accessor<SerialPort>,
    /// The board's LEDs.
    pub led: Accessor<Led>,
}

impl Peripherals {
    /// Every accessor's slot is full.
    pub open spec fn wf(&self) -> bool {
        &&& self.rtc.wf()
        &&& self.timer0.wf()
        &&& self.serial1.wf()
        &&& self.led.wf()
    }

    /// The configuration `init` establishes: watchdogs disarmed, the timer
    /// started on its period with no interrupt pending, the serial port
    /// idle and sound, the green LED on as boot indicator.
    pub open spec fn boot_config(&self) -> bool {
        &&& !self.rtc@.swd_armed && !self.rtc@.rwdt_armed
        &&& self.timer0@ == (TimerDevice {
            pending: false,
            running: true,
            period_secs: TIMER_PERIOD_SECS,
        })
        &&& self.serial1@.busy == 0 && self.serial1@.fault is None && self.serial1@.sent@
            == Seq::<u8>::empty()
        &&& self.led@.green.lit && !self.led@.red.lit
    }

    /// Configure every peripheral from its reset state.
    fn new() -> (r: Peripherals)
        ensures
            r.wf(),
            r.boot_config(),
    {
        let mut rtc = Rtc::new();
        rtc.disable_swd();
        rtc.disable_rwdt();
        let mut timer0 = TimerDevice::new();
        timer0.start(TIMER_PERIOD_SECS);
        Peripherals {
            rtc: Accessor::new(rtc),
            timer0: Accessor::new(timer0),
            serial1: Accessor::new(SerialPort::new()),
            led: Accessor::new(Led::new()),
        }
    }

    /// Reset-state handles filling the slot before `init` configures them.
    fn placeholder() -> (r: Peripherals)
        ensures
            r.wf(),
    {
        Peripherals {
            rtc: Accessor::new(Rtc::new()),
            timer0: Accessor::new(TimerDevice::new()),
            serial1: Accessor::new(SerialPort::new()),
            led: Accessor::new(Led { green: LedPin::new(false), red: LedPin::new(false) }),
        }
    }
}

/// The process-wide registry slot. On hardware this is a static; here the
/// one instance is created at the top of `main` and threaded by reference.
pub struct Instance {
    state: BootState,
    store: Peripherals,
}

impl Instance {
    /// `init` has not run on this slot.
    pub closed spec fn fresh(&self) -> bool {
        self.state is Uninitialized
    }

    /// `init` has completed on this slot.
    pub closed spec fn ready(&self) -> bool {
        self.state is Ready
    }

    /// The stored peripherals.
    pub closed spec fn peripherals(&self) -> Peripherals {
        self.store
    }

    /// The slot's accessors are all usable.
    pub open spec fn wf(&self) -> bool {
        self.peripherals().wf()
    }

    /// An empty slot, as the program starts.
    pub fn new() -> (r: Instance)
        ensures
            r.fresh(),
            !r.ready(),
            r.wf(),
    {
        Instance { state: BootState::Uninitialized, store: Peripherals::placeholder() }
    }
}

/// Initialize the registry: with interrupts disabled, configure the
/// peripherals and store them, then enable interrupts. Must be called
/// exactly once, as the first action of startup, before interrupts are
/// globally enabled; a second call is rejected and changes nothing.
pub fn init(inst: &mut Instance, ints: &mut Interrupts) -> (r: Result<(), InitError>)
    requires
        old(inst).wf(),
        old(ints).wf(),
        !old(ints).in_section(),
    ensures
        final(inst).wf(),
        final(ints).wf(),
        r is Ok <==> old(inst).fresh(),
        old(inst).fresh() ==> {
            &&& final(inst).ready()
            &&& !final(inst).fresh()
            &&& final(inst).peripherals().boot_config()
            &&& final(ints).enabled
            &&& !final(ints).in_section()
        },
        !old(inst).fresh() ==> {
            &&& r == Err::<(), InitError>(InitError::AlreadyInitialized)
            &&& *final(inst) == *old(inst)
            &&& *final(ints) == *old(ints)
        },
{
    match inst.state {
        BootState::Uninitialized => {
            ints.disable_all();
            inst.state = BootState::Initializing;
            inst.store = Peripherals::new();
            inst.state = BootState::Ready;
            ints.enable_all();
            Ok(())
        },
        _ => Err(InitError::AlreadyInitialized),
    }
}

/// Borrow the registry. Callable anywhere after `init` has completed — and
/// nowhere before: callers must guarantee that ordering, exactly as on the
/// hardware, where an earlier read would touch an uninitialized static.
pub fn instance(inst: &Instance) -> (r: &Peripherals)
    requires
        inst.ready(),
    ensures
        *r == inst.peripherals(),
{
    &inst.store
}

/// The timer-group interrupt vector: acknowledge the timer's interrupt and
/// restart it for the next period, under the accessor's critical section.
/// (The uptime log line the firmware prints here is I/O and stays with the
/// glue layer.) Dispatched by hardware only while interrupts are enabled.
pub fn timer0_interrupt(inst: &mut Instance, ints: &mut Interrupts)
    requires
        old(inst).ready(),
        old(inst).wf(),
        old(ints).wf(),
        old(ints).can_dispatch(),
    ensures
        final(inst).ready(),
        final(inst).wf(),
        *final(ints) == *old(ints),
        final(ints).wf(),
        final(inst).peripherals().timer0@ == (TimerDevice {
            pending: false,
            running: true,
            period_secs: TIMER_PERIOD_SECS,
        }),
        final(inst).peripherals().rtc == old(inst).peripherals().rtc,
        final(inst).peripherals().serial1 == old(inst).peripherals().serial1,
        final(inst).peripherals().led == old(inst).peripherals().led,
{
    let handler = |t: TimerDevice| -> (r: (TimerDevice, ()))
        ensures
            r.0 == (TimerDevice { pending: false, running: true, period_secs: TIMER_PERIOD_SECS }),
        {
            let mut t = t;
            t.clear_interrupt();
            t.start(TIMER_PERIOD_SECS);
            (t, ())
        };
    inst.store.timer0.with(ints, handler)
}

} // verus!
