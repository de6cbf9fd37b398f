//! Critical sections, accessors, the registry and the tick counter, driven
//! as the firmware drives them.

use bare_rt::accessor::Accessor;
use bare_rt::counters::Counters;
use bare_rt::cs::Interrupts;
use bare_rt::device::{LedPin, TimerDevice};
use bare_rt::peripherals::{init, instance, timer0_interrupt, InitError, Instance};
use bare_rt::tasks::{idle, sys_tick, toggle};
use bare_rt::tick::TickCounter;
use bare_rt::utils::ResultExt;

#[test]
fn nested_sections_three_levels() {
    let mut ints = Interrupts::boot();
    ints.enable_all();
    assert!(ints.enabled);

    ints.enter();
    assert!(!ints.enabled);
    ints.enter();
    assert!(!ints.enabled);
    ints.enter();
    assert!(!ints.enabled);

    ints.exit();
    assert!(!ints.enabled);
    ints.exit();
    assert!(!ints.enabled);
    ints.exit();
    // The enable state flips exactly once, at the outermost boundary.
    assert!(ints.enabled);
    assert_eq!(ints.depth, 0);
}

#[test]
fn nested_sections_restore_disabled_state() {
    // Entered while interrupts were already off: the outermost exit must
    // restore "off", not unconditionally enable.
    let mut ints = Interrupts::boot();
    assert!(!ints.enabled);
    ints.enter();
    ints.enter();
    ints.exit();
    ints.exit();
    assert!(!ints.enabled);
}

#[test]
fn accessor_with_runs_callback_and_restores_interrupts() {
    let mut ints = Interrupts::boot();
    ints.enable_all();
    let mut acc = Accessor::new(5u64);
    let got = acc.with(&mut ints, |v: u64| (v + 1, v));
    assert_eq!(got, 5);
    assert_eq!(*acc.deref(), 6);
    assert!(ints.enabled);
    assert_eq!(ints.depth, 0);
}

#[test]
fn accessor_interleaved_updates_are_whole() {
    // Mainline updates interleaved with a simulated handler update on the
    // same accessor: every callback sees the previous one's whole result.
    let mut ints = Interrupts::boot();
    ints.enable_all();
    let mut acc = Accessor::new(1u64);
    acc.with(&mut ints, |v: u64| (v + 1, ()));
    // Handler preempts between the mainline's two calls and runs its own
    // callback through the same discipline.
    acc.with(&mut ints, |v: u64| (v * 10, ()));
    acc.with(&mut ints, |v: u64| (v + 3, ()));
    assert_eq!(*acc.deref(), 23);
    assert!(ints.enabled);
}

#[test]
fn registry_init_twice_rejected() {
    let mut ints = Interrupts::boot();
    let mut inst = Instance::new();

    let first = init(&mut inst, &mut ints);
    assert_eq!(first, Ok(()));
    assert!(ints.enabled);

    let second = init(&mut inst, &mut ints);
    assert_eq!(second, Err(InitError::AlreadyInitialized));
    // Still ready, still enabled: the rejected call changed nothing.
    assert!(ints.enabled);
    let p = instance(&inst);
    assert!(p.timer0.deref().running);
}

#[test]
fn registry_boot_configuration() {
    let mut ints = Interrupts::boot();
    let mut inst = Instance::new();
    init(&mut inst, &mut ints).unwrap();
    let p = instance(&inst);
    assert!(!p.rtc.deref().swd_armed);
    assert!(!p.rtc.deref().rwdt_armed);
    assert!(p.timer0.deref().running);
    assert!(!p.timer0.deref().pending);
    assert_eq!(p.timer0.deref().period_secs, 1);
    assert_eq!(p.serial1.deref().busy, 0);
    assert_eq!(p.serial1.deref().sent, Vec::new());
    assert!(p.led.deref().green.lit);
    assert!(!p.led.deref().red.lit);
}

#[test]
fn timer_interrupt_acknowledges_and_restarts() {
    let mut ints = Interrupts::boot();
    let mut inst = Instance::new();
    init(&mut inst, &mut ints).unwrap();

    timer0_interrupt(&mut inst, &mut ints);
    assert!(ints.enabled);
    let p = instance(&inst);
    assert!(!p.timer0.deref().pending);
    assert!(p.timer0.deref().running);
    assert_eq!(p.timer0.deref().period_secs, 1);
}

#[test]
fn tick_counts_simulated_interrupts() {
    let mut ints = Interrupts::boot();
    ints.enable_all();
    let mut tick = TickCounter::new();
    for _ in 0..5 {
        sys_tick(&mut ints, &mut tick);
    }
    assert_eq!(tick.count(), 5);
    assert!(ints.enabled);
}

#[test]
fn tick_wraps_at_counter_maximum() {
    let mut ints = Interrupts::boot();
    ints.enable_all();
    let mut tick = TickCounter::starting_at(u64::MAX);
    tick.inc(&mut ints);
    assert_eq!(tick.count(), 0);
    tick.inc(&mut ints);
    assert_eq!(tick.count(), 1);
}

#[test]
fn idle_accounts_wakeups() {
    let mut counters = Counters::new();
    assert_eq!(counters.interrupt, 0);
    idle(&mut counters);
    idle(&mut counters);
    assert_eq!(counters.interrupt, 2);
}

#[test]
fn toggle_flips_led_and_acknowledges_timer() {
    let mut timer = TimerDevice::new();
    timer.start(1);
    timer.fire();
    assert!(timer.pending);
    let mut led = LedPin::new(false);

    toggle(&mut timer, &mut led);
    assert!(!timer.pending);
    assert!(led.lit);

    timer.fire();
    toggle(&mut timer, &mut led);
    assert!(!timer.pending);
    assert!(!led.lit);
}

#[test]
fn result_ext_unwraps_the_reachable_side() {
    let ok: Result<u32, u8> = Ok(5);
    assert_eq!(ok.unreach_err(), 5);
    let err: Result<u32, u8> = Err(7);
    assert_eq!(err.unreach_ok(), 7);
}
