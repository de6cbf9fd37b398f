//! The blocking retry combinator and the serial transmit path.

use bare_rt::cs::Interrupts;
use bare_rt::retry::{block, NonBlocking, Poll, ScriptedOp};
use bare_rt::serial::{SerialError, SerialPort};
use bare_rt::tasks::sys_tick;
use bare_rt::tick::TickCounter;

#[test]
fn block_returns_value_after_n_plus_one_polls() {
    let mut op = ScriptedOp::new(5, Ok(42));
    let r = block(&mut op);
    assert_eq!(r, Ok(42));
    assert_eq!(op.polls_made(), 6);
}

#[test]
fn block_ready_immediately_takes_one_poll() {
    let mut op = ScriptedOp::new(0, Ok(9));
    let r = block(&mut op);
    assert_eq!(r, Ok(9));
    assert_eq!(op.polls_made(), 1);
}

#[test]
fn block_propagates_fatal_on_first_poll_without_retry() {
    let mut op = ScriptedOp::new(0, Err(3));
    let r = block(&mut op);
    assert_eq!(r, Err(3));
    assert_eq!(op.polls_made(), 1);
}

#[test]
fn block_fatal_after_pending_polls() {
    let mut op = ScriptedOp::new(2, Err(8));
    let r = block(&mut op);
    assert_eq!(r, Err(8));
    assert_eq!(op.polls_made(), 3);
}

#[test]
fn serial_write_accepts_byte_once_ready() {
    let mut port = SerialPort::new();
    port.busy = 2;
    let mut op = port.write(b'x');
    let r = block(&mut op);
    assert_eq!(r, Ok(()));
    let port = op.into_port();
    assert_eq!(port.sent, vec![b'x']);
    assert_eq!(port.busy, 0);
}

#[test]
fn serial_flush_waits_for_drain() {
    let mut port = SerialPort::new();
    port.busy = 4;
    let mut op = port.flush();
    assert_eq!(block(&mut op), Ok(()));
    assert_eq!(op.polls, 5);
    let port = op.into_port();
    assert_eq!(port.busy, 0);
}

#[test]
fn serial_flush_propagates_line_fault() {
    let mut port = SerialPort::new();
    port.fault = Some(SerialError::Overrun);
    let mut op = port.flush();
    assert_eq!(block(&mut op), Err(SerialError::Overrun));
}

#[test]
fn serial_write_propagates_line_fault() {
    let mut port = SerialPort::new();
    port.fault = Some(SerialError::Framing);
    let mut op = port.write(b'x');
    let r = block(&mut op);
    assert_eq!(r, Err(SerialError::Framing));
    let port = op.into_port();
    assert_eq!(port.sent, Vec::new());
}

#[test]
fn serial_overrun_fault_reported() {
    let mut port = SerialPort::new();
    port.fault = Some(SerialError::Overrun);
    let mut op = port.write(b'q');
    assert_eq!(block(&mut op), Err(SerialError::Overrun));
}

#[test]
fn write_completes_while_timer_interrupt_fires_mid_poll() {
    // Mainline blocks on a serial write; between two polls the timer
    // interrupt fires and advances the tick counter. The write still
    // completes, the counter advanced by exactly one, and the port holds
    // exactly the byte written.
    let mut ints = Interrupts::boot();
    ints.enable_all();
    let mut tick = TickCounter::new();

    let mut port = SerialPort::new();
    port.busy = 3;
    let mut op = port.write(b'H');

    // First poll: not ready yet.
    match op.poll() {
        Poll::NotReady => {}
        _ => panic!("transmitter reported ready too early"),
    }

    // Mid-poll, the timer interrupt preempts the mainline.
    sys_tick(&mut ints, &mut tick);

    // The mainline resumes blocking on the write.
    let r = block(&mut op);
    assert_eq!(r, Ok(()));

    let port = op.into_port();
    assert_eq!(port.sent, vec![b'H']);
    assert_eq!(port.busy, 0);
    assert_eq!(port.fault, None);
    assert_eq!(tick.count(), 1);
    assert!(ints.enabled);
}
