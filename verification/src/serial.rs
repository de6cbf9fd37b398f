//! Model of the serial port and its non-blocking transmit operation.
//!
//! The transmitter accepts one byte at a time; while the previous byte is
//! still shifting out it answers "not ready", which `crate::retry::block`
//! turns into a blocking write. A concrete line fault makes the operation
//! fail fatally, and that error is propagated to the caller as a typed
//! result — never retried, never absorbed.

use vstd::prelude::*;

use crate::retry::{NonBlocking, Poll};

verus! {

/// A concrete serial line failure, reported to the caller.
#[derive(Clone, Copy, PartialEq, Eq, Structural, Debug)]
pub enum SerialError {
    /// A malformed frame was seen on the line.
    Framing,
    /// Data arrived faster than it was consumed.
    Overrun,
}

/// The serial port.
#[derive(PartialEq, Eq, Debug)]
pub struct SerialPort {
    /// Polls the transmitter will still answer "not ready" before it can
    /// accept the next byte (and before a flush sees the line drained).
    pub busy: u32,
    /// A latched line fault; while set, every operation fails with it.
    pub fault: Option<SerialError>,
    /// The bytes the transmitter has accepted, in order.
    pub sent: Vec<u8>,
}

impl SerialPort {
    /// The port as configured at startup: idle, sound, nothing sent.
    pub fn new() -> (r: SerialPort)
        ensures
            r.busy == 0,
            r.fault is None,
            r.sent@ == Seq::<u8>::empty(),
    {
        SerialPort { busy: 0, fault: None, sent: Vec::new() }
    }

    /// Begin a non-blocking write of `byte`, taking the port for the
    /// duration of the operation.
    pub fn write(self, byte: u8) -> (r: WriteOp)
        ensures
            r.port == self,
            r.byte == byte,
            r.polls == 0,
    {
        WriteOp { port: self, byte, polls: 0 }
    }

    /// Begin a non-blocking flush: complete once the transmitter has
    /// drained everything it accepted.
    pub fn flush(self) -> (r: FlushOp)
        ensures
            r.port == self,
            r.polls == 0,
    {
        FlushOp { port: self, polls: 0 }
    }

}

/// An in-flight non-blocking write of one byte.
///
/// Polling it asks the transmitter whether it can accept the byte; once it
/// can, the byte is latched into the shift register and the operation
/// completes, unless a line fault is pending, in which case it fails with
/// that fault.
pub struct WriteOp {
    /// The port the byte is written to.
    pub port: SerialPort,
    /// The byte being transmitted.
    pub byte: u8,
    /// Polls made so far.
    pub polls: u64,
}

impl WriteOp {
    /// Hand the port back once the operation has resolved.
    pub fn into_port(self) -> (r: SerialPort)
        ensures
            r == self.port,
    {
        self.port
    }
}

impl NonBlocking for WriteOp {
    type Value = ();

    type Error = SerialError;

    open spec fn pending(&self) -> nat {
        self.port.busy as nat
    }

    open spec fn outcome(&self) -> Result<(), SerialError> {
        match self.port.fault {
            None => Ok(()),
            Some(e) => Err(e),
        }
    }

    open spec fn polled(&self) -> nat {
        self.polls as nat
    }

    fn poll(&mut self) -> (r: Poll<(), SerialError>)
        ensures
            final(self).byte == old(self).byte,
            final(self).port.fault == old(self).port.fault,
            old(self).port.busy > 0 ==> final(self).port.sent == old(self).port.sent,
            (old(self).port.busy == 0 && old(self).port.fault is None)
                ==> final(self).port.sent@ == old(self).port.sent@.push(old(self).byte),
            (old(self).port.busy == 0 && old(self).port.fault is Some)
                ==> final(self).port.sent == old(self).port.sent,
    {
        self.polls = self.polls + 1;
        if self.port.busy > 0 {
            self.port.busy = self.port.busy - 1;
            Poll::NotReady
        } else {
            match self.port.fault {
                None => {
                    self.port.sent.push(self.byte);
                    Poll::Ready(())
                },
                Some(e) => Poll::Fatal(e),
            }
        }
    }
}

/// An in-flight non-blocking flush: completes once the transmitter has
/// drained everything it accepted, fails fatally on a pending line fault.
pub struct FlushOp {
    /// The port being flushed.
    pub port: SerialPort,
    /// Polls made so far.
    pub polls: u64,
}

impl FlushOp {
    /// Hand the port back once the operation has resolved.
    pub fn into_port(self) -> (r: SerialPort)
        ensures
            r == self.port,
    {
        self.port
    }
}

impl NonBlocking for FlushOp {
    type Value = ();

    type Error = SerialError;

    open spec fn pending(&self) -> nat {
        self.port.busy as nat
    }

    open spec fn outcome(&self) -> Result<(), SerialError> {
        match self.port.fault {
            None => Ok(()),
            Some(e) => Err(e),
        }
    }

    open spec fn polled(&self) -> nat {
        self.polls as nat
    }

    fn poll(&mut self) -> (r: Poll<(), SerialError>)
        ensures
            final(self).port.fault == old(self).port.fault,
            final(self).port.sent == old(self).port.sent,
    {
        self.polls = self.polls + 1;
        if self.port.busy > 0 {
            self.port.busy = self.port.busy - 1;
            Poll::NotReady
        } else {
            match self.port.fault {
                None => Poll::Ready(()),
                Some(e) => Poll::Fatal(e),
            }
        }
    }
}

} // verus!
