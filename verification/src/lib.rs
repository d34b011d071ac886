//! Drivers for the two UART peripherals of the Raspberry Pi: the PL011 ("Uart0") and the
//! miniUART ("Uart1").
//!
//! The drivers decide what is written to which register and when; they touch no hardware.
//! Each operation hands out a piece of work (see [`bus`]) that says, step by step, which
//! register to read or write next.

use vstd::prelude::*;

pub mod bus;
pub mod errors;
pub mod gpio;
pub mod interrupt;
pub mod lifecycle;
pub mod register;
pub mod transfer;
pub mod uart0;
pub mod uart1;

pub use uart0::Uart0;
pub use uart1::Uart1;

verus! {

/// The interrupts that a UART can raise.
#[derive(Clone, Copy, Debug, PartialEq, Eq, Structural)]
pub enum InterruptType {
    /// A byte has arrived.
    Receive,
    /// The transmitter takes another byte.
    Transmit,
    /// Both of them.
    ReceiveTransmit,
}

} // verus!
