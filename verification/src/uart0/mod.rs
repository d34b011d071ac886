//! The PL011, the fully featured UART.

use vstd::prelude::*;
use vstd::slice::slice_to_vec;
use crate::bus::{sequence_makes_its_writes, Sequence, SequenceState};
use crate::errors::{UartError, UartErrorType};
use crate::gpio::{PinLease, Pins};
use crate::lifecycle::{InitializationFailure, Lifecycle};
use crate::register::RegisterOp;
use crate::transfer::{Receive, ReceiveState, Transmit, TransmitState};
use crate::InterruptType;

pub mod interface;

verus! {

/// The handle of the PL011.
pub struct Uart0 {
    state: Lifecycle,
}

impl View for Uart0 {
    type V = Lifecycle;

    closed spec fn view(&self) -> Lifecycle {
        self.state
    }
}

impl Uart0 {
    /// A handle of the PL011 that is not initialized.
    pub fn new() -> (uart: Self)
        ensures
            uart@ == Lifecycle::fresh(),
    {
        Uart0 { state: Lifecycle::new() }
    }

    /// Whether the PL011 has been initialized.
    pub fn is_initialized(&self) -> (initialized: bool)
        ensures
            initialized == self@.initialized,
    {
        self.state.initialized
    }

    /// The two lines of the PL011, which are to be asked for before `initialize`.
    pub fn pins() -> (lines: Pins)
        ensures
            lines == interface::pins(),
    {
        interface::release()
    }

    /// The lines that the handle holds: both once it is initialized, none before.
    pub fn lease(&self) -> (lease: PinLease)
        ensures
            lease == self@.lease(),
    {
        self.state.lease()
    }

    /// Initializes the PL011 for the clock rate and the baud rate, both in Hz, and hands out
    /// the writes that configure it.
    ///
    /// `granted` says which of the two lines of the PL011 the GPIO have granted for this
    /// call. The initialization goes on if the handle holds its lines already or both are
    /// granted now, and if both rates are positive. Otherwise it fails with
    /// `InitializationFailed`, asks for no write, leaves the handle as it was, and hands
    /// back the lines that were granted, to be given back to the GPIO. A handle that is
    /// initialized already is configured anew.
    pub fn initialize(&mut self, granted: PinLease, clock_rate: u32, baud_rate: u32) -> (result:
        Result<Sequence, InitializationFailure>)
        ensures
            final(self)@ == old(self)@.initialize_spec(
                granted,
                interface::rates_valid(clock_rate, baud_rate),
            ),
            match result {
                Ok(sequence) => {
                    &&& old(self)@.can_initialize(
                        granted,
                        interface::rates_valid(clock_rate, baud_rate),
                    )
                    &&& final(self)@.initialized
                    &&& sequence@ == SequenceState::start(
                        interface::init_ops(clock_rate, baud_rate),
                    )
                    &&& sequence@.valid()
                },
                Err(failure) => {
                    &&& !old(self)@.can_initialize(
                        granted,
                        interface::rates_valid(clock_rate, baud_rate),
                    )
                    &&& final(self)@ == old(self)@
                    &&& failure.error@ == UartErrorType::InitializationFailed
                    &&& failure.lines == old(self)@.refused(granted)
                },
            },
    {
        match interface::init(clock_rate, baud_rate) {
            Ok(ops) => {
                if self.state.initialize(granted, true) {
                    Ok(Sequence::new(ops))
                } else {
                    Err(
                        InitializationFailure {
                            error: UartError::new(UartErrorType::InitializationFailed),
                            lines: self.state.refused(granted),
                        },
                    )
                }
            },
            Err(error) => Err(InitializationFailure { error, lines: self.state.refused(granted) }),
        }
    }

    /// Hands out the work of sending `data`, or fails with `UartNotInitialized`.
    pub fn send_data(&self, data: &[u8]) -> (result: Result<Transmit, UartError>)
        ensures
            match result {
                Ok(transmit) => {
                    &&& self@.initialized
                    &&& transmit@ == TransmitState::start(
                        interface::transmitter_ready(),
                        interface::UART0_DR,
                        data@,
                    )
                    &&& transmit@.valid()
                },
                Err(error) => !self@.initialized && error@ == UartErrorType::UartNotInitialized,
            },
    {
        if self.state.initialized {
            Ok(interface::transmit(slice_to_vec(data)))
        } else {
            Err(UartError::new(UartErrorType::UartNotInitialized))
        }
    }

    /// Hands out the work of receiving `size` bytes. Fails with `UartNotInitialized` on a
    /// handle that is not initialized, and with `ReceiveBufferEmpty` if `size` is 0.
    pub fn receive_data(&self, size: usize) -> (result: Result<Receive, UartError>)
        ensures
            match result {
                Ok(receive) => {
                    &&& self@.initialized
                    &&& size > 0
                    &&& receive@ == ReceiveState::start(
                        interface::byte_arrived(),
                        interface::UART0_DR,
                        size as int,
                    )
                    &&& receive@.valid()
                },
                Err(error) => {
                    &&& !self@.initialized || size == 0
                    &&& error@ == if !self@.initialized {
                        UartErrorType::UartNotInitialized
                    } else {
                        UartErrorType::ReceiveBufferEmpty
                    }
                },
            },
    {
        if self.state.initialized {
            if size == 0 {
                Err(UartError::new(UartErrorType::ReceiveBufferEmpty))
            } else {
                Ok(interface::receive(size))
            }
        } else {
            Err(UartError::new(UartErrorType::UartNotInitialized))
        }
    }

    /// Hands out the write `op`, or no write while the handle is not initialized.
    fn write(&self, op: RegisterOp) -> (sequence: Sequence)
        ensures
            sequence@ == SequenceState::start(self@.writable(op)),
            sequence@.valid(),
    {
        let mut ops: Vec<RegisterOp> = Vec::new();
        if self.state.initialized {
            ops.push(op);
        }
        assert(ops@ =~= self@.writable(op));
        Sequence::new(ops)
    }

    /// Hands out the write that lets the interrupts `i_type` through and leaves the others
    /// as they are. A handle that is not initialized writes nothing.
    pub fn enable_interrupts(&self, i_type: InterruptType) -> (sequence: Sequence)
        ensures
            sequence@ == SequenceState::start(self@.writable(interface::enable_op(i_type))),
            sequence@.valid(),
    {
        self.write(interface::enable_interrupts(i_type))
    }

    /// Hands out the write that masks the interrupts `i_type` and leaves the others as they
    /// are. A handle that is not initialized writes nothing.
    pub fn disable_interrupts(&self, i_type: InterruptType) -> (sequence: Sequence)
        ensures
            sequence@ == SequenceState::start(self@.writable(interface::disable_op(i_type))),
            sequence@.valid(),
    {
        self.write(interface::disable_interrupts(i_type))
    }

    /// Registers `function` as the callback for the interrupts of the PL011, in place of
    /// the one in `handler`, which is handed back.
    pub fn register_irq_handler<F>(&self, handler: &mut Option<F>, function: F) -> (displaced:
        Option<F>)
        ensures
            *final(handler) == Some(function),
            displaced == *old(handler),
    {
        interface::set_irq_handler(handler, function)
    }

    /// Releases the PL011 and says which of its lines are to be given back: both, if the
    /// handle was initialized. A handle that never was, or has been released before, holds
    /// none and has none to give back.
    pub fn release(&mut self) -> (held: PinLease)
        ensures
            final(self)@ == old(self)@.release_spec(),
            held == old(self)@.lease(),
    {
        self.state.release()
    }
}

/// Initializing twice in a row leaves the handle ready and the registers as initializing
/// once does, if the registers hold what was last written to them.
pub proof fn initialize_twice_as_once(
    state: Lifecycle,
    granted: PinLease,
    clock_rate: u32,
    baud_rate: u32,
    registers: Map<u32, u32>,
)
    requires
        state.can_initialize(granted, interface::rates_valid(clock_rate, baud_rate)),
    ensures
        state.initialize_spec(granted, true).initialized,
        state.initialize_spec(granted, true).can_initialize(PinLease::none(), true),
        state.initialize_spec(granted, true).initialize_spec(PinLease::none(), true)
            == state.initialize_spec(granted, true),
        SequenceState::start(interface::init_ops(clock_rate, baud_rate)).run_on(
            SequenceState::start(interface::init_ops(clock_rate, baud_rate)).run_on(registers, 0),
            0,
        ) == SequenceState::start(interface::init_ops(clock_rate, baud_rate)).run_on(
            registers,
            0,
        ),
{
    let work = SequenceState::start(interface::init_ops(clock_rate, baud_rate));
    let once = work.run_on(registers, 0);
    sequence_makes_its_writes(work, registers, 0);
    sequence_makes_its_writes(work, once, 0);
    interface::init_twice_as_once(clock_rate, baud_rate, registers);
}

} // verus!
