//! The miniUART, the lightweight UART of the auxiliary peripherals.

use vstd::prelude::*;
use vstd::string::StringSliceAdditionalSpecFns;
use crate::bus::{sequence_makes_its_writes, Action, Answer, Probe, Sequence, SequenceState};
use crate::errors::{UartError, UartErrorType};
use crate::gpio::{PinLease, Pins};
use crate::interrupt::Handlers;
use crate::lifecycle::{InitializationFailure, Lifecycle};
use crate::register::RegisterOp;
use crate::transfer::{Receive, ReceiveState, Transmit, TransmitState};
use crate::InterruptType;

pub mod interface;

verus! {

/// Pauses of 1000 cycles that `try_receive_data` waits for one byte at most.
pub const RECEIVE_BUDGET: u32 = 1000;

/// The character that stands for the value `nibble` of four bits: `0` to `9`, then `A` to
/// `F`.
pub open spec fn hex_digit(nibble: int) -> u8 {
    if nibble < 10 {
        (48 + nibble) as u8
    } else {
        (55 + nibble) as u8
    }
}

/// The digits of `value` to the base 16, the highest first, without leading zeros.
pub open spec fn hex_digits(value: nat) -> Seq<u8>
    decreases value,
{
    if value < 16 {
        seq![hex_digit(value as int)]
    } else {
        hex_digits(value / 16).push(hex_digit((value % 16) as int))
    }
}

/// The text of `value` to the base 16: `0x` and the digits.
pub open spec fn hex_text(value: u64) -> Seq<u8> {
    seq![48u8, 120u8] + hex_digits(value as nat)
}

fn hex_digit_of(nibble: u64) -> (digit: u8)
    requires
        nibble < 16,
    ensures
        digit == hex_digit(nibble as int),
{
    if nibble < 10 {
        48 + nibble as u8
    } else {
        55 + nibble as u8
    }
}

/// The text of `value` to the base 16.
pub fn hex_bytes(value: u64) -> (text: Vec<u8>)
    ensures
        text@ == hex_text(value),
{
    let mut text: Vec<u8> = Vec::new();
    text.push(hex_digit_of(value % 16));
    let mut tmp: u64 = value / 16;
    assert(text@ =~= seq![hex_digit((value % 16) as int)]);
    while tmp != 0
        invariant
            hex_digits(value as nat) == if tmp > 0 {
                hex_digits(tmp as nat) + text@
            } else {
                text@
            },
        decreases tmp,
    {
        let ghost before = text@;
        text.insert(0, hex_digit_of(tmp % 16));
        assert(text@ =~= seq![hex_digit((tmp % 16) as int)] + before);
        assert(hex_digits(tmp as nat) + before =~= if tmp / 16 > 0 {
            hex_digits((tmp / 16) as nat) + text@
        } else {
            text@
        });
        tmp = tmp / 16;
    }
    let ghost digits = text@;
    text.insert(0, 120);
    text.insert(0, 48);
    assert(text@ =~= seq![48u8, 120u8] + digits);
    text
}

/// The digits of a number are the characters `0` to `9` and `A` to `F`; there is at least
/// one, and the first is `0` for the number 0 only.
pub proof fn hex_digits_are_plain(value: nat)
    ensures
        hex_digits(value).len() >= 1,
        hex_digits(value)[0] == 48u8 <==> value == 0,
        forall|i: int|
            0 <= i < hex_digits(value).len() ==> {
                let digit = #[trigger] hex_digits(value)[i];
                48 <= digit <= 57 || 65 <= digit <= 70
            },
    decreases value,
{
    if value >= 16 {
        hex_digits_are_plain(value / 16);
    }
}

/// The handle of the miniUART.
pub struct Uart1 {
    state: Lifecycle,
}

impl View for Uart1 {
    type V = Lifecycle;

    closed spec fn view(&self) -> Lifecycle {
        self.state
    }
}

impl Uart1 {
    /// A handle of the miniUART that is not initialized.
    pub fn new() -> (uart: Self)
        ensures
            uart@ == Lifecycle::fresh(),
    {
        Uart1 { state: Lifecycle::new() }
    }

    /// Whether the miniUART has been initialized.
    pub fn is_initialized(&self) -> (initialized: bool)
        ensures
            initialized == self@.initialized,
    {
        self.state.initialized
    }

    /// The two lines of the miniUART, which are to be asked for before `initialize`.
    pub fn pins() -> (lines: Pins)
        ensures
            lines == interface::uart1_pins(),
    {
        interface::uart1_release()
    }

    /// The lines that the handle holds: both once it is initialized, none before.
    pub fn lease(&self) -> (lease: PinLease)
        ensures
            lease == self@.lease(),
    {
        self.state.lease()
    }

    /// Initializes the miniUART for the clock rate and the baud rate, both in Hz, and hands out
    /// the writes that configure it.
    ///
    /// `granted` says which of the two lines of the miniUART the GPIO have granted for this
    /// call. The initialization goes on if the handle holds its lines already or both are
    /// granted now, and if the rates admit a divisor. Otherwise it fails with
    /// `InitializationFailed`, asks for no write, leaves the handle as it was, and hands
    /// back the lines that were granted, to be given back to the GPIO. A handle that is
    /// initialized already is configured anew.
    pub fn initialize(&mut self, granted: PinLease, clock_rate: u32, baud_rate: u32) -> (result:
        Result<Sequence, InitializationFailure>)
        ensures
            final(self)@ == old(self)@.initialize_spec(
                granted,
                interface::rates_valid(clock_rate, baud_rate),
            ),
            match result {
                Ok(sequence) => {
                    &&& old(self)@.can_initialize(
                        granted,
                        interface::rates_valid(clock_rate, baud_rate),
                    )
                    &&& final(self)@.initialized
                    &&& sequence@ == SequenceState::start(
                        interface::init_ops(clock_rate, baud_rate),
                    )
                    &&& sequence@.valid()
                },
                Err(failure) => {
                    &&& !old(self)@.can_initialize(
                        granted,
                        interface::rates_valid(clock_rate, baud_rate),
                    )
                    &&& final(self)@ == old(self)@
                    &&& failure.error@ == UartErrorType::InitializationFailed
                    &&& failure.lines == old(self)@.refused(granted)
                },
            },
    {
        match interface::uart1_init(clock_rate, baud_rate) {
            Ok(ops) => {
                if self.state.initialize(granted, true) {
                    Ok(Sequence::new(ops))
                } else {
                    Err(
                        InitializationFailure {
                            error: UartError::new(UartErrorType::InitializationFailed),
                            lines: self.state.refused(granted),
                        },
                    )
                }
            },
            Err(error) => Err(InitializationFailure { error, lines: self.state.refused(granted) }),
        }
    }

    /// Hands out the work of sending `bytes`, or of sending nothing while the handle is
    /// not initialized.
    fn send(&self, bytes: Vec<u8>) -> (transmit: Transmit)
        ensures
            transmit@ == TransmitState::start(
                interface::transmitter_ready(),
                interface::AUX_MU_IO_REG,
                self@.sendable(bytes@),
            ),
            transmit@.valid(),
    {
        if self.state.initialized {
            interface::uart1_transmit(bytes)
        } else {
            interface::uart1_transmit(Vec::new())
        }
    }

    /// Hands out the work of sending the character `c`, cut to its lowest eight bits. A
    /// handle that is not initialized sends nothing.
    pub fn send_char(&self, c: char) -> (transmit: Transmit)
        ensures
            transmit@ == TransmitState::start(
                interface::transmitter_ready(),
                interface::AUX_MU_IO_REG,
                self@.sendable(seq![c as u8]),
            ),
            transmit@.valid(),
    {
        if self.state.initialized {
            interface::uart1_send_char(c)
        } else {
            interface::uart1_transmit(Vec::new())
        }
    }

    /// Hands out the work of sending the bytes of the text `s`. A handle that is not
    /// initialized sends nothing.
    pub fn send_string(&self, s: &str) -> (transmit: Transmit)
        ensures
            transmit@ == TransmitState::start(
                interface::transmitter_ready(),
                interface::AUX_MU_IO_REG,
                self@.sendable(s.spec_bytes()),
            ),
            transmit@.valid(),
    {
        if self.state.initialized {
            interface::uart1_send_string(s)
        } else {
            interface::uart1_transmit(Vec::new())
        }
    }

    /// Hands out the work of sending the bytes `d`. A handle that is not initialized sends
    /// nothing.
    pub fn send_data(&self, d: &[u8]) -> (transmit: Transmit)
        ensures
            transmit@ == TransmitState::start(
                interface::transmitter_ready(),
                interface::AUX_MU_IO_REG,
                self@.sendable(d@),
            ),
            transmit@.valid(),
    {
        if self.state.initialized {
            interface::uart1_send_data(d)
        } else {
            interface::uart1_transmit(Vec::new())
        }
    }

    /// Hands out the work of sending `value` as text to the base 16: `0x`, then the digits
    /// in upper case, the highest first, without leading zeros. A handle that is not
    /// initialized sends nothing.
    pub fn send_hex(&self, value: u64) -> (transmit: Transmit)
        ensures
            transmit@ == TransmitState::start(
                interface::transmitter_ready(),
                interface::AUX_MU_IO_REG,
                self@.sendable(hex_text(value)),
            ),
            transmit@.valid(),
    {
        self.send(hex_bytes(value))
    }

    /// Hands out the work of receiving `size` bytes, with at most `budget` pauses for each.
    fn receive(&self, size: usize, budget: u32) -> (result: Result<Receive, UartError>)
        ensures
            match result {
                Ok(receive) => {
                    &&& self@.initialized
                    &&& size > 0
                    &&& receive@ == ReceiveState::start(
                        interface::byte_arrived(budget),
                        interface::AUX_MU_IO_REG,
                        size as int,
                    )
                    &&& receive@.valid()
                },
                Err(error) => {
                    &&& !self@.initialized || size == 0
                    &&& error@ == if !self@.initialized {
                        UartErrorType::UartNotInitialized
                    } else {
                        UartErrorType::ReceiveBufferEmpty
                    }
                },
            },
    {
        if self.state.initialized {
            if size == 0 {
                Err(UartError::new(UartErrorType::ReceiveBufferEmpty))
            } else {
                Ok(interface::uart1_receive(size, budget))
            }
        } else {
            Err(UartError::new(UartErrorType::UartNotInitialized))
        }
    }

    /// Hands out the work of receiving `size` bytes, which gives up with
    /// `ReceiveDataTimeOut` when a byte has not arrived after 1000 pauses of 1000 cycles.
    /// Fails with `UartNotInitialized` on a handle that is not initialized, and with
    /// `ReceiveBufferEmpty` if `size` is 0.
    pub fn try_receive_data(&self, size: usize) -> (result: Result<Receive, UartError>)
        ensures
            match result {
                Ok(receive) => {
                    &&& self@.initialized
                    &&& size > 0
                    &&& receive@ == ReceiveState::start(
                        interface::byte_arrived(RECEIVE_BUDGET),
                        interface::AUX_MU_IO_REG,
                        size as int,
                    )
                    &&& receive@.valid()
                    &&& receive@.wait.bounded()
                },
                Err(error) => {
                    &&& !self@.initialized || size == 0
                    &&& error@ == if !self@.initialized {
                        UartErrorType::UartNotInitialized
                    } else {
                        UartErrorType::ReceiveBufferEmpty
                    }
                },
            },
    {
        self.receive(size, RECEIVE_BUDGET)
    }

    /// Hands out the work of receiving `size` bytes, which waits for each byte as long as it
    /// takes. Fails with `UartNotInitialized` on a handle that is not initialized, and with
    /// `ReceiveBufferEmpty` if `size` is 0.
    pub fn receive_data(&self, size: usize) -> (result: Result<Receive, UartError>)
        ensures
            match result {
                Ok(receive) => {
                    &&& self@.initialized
                    &&& size > 0
                    &&& receive@ == ReceiveState::start(
                        interface::byte_arrived(0),
                        interface::AUX_MU_IO_REG,
                        size as int,
                    )
                    &&& receive@.valid()
                },
                Err(error) => {
                    &&& !self@.initialized || size == 0
                    &&& error@ == if !self@.initialized {
                        UartErrorType::UartNotInitialized
                    } else {
                        UartErrorType::ReceiveBufferEmpty
                    }
                },
            },
    {
        self.receive(size, 0)
    }

    /// Hands out the write `op`, or no write while the handle is not initialized.
    fn write(&self, op: RegisterOp) -> (sequence: Sequence)
        ensures
            sequence@ == SequenceState::start(self@.writable(op)),
            sequence@.valid(),
    {
        let mut ops: Vec<RegisterOp> = Vec::new();
        if self.state.initialized {
            ops.push(op);
        }
        assert(ops@ =~= self@.writable(op));
        Sequence::new(ops)
    }

    /// Hands out the write that enables the interrupts `i_type` and leaves the others as
    /// they are. A handle that is not initialized writes nothing.
    pub fn enable_interrupts(&self, i_type: InterruptType) -> (sequence: Sequence)
        ensures
            sequence@ == SequenceState::start(self@.writable(interface::enable_op(i_type))),
            sequence@.valid(),
    {
        self.write(interface::uart1_enable_interrupts(i_type))
    }

    /// Hands out the write that disables the interrupts `i_type` and leaves the others as
    /// they are. A handle that is not initialized writes nothing.
    pub fn disable_interrupts(&self, i_type: InterruptType) -> (sequence: Sequence)
        ensures
            sequence@ == SequenceState::start(self@.writable(interface::disable_op(i_type))),
            sequence@.valid(),
    {
        self.write(interface::uart1_disable_interrupts(i_type))
    }

    /// Hands out the look at the interrupt identify register, whose content
    /// `interface::uart1_get_interrupt_status` turns into the interrupt status. A handle
    /// that is not initialized looks at nothing and finds the content 0.
    pub fn get_interrupt_status(&self) -> (probe: Probe)
        ensures
            probe == if self@.initialized {
                Probe::start(interface::AUX_MU_IIR_REG, Answer::Keep)
            } else {
                Probe::idle()
            },
    {
        if self.state.initialized {
            Probe::new(interface::AUX_MU_IIR_REG, Answer::Keep)
        } else {
            Probe::idle()
        }
    }

    /// Whether the registration of a callback for `irq_type` calls for the interrupt line of
    /// the auxiliary peripherals to be activated: it does wherever a callback is registered.
    pub fn activates_interrupt_line(irq_type: InterruptType) -> (activate: bool)
        ensures
            activate == (irq_type != InterruptType::ReceiveTransmit),
    {
        match irq_type {
            InterruptType::ReceiveTransmit => false,
            _ => true,
        }
    }

    /// Registers `function` as the callback for the interrupt `irq_type` and hands out the
    /// write that enables that interrupt, together with the callback that was displaced.
    ///
    /// For both directions at once nothing is registered, nothing is enabled and `function`
    /// is handed back. A handle that is not initialized registers the callback and writes
    /// nothing.
    pub fn register_interrupt_handler<F>(
        &mut self,
        handlers: &mut Handlers<F>,
        irq_type: InterruptType,
        function: F,
    ) -> (result: (Sequence, Option<F>))
        ensures
            final(self)@ == old(self)@,
            match irq_type {
                InterruptType::Receive => {
                    &&& final(handlers).receive() == Some(function)
                    &&& final(handlers).transmit() == old(handlers).transmit()
                    &&& result.1 == old(handlers).receive()
                },
                InterruptType::Transmit => {
                    &&& final(handlers).receive() == old(handlers).receive()
                    &&& final(handlers).transmit() == Some(function)
                    &&& result.1 == old(handlers).transmit()
                },
                InterruptType::ReceiveTransmit => {
                    &&& final(handlers).receive() == old(handlers).receive()
                    &&& final(handlers).transmit() == old(handlers).transmit()
                    &&& result.1 == Some(function)
                },
            },
            result.0@ == SequenceState::start(
                if irq_type == InterruptType::ReceiveTransmit {
                    Seq::empty()
                } else {
                    old(self)@.writable(interface::enable_op(irq_type))
                },
            ),
            result.0@.valid(),
    {
        let displaced = handlers.register(irq_type, function);
        match irq_type {
            InterruptType::ReceiveTransmit => (Sequence::empty(), displaced),
            _ => (self.enable_interrupts(irq_type), displaced),
        }
    }

    /// Releases the miniUART and says which of its lines are to be given back: both, if the
    /// handle was initialized. A handle that never was, or has been released before, holds
    /// none and has none to give back.
    pub fn release(&mut self) -> (held: PinLease)
        ensures
            final(self)@ == old(self)@.release_spec(),
            held == old(self)@.lease(),
    {
        self.state.release()
    }
}

/// Initializing twice in a row leaves the handle ready and the registers as initializing
/// once does, if the registers hold what was last written to them.
pub proof fn initialize_twice_as_once(
    state: Lifecycle,
    granted: PinLease,
    clock_rate: u32,
    baud_rate: u32,
    registers: Map<u32, u32>,
)
    requires
        state.can_initialize(granted, interface::rates_valid(clock_rate, baud_rate)),
    ensures
        state.initialize_spec(granted, true).initialized,
        state.initialize_spec(granted, true).can_initialize(PinLease::none(), true),
        state.initialize_spec(granted, true).initialize_spec(PinLease::none(), true)
            == state.initialize_spec(granted, true),
        SequenceState::start(interface::init_ops(clock_rate, baud_rate)).run_on(
            SequenceState::start(interface::init_ops(clock_rate, baud_rate)).run_on(registers, 0),
            0,
        ) == SequenceState::start(interface::init_ops(clock_rate, baud_rate)).run_on(
            registers,
            0,
        ),
{
    let work = SequenceState::start(interface::init_ops(clock_rate, baud_rate));
    let once = work.run_on(registers, 0);
    sequence_makes_its_writes(work, registers, 0);
    sequence_makes_its_writes(work, once, 0);
    interface::init_twice_as_once(clock_rate, baud_rate, registers);
}

/// What a handle that is not initialized hands out asks for no register: the first step of
/// each piece of work says that nothing is left to do.
pub proof fn uninitialized_touches_no_register(
    state: Lifecycle,
    bytes: Seq<u8>,
    op: RegisterOp,
    input: u32,
)
    requires
        !state.initialized,
    ensures
        TransmitState::start(
            interface::transmitter_ready(),
            interface::AUX_MU_IO_REG,
            state.sendable(bytes),
        ).step(input).1 == Action::Finished,
        SequenceState::start(state.writable(op)).step(input).1 == Action::Finished,
        Probe::idle().step_spec(input).1 == Action::Finished,
{
}

} // verus!
