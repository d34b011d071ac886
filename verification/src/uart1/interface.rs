//! The registers of the miniUART and what is written to them.

use vstd::prelude::*;
use vstd::arithmetic::div_mod::lemma_hoist_over_denominator;
use vstd::slice::slice_to_vec;
use vstd::string::StringSliceAdditionalSpecFns;
use crate::bus::{Action, Answer, Probe};
use crate::interrupt::Handlers;
use crate::errors::{UartError, UartErrorType};
use crate::gpio::Pins;
use crate::register::{
    apply_all, apply_from, merge_sets_or_clears, FieldValue, RegisterField, RegisterOp,
    PERIPHERAL_BASE,
};
use crate::transfer::{Receive, ReceiveState, Transmit, TransmitState, Wait};
use crate::InterruptType;

verus! {

/// Start of the auxiliary peripherals' registers.
pub const AUX_BASE: u32 = PERIPHERAL_BASE + 0x0021_5000;

/// Pending interrupts of the auxiliary peripherals.
pub const AUX_IRQ: u32 = AUX_BASE;

/// Enable bits of the auxiliary peripherals.
pub const AUX_ENABLES: u32 = AUX_BASE + 0x04;

/// Data register.
pub const AUX_MU_IO_REG: u32 = AUX_BASE + 0x40;

/// Interrupt enable register.
pub const AUX_MU_IER_REG: u32 = AUX_BASE + 0x44;

/// Interrupt identify register; written, it clears the FIFOs.
pub const AUX_MU_IIR_REG: u32 = AUX_BASE + 0x48;

/// Line control register.
pub const AUX_MU_LCR_REG: u32 = AUX_BASE + 0x4C;

/// Modem control register.
pub const AUX_MU_MCR_REG: u32 = AUX_BASE + 0x50;

/// Line status register.
pub const AUX_MU_LSR_REG: u32 = AUX_BASE + 0x54;

/// Modem status register.
pub const AUX_MU_MSR_REG: u32 = AUX_BASE + 0x58;

/// Control register.
pub const AUX_MU_CNTL_REG: u32 = AUX_BASE + 0x60;

/// Status register.
pub const AUX_MU_STAT_REG: u32 = AUX_BASE + 0x64;

/// Baud rate divisor.
pub const AUX_MU_BAUD_REG: u32 = AUX_BASE + 0x68;

/// Enables: the miniUART. The register is shared with the two SPI masters.
#[verifier::allow_in_spec]
pub fn enables_miniuart() -> RegisterField
    returns
        RegisterField::bit(AUX_ENABLES, 0),
{
    RegisterField::bit(AUX_ENABLES, 0)
}

/// Interrupt enable: a byte has arrived.
#[verifier::allow_in_spec]
pub fn ier_rx_enable() -> RegisterField
    returns
        RegisterField::bit(AUX_MU_IER_REG, 0),
{
    RegisterField::bit(AUX_MU_IER_REG, 0)
}

/// Interrupt enable: the transmitter is empty.
#[verifier::allow_in_spec]
pub fn ier_tx_enable() -> RegisterField
    returns
        RegisterField::bit(AUX_MU_IER_REG, 1),
{
    RegisterField::bit(AUX_MU_IER_REG, 1)
}

/// Interrupt enable: both bits must be set for any interrupt to come through.
#[verifier::allow_in_spec]
pub fn ier_rcv_irq() -> RegisterField
    returns
        RegisterField::bits(AUX_MU_IER_REG, 2, 2),
{
    RegisterField::bits(AUX_MU_IER_REG, 2, 2)
}

/// Interrupt identify: 0 while an interrupt is pending.
#[verifier::allow_in_spec]
pub fn iir_irqpending() -> RegisterField
    returns
        RegisterField::bit(AUX_MU_IIR_REG, 0),
{
    RegisterField::bit(AUX_MU_IIR_REG, 0)
}

/// Interrupt identify: read, which interrupt is pending; written, which FIFOs to clear.
#[verifier::allow_in_spec]
pub fn iir_irqid_fifoclr() -> RegisterField
    returns
        RegisterField::bits(AUX_MU_IIR_REG, 1, 2),
{
    RegisterField::bits(AUX_MU_IIR_REG, 1, 2)
}

/// Interrupt identify: the FIFOs are enabled.
#[verifier::allow_in_spec]
pub fn iir_fifo_enables() -> RegisterField
    returns
        RegisterField::bits(AUX_MU_IIR_REG, 6, 2),
{
    RegisterField::bits(AUX_MU_IIR_REG, 6, 2)
}

/// Line control: word length, 3 for 8 bits.
#[verifier::allow_in_spec]
pub fn lcr_datasize() -> RegisterField
    returns
        RegisterField::bits(AUX_MU_LCR_REG, 0, 2),
{
    RegisterField::bits(AUX_MU_LCR_REG, 0, 2)
}

/// Line status: a byte has arrived.
#[verifier::allow_in_spec]
pub fn lsr_dataready() -> RegisterField
    returns
        RegisterField::bit(AUX_MU_LSR_REG, 0).read_only(),
{
    RegisterField::bit(AUX_MU_LSR_REG, 0).read_only()
}

/// Line status: the transmitter takes another byte.
#[verifier::allow_in_spec]
pub fn lsr_transempty() -> RegisterField
    returns
        RegisterField::bit(AUX_MU_LSR_REG, 5).read_only(),
{
    RegisterField::bit(AUX_MU_LSR_REG, 5).read_only()
}

/// Control: the receiver is enabled.
#[verifier::allow_in_spec]
pub fn cntl_rcv_enable() -> RegisterField
    returns
        RegisterField::bit(AUX_MU_CNTL_REG, 0),
{
    RegisterField::bit(AUX_MU_CNTL_REG, 0)
}

/// Control: the transmitter is enabled.
#[verifier::allow_in_spec]
pub fn cntl_trans_enable() -> RegisterField
    returns
        RegisterField::bit(AUX_MU_CNTL_REG, 1),
{
    RegisterField::bit(AUX_MU_CNTL_REG, 1)
}

/// The first GPIO line of the miniUART.
pub const UART1_TX_PIN: u32 = 14;

/// The second GPIO line of the miniUART.
pub const UART1_RX_PIN: u32 = 15;

/// The alternate function that connects the two lines to the miniUART.
pub const UART1_PIN_FUNCTION: u32 = 5;

/// Cycles to pause between two looks at the line status while sending.
pub const UART1_SEND_PAUSE: u32 = 10;

/// Cycles to pause between two looks at the line status while receiving.
pub const UART1_RECEIVE_PAUSE: u32 = 1000;

/// A clock rate and a baud rate admit a divisor if the clock makes at least eight ticks in a
/// baud period.
pub open spec fn rates_valid(clock_rate: u32, baud_rate: u32) -> bool {
    baud_rate > 0 && clock_rate >= 8 * baud_rate
}

/// The divisor that brings the clock down to eight ticks in a baud period.
pub open spec fn baud_divisor(clock_rate: int, baud_rate: int) -> int {
    clock_rate / (8 * baud_rate) - 1
}

/// Ticks of the clock that are left over when it is cut into baud periods of eight ticks for
/// each step of the divisor.
pub open spec fn ticks_left_over(clock_rate: int, baud_rate: int) -> int {
    clock_rate % (8 * baud_rate)
}

/// The baud rate that the miniUART runs at with the given divisor.
pub open spec fn baud_of(clock_rate: int, divisor: int) -> int {
    clock_rate / (8 * (divisor + 1))
}

/// The writes that bring the miniUART from any state to 8 bits per word with cleared FIFOs,
/// at the given rates, with transmitter and receiver enabled.
///
/// The miniUART is switched on among the auxiliary peripherals, without a change to the
/// others. Its interrupts, transmitter and receiver are disabled before anything is
/// configured, and transmitter and receiver are enabled by the last write. The interrupt
/// enable register is cleared once more after the line control register has been written:
/// before that write, the divisor latch may stand in its place.
pub open spec fn init_ops(clock_rate: u32, baud_rate: u32) -> Seq<RegisterOp> {
    seq![
        RegisterOp::Merge { address: AUX_ENABLES, fields: FieldValue { mask: 1, bits: 1 } },
        RegisterOp::Store { address: AUX_MU_IER_REG, value: 0 },
        RegisterOp::Store { address: AUX_MU_CNTL_REG, value: 0 },
        RegisterOp::Store { address: AUX_MU_LCR_REG, value: 3 },
        RegisterOp::Store { address: AUX_MU_MCR_REG, value: 0 },
        RegisterOp::Store { address: AUX_MU_IER_REG, value: 0 },
        RegisterOp::Store { address: AUX_MU_IIR_REG, value: 0xC6 },
        RegisterOp::Store {
            address: AUX_MU_BAUD_REG,
            value: baud_divisor(clock_rate as int, baud_rate as int) as u32,
        },
        RegisterOp::Store { address: AUX_MU_CNTL_REG, value: 3 },
    ]
}

proof fn lemma_divisor(clock_rate: int, baud_rate: int)
    by (nonlinear_arith)
    requires
        0 < baud_rate,
        8 * baud_rate <= clock_rate <= u32::MAX,
    ensures
        1 <= clock_rate / (8 * baud_rate) <= clock_rate,
        0 <= clock_rate % (8 * baud_rate) < 8 * baud_rate,
        clock_rate == (8 * baud_rate) * (clock_rate / (8 * baud_rate)) + clock_rate % (8
            * baud_rate),
{
}

proof fn lemma_values()
    by (bit_vector)
    ensures
        enables_miniuart().value_spec(1).mask == 1,
        enables_miniuart().value_spec(1).bits == 1,
        lcr_datasize().value_spec(3).bits == 3,
        iir_irqid_fifoclr().value_spec(3).or_spec(iir_fifo_enables().value_spec(3)).bits == 0xC6,
        cntl_rcv_enable().value_spec(1).or_spec(cntl_trans_enable().value_spec(1)).bits == 3,
{
}

/// Computes the writes that configure the miniUART for the given rates.
///
/// Fails with `InitializationFailed`, and asks for no write, if the baud rate is zero or the
/// clock makes fewer than eight ticks in a baud period.
pub fn uart1_init(clock_rate: u32, baud_rate: u32) -> (result: Result<Vec<RegisterOp>, UartError>)
    ensures
        match result {
            Ok(ops) => rates_valid(clock_rate, baud_rate) && ops@ == init_ops(
                clock_rate,
                baud_rate,
            ),
            Err(error) => !rates_valid(clock_rate, baud_rate) && error@
                == UartErrorType::InitializationFailed,
        },
{
    if baud_rate == 0 || (clock_rate as u64) < 8 * (baud_rate as u64) {
        return Err(UartError::new(UartErrorType::InitializationFailed));
    }
    proof {
        lemma_divisor(clock_rate as int, baud_rate as int);
        lemma_values();
    }
    let divisor: u64 = clock_rate as u64 / (8 * (baud_rate as u64)) - 1;
    let enable = RegisterOp::field(enables_miniuart(), 1);
    let data_size = lcr_datasize().with_value(3);
    let fifos = iir_irqid_fifoclr().with_value(3).or(iir_fifo_enables().with_value(3));
    let control = cntl_rcv_enable().with_value(1).or(cntl_trans_enable().with_value(1));
    let mut ops: Vec<RegisterOp> = Vec::new();
    ops.push(enable);
    ops.push(RegisterOp::Store { address: AUX_MU_IER_REG, value: 0 });
    ops.push(RegisterOp::Store { address: AUX_MU_CNTL_REG, value: 0 });
    ops.push(RegisterOp::Store { address: AUX_MU_LCR_REG, value: data_size.bits });
    ops.push(RegisterOp::Store { address: AUX_MU_MCR_REG, value: 0 });
    ops.push(RegisterOp::Store { address: AUX_MU_IER_REG, value: 0 });
    ops.push(RegisterOp::Store { address: AUX_MU_IIR_REG, value: fifos.bits });
    ops.push(RegisterOp::Store { address: AUX_MU_BAUD_REG, value: divisor as u32 });
    ops.push(RegisterOp::Store { address: AUX_MU_CNTL_REG, value: control.bits });
    assert(ops@ =~= init_ops(clock_rate, baud_rate));
    Ok(ops)
}

/// The two lines of the miniUART.
pub open spec fn uart1_pins() -> Pins {
    Pins {
        tx: UART1_TX_PIN,
        rx: UART1_RX_PIN,
        function: UART1_PIN_FUNCTION,
        pull_disabled: true,
    }
}

/// The two lines of the miniUART, which are given back when the miniUART is released.
pub fn uart1_release() -> (lines: Pins)
    ensures
        lines == uart1_pins(),
{
    Pins {
        tx: UART1_TX_PIN,
        rx: UART1_RX_PIN,
        function: UART1_PIN_FUNCTION,
        pull_disabled: true,
    }
}

/// The wait for the transmitter to take another byte.
pub open spec fn transmitter_ready() -> Wait {
    Wait::start(lsr_transempty(), 1, UART1_SEND_PAUSE, 0)
}

/// The wait for a byte to arrive, with at most `budget` pauses, or any number if `budget`
/// is 0.
pub open spec fn byte_arrived(budget: u32) -> Wait {
    Wait::start(lsr_dataready(), 1, UART1_RECEIVE_PAUSE, budget)
}

/// The work of sending `bytes` through the miniUART.
pub fn uart1_transmit(bytes: Vec<u8>) -> (transmit: Transmit)
    ensures
        transmit@ == TransmitState::start(transmitter_ready(), AUX_MU_IO_REG, bytes@),
        transmit@.valid(),
{
    Transmit::new(
        lsr_transempty(),
        1,
        UART1_SEND_PAUSE,
        AUX_MU_IO_REG,
        bytes,
    )
}

/// The work of sending the character `c`, cut to its lowest eight bits.
pub fn uart1_send_char(c: char) -> (transmit: Transmit)
    ensures
        transmit@ == TransmitState::start(transmitter_ready(), AUX_MU_IO_REG, seq![c as u8]),
        transmit@.valid(),
{
    let mut bytes: Vec<u8> = Vec::new();
    bytes.push(c as u8);
    assert(bytes@ =~= seq![c as u8]);
    uart1_transmit(bytes)
}

/// The work of sending the bytes of the text `s`.
pub fn uart1_send_string(s: &str) -> (transmit: Transmit)
    ensures
        transmit@ == TransmitState::start(transmitter_ready(), AUX_MU_IO_REG, s.spec_bytes()),
        transmit@.valid(),
{
    uart1_transmit(slice_to_vec(s.as_bytes()))
}

/// The work of sending the bytes `data`.
pub fn uart1_send_data(data: &[u8]) -> (transmit: Transmit)
    ensures
        transmit@ == TransmitState::start(transmitter_ready(), AUX_MU_IO_REG, data@),
        transmit@.valid(),
{
    uart1_transmit(slice_to_vec(data))
}

/// The work of receiving `size` bytes from the miniUART, with at most `budget` pauses of
/// 1000 cycles for each byte, or any number if `budget` is 0.
pub fn uart1_receive(size: usize, budget: u32) -> (receive: Receive)
    ensures
        receive@ == ReceiveState::start(byte_arrived(budget), AUX_MU_IO_REG, size as int),
        receive@.valid(),
{
    Receive::new(
        lsr_dataready(),
        1,
        UART1_RECEIVE_PAUSE,
        budget,
        AUX_MU_IO_REG,
        size,
    )
}

/// The work of receiving one byte, with at most `timeout` pauses of 1000 cycles, or any
/// number if `timeout` is 0.
pub fn uart1_receive_data(timeout: u32) -> (receive: Receive)
    ensures
        receive@ == ReceiveState::start(byte_arrived(timeout), AUX_MU_IO_REG, 1),
        receive@.valid(),
{
    uart1_receive(1, timeout)
}

/// The bits of the interrupt enable register that let the interrupts `i_type` through. The
/// field that lets any interrupt through is set with each of them.
pub open spec fn enable_fields(i_type: InterruptType) -> FieldValue {
    match i_type {
        InterruptType::Receive => FieldValue { mask: 0b1101, bits: 0b1101 },
        InterruptType::Transmit => FieldValue { mask: 0b1110, bits: 0b1110 },
        InterruptType::ReceiveTransmit => FieldValue { mask: 0b1111, bits: 0b1111 },
    }
}

/// The write that enables the interrupts `i_type`.
pub open spec fn enable_op(i_type: InterruptType) -> RegisterOp {
    RegisterOp::Merge { address: AUX_MU_IER_REG, fields: enable_fields(i_type) }
}

/// The write that disables the interrupts `i_type`.
pub open spec fn disable_op(i_type: InterruptType) -> RegisterOp {
    match i_type {
        InterruptType::Receive => RegisterOp::Merge {
            address: AUX_MU_IER_REG,
            fields: FieldValue { mask: 0b01, bits: 0 },
        },
        InterruptType::Transmit => RegisterOp::Merge {
            address: AUX_MU_IER_REG,
            fields: FieldValue { mask: 0b10, bits: 0 },
        },
        InterruptType::ReceiveTransmit => RegisterOp::Store { address: AUX_MU_IER_REG, value: 0 },
    }
}

proof fn lemma_interrupt_values()
    by (bit_vector)
    ensures
        ier_rcv_irq().value_spec(3).or_spec(ier_rx_enable().value_spec(1)).mask == 0b1101,
        ier_rcv_irq().value_spec(3).or_spec(ier_rx_enable().value_spec(1)).bits == 0b1101,
        ier_rcv_irq().value_spec(3).or_spec(ier_tx_enable().value_spec(1)).mask == 0b1110,
        ier_rcv_irq().value_spec(3).or_spec(ier_tx_enable().value_spec(1)).bits == 0b1110,
        ier_rcv_irq().value_spec(3).or_spec(ier_rx_enable().value_spec(1)).or_spec(
            ier_tx_enable().value_spec(1),
        ).mask == 0b1111,
        ier_rcv_irq().value_spec(3).or_spec(ier_rx_enable().value_spec(1)).or_spec(
            ier_tx_enable().value_spec(1),
        ).bits == 0b1111,
        ier_rx_enable().value_spec(0).mask == 0b01,
        ier_rx_enable().value_spec(0).bits == 0,
        ier_tx_enable().value_spec(0).mask == 0b10,
        ier_tx_enable().value_spec(0).bits == 0,
{
}

/// The write that enables the interrupts `i_type` and leaves the others as they are.
pub fn uart1_enable_interrupts(i_type: InterruptType) -> (op: RegisterOp)
    ensures
        op == enable_op(i_type),
{
    proof {
        lemma_interrupt_values();
    }
    let through = ier_rcv_irq().with_value(3);
    let receive = ier_rx_enable().with_value(1);
    let transmit = ier_tx_enable().with_value(1);
    let fields = match i_type {
        InterruptType::Receive => through.or(receive),
        InterruptType::Transmit => through.or(transmit),
        InterruptType::ReceiveTransmit => through.or(receive).or(transmit),
    };
    RegisterOp::Merge { address: AUX_MU_IER_REG, fields }
}

/// The write that disables the interrupts `i_type` and leaves the others as they are.
pub fn uart1_disable_interrupts(i_type: InterruptType) -> (op: RegisterOp)
    ensures
        op == disable_op(i_type),
{
    proof {
        lemma_interrupt_values();
    }
    match i_type {
        InterruptType::Receive => RegisterOp::field(ier_rx_enable(), 0),
        InterruptType::Transmit => RegisterOp::field(ier_tx_enable(), 0),
        InterruptType::ReceiveTransmit => RegisterOp::Store { address: AUX_MU_IER_REG, value: 0 },
    }
}

/// The interrupts of the two directions are enabled and disabled apart: a write for one
/// sets or clears its bits and leaves the enable bit of the other as it was. With any of
/// them enabled, both bits of the field that lets interrupts through are set.
pub proof fn interrupts_are_independent(i_type: InterruptType, raw: u32)
    ensures
        enable_op(i_type).result_spec(raw) == raw | enable_fields(i_type).mask,
        enable_fields(i_type).mask & 0b1100 == 0b1100,
        disable_op(InterruptType::Receive).result_spec(raw) == raw & !0b01u32,
        disable_op(InterruptType::Transmit).result_spec(raw) == raw & !0b10u32,
        disable_op(InterruptType::ReceiveTransmit).result_spec(raw) == 0,
{
    merge_sets_or_clears(raw, enable_fields(i_type).mask);
    merge_sets_or_clears(raw, 0b01);
    merge_sets_or_clears(raw, 0b10);
    assert(0b1101u32 & 0b1100 == 0b1100 && 0b1110u32 & 0b1100 == 0b1100 && 0b1111u32 & 0b1100
        == 0b1100) by (bit_vector);
}

/// What the interrupt identify register content `iir` says of the pending interrupt: bit 0
/// is 0 while one is pending, bit 1 is set for the empty transmitter, bit 2 for a byte that
/// has arrived.
pub open spec fn interrupt_status(iir: u32) -> u32 {
    iir & 0b111
}

/// Reads the interrupt status out of the interrupt identify register content `iir`.
pub fn uart1_get_interrupt_status(iir: u32) -> (status: u32)
    ensures
        status == interrupt_status(iir),
        status == iir_irqpending().read_spec(iir) | (iir_irqid_fifoclr().read_spec(iir) << 1),
{
    let pending: u32 = iir_irqpending().read(iir);
    let id: u32 = iir_irqid_fifoclr().read(iir);
    assert(iir_irqpending().read_spec(iir) | (iir_irqid_fifoclr().read_spec(iir) << 1) == iir
        & 0b111) by (bit_vector);
    pending | (id << 1)
}

/// The work of acknowledging the interrupt of the auxiliary peripherals: if the miniUART is
/// the one with an interrupt pending, that is written back.
pub fn uart1_acknowledge_interrupt() -> (probe: Probe)
    ensures
        probe == Probe::start(AUX_IRQ, Answer::Confirm { target: AUX_IRQ, expect: 1 }),
{
    Probe::new(AUX_IRQ, Answer::Confirm { target: AUX_IRQ, expect: 1 })
}

/// The direction whose interrupt the status `irq_status` shows as pending. The empty
/// transmitter is looked for before the arrived byte.
pub open spec fn raised(irq_status: u32) -> Option<InterruptType> {
    if irq_status & 0b011 == 0b010 {
        Some(InterruptType::Transmit)
    } else if irq_status & 0b101 == 0b100 {
        Some(InterruptType::Receive)
    } else {
        None
    }
}

/// Serves the interrupt that the status `irq_status` shows as pending: the callback for its
/// direction is taken out of the table and handed out, to be called.
pub fn uart_handler<F>(irq_status: u32, handlers: &mut Handlers<F>) -> (function: Option<F>)
    ensures
        old(handlers).hands_out(raised(irq_status), final(handlers), function),
{
    if irq_status & 0b011 == 0b010 {
        handlers.take(InterruptType::Transmit)
    } else if irq_status & 0b101 == 0b100 {
        handlers.take(InterruptType::Receive)
    } else {
        None
    }
}

/// The work of serving an interrupt of the miniUART: the interrupt is acknowledged, then the
/// interrupt status is read, and with it the callback is found.
#[derive(Clone, Copy, Debug, PartialEq, Eq, Structural)]
pub struct Service {
    /// The acknowledgement: a look at the pending interrupts of the auxiliary peripherals,
    /// written back if the miniUART is the one with an interrupt pending.
    pub acknowledge: Probe,
    /// The look at the interrupt identify register.
    pub status: Probe,
}

impl Service {
    /// The service before its first step.
    pub open spec fn start() -> Service {
        Service {
            acknowledge: Probe::start(AUX_IRQ, Answer::Confirm { target: AUX_IRQ, expect: 1 }),
            status: Probe::start(AUX_MU_IIR_REG, Answer::Keep),
        }
    }

    /// The two looks go to the registers of the miniUART, and the status is asked for only
    /// once the interrupt has been acknowledged.
    pub open spec fn valid(self) -> bool {
        &&& self.acknowledge.source == AUX_IRQ
        &&& self.acknowledge.answer == (Answer::Confirm { target: AUX_IRQ, expect: 1 })
        &&& self.status.source == AUX_MU_IIR_REG
        &&& self.status.answer == Answer::Keep
        &&& self.acknowledge.content is Some ==> self.acknowledge.asked
        &&& self.status.content is Some ==> self.status.asked
        &&& self.status.asked ==> self.acknowledged()
    }

    /// Whether the pending interrupts have been looked at and answered.
    pub open spec fn acknowledged(self) -> bool {
        self.acknowledge.content is Some
    }

    /// The next state and what to do, given the content `input` of the register that the
    /// step before asked to read: first the steps of the acknowledgement, then those of the
    /// look at the status.
    pub open spec fn step_spec(self, input: u32) -> (Service, Action) {
        let acknowledge = self.acknowledge.step_spec(input);
        if acknowledge.1 != Action::Finished {
            (Service { acknowledge: acknowledge.0, ..self }, acknowledge.1)
        } else {
            let status = self.status.step_spec(input);
            (Service { acknowledge: acknowledge.0, status: status.0 }, status.1)
        }
    }

    /// The interrupt status, once the interrupt has been acknowledged and the status has
    /// been read.
    pub open spec fn irq_status(self) -> Option<u32> {
        match self.status.content {
            Some(iir) if self.acknowledged() => Some(interrupt_status(iir)),
            _ => None,
        }
    }

    /// The direction whose callback is to be called: none before the interrupt has been
    /// acknowledged and the status has been read.
    pub open spec fn pending(self) -> Option<InterruptType> {
        match self.irq_status() {
            Some(irq_status) => raised(irq_status),
            None => None,
        }
    }

    pub fn new() -> (service: Self)
        ensures
            service == Self::start(),
            service.valid(),
    {
        Service {
            acknowledge: uart1_acknowledge_interrupt(),
            status: Probe::new(AUX_MU_IIR_REG, Answer::Keep),
        }
    }

    /// What to do next. `input` is the content of the register that the step before asked to
    /// read; it is not looked at otherwise.
    pub fn step(&mut self, input: u32) -> (action: Action)
        ensures
            (*final(self), action) == old(self).step_spec(input),
            old(self).valid() ==> final(self).valid(),
    {
        let action = self.acknowledge.step(input);
        if action != Action::Finished {
            action
        } else {
            self.status.step(input)
        }
    }

    /// Hands out the callback for the interrupt that is pending, to be called, and takes it
    /// out of the table. Before the interrupt has been acknowledged and the status has been
    /// read, none is handed out.
    pub fn dispatch<F>(&self, handlers: &mut Handlers<F>) -> (function: Option<F>)
        ensures
            old(handlers).hands_out(self.pending(), final(handlers), function),
            function is Some ==> self.acknowledged(),
    {
        match self.status.content {
            Some(iir) => {
                if self.acknowledge.content.is_some() {
                    uart_handler(uart1_get_interrupt_status(iir), handlers)
                } else {
                    None
                }
            },
            None => None,
        }
    }
}

/// A service looks at the pending interrupts first. If the miniUART is the one with an
/// interrupt pending, it writes that back, and only then asks for the interrupt status.
pub proof fn service_acknowledges_first(service: Service, input: u32)
    requires
        service.valid(),
    ensures
        !service.acknowledge.asked ==> service.step_spec(input).1 == (Action::Read {
            address: AUX_IRQ,
        }),
        service.acknowledge.asked && !service.acknowledged() ==> service.step_spec(input).1
            == if input == 1 {
            Action::Write { address: AUX_IRQ, value: 1 }
        } else {
            Action::Read { address: AUX_MU_IIR_REG }
        },
        service.step_spec(input).1 == (Action::Read { address: AUX_MU_IIR_REG })
            ==> service.step_spec(input).0.acknowledged(),
        service.step_spec(input).0.pending() is Some ==> service.step_spec(input).0.acknowledged(),
{
}

/// The divisor is not negative.
pub proof fn divisor_is_not_negative(clock_rate: u32, baud_rate: u32)
    requires
        rates_valid(clock_rate, baud_rate),
    ensures
        0 <= baud_divisor(clock_rate as int, baud_rate as int) <= u32::MAX,
{
    lemma_divisor(clock_rate as int, baud_rate as int);
}

/// The baud rate that the divisor gives is never below the one asked for. It is above by
/// what the clock leaves over in a baud period, spread over the divisor's steps.
pub proof fn rederived_baud(clock_rate: u32, baud_rate: u32)
    requires
        rates_valid(clock_rate, baud_rate),
    ensures
        baud_of(clock_rate as int, baud_divisor(clock_rate as int, baud_rate as int))
            == baud_rate + ticks_left_over(clock_rate as int, baud_rate as int) / (8 * (
        baud_divisor(clock_rate as int, baud_rate as int) + 1)),
        baud_of(clock_rate as int, baud_divisor(clock_rate as int, baud_rate as int))
            >= baud_rate,
{
    let clock = clock_rate as int;
    let baud = baud_rate as int;
    lemma_divisor(clock, baud);
    let steps = clock / (8 * baud);
    let rest = clock % (8 * baud);
    lemma_hoist_over_denominator(rest, baud, (8 * steps) as nat);
    assert(rest + baud * (8 * steps) == clock) by (nonlinear_arith)
        requires
            clock == (8 * baud) * steps + rest,
    ;
    assert(rest / (8 * steps) >= 0) by (nonlinear_arith)
        requires
            rest >= 0,
            steps >= 1,
    ;
}

/// The baud rate that the divisor gives is within one of the one asked for exactly where
/// the clock leaves over less than two ticks for each of the divisor's steps.
pub proof fn rederived_baud_error(clock_rate: u32, baud_rate: u32)
    requires
        rates_valid(clock_rate, baud_rate),
    ensures
        baud_of(clock_rate as int, baud_divisor(clock_rate as int, baud_rate as int))
            - baud_rate <= 1 <==> ticks_left_over(clock_rate as int, baud_rate as int) < 16 * (
        baud_divisor(clock_rate as int, baud_rate as int) + 1),
{
    let clock = clock_rate as int;
    let baud = baud_rate as int;
    rederived_baud(clock_rate, baud_rate);
    lemma_divisor(clock, baud);
    let steps = clock / (8 * baud);
    let rest = clock % (8 * baud);
    assert(rest / (8 * steps) <= 1 <==> rest < 16 * steps) by (nonlinear_arith)
        requires
            rest >= 0,
            steps >= 1,
    ;
}

/// Where the clock leaves over less than two ticks for each of the divisor's steps, the baud
/// rate that the divisor gives is within one of the one asked for.
pub proof fn rederived_baud_within_one(clock_rate: u32, baud_rate: u32)
    requires
        rates_valid(clock_rate, baud_rate),
        ticks_left_over(clock_rate as int, baud_rate as int) < 16 * (baud_divisor(
            clock_rate as int,
            baud_rate as int,
        ) + 1),
    ensures
        baud_rate <= baud_of(
            clock_rate as int,
            baud_divisor(clock_rate as int, baud_rate as int),
        ) <= baud_rate + 1,
{
    rederived_baud(clock_rate, baud_rate);
    rederived_baud_error(clock_rate, baud_rate);
}

/// The writes disable transmitter and receiver before they configure anything and enable
/// them by the write that comes last.
pub proof fn init_disables_first(clock_rate: u32, baud_rate: u32)
    ensures
        init_ops(clock_rate, baud_rate)[2] == (RegisterOp::Store {
            address: AUX_MU_CNTL_REG,
            value: 0,
        }),
        forall|i: int|
            0 <= i < 2 ==> (#[trigger] init_ops(clock_rate, baud_rate)[i]).address()
                == AUX_ENABLES || init_ops(clock_rate, baud_rate)[i].address() == AUX_MU_IER_REG,
        forall|i: int|
            2 < i < init_ops(clock_rate, baud_rate).len() - 1 ==> (#[trigger] init_ops(
                clock_rate,
                baud_rate,
            )[i]).address() != AUX_MU_CNTL_REG,
        init_ops(clock_rate, baud_rate)[init_ops(clock_rate, baud_rate).len() - 1] == (
        RegisterOp::Store { address: AUX_MU_CNTL_REG, value: 3 }),
{
}

/// Configuring twice leaves the registers as configuring once does.
pub proof fn init_twice_as_once(clock_rate: u32, baud_rate: u32, registers: Map<u32, u32>)
    ensures
        apply_all(
            init_ops(clock_rate, baud_rate),
            apply_all(init_ops(clock_rate, baud_rate), registers),
        ) == apply_all(init_ops(clock_rate, baud_rate), registers),
{
    reveal_with_fuel(apply_from, 10);
    let shared = registers[AUX_ENABLES];
    merge_sets_or_clears(shared, 1);
    merge_sets_or_clears(shared | 1, 1);
    assert((shared | 1) | 1 == shared | 1) by (bit_vector);
    let once = apply_all(init_ops(clock_rate, baud_rate), registers);
    assert(apply_all(init_ops(clock_rate, baud_rate), once) =~= once);
}

/// Switching the miniUART on sets its enable bit and leaves the enable bits of the other
/// auxiliary peripherals as they are.
pub proof fn init_keeps_other_peripherals(
    clock_rate: u32,
    baud_rate: u32,
    registers: Map<u32, u32>,
)
    ensures
        apply_all(init_ops(clock_rate, baud_rate), registers)[AUX_ENABLES]
            == registers[AUX_ENABLES] | 1,
{
    reveal_with_fuel(apply_from, 10);
    merge_sets_or_clears(registers[AUX_ENABLES], 1);
}

} // verus!
