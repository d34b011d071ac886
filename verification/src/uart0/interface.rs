//! The registers of the PL011 and what is written to them.

use vstd::prelude::*;
use crate::bus::{Answer, Probe};
use crate::errors::{UartError, UartErrorType};
use crate::gpio::Pins;
use crate::transfer::{Receive, ReceiveState, Transmit, TransmitState, Wait};
use crate::InterruptType;
use crate::register::{
    apply_all, apply_from, merge_sets_or_clears, FieldValue, RegisterField, RegisterOp,
    PERIPHERAL_BASE,
};

verus! {

/// Start of the PL011's registers.
pub const UART0_BASE: u32 = PERIPHERAL_BASE + 0x0020_1000;

/// Data register.
pub const UART0_DR: u32 = UART0_BASE;

/// Receive status and error clear register.
pub const UART0_RSRECR: u32 = UART0_BASE + 0x04;

/// Flag register.
pub const UART0_FR: u32 = UART0_BASE + 0x18;

/// Integer part of the baud rate divisor.
pub const UART0_IBRD: u32 = UART0_BASE + 0x24;

/// Fractional part of the baud rate divisor.
pub const UART0_FBRD: u32 = UART0_BASE + 0x28;

/// Line control register.
pub const UART0_LCRH: u32 = UART0_BASE + 0x2C;

/// Control register.
pub const UART0_CR: u32 = UART0_BASE + 0x30;

/// Interrupt FIFO level select register.
pub const UART0_IFLS: u32 = UART0_BASE + 0x34;

/// Interrupt mask set/clear register.
pub const UART0_IMSC: u32 = UART0_BASE + 0x38;

/// Raw interrupt status register.
pub const UART0_RIS: u32 = UART0_BASE + 0x3C;

/// Masked interrupt status register.
pub const UART0_MIS: u32 = UART0_BASE + 0x40;

/// Interrupt clear register.
pub const UART0_ICR: u32 = UART0_BASE + 0x44;

/// Flag register: the transmit FIFO is full.
#[verifier::allow_in_spec]
pub fn fr_txff() -> RegisterField
    returns
        RegisterField::bit(UART0_FR, 5),
{
    RegisterField::bit(UART0_FR, 5)
}

/// Flag register: the receive FIFO is empty.
#[verifier::allow_in_spec]
pub fn fr_rxfe() -> RegisterField
    returns
        RegisterField::bit(UART0_FR, 4),
{
    RegisterField::bit(UART0_FR, 4)
}

/// Line control: word length, 3 for 8 bits.
#[verifier::allow_in_spec]
pub fn lcrh_wlen() -> RegisterField
    returns
        RegisterField::bits(UART0_LCRH, 5, 2),
{
    RegisterField::bits(UART0_LCRH, 5, 2)
}

/// Line control: FIFOs enabled.
#[verifier::allow_in_spec]
pub fn lcrh_fen() -> RegisterField
    returns
        RegisterField::bit(UART0_LCRH, 4),
{
    RegisterField::bit(UART0_LCRH, 4)
}

/// Control: receive enabled.
#[verifier::allow_in_spec]
pub fn cr_rxe() -> RegisterField
    returns
        RegisterField::bit(UART0_CR, 9),
{
    RegisterField::bit(UART0_CR, 9)
}

/// Control: transmit enabled.
#[verifier::allow_in_spec]
pub fn cr_txe() -> RegisterField
    returns
        RegisterField::bit(UART0_CR, 8),
{
    RegisterField::bit(UART0_CR, 8)
}

/// Control: the UART as a whole enabled.
#[verifier::allow_in_spec]
pub fn cr_uart_en() -> RegisterField
    returns
        RegisterField::bit(UART0_CR, 0),
{
    RegisterField::bit(UART0_CR, 0)
}

/// FIFO level select: fill level of the receive FIFO that raises the interrupt, 0 for one
/// eighth.
#[verifier::allow_in_spec]
pub fn ifls_rxifsel() -> RegisterField
    returns
        RegisterField::bits(UART0_IFLS, 3, 3),
{
    RegisterField::bits(UART0_IFLS, 3, 3)
}

/// Interrupt mask: overrun error.
#[verifier::allow_in_spec]
pub fn imsc_int_oe() -> RegisterField
    returns
        RegisterField::bit(UART0_IMSC, 10),
{
    RegisterField::bit(UART0_IMSC, 10)
}

/// Interrupt mask: the transmit FIFO went below its level.
#[verifier::allow_in_spec]
pub fn imsc_int_tx() -> RegisterField
    returns
        RegisterField::bit(UART0_IMSC, 5),
{
    RegisterField::bit(UART0_IMSC, 5)
}

/// Interrupt mask: the receive FIFO reached its level.
#[verifier::allow_in_spec]
pub fn imsc_int_rx() -> RegisterField
    returns
        RegisterField::bit(UART0_IMSC, 4),
{
    RegisterField::bit(UART0_IMSC, 4)
}

/// All the interrupts that the clear register knows.
pub const ALL_INTERRUPTS: u32 = 0x7FF;

/// The first GPIO line of the PL011.
pub const UART0_TX_PIN: u32 = 32;

/// The second GPIO line of the PL011.
pub const UART0_RX_PIN: u32 = 33;

/// The alternate function that connects the two lines to the PL011.
pub const UART0_PIN_FUNCTION: u32 = 3;

/// Cycles to pause between two looks at the flag register.
pub const UART0_PAUSE: u32 = 10;

/// A clock rate and a baud rate admit divisors if both are positive.
pub open spec fn rates_valid(clock_rate: u32, baud_rate: u32) -> bool {
    clock_rate > 0 && baud_rate > 0
}

/// How many times sixteen baud periods fit into a second of the clock.
pub open spec fn integer_divisor(clock_rate: int, baud_rate: int) -> int {
    clock_rate / (baud_rate * 16)
}

/// What is left over of the clock, in 128ths of sixteen baud periods.
pub open spec fn fraction_in_halves(clock_rate: int, baud_rate: int) -> int {
    (clock_rate % (baud_rate * 16)) * 8 / baud_rate
}

/// What is left over of the clock, in 64ths of sixteen baud periods, rounded to the nearest.
pub open spec fn fractional_divisor(clock_rate: int, baud_rate: int) -> int {
    fraction_in_halves(clock_rate, baud_rate) / 2 + fraction_in_halves(clock_rate, baud_rate) % 2
}

/// Line control: 8 bits per word, FIFOs enabled.
pub open spec fn line_control() -> FieldValue {
    lcrh_wlen().value_spec(3).or_spec(lcrh_fen().value_spec(1))
}

/// Control: the UART, its transmitter and its receiver enabled.
pub open spec fn control_enabled() -> FieldValue {
    cr_uart_en().value_spec(1).or_spec(cr_txe().value_spec(1)).or_spec(cr_rxe().value_spec(1))
}

/// Interrupt mask: receive and overrun error.
pub open spec fn interrupts_enabled() -> FieldValue {
    imsc_int_rx().value_spec(1).or_spec(imsc_int_oe().value_spec(1))
}

/// The writes that bring the PL011 from any state to 8 bits per word with FIFOs, at the given
/// rates, with transmitter and receiver enabled.
///
/// The UART is disabled and its interrupts are masked and cleared before anything is
/// configured, and enabled again by the last writes. The divisors come before the line
/// control register, whose write makes the PL011 take them over.
pub open spec fn init_ops(clock_rate: u32, baud_rate: u32) -> Seq<RegisterOp> {
    seq![
        RegisterOp::Store { address: UART0_CR, value: 0 },
        RegisterOp::Store { address: UART0_IMSC, value: 0 },
        RegisterOp::Store { address: UART0_ICR, value: ALL_INTERRUPTS },
        RegisterOp::Store {
            address: UART0_IBRD,
            value: integer_divisor(clock_rate as int, baud_rate as int) as u32,
        },
        RegisterOp::Store {
            address: UART0_FBRD,
            value: fractional_divisor(clock_rate as int, baud_rate as int) as u32,
        },
        RegisterOp::Store { address: UART0_IFLS, value: 0 },
        RegisterOp::Store { address: UART0_LCRH, value: 0x70 },
        RegisterOp::Store { address: UART0_CR, value: 0x301 },
        RegisterOp::Store { address: UART0_IMSC, value: 0x410 },
    ]
}

proof fn lemma_divisor_bounds(clock_rate: int, baud_rate: int)
    by (nonlinear_arith)
    requires
        0 <= clock_rate <= u32::MAX,
        0 < baud_rate <= u32::MAX,
    ensures
        0 <= integer_divisor(clock_rate, baud_rate) <= clock_rate,
        0 <= clock_rate % (baud_rate * 16) < baud_rate * 16,
        0 <= fraction_in_halves(clock_rate, baud_rate) <= 127,
{
    let rest = clock_rate % (baud_rate * 16);
    assert(rest * 8 < baud_rate * 128);
    assert(rest * 8 / baud_rate < 128);
}

/// The integer and the fractional part of the baud rate divisor. There is none for a baud
/// rate of zero.
pub fn divisors(clock_rate: u32, baud_rate: u32) -> (parts: Option<(u32, u32)>)
    ensures
        parts == if baud_rate > 0 {
            Some(
                (
                    integer_divisor(clock_rate as int, baud_rate as int) as u32,
                    fractional_divisor(clock_rate as int, baud_rate as int) as u32,
                ),
            )
        } else {
            None
        },
        parts matches Some((integer, fraction)) ==> {
            &&& integer == integer_divisor(clock_rate as int, baud_rate as int)
            &&& fraction == fractional_divisor(clock_rate as int, baud_rate as int)
            &&& fraction <= 64
        },
{
    if baud_rate == 0 {
        return None;
    }
    proof {
        lemma_divisor_bounds(clock_rate as int, baud_rate as int);
    }
    let baud16: u64 = baud_rate as u64 * 16;
    let int_div: u64 = clock_rate as u64 / baud16;
    let frac_div2: u64 = (clock_rate as u64 % baud16) * 8 / (baud_rate as u64);
    let frac_div: u64 = (frac_div2 / 2) + (frac_div2 % 2);
    Some((int_div as u32, frac_div as u32))
}

proof fn lemma_values()
    by (bit_vector)
    ensures
        line_control().mask == 0x70,
        line_control().bits == 0x70,
        control_enabled().mask == 0x301,
        control_enabled().bits == 0x301,
        interrupts_enabled().mask == 0x410,
        interrupts_enabled().bits == 0x410,
        ifls_rxifsel().value_spec(0).bits == 0,
{
}

/// Computes the writes that configure the PL011 for the given rates.
///
/// Fails with `InitializationFailed`, and asks for no write, if a rate is zero.
pub fn init(clock_rate: u32, baud_rate: u32) -> (result: Result<Vec<RegisterOp>, UartError>)
    ensures
        match result {
            Ok(ops) => rates_valid(clock_rate, baud_rate) && ops@ == init_ops(
                clock_rate,
                baud_rate,
            ),
            Err(error) => !rates_valid(clock_rate, baud_rate) && error@
                == UartErrorType::InitializationFailed,
        },
{
    if clock_rate == 0 {
        return Err(UartError::new(UartErrorType::InitializationFailed));
    }
    let (int_div, frac_div) = match divisors(clock_rate, baud_rate) {
        Some(parts) => parts,
        None => {
            return Err(UartError::new(UartErrorType::InitializationFailed));
        },
    };
    let fifo_level = ifls_rxifsel().with_value(0);
    let line = lcrh_wlen().with_value(3).or(lcrh_fen().with_value(1));
    let control = cr_uart_en().with_value(1).or(cr_txe().with_value(1)).or(
        cr_rxe().with_value(1),
    );
    let interrupts = imsc_int_rx().with_value(1).or(imsc_int_oe().with_value(1));
    proof {
        lemma_values();
    }
    let mut ops: Vec<RegisterOp> = Vec::new();
    ops.push(RegisterOp::Store { address: UART0_CR, value: 0 });
    ops.push(RegisterOp::Store { address: UART0_IMSC, value: 0 });
    ops.push(RegisterOp::Store { address: UART0_ICR, value: ALL_INTERRUPTS });
    ops.push(RegisterOp::Store { address: UART0_IBRD, value: int_div });
    ops.push(RegisterOp::Store { address: UART0_FBRD, value: frac_div });
    ops.push(RegisterOp::Store { address: UART0_IFLS, value: fifo_level.bits });
    ops.push(RegisterOp::Store { address: UART0_LCRH, value: line.bits });
    ops.push(RegisterOp::Store { address: UART0_CR, value: control.bits });
    ops.push(RegisterOp::Store { address: UART0_IMSC, value: interrupts.bits });
    assert(ops@ =~= init_ops(clock_rate, baud_rate));
    Ok(ops)
}

/// The two lines of the PL011.
pub open spec fn pins() -> Pins {
    Pins {
        tx: UART0_TX_PIN,
        rx: UART0_RX_PIN,
        function: UART0_PIN_FUNCTION,
        pull_disabled: false,
    }
}

/// The two lines of the PL011, which are given back when the PL011 is released.
pub fn release() -> (lines: Pins)
    ensures
        lines == pins(),
{
    Pins {
        tx: UART0_TX_PIN,
        rx: UART0_RX_PIN,
        function: UART0_PIN_FUNCTION,
        pull_disabled: false,
    }
}

/// The wait for room in the transmit FIFO.
pub open spec fn transmitter_ready() -> Wait {
    Wait::start(fr_txff(), 0, UART0_PAUSE, 0)
}

/// The wait for a byte in the receive FIFO.
pub open spec fn byte_arrived() -> Wait {
    Wait::start(fr_rxfe(), 0, UART0_PAUSE, 0)
}

/// The work of sending `bytes` through the PL011.
pub fn transmit(bytes: Vec<u8>) -> (transmit: Transmit)
    ensures
        transmit@ == TransmitState::start(transmitter_ready(), UART0_DR, bytes@),
        transmit@.valid(),
{
    Transmit::new(fr_txff(), 0, UART0_PAUSE, UART0_DR, bytes)
}

/// The work of sending the byte `data` once the transmit FIFO has room.
pub fn send_byte(data: u8) -> (transmit: Transmit)
    ensures
        transmit@ == TransmitState::start(transmitter_ready(), UART0_DR, seq![data]),
        transmit@.valid(),
{
    let mut bytes: Vec<u8> = Vec::new();
    bytes.push(data);
    assert(bytes@ =~= seq![data]);
    self::transmit(bytes)
}

/// The work of receiving `size` bytes from the PL011, each once the receive FIFO holds one.
pub fn receive(size: usize) -> (receive: Receive)
    ensures
        receive@ == ReceiveState::start(byte_arrived(), UART0_DR, size as int),
        receive@.valid(),
{
    Receive::new(fr_rxfe(), 0, UART0_PAUSE, 0, UART0_DR, size)
}

/// The work of receiving one byte once the receive FIFO holds one.
pub fn receive_byte() -> (receive: Receive)
    ensures
        receive@ == ReceiveState::start(byte_arrived(), UART0_DR, 1),
        receive@.valid(),
{
    self::receive(1)
}

/// The bits of the interrupt mask that stand for the interrupts `i_type`.
pub open spec fn interrupt_mask(i_type: InterruptType) -> u32 {
    match i_type {
        InterruptType::Receive => 0x10,
        InterruptType::Transmit => 0x20,
        InterruptType::ReceiveTransmit => 0x30,
    }
}

/// The write that lets the interrupts `i_type` through.
pub open spec fn enable_op(i_type: InterruptType) -> RegisterOp {
    RegisterOp::Merge {
        address: UART0_IMSC,
        fields: FieldValue { mask: interrupt_mask(i_type), bits: interrupt_mask(i_type) },
    }
}

/// The write that masks the interrupts `i_type`.
pub open spec fn disable_op(i_type: InterruptType) -> RegisterOp {
    RegisterOp::Merge {
        address: UART0_IMSC,
        fields: FieldValue { mask: interrupt_mask(i_type), bits: 0 },
    }
}

proof fn lemma_interrupt_values()
    by (bit_vector)
    ensures
        imsc_int_rx().value_spec(1).mask == 0x10,
        imsc_int_rx().value_spec(1).bits == 0x10,
        imsc_int_rx().value_spec(0).mask == 0x10,
        imsc_int_rx().value_spec(0).bits == 0,
        imsc_int_tx().value_spec(1).mask == 0x20,
        imsc_int_tx().value_spec(1).bits == 0x20,
        imsc_int_tx().value_spec(0).mask == 0x20,
        imsc_int_tx().value_spec(0).bits == 0,
        imsc_int_rx().value_spec(1).or_spec(imsc_int_tx().value_spec(1)).mask == 0x30,
        imsc_int_rx().value_spec(1).or_spec(imsc_int_tx().value_spec(1)).bits == 0x30,
        imsc_int_rx().value_spec(0).or_spec(imsc_int_tx().value_spec(0)).mask == 0x30,
        imsc_int_rx().value_spec(0).or_spec(imsc_int_tx().value_spec(0)).bits == 0,
{
}

/// The write that lets the interrupts `i_type` through and leaves the others, those for
/// errors among them, as they are.
pub fn enable_interrupts(i_type: InterruptType) -> (op: RegisterOp)
    ensures
        op == enable_op(i_type),
{
    proof {
        lemma_interrupt_values();
    }
    let receive = imsc_int_rx().with_value(1);
    let transmit = imsc_int_tx().with_value(1);
    let fields = match i_type {
        InterruptType::Receive => receive,
        InterruptType::Transmit => transmit,
        InterruptType::ReceiveTransmit => receive.or(transmit),
    };
    RegisterOp::Merge { address: UART0_IMSC, fields }
}

/// The write that masks the interrupts `i_type` and leaves the others, those for errors
/// among them, as they are.
pub fn disable_interrupts(i_type: InterruptType) -> (op: RegisterOp)
    ensures
        op == disable_op(i_type),
{
    proof {
        lemma_interrupt_values();
    }
    let receive = imsc_int_rx().with_value(0);
    let transmit = imsc_int_tx().with_value(0);
    let fields = match i_type {
        InterruptType::Receive => receive,
        InterruptType::Transmit => transmit,
        InterruptType::ReceiveTransmit => receive.or(transmit),
    };
    RegisterOp::Merge { address: UART0_IMSC, fields }
}

/// The interrupts are masked apart: a write for some of them sets or clears their bits and
/// leaves every other bit of the mask as it was.
pub proof fn interrupts_are_independent(i_type: InterruptType, raw: u32)
    ensures
        enable_op(i_type).result_spec(raw) == raw | interrupt_mask(i_type),
        disable_op(i_type).result_spec(raw) == raw & !interrupt_mask(i_type),
{
    merge_sets_or_clears(raw, interrupt_mask(i_type));
}

/// Puts `function` in the place of the callback for the interrupts of the PL011 and hands
/// back the one that was there. It is to be done before the interrupts are enabled.
pub fn set_irq_handler<F>(handler: &mut Option<F>, function: F) -> (displaced: Option<F>)
    ensures
        *final(handler) == Some(function),
        displaced == *old(handler),
{
    let displaced = handler.take();
    *handler = Some(function);
    displaced
}

/// The work of acknowledging the interrupts of the PL011: the masked interrupt status is
/// written to the interrupt clear register. The callback is to be called after it.
pub fn uart0_handler() -> (probe: Probe)
    ensures
        probe == Probe::start(UART0_MIS, Answer::Echo { target: UART0_ICR }),
{
    Probe::new(UART0_MIS, Answer::Echo { target: UART0_ICR })
}

/// The fractional divisor is at most 64, and it is 64 only where the clock leaves over at
/// least 127/128 of sixteen baud periods.
pub proof fn fractional_divisor_range(clock_rate: u32, baud_rate: u32)
    requires
        baud_rate > 0,
    ensures
        0 <= fractional_divisor(clock_rate as int, baud_rate as int) <= 64,
        fractional_divisor(clock_rate as int, baud_rate as int) == 64 <==> fraction_in_halves(
            clock_rate as int,
            baud_rate as int,
        ) == 127,
{
    lemma_divisor_bounds(clock_rate as int, baud_rate as int);
}

/// The fractional divisor fits into the six bits of its register, unless the clock leaves
/// over at least 127/128 of sixteen baud periods.
pub proof fn fractional_divisor_fits(clock_rate: u32, baud_rate: u32)
    requires
        rates_valid(clock_rate, baud_rate),
        fraction_in_halves(clock_rate as int, baud_rate as int) != 127,
    ensures
        0 <= fractional_divisor(clock_rate as int, baud_rate as int) <= 63,
{
    fractional_divisor_range(clock_rate, baud_rate);
}

/// The writes disable the UART before they configure anything and enable it by the writes
/// that come last.
pub proof fn init_disables_first(clock_rate: u32, baud_rate: u32)
    ensures
        init_ops(clock_rate, baud_rate)[0] == (RegisterOp::Store { address: UART0_CR, value: 0 }),
        forall|i: int|
            0 < i < init_ops(clock_rate, baud_rate).len() - 2 ==> (#[trigger] init_ops(
                clock_rate,
                baud_rate,
            )[i]).address() != UART0_CR,
        init_ops(clock_rate, baud_rate)[init_ops(clock_rate, baud_rate).len() - 2] == (
        RegisterOp::Store { address: UART0_CR, value: control_enabled().bits }),
{
    lemma_values();
}

/// Configuring twice leaves the registers as configuring once does.
pub proof fn init_twice_as_once(clock_rate: u32, baud_rate: u32, registers: Map<u32, u32>)
    ensures
        apply_all(
            init_ops(clock_rate, baud_rate),
            apply_all(init_ops(clock_rate, baud_rate), registers),
        ) == apply_all(init_ops(clock_rate, baud_rate), registers),
{
    reveal_with_fuel(apply_from, 10);
    let once = apply_all(init_ops(clock_rate, baud_rate), registers);
    assert(apply_all(init_ops(clock_rate, baud_rate), once) =~= once);
}

} // verus!
