use std::collections::{HashMap, VecDeque};

use ruspiro_uart::bus::{Action, Answer, Probe};
use ruspiro_uart::errors::{UartError, UartErrorType};
use ruspiro_uart::gpio::{PinLease, Pins};
use ruspiro_uart::lifecycle::InitializationFailure;
use ruspiro_uart::register::{Access, FieldValue, RegisterField, RegisterOp};
use ruspiro_uart::uart0::interface;
use ruspiro_uart::uart0::Uart0;
use ruspiro_uart::InterruptType;

const BASE: u32 = 0x3F20_1000;
const DR: u32 = BASE;
const FR: u32 = BASE + 0x18;
const IBRD: u32 = BASE + 0x24;
const FBRD: u32 = BASE + 0x28;
const LCRH: u32 = BASE + 0x2C;
const CR: u32 = BASE + 0x30;
const IFLS: u32 = BASE + 0x34;
const IMSC: u32 = BASE + 0x38;
const MIS: u32 = BASE + 0x40;
const ICR: u32 = BASE + 0x44;

/// Registers that hold what was last written to them, unless a read has been scripted.
struct Board {
    registers: HashMap<u32, u32>,
    scripted: HashMap<u32, VecDeque<u32>>,
    log: Vec<Action>,
}

impl Board {
    fn new() -> Self {
        Board { registers: HashMap::new(), scripted: HashMap::new(), log: Vec::new() }
    }

    fn script(&mut self, address: u32, values: &[u32]) {
        self.scripted.entry(address).or_default().extend(values.iter().copied());
    }

    fn perform(&mut self, action: Action) -> u32 {
        self.log.push(action);
        match action {
            Action::Read { address } => {
                let scripted = self.scripted.get_mut(&address).and_then(|values| values.pop_front());
                scripted.unwrap_or_else(|| self.registers.get(&address).copied().unwrap_or(0))
            }
            Action::Write { address, value } => {
                self.registers.insert(address, value);
                0
            }
            _ => 0,
        }
    }

    fn run(&mut self, mut step: impl FnMut(u32) -> Action) {
        let mut input = 0;
        for _ in 0..100_000 {
            let action = step(input);
            if action == Action::Finished {
                return;
            }
            input = self.perform(action);
        }
        panic!("the work did not come to an end");
    }
}

fn ready() -> Uart0 {
    let mut uart = Uart0::new();
    assert!(uart.initialize(PinLease::both(), 3_000_000, 115_200).is_ok());
    uart
}

#[test]
fn registers_lie_where_the_hardware_has_them() {
    assert_eq!(interface::UART0_BASE, 0x3F00_0000 + 0x0020_1000);
    assert_eq!(interface::UART0_DR, DR);
    assert_eq!(interface::UART0_RSRECR, BASE + 0x04);
    assert_eq!(interface::UART0_FR, FR);
    assert_eq!(interface::UART0_IBRD, IBRD);
    assert_eq!(interface::UART0_FBRD, FBRD);
    assert_eq!(interface::UART0_LCRH, LCRH);
    assert_eq!(interface::UART0_CR, CR);
    assert_eq!(interface::UART0_IFLS, IFLS);
    assert_eq!(interface::UART0_IMSC, IMSC);
    assert_eq!(interface::UART0_RIS, BASE + 0x3C);
    assert_eq!(interface::UART0_MIS, MIS);
    assert_eq!(interface::UART0_ICR, ICR);
}

#[test]
fn fields_lie_where_the_hardware_has_them() {
    let field = |register: u32, shift: u32, width: u32| RegisterField {
        register,
        shift,
        width,
        access: Access::ReadWrite,
    };
    assert_eq!(interface::fr_txff(), field(FR, 5, 1));
    assert_eq!(interface::fr_rxfe(), field(FR, 4, 1));
    assert_eq!(interface::lcrh_wlen(), field(LCRH, 5, 2));
    assert_eq!(interface::lcrh_fen(), field(LCRH, 4, 1));
    assert_eq!(interface::cr_rxe(), field(CR, 9, 1));
    assert_eq!(interface::cr_txe(), field(CR, 8, 1));
    assert_eq!(interface::cr_uart_en(), field(CR, 0, 1));
    assert_eq!(interface::ifls_rxifsel(), field(IFLS, 3, 3));
    assert_eq!(interface::imsc_int_oe(), field(IMSC, 10, 1));
    assert_eq!(interface::imsc_int_tx(), field(IMSC, 5, 1));
    assert_eq!(interface::imsc_int_rx(), field(IMSC, 4, 1));
}

#[test]
fn divisors_follow_the_formula() {
    // 3_000_000 / (115_200 * 16) = 1, rest 1_156_800; 1_156_800 * 8 / 115_200 = 80; 80 / 2 = 40
    assert_eq!(interface::divisors(3_000_000, 115_200), Some((1, 40)));
    // 48_000_000 / 1_843_200 = 26, rest 76_800; 76_800 * 8 / 115_200 = 5; 5 / 2 + 5 % 2 = 3
    assert_eq!(interface::divisors(48_000_000, 115_200), Some((26, 3)));
    assert_eq!(interface::divisors(16, 1), Some((1, 0)));
    assert_eq!(interface::divisors(0, 9600), Some((0, 0)));
    // rest 15, 15 * 8 / 1 = 120, 120 / 2 = 60
    assert_eq!(interface::divisors(u32::MAX, 1), Some((268_435_455, 60)));
    // baud * 16 does not fit into 32 bits; rest u32::MAX, u32::MAX * 8 / u32::MAX = 8
    assert_eq!(interface::divisors(u32::MAX, u32::MAX), Some((0, 4)));
    assert_eq!(interface::divisors(u32::MAX, 0x1000_0000), Some((0, 64)));
}

#[test]
fn divisors_need_a_baud_rate() {
    assert_eq!(interface::divisors(3_000_000, 0), None);
    assert_eq!(interface::divisors(0, 0), None);
}

#[test]
fn fractional_divisor_reaches_64_just_below_a_full_step() {
    // rest 1_843_199, 1_843_199 * 8 / 115_200 = 127, 127 / 2 + 127 % 2 = 64
    assert_eq!(interface::divisors(1_843_199, 115_200), Some((0, 64)));
    assert_eq!(interface::divisors(127, 8), Some((0, 64)));
    assert_eq!(interface::divisors(126, 8), Some((0, 63)));
    assert_eq!(interface::divisors(1_843_200, 115_200), Some((1, 0)));
}

#[test]
fn fractional_divisor_fits_six_bits_but_for_the_last_128th() {
    for baud_rate in [1u32, 8, 300, 9_600, 115_200, 921_600, 3_000_000] {
        for clock_rate in [1u32, 127, 128, 1_843_199, 3_000_000, 48_000_000, 250_000_000, u32::MAX] {
            let (_, fraction) = interface::divisors(clock_rate, baud_rate).unwrap();
            let rest = clock_rate as u64 % (baud_rate as u64 * 16);
            let in_halves = rest * 8 / baud_rate as u64;
            assert_eq!(fraction as u64, in_halves / 2 + in_halves % 2);
            if in_halves == 127 {
                assert_eq!(fraction, 64);
            } else {
                assert!(fraction <= 63);
            }
        }
    }
}

#[test]
fn init_writes_the_configuration_in_order() {
    let ops = interface::init(3_000_000, 115_200).unwrap();
    assert_eq!(
        ops,
        vec![
            RegisterOp::Store { address: CR, value: 0 },
            RegisterOp::Store { address: IMSC, value: 0 },
            RegisterOp::Store { address: ICR, value: 0x7FF },
            RegisterOp::Store { address: IBRD, value: 1 },
            RegisterOp::Store { address: FBRD, value: 40 },
            RegisterOp::Store { address: IFLS, value: 0 },
            RegisterOp::Store { address: LCRH, value: 0x70 },
            RegisterOp::Store { address: CR, value: 0x301 },
            RegisterOp::Store { address: IMSC, value: 0x410 },
        ]
    );
}

#[test]
fn init_rejects_a_rate_of_zero() {
    let failed = UartError::new(UartErrorType::InitializationFailed);
    assert_eq!(interface::init(0, 115_200).err(), Some(failed));
    assert_eq!(interface::init(3_000_000, 0).err(), Some(failed));
    assert_eq!(interface::init(0, 0).err(), Some(failed));
    assert!(interface::init(1, 1).is_ok());
    assert!(interface::init(u32::MAX, u32::MAX).is_ok());
}

#[test]
fn new_handle_is_not_initialized() {
    let uart = Uart0::new();
    assert!(!uart.is_initialized());
    assert_eq!(uart.lease(), PinLease::none());
    assert_eq!(Uart0::pins(), Pins { tx: 32, rx: 33, function: 3, pull_disabled: false });
}

fn failed(lines: PinLease) -> Option<InitializationFailure> {
    Some(InitializationFailure {
        error: UartError::new(UartErrorType::InitializationFailed),
        lines,
    })
}

#[test]
fn initialize_without_lease_fails_and_writes_nothing() {
    let mut uart = Uart0::new();
    let result = uart.initialize(PinLease::none(), 3_000_000, 115_200);
    assert_eq!(result.err(), failed(PinLease::none()));
    assert!(!uart.is_initialized());
    assert_eq!(uart.lease(), PinLease::none());
    assert_eq!(uart.release(), PinLease::none());
}

#[test]
fn initialize_with_one_line_fails_and_hands_the_line_back() {
    let mut uart = Uart0::new();
    let only_tx = PinLease { tx: true, rx: false };
    assert_eq!(uart.initialize(only_tx, 3_000_000, 115_200).err(), failed(only_tx));
    assert!(!uart.is_initialized());
    assert_eq!(uart.lease(), PinLease::none());
    assert_eq!(uart.release(), PinLease::none());
    let only_rx = PinLease { tx: false, rx: true };
    assert_eq!(uart.initialize(only_rx, 3_000_000, 115_200).err(), failed(only_rx));
    assert!(!uart.is_initialized());
    assert_eq!(uart.lease(), PinLease::none());
    // the line of the first attempt went back: granted alone, the other is not enough
    assert_eq!(uart.initialize(only_tx, 3_000_000, 115_200).err(), failed(only_tx));
    assert!(uart.initialize(PinLease::both(), 3_000_000, 115_200).is_ok());
    assert!(uart.is_initialized());
    assert_eq!(uart.lease(), PinLease::both());
}

#[test]
fn initialize_with_a_rate_of_zero_fails_and_hands_the_lines_back() {
    let mut uart = Uart0::new();
    let result = uart.initialize(PinLease::both(), 3_000_000, 0);
    assert_eq!(result.err(), failed(PinLease::both()));
    assert!(!uart.is_initialized());
    assert_eq!(uart.lease(), PinLease::none());
    assert_eq!(uart.release(), PinLease::none());
    assert_eq!(uart.initialize(PinLease::both(), 0, 115_200).err(), failed(PinLease::both()));
    assert_eq!(uart.initialize(PinLease::none(), 3_000_000, 115_200).err(), failed(PinLease::none()));
    assert!(!uart.is_initialized());
}

#[test]
fn failed_initialization_leaves_a_ready_handle_as_it_is() {
    let mut uart = ready();
    assert_eq!(uart.initialize(PinLease::none(), 3_000_000, 0).err(), failed(PinLease::none()));
    assert!(uart.is_initialized());
    assert_eq!(uart.lease(), PinLease::both());
    // the handle holds its lines: what is named as granted is its own and stays with it
    assert_eq!(uart.initialize(PinLease::both(), 0, 115_200).err(), failed(PinLease::none()));
    assert!(uart.is_initialized());
    assert!(uart.send_data(&[1]).is_ok());
    assert_eq!(uart.release(), PinLease::both());
}

#[test]
fn initialize_makes_the_handle_ready() {
    let mut uart = Uart0::new();
    let mut sequence = uart.initialize(PinLease::both(), 3_000_000, 115_200).ok().unwrap();
    assert!(uart.is_initialized());
    assert_eq!(uart.lease(), PinLease::both());
    let mut board = Board::new();
    board.run(|input| sequence.step(input));
    assert!(sequence.is_finished());
    assert_eq!(
        board.log,
        vec![
            Action::Write { address: CR, value: 0 },
            Action::Write { address: IMSC, value: 0 },
            Action::Write { address: ICR, value: 0x7FF },
            Action::Write { address: IBRD, value: 1 },
            Action::Write { address: FBRD, value: 40 },
            Action::Write { address: IFLS, value: 0 },
            Action::Write { address: LCRH, value: 0x70 },
            Action::Write { address: CR, value: 0x301 },
            Action::Write { address: IMSC, value: 0x410 },
        ]
    );
}

#[test]
fn initialize_twice_leaves_the_registers_as_once() {
    let mut uart = Uart0::new();
    let mut board = Board::new();
    for address in [DR, FR, IBRD, FBRD, LCRH, CR, IFLS, IMSC, ICR] {
        board.registers.insert(address, 0xFFFF_FFFF);
    }
    let mut first = uart.initialize(PinLease::both(), 48_000_000, 115_200).ok().unwrap();
    board.run(|input| first.step(input));
    let once = board.registers.clone();
    assert_eq!(once[&IBRD], 26);
    assert_eq!(once[&FBRD], 3);
    assert_eq!(once[&CR], 0x301);
    let mut second = uart.initialize(PinLease::none(), 48_000_000, 115_200).ok().unwrap();
    board.run(|input| second.step(input));
    assert!(uart.is_initialized());
    assert_eq!(board.registers, once);
    assert_eq!(board.log.len(), 18);
}

#[test]
fn operations_before_initialize_fail_and_touch_nothing() {
    let uart = Uart0::new();
    let not_initialized = UartError::new(UartErrorType::UartNotInitialized);
    assert_eq!(uart.send_data(&[1, 2, 3]).err(), Some(not_initialized));
    assert_eq!(uart.send_data(&[]).err(), Some(not_initialized));
    assert_eq!(uart.receive_data(4).err(), Some(not_initialized));
    assert_eq!(uart.receive_data(0).err(), Some(not_initialized));
}

#[test]
fn receive_of_no_bytes_is_refused() {
    let uart = ready();
    assert_eq!(
        uart.receive_data(0).err(),
        Some(UartError::new(UartErrorType::ReceiveBufferEmpty))
    );
}

#[test]
fn release_gives_the_lease_back_once() {
    let mut uart = ready();
    assert_eq!(uart.release(), PinLease::both());
    assert!(!uart.is_initialized());
    assert_eq!(uart.lease(), PinLease::none());
    assert_eq!(uart.release(), PinLease::none());
    assert_eq!(uart.release(), PinLease::none());
    assert_eq!(uart.send_data(&[1]).err(), Some(UartError::new(UartErrorType::UartNotInitialized)));
    let mut never = Uart0::new();
    assert_eq!(never.release(), PinLease::none());
    assert_eq!(never.release(), PinLease::none());
    assert_eq!(
        interface::release(),
        Pins { tx: 32, rx: 33, function: 3, pull_disabled: false }
    );
}

#[test]
fn two_bytes_are_sent_in_order_each_after_a_look_at_the_flags() {
    let mut uart = Uart0::new();
    let mut board = Board::new();
    let mut sequence = uart.initialize(PinLease::both(), 3_000_000, 115_200).ok().unwrap();
    board.run(|input| sequence.step(input));
    board.log.clear();
    let mut transmit = uart.send_data(&[0x41, 0x42]).ok().unwrap();
    assert_eq!(transmit.finish().err(), Some(UartError::new(UartErrorType::SendDataFailed)));
    board.run(|input| transmit.step(input));
    assert_eq!(
        board.log,
        vec![
            Action::Read { address: FR },
            Action::Write { address: DR, value: 0x41 },
            Action::Read { address: FR },
            Action::Write { address: DR, value: 0x42 },
        ]
    );
    assert!(transmit.is_finished());
    assert_eq!(transmit.sent(), 2);
    assert_eq!(transmit.finish(), Ok(()));
}

#[test]
fn sending_pauses_while_the_fifo_is_full() {
    let uart = ready();
    let mut board = Board::new();
    board.script(FR, &[0x20, 0xFFFF_FFFF, 0xFFFF_FFDF, 0x20, 0x00]);
    let mut transmit = uart.send_data(&[7, 8]).ok().unwrap();
    board.run(|input| transmit.step(input));
    assert_eq!(
        board.log,
        vec![
            Action::Read { address: FR },
            Action::Sleep { cycles: 10 },
            Action::Read { address: FR },
            Action::Sleep { cycles: 10 },
            Action::Read { address: FR },
            Action::Write { address: DR, value: 7 },
            Action::Read { address: FR },
            Action::Sleep { cycles: 10 },
            Action::Read { address: FR },
            Action::Write { address: DR, value: 8 },
        ]
    );
}

#[test]
fn sending_nothing_asks_for_nothing() {
    let uart = ready();
    let mut transmit = uart.send_data(&[]).ok().unwrap();
    assert!(transmit.is_finished());
    assert_eq!(transmit.step(0), Action::Finished);
    assert_eq!(transmit.finish(), Ok(()));
}

#[test]
fn one_byte_is_sent_by_the_interface() {
    let mut board = Board::new();
    let mut transmit = interface::send_byte(0xA5);
    board.run(|input| transmit.step(input));
    assert_eq!(
        board.log,
        vec![Action::Read { address: FR }, Action::Write { address: DR, value: 0xA5 }]
    );
}

#[test]
fn bytes_are_received_once_the_fifo_holds_them() {
    let uart = ready();
    let mut board = Board::new();
    board.script(FR, &[0x10, 0x10, 0x00, 0xFFFF_FFEF]);
    board.script(DR, &[0x0000_0141, 0xFFFF_FF00]);
    let mut receive = uart.receive_data(2).ok().unwrap();
    board.run(|input| receive.step(input));
    assert_eq!(
        board.log,
        vec![
            Action::Read { address: FR },
            Action::Sleep { cycles: 10 },
            Action::Read { address: FR },
            Action::Sleep { cycles: 10 },
            Action::Read { address: FR },
            Action::Read { address: DR },
            Action::Read { address: FR },
            Action::Read { address: DR },
        ]
    );
    assert!(receive.is_finished());
    assert_eq!(receive.finish(), Ok(vec![0x41, 0x00]));
}

#[test]
fn receive_that_is_not_done_reports_a_failure() {
    let uart = ready();
    let mut receive = uart.receive_data(2).ok().unwrap();
    assert_eq!(receive.step(0), Action::Read { address: FR });
    assert_eq!(receive.step(0), Action::Read { address: DR });
    assert!(!receive.is_finished());
    assert_eq!(receive.step(0x55), Action::Read { address: FR });
    assert_eq!(
        receive.finish(),
        Err(UartError::new(UartErrorType::ReceiveDataFailed))
    );
}

#[test]
fn one_byte_is_received_by_the_interface() {
    let mut board = Board::new();
    board.script(DR, &[0x7F]);
    let mut receive = interface::receive_byte();
    board.run(|input| receive.step(input));
    assert_eq!(receive.finish(), Ok(vec![0x7F]));
}

#[test]
fn interrupt_mask_writes_are_exact() {
    let merge = |mask: u32, bits: u32| RegisterOp::Merge {
        address: IMSC,
        fields: FieldValue { mask, bits },
    };
    assert_eq!(interface::enable_interrupts(InterruptType::Receive), merge(0x10, 0x10));
    assert_eq!(interface::enable_interrupts(InterruptType::Transmit), merge(0x20, 0x20));
    assert_eq!(interface::enable_interrupts(InterruptType::ReceiveTransmit), merge(0x30, 0x30));
    assert_eq!(interface::disable_interrupts(InterruptType::Receive), merge(0x10, 0));
    assert_eq!(interface::disable_interrupts(InterruptType::Transmit), merge(0x20, 0));
    assert_eq!(interface::disable_interrupts(InterruptType::ReceiveTransmit), merge(0x30, 0));
}

#[test]
fn interrupts_are_masked_apart() {
    let mut uart = Uart0::new();
    let mut board = Board::new();
    let mut sequence = uart.enable_interrupts(InterruptType::Transmit);
    board.run(|input| sequence.step(input));
    let mut sequence = uart.disable_interrupts(InterruptType::Receive);
    board.run(|input| sequence.step(input));
    assert_eq!(board.log, vec![]);
    let mut sequence = uart.initialize(PinLease::both(), 3_000_000, 115_200).ok().unwrap();
    board.run(|input| sequence.step(input));
    assert_eq!(board.registers[&IMSC], 0x410);
    let mut sequence = uart.enable_interrupts(InterruptType::Transmit);
    board.run(|input| sequence.step(input));
    assert_eq!(board.registers[&IMSC], 0x430);
    let mut sequence = uart.disable_interrupts(InterruptType::Receive);
    board.run(|input| sequence.step(input));
    assert_eq!(board.registers[&IMSC], 0x420);
    let mut sequence = uart.enable_interrupts(InterruptType::ReceiveTransmit);
    board.run(|input| sequence.step(input));
    assert_eq!(board.registers[&IMSC], 0x430);
    let mut sequence = uart.disable_interrupts(InterruptType::ReceiveTransmit);
    board.run(|input| sequence.step(input));
    assert_eq!(board.registers[&IMSC], 0x400);
    let mut sequence = uart.enable_interrupts(InterruptType::Receive);
    board.run(|input| sequence.step(input));
    assert_eq!(board.registers[&IMSC], 0x410);
}

#[test]
fn irq_handler_takes_the_place_of_the_one_before() {
    let uart = Uart0::new();
    let mut handler: Option<u32> = None;
    assert_eq!(uart.register_irq_handler(&mut handler, 1), None);
    assert_eq!(handler, Some(1));
    assert_eq!(uart.register_irq_handler(&mut handler, 2), Some(1));
    assert_eq!(handler, Some(2));
    assert_eq!(interface::set_irq_handler(&mut handler, 3), Some(2));
    assert_eq!(handler, Some(3));
}

#[test]
fn interrupt_is_acknowledged_with_the_masked_status() {
    let mut board = Board::new();
    board.registers.insert(MIS, 0x410);
    let mut probe = interface::uart0_handler();
    assert_eq!(probe, Probe::new(MIS, Answer::Echo { target: ICR }));
    board.run(|input| probe.step(input));
    assert_eq!(
        board.log,
        vec![Action::Read { address: MIS }, Action::Write { address: ICR, value: 0x410 }]
    );
    assert_eq!(probe.content, Some(0x410));
    assert_eq!(probe.step(0), Action::Finished);
}
