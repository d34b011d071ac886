use ruspiro_uart::bus::Action;
use ruspiro_uart::errors::{UartError, UartErrorType};
use ruspiro_uart::register::RegisterField;
use ruspiro_uart::transfer::{Receive, Transmit, Wait, WaitStep};

const STATUS: u32 = 0x54;
const DATA: u32 = 0x40;

fn ready_bit() -> RegisterField {
    RegisterField::bit(STATUS, 5)
}

#[test]
fn wait_starts_without_a_pause_made() {
    assert_eq!(
        Wait::new(ready_bit(), 1, 10, 3),
        Wait { field: ready_bit(), expect: 1, pause: 10, budget: 3, waited: 0, reading: false }
    );
}

#[test]
fn wait_is_over_when_the_field_shows_the_value() {
    let mut wait = Wait::new(ready_bit(), 1, 10, 0);
    assert_eq!(wait.step(0x20), WaitStep::Go(Action::Read { address: STATUS }));
    assert!(wait.reading);
    assert_eq!(wait.step(0x20), WaitStep::Met);
    assert!(!wait.reading);
    let mut wait = Wait::new(ready_bit(), 0, 10, 0);
    assert_eq!(wait.step(0), WaitStep::Go(Action::Read { address: STATUS }));
    assert_eq!(wait.step(0xFFFF_FFDF), WaitStep::Met);
}

#[test]
fn wait_pauses_after_a_look_that_does_not_show_the_value() {
    let mut wait = Wait::new(ready_bit(), 1, 10, 0);
    for _ in 0..5 {
        assert_eq!(wait.step(0), WaitStep::Go(Action::Read { address: STATUS }));
        assert_eq!(wait.step(0xFFFF_FFDF), WaitStep::Go(Action::Sleep { cycles: 10 }));
    }
    // without a bound the pauses are not counted
    assert_eq!(wait.waited, 0);
    assert_eq!(wait.step(0), WaitStep::Go(Action::Read { address: STATUS }));
    assert_eq!(wait.step(0x20), WaitStep::Met);
}

#[test]
fn wait_gives_up_when_the_budget_is_used_up() {
    let mut wait = Wait::new(ready_bit(), 1, 1000, 2);
    assert_eq!(wait.step(0), WaitStep::Go(Action::Read { address: STATUS }));
    assert_eq!(wait.step(0), WaitStep::Go(Action::Sleep { cycles: 1000 }));
    assert_eq!(wait.waited, 1);
    assert_eq!(wait.step(0), WaitStep::Go(Action::Read { address: STATUS }));
    assert_eq!(wait.step(0), WaitStep::Go(Action::Sleep { cycles: 1000 }));
    assert_eq!(wait.waited, 2);
    assert_eq!(wait.step(0x20), WaitStep::TimedOut);
    assert_eq!(wait.step(0x20), WaitStep::TimedOut);
    assert_eq!(wait.waited, 2);
    let mut again = wait.rearmed();
    assert_eq!(again, Wait::new(ready_bit(), 1, 1000, 2));
    assert_eq!(again.step(0), WaitStep::Go(Action::Read { address: STATUS }));
    assert_eq!(again.step(0x20), WaitStep::Met);
}

#[test]
fn wait_for_a_field_outside_the_register_is_never_met() {
    let mut wait = Wait::new(RegisterField::bits(STATUS, 31, 2), 0, 10, 1);
    assert_eq!(wait.step(0), WaitStep::Go(Action::Read { address: STATUS }));
    assert_eq!(wait.step(0), WaitStep::Go(Action::Sleep { cycles: 10 }));
    assert_eq!(wait.step(0), WaitStep::TimedOut);
}

#[test]
fn transmit_writes_each_byte_after_a_ready_look() {
    let mut transmit = Transmit::new(ready_bit(), 1, 10, DATA, vec![0x41, 0x42, 0x43]);
    assert_eq!(transmit.sent(), 0);
    assert!(!transmit.is_finished());
    assert_eq!(transmit.step(0x20), Action::Read { address: STATUS });
    assert_eq!(transmit.step(0x00), Action::Sleep { cycles: 10 });
    assert_eq!(transmit.step(0x20), Action::Read { address: STATUS });
    assert_eq!(transmit.step(0x20), Action::Write { address: DATA, value: 0x41 });
    assert_eq!(transmit.sent(), 1);
    assert_eq!(transmit.finish(), Err(UartError::new(UartErrorType::SendDataFailed)));
    assert_eq!(transmit.step(0x20), Action::Read { address: STATUS });
    assert_eq!(transmit.step(0xFF), Action::Write { address: DATA, value: 0x42 });
    assert_eq!(transmit.step(0x20), Action::Read { address: STATUS });
    assert_eq!(transmit.step(0x20), Action::Write { address: DATA, value: 0x43 });
    assert_eq!(transmit.sent(), 3);
    assert!(transmit.is_finished());
    assert_eq!(transmit.step(0x20), Action::Finished);
    assert_eq!(transmit.finish(), Ok(()));
}

#[test]
fn transmit_of_nothing_is_finished_at_once() {
    let mut transmit = Transmit::new(ready_bit(), 1, 10, DATA, Vec::new());
    assert!(transmit.is_finished());
    assert_eq!(transmit.step(0), Action::Finished);
    assert_eq!(transmit.sent(), 0);
    assert_eq!(transmit.finish(), Ok(()));
}

#[test]
fn receive_takes_the_lowest_eight_bits_of_the_data_register() {
    let mut receive = Receive::new(ready_bit(), 1, 1000, 0, DATA, 2);
    assert_eq!(receive.step(0), Action::Read { address: STATUS });
    assert_eq!(receive.step(0x20), Action::Read { address: DATA });
    assert_eq!(receive.step(0xABCD_EF12), Action::Read { address: STATUS });
    assert_eq!(receive.step(0x00), Action::Sleep { cycles: 1000 });
    assert_eq!(receive.step(0x00), Action::Read { address: STATUS });
    assert_eq!(receive.step(0x20), Action::Read { address: DATA });
    assert!(!receive.is_finished());
    assert_eq!(receive.step(0x0000_0100), Action::Finished);
    assert!(receive.is_finished());
    assert_eq!(receive.finish(), Ok(vec![0x12, 0x00]));
}

#[test]
fn receive_counts_the_pauses_for_each_byte_anew() {
    let mut receive = Receive::new(ready_bit(), 1, 1000, 2, DATA, 2);
    assert_eq!(receive.step(0), Action::Read { address: STATUS });
    assert_eq!(receive.step(0), Action::Sleep { cycles: 1000 });
    assert_eq!(receive.step(0), Action::Read { address: STATUS });
    assert_eq!(receive.step(0x20), Action::Read { address: DATA });
    assert_eq!(receive.step(0x31), Action::Read { address: STATUS });
    assert_eq!(receive.step(0), Action::Sleep { cycles: 1000 });
    assert_eq!(receive.step(0), Action::Read { address: STATUS });
    assert_eq!(receive.step(0), Action::Sleep { cycles: 1000 });
    assert_eq!(receive.step(0), Action::Finished);
    assert!(receive.is_finished());
    assert_eq!(receive.finish(), Err(UartError::new(UartErrorType::ReceiveDataTimeOut)));
}

#[test]
fn receive_of_nothing_is_finished_at_once() {
    let mut receive = Receive::new(ready_bit(), 1, 1000, 5, DATA, 0);
    assert!(receive.is_finished());
    assert_eq!(receive.step(0x20), Action::Finished);
    assert_eq!(receive.finish(), Ok(Vec::new()));
}

#[test]
fn receive_that_waits_for_its_byte_is_not_done() {
    let mut receive = Receive::new(ready_bit(), 1, 1000, 5, DATA, 1);
    assert_eq!(
        Receive::new(ready_bit(), 1, 1000, 5, DATA, 1).finish(),
        Err(UartError::new(UartErrorType::ReceiveDataFailed))
    );
    assert_eq!(receive.step(0), Action::Read { address: STATUS });
    assert_eq!(receive.step(0x20), Action::Read { address: DATA });
    assert!(!receive.is_finished());
    assert_eq!(receive.finish(), Err(UartError::new(UartErrorType::ReceiveDataFailed)));
}
