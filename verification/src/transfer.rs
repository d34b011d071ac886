//! Sending and receiving bytes by watching a status field.
//!
//! Both directions rest on one primitive, [`Wait`]: look at a status field until it shows the
//! expected value, pause between two looks, and give up when a budget of pauses is used up.

use vstd::prelude::*;
use crate::bus::Action;
use crate::errors::{UartError, UartErrorType};
use crate::register::RegisterField;

verus! {

/// Waiting for a status field to show a value.
#[derive(Clone, Copy, Debug, PartialEq, Eq, Structural)]
pub struct Wait {
    /// The status field to look at.
    pub field: RegisterField,
    /// What the field shows when the wait is over.
    pub expect: u32,
    /// Cycles to pause after a look that did not show it.
    pub pause: u32,
    /// Pauses after which the wait gives up; 0 for a wait without bound.
    pub budget: u32,
    /// Pauses made so far, counted only where there is a bound.
    pub waited: u32,
    /// Whether the status register has been asked for.
    pub reading: bool,
}

/// What a [`Wait`] has come to.
#[derive(Clone, Copy, Debug, PartialEq, Eq, Structural)]
pub enum WaitStep {
    /// The wait goes on with this action.
    Go(Action),
    /// The field shows the expected value.
    Met,
    /// The budget is used up.
    TimedOut,
}

impl Wait {
    pub open spec fn valid(self) -> bool {
        &&& self.field.valid()
        &&& self.bounded() ==> self.waited <= self.budget
        &&& self.bounded() && self.reading ==> self.waited < self.budget
    }

    /// Whether the wait gives up at some point.
    pub open spec fn bounded(self) -> bool {
        self.budget != 0
    }

    /// Whether the budget is used up.
    pub open spec fn expired(self) -> bool {
        self.bounded() && self.waited >= self.budget
    }

    /// Whether the status register content `status` shows what is waited for.
    pub open spec fn met(self, status: u32) -> bool {
        self.field.valid() && self.field.read_spec(status) == self.expect
    }

    /// The wait before its first look.
    pub open spec fn start(field: RegisterField, expect: u32, pause: u32, budget: u32) -> Wait {
        Wait { field, expect, pause, budget, waited: 0, reading: false }
    }

    /// The same wait, begun anew.
    pub open spec fn spec_rearmed(self) -> Wait {
        Wait { waited: 0, reading: false, ..self }
    }

    /// The wait after one more pause.
    pub open spec fn paused(self) -> Wait {
        Wait {
            waited: if self.bounded() && self.waited < self.budget {
                (self.waited + 1) as u32
            } else {
                self.waited
            },
            reading: false,
            ..self
        }
    }

    /// The next state and what the wait has come to, given the content `input` of the status
    /// register if the step before asked for it.
    pub open spec fn step_spec(self, input: u32) -> (Wait, WaitStep) {
        if self.reading {
            if self.met(input) {
                (Wait { reading: false, ..self }, WaitStep::Met)
            } else {
                (self.paused(), WaitStep::Go(Action::Sleep { cycles: self.pause }))
            }
        } else if self.expired() {
            (self, WaitStep::TimedOut)
        } else {
            (
                Wait { reading: true, ..self },
                WaitStep::Go(Action::Read { address: self.field.register }),
            )
        }
    }

    /// Steps that a bounded wait has left at most.
    pub open spec fn fuel(self) -> int {
        2 * (self.budget - self.waited) + if self.reading {
            1int
        } else {
            2int
        }
    }

    pub fn new(field: RegisterField, expect: u32, pause: u32, budget: u32) -> (wait: Self)
        ensures
            wait == Self::start(field, expect, pause, budget),
            field.valid() ==> wait.valid(),
    {
        Wait { field, expect, pause, budget, waited: 0, reading: false }
    }

    #[verifier::when_used_as_spec(spec_rearmed)]
    pub fn rearmed(self) -> (wait: Self)
        ensures
            wait == self.spec_rearmed(),
    {
        Wait { waited: 0, reading: false, ..self }
    }

    /// Takes the wait one step further.
    pub fn step(&mut self, input: u32) -> (outcome: WaitStep)
        ensures
            (*final(self), outcome) == old(self).step_spec(input),
            old(self).valid() ==> final(self).valid(),
            old(self).valid() && old(self).bounded() && outcome is Go ==> final(self).fuel() < old(
                self,
            ).fuel(),
    {
        if self.reading {
            self.reading = false;
            if self.field.is_valid() && self.field.read(input) == self.expect {
                WaitStep::Met
            } else {
                if self.budget != 0 && self.waited < self.budget {
                    self.waited = self.waited + 1;
                }
                WaitStep::Go(Action::Sleep { cycles: self.pause })
            }
        } else if self.budget != 0 && self.waited >= self.budget {
            WaitStep::TimedOut
        } else {
            self.reading = true;
            WaitStep::Go(Action::Read { address: self.field.register })
        }
    }
}

/// Sending bytes: each one is written to the data register once the status field shows that
/// the transmitter takes it.
pub struct Transmit {
    wait: Wait,
    data: u32,
    bytes: Vec<u8>,
    sent: usize,
}

/// How far a [`Transmit`] has come.
#[verifier::ext_equal]
pub struct TransmitState {
    /// The wait for the transmitter.
    pub wait: Wait,
    /// Address of the data register.
    pub data: u32,
    /// The bytes to send.
    pub bytes: Seq<u8>,
    /// How many of them have been written.
    pub sent: int,
}

impl TransmitState {
    pub open spec fn valid(self) -> bool {
        &&& self.wait.valid()
        &&& !self.wait.bounded()
        &&& 0 <= self.sent <= self.bytes.len()
        &&& self.wait.reading ==> self.sent < self.bytes.len()
    }

    /// The state before the first step.
    pub open spec fn start(wait: Wait, data: u32, bytes: Seq<u8>) -> TransmitState {
        TransmitState { wait, data, bytes, sent: 0 }
    }

    pub open spec fn finished(self) -> bool {
        self.sent < 0 || self.sent >= self.bytes.len()
    }

    /// The next state and what to do, given the content `input` of the register that the
    /// step before asked to read.
    pub open spec fn step(self, input: u32) -> (TransmitState, Action) {
        if self.finished() {
            (self, Action::Finished)
        } else {
            match self.wait.step_spec(input) {
                (wait, WaitStep::Go(action)) => (TransmitState { wait, ..self }, action),
                (wait, WaitStep::Met) => (
                    TransmitState { wait: wait.rearmed(), sent: self.sent + 1, ..self },
                    Action::Write { address: self.data, value: self.bytes[self.sent] as u32 },
                ),
                (wait, WaitStep::TimedOut) => (TransmitState { wait, ..self }, Action::Finished),
            }
        }
    }

    /// The state after one step for each of `inputs`.
    pub open spec fn after(self, inputs: Seq<u32>) -> TransmitState
        decreases inputs.len(),
    {
        if inputs.len() == 0 {
            self
        } else {
            self.step(inputs[0]).0.after(inputs.drop_first())
        }
    }

    /// The values written to the data register in one step for each of `inputs`.
    pub open spec fn written(self, inputs: Seq<u32>) -> Seq<u32>
        decreases inputs.len(),
    {
        if inputs.len() == 0 {
            Seq::empty()
        } else {
            let rest = self.step(inputs[0]).0.written(inputs.drop_first());
            match self.step(inputs[0]).1 {
                Action::Write { address, value } => seq![value] + rest,
                _ => rest,
            }
        }
    }
}

impl View for Transmit {
    type V = TransmitState;

    closed spec fn view(&self) -> TransmitState {
        TransmitState {
            wait: self.wait,
            data: self.data,
            bytes: self.bytes@,
            sent: self.sent as int,
        }
    }
}

impl Transmit {
    /// The work of sending `bytes` through the data register at `data`, each once the field
    /// `field` shows `expect`, with `pause` cycles between two looks.
    pub fn new(field: RegisterField, expect: u32, pause: u32, data: u32, bytes: Vec<u8>) -> (transmit:
        Self)
        ensures
            transmit@ == TransmitState::start(Wait::start(field, expect, pause, 0), data, bytes@),
            field.valid() ==> transmit@.valid(),
    {
        Transmit { wait: Wait::new(field, expect, pause, 0), data, bytes, sent: 0 }
    }

    /// Whether every byte has been written.
    pub fn is_finished(&self) -> (finished: bool)
        ensures
            finished == self@.finished(),
    {
        self.sent >= self.bytes.len()
    }

    /// How many bytes have been written.
    pub fn sent(&self) -> (sent: usize)
        ensures
            sent == self@.sent,
    {
        self.sent
    }

    /// What to do next. `input` is the content of the register that the step before asked to
    /// read; it is not looked at otherwise.
    pub fn step(&mut self, input: u32) -> (action: Action)
        ensures
            final(self)@ == old(self)@.step(input).0,
            action == old(self)@.step(input).1,
            old(self)@.valid() ==> final(self)@.valid(),
    {
        if self.sent >= self.bytes.len() {
            return Action::Finished;
        }
        match self.wait.step(input) {
            WaitStep::Go(action) => action,
            WaitStep::Met => {
                let byte: u8 = self.bytes[self.sent];
                self.wait = self.wait.rearmed();
                self.sent = self.sent + 1;
                Action::Write { address: self.data, value: byte as u32 }
            },
            WaitStep::TimedOut => Action::Finished,
        }
    }

    /// Whether the bytes have all been sent: `SendDataFailed` while some are left.
    pub fn finish(&self) -> (result: Result<(), UartError>)
        ensures
            match result {
                Ok(_) => self@.finished(),
                Err(error) => !self@.finished() && error@ == UartErrorType::SendDataFailed,
            },
    {
        if self.sent >= self.bytes.len() {
            Ok(())
        } else {
            Err(UartError::new(UartErrorType::SendDataFailed))
        }
    }
}

/// Receiving bytes: each one is read from the data register once the status field shows that
/// one has arrived.
pub struct Receive {
    wait: Wait,
    data: u32,
    size: usize,
    bytes: Vec<u8>,
    fetching: bool,
    failed: bool,
}

/// How far a [`Receive`] has come.
#[verifier::ext_equal]
pub struct ReceiveState {
    /// The wait for the next byte.
    pub wait: Wait,
    /// Address of the data register.
    pub data: u32,
    /// How many bytes to receive.
    pub size: int,
    /// The bytes received so far.
    pub bytes: Seq<u8>,
    /// Whether the data register has been asked for.
    pub fetching: bool,
    /// Whether a wait has used up its budget.
    pub failed: bool,
}

/// The byte that a read of the data register delivers.
pub open spec fn data_byte(content: u32) -> u8 {
    (content & 0xFF) as u8
}

impl ReceiveState {
    pub open spec fn valid(self) -> bool {
        &&& self.wait.valid()
        &&& 0 <= self.bytes.len() <= self.size
        &&& self.fetching ==> !self.failed && self.bytes.len() < self.size && !self.wait.reading
    }

    /// The state before the first step.
    pub open spec fn start(wait: Wait, data: u32, size: int) -> ReceiveState {
        ReceiveState { wait, data, size, bytes: Seq::empty(), fetching: false, failed: false }
    }

    /// Whether nothing is left to do: every byte is there, or a wait has given up.
    pub open spec fn finished(self) -> bool {
        !self.fetching && (self.failed || self.bytes.len() >= self.size)
    }

    /// The state with the byte of the data register content `input` taken in.
    pub open spec fn fetched(self, input: u32) -> ReceiveState {
        ReceiveState {
            bytes: self.bytes.push(data_byte(input)),
            fetching: false,
            wait: self.wait.rearmed(),
            ..self
        }
    }

    /// The next state and what to do where no byte is being fetched.
    pub open spec fn look(self, input: u32) -> (ReceiveState, Action) {
        if self.failed || self.bytes.len() >= self.size {
            (self, Action::Finished)
        } else {
            match self.wait.step_spec(input) {
                (wait, WaitStep::Go(action)) => (ReceiveState { wait, ..self }, action),
                (wait, WaitStep::Met) => (
                    ReceiveState { wait, fetching: true, ..self },
                    Action::Read { address: self.data },
                ),
                (wait, WaitStep::TimedOut) => (
                    ReceiveState { wait, failed: true, ..self },
                    Action::Finished,
                ),
            }
        }
    }

    /// The next state and what to do, given the content `input` of the register that the
    /// step before asked to read.
    pub open spec fn step(self, input: u32) -> (ReceiveState, Action) {
        if self.fetching {
            self.fetched(input).look(input)
        } else {
            self.look(input)
        }
    }

    /// What the transfer has brought: the bytes once all are there, `ReceiveDataTimeOut` if a
    /// wait gave up, whatever had arrived before, and `ReceiveDataFailed` while bytes are
    /// still to come.
    pub open spec fn outcome(self) -> Result<Seq<u8>, UartErrorType> {
        if self.failed {
            Err(UartErrorType::ReceiveDataTimeOut)
        } else if self.bytes.len() >= self.size && !self.fetching {
            Ok(self.bytes)
        } else {
            Err(UartErrorType::ReceiveDataFailed)
        }
    }

    /// Steps that a receive with a bounded wait has left at most.
    pub open spec fn fuel(self) -> int {
        if self.failed {
            0
        } else {
            (self.size - self.bytes.len()) * (2 * self.wait.budget + 3) + if self.fetching {
                0
            } else {
                self.wait.fuel()
            }
        }
    }

    /// The state after one step for each of `inputs`.
    pub open spec fn after(self, inputs: Seq<u32>) -> ReceiveState
        decreases inputs.len(),
    {
        if inputs.len() == 0 {
            self
        } else {
            self.step(inputs[0]).0.after(inputs.drop_first())
        }
    }

    /// The bytes that the data register delivers in one step for each of `inputs`: the
    /// inputs of the steps that follow a read of the data register.
    pub open spec fn delivered(self, inputs: Seq<u32>) -> Seq<u8>
        decreases inputs.len(),
    {
        if inputs.len() == 0 {
            Seq::empty()
        } else {
            let rest = self.step(inputs[0]).0.delivered(inputs.drop_first());
            if self.fetching {
                seq![data_byte(inputs[0])] + rest
            } else {
                rest
            }
        }
    }
}

impl View for Receive {
    type V = ReceiveState;

    closed spec fn view(&self) -> ReceiveState {
        ReceiveState {
            wait: self.wait,
            data: self.data,
            size: self.size as int,
            bytes: self.bytes@,
            fetching: self.fetching,
            failed: self.failed,
        }
    }
}

impl Receive {
    /// The work of receiving `size` bytes from the data register at `data`, each once the
    /// field `field` shows `expect`, with `pause` cycles between two looks and at most
    /// `budget` pauses for one byte, or any number if `budget` is 0.
    pub fn new(
        field: RegisterField,
        expect: u32,
        pause: u32,
        budget: u32,
        data: u32,
        size: usize,
    ) -> (receive: Self)
        ensures
            receive@ == ReceiveState::start(
                Wait::start(field, expect, pause, budget),
                data,
                size as int,
            ),
            field.valid() ==> receive@.valid(),
    {
        Receive {
            wait: Wait::new(field, expect, pause, budget),
            data,
            size,
            bytes: Vec::new(),
            fetching: false,
            failed: false,
        }
    }

    /// Whether nothing is left to do.
    pub fn is_finished(&self) -> (finished: bool)
        ensures
            finished == self@.finished(),
    {
        !self.fetching && (self.failed || self.bytes.len() >= self.size)
    }

    /// What to do next. `input` is the content of the register that the step before asked to
    /// read; it is not looked at otherwise.
    pub fn step(&mut self, input: u32) -> (action: Action)
        ensures
            final(self)@ == old(self)@.step(input).0,
            action == old(self)@.step(input).1,
            old(self)@.valid() ==> final(self)@.valid(),
            old(self)@.valid() && old(self)@.wait.bounded() && action != Action::Finished
                ==> final(self)@.fuel() < old(self)@.fuel(),
    {
        proof {
            if self@.valid() && self@.wait.bounded() {
                lemma_fuel_step(self@, input);
            }
        }
        if self.fetching {
            assert((input & 0xFF) < 256) by (bit_vector);
            self.bytes.push((input & 0xFF) as u8);
            self.fetching = false;
            self.wait = self.wait.rearmed();
        }
        if self.failed || self.bytes.len() >= self.size {
            return Action::Finished;
        }
        match self.wait.step(input) {
            WaitStep::Go(action) => action,
            WaitStep::Met => {
                self.fetching = true;
                Action::Read { address: self.data }
            },
            WaitStep::TimedOut => {
                self.failed = true;
                Action::Finished
            },
        }
    }

    /// Ends the transfer and hands out what it has brought: the bytes once all are there,
    /// `ReceiveDataTimeOut` if a wait gave up, whatever had arrived before, and
    /// `ReceiveDataFailed` while bytes are still to come.
    pub fn finish(self) -> (result: Result<Vec<u8>, UartError>)
        ensures
            match result {
                Ok(bytes) => self@.outcome() == Ok::<Seq<u8>, UartErrorType>(bytes@),
                Err(error) => self@.outcome() == Err::<Seq<u8>, UartErrorType>(error@),
            },
    {
        if self.failed {
            Err(UartError::new(UartErrorType::ReceiveDataTimeOut))
        } else if self.bytes.len() >= self.size && !self.fetching {
            Ok(self.bytes)
        } else {
            Err(UartError::new(UartErrorType::ReceiveDataFailed))
        }
    }
}

proof fn lemma_fuel_step(state: ReceiveState, input: u32)
    requires
        state.valid(),
        state.wait.bounded(),
    ensures
        state.step(input).0.valid(),
        state.step(input).1 != Action::Finished ==> state.step(input).0.fuel() < state.fuel(),
        state.fuel() >= 0,
        !state.finished() ==> state.fuel() > 0,
{
    let left = state.size - state.bytes.len();
    let cost = 2 * state.wait.budget + 3;
    assert(left * cost >= 0) by (nonlinear_arith)
        requires
            left >= 0,
            cost >= 0,
    ;
    if left >= 1 {
        assert(left * cost >= cost) by (nonlinear_arith)
            requires
                left >= 1,
                cost >= 0,
        ;
    }
    if state.fetching {
        assert((left - 1) * cost == left * cost - cost) by (nonlinear_arith);
        assert((left - 1) * cost >= 0) by (nonlinear_arith)
            requires
                left >= 1,
                cost >= 0,
        ;
    }
}

/// A byte is written only in answer to a look at the status register that showed the
/// transmitter ready, and it is the next byte in order.
pub proof fn transmit_writes_after_ready_look(state: TransmitState, input: u32)
    requires
        state.valid(),
        state.step(input).1 is Write,
    ensures
        state.wait.reading,
        state.wait.met(input),
        state.step(input).1 == (Action::Write {
            address: state.data,
            value: state.bytes[state.sent] as u32,
        }),
        state.step(input).0.sent == state.sent + 1,
{
}

/// The status register content that a step looks at is the one that the step before asked
/// for.
pub proof fn transmit_looks_after_read(state: TransmitState, input: u32)
    requires
        state.valid(),
        state.step(input).0.wait.reading,
    ensures
        state.step(input).1 == (Action::Read { address: state.wait.field.register }),
{
}

/// Whatever the status register shows, the values written to the data register are the
/// bytes in order, none left out and none twice.
pub proof fn transmit_writes_bytes_in_order(state: TransmitState, inputs: Seq<u32>)
    requires
        state.valid(),
    ensures
        state.after(inputs).valid(),
        state.after(inputs).bytes == state.bytes,
        state.sent <= state.after(inputs).sent,
        state.written(inputs) == Seq::new(
            (state.after(inputs).sent - state.sent) as nat,
            |i: int| state.bytes[state.sent + i] as u32,
        ),
    decreases inputs.len(),
{
    if inputs.len() > 0 {
        let next = state.step(inputs[0]).0;
        let rest = inputs.drop_first();
        transmit_writes_bytes_in_order(next, rest);
        let all = Seq::new(
            (state.after(inputs).sent - state.sent) as nat,
            |i: int| state.bytes[state.sent + i] as u32,
        );
        assert(state.written(inputs) =~= all);
    } else {
        assert(state.written(inputs) =~= Seq::new(
            (state.after(inputs).sent - state.sent) as nat,
            |i: int| state.bytes[state.sent + i] as u32,
        ));
    }
}

/// A transfer with nothing to send asks for nothing.
pub proof fn transmit_of_nothing_is_finished(state: TransmitState, input: u32)
    requires
        state.bytes.len() == 0,
    ensures
        state.step(input) == (state, Action::Finished),
{
}

proof fn lemma_finished_stays(state: ReceiveState, inputs: Seq<u32>)
    requires
        state.finished(),
    ensures
        state.after(inputs) == state,
    decreases inputs.len(),
{
    if inputs.len() > 0 {
        lemma_finished_stays(state, inputs.drop_first());
    }
}

/// A receive with a bounded wait comes to an end, whatever the registers show: after as many
/// steps as it has fuel, nothing is left to do.
pub proof fn receive_finishes(state: ReceiveState, inputs: Seq<u32>)
    requires
        state.valid(),
        state.wait.bounded(),
        inputs.len() >= state.fuel(),
    ensures
        state.after(inputs).finished(),
        state.after(inputs).valid(),
    decreases inputs.len(),
{
    lemma_fuel_step(state, if inputs.len() > 0 {
        inputs[0]
    } else {
        0
    });
    if state.finished() {
        lemma_finished_stays(state, inputs);
    } else if inputs.len() > 0 {
        let next = state.step(inputs[0]).0;
        if state.step(inputs[0]).1 == Action::Finished {
            lemma_finished_stays(next, inputs.drop_first());
        } else {
            receive_finishes(next, inputs.drop_first());
        }
    }
}

/// While the status register never shows a byte, none is taken in.
pub proof fn receive_without_data_takes_nothing(state: ReceiveState, inputs: Seq<u32>)
    requires
        state.valid(),
        !state.fetching,
        forall|i: int| 0 <= i < inputs.len() ==> !state.wait.met(#[trigger] inputs[i]),
    ensures
        state.after(inputs).bytes == state.bytes,
        !state.after(inputs).fetching,
    decreases inputs.len(),
{
    if inputs.len() > 0 {
        let next = state.step(inputs[0]).0;
        let rest = inputs.drop_first();
        assert(!state.wait.met(inputs[0]));
        assert forall|i: int| 0 <= i < rest.len() implies !next.wait.met(#[trigger] rest[i]) by {
            assert(rest[i] == inputs[i + 1]);
        }
        receive_without_data_takes_nothing(next, rest);
    }
}

/// A receive with a bounded wait that never sees a byte arrive ends with
/// `ReceiveDataTimeOut`, after no more steps than it has fuel.
pub proof fn receive_without_data_times_out(state: ReceiveState, inputs: Seq<u32>)
    requires
        state.valid(),
        state.wait.bounded(),
        !state.fetching,
        state.bytes.len() < state.size,
        inputs.len() >= state.fuel(),
        forall|i: int| 0 <= i < inputs.len() ==> !state.wait.met(#[trigger] inputs[i]),
    ensures
        state.after(inputs).finished(),
        state.after(inputs).outcome() == Err::<Seq<u8>, UartErrorType>(
            UartErrorType::ReceiveDataTimeOut,
        ),
{
    receive_finishes(state, inputs);
    receive_without_data_takes_nothing(state, inputs);
    lemma_size_kept(state, inputs);
}

proof fn lemma_size_kept(state: ReceiveState, inputs: Seq<u32>)
    ensures
        state.after(inputs).size == state.size,
        state.after(inputs).data == state.data,
    decreases inputs.len(),
{
    if inputs.len() > 0 {
        lemma_size_kept(state.step(inputs[0]).0, inputs.drop_first());
    }
}

/// The bytes received are what the data register delivered, in order, none left out and
/// none twice.
pub proof fn receive_takes_bytes_in_order(state: ReceiveState, inputs: Seq<u32>)
    ensures
        state.after(inputs).bytes == state.bytes + state.delivered(inputs),
    decreases inputs.len(),
{
    if inputs.len() > 0 {
        let next = state.step(inputs[0]).0;
        receive_takes_bytes_in_order(next, inputs.drop_first());
        assert(state.after(inputs).bytes =~= state.bytes + state.delivered(inputs));
    } else {
        assert(state.after(inputs).bytes =~= state.bytes + state.delivered(inputs));
    }
}

/// The data register is read only in answer to a look at the status register that showed
/// a byte.
pub proof fn receive_reads_after_ready_look(state: ReceiveState, input: u32)
    requires
        state.valid(),
        state.step(input).0.fetching,
    ensures
        state.step(input).1 == (Action::Read { address: state.data }),
        !state.fetching,
        state.wait.reading,
        state.wait.met(input),
{
}

/// Every pause of a receive is of the same length, and with a bounded wait it is counted:
/// no more than the budget are made for one byte.
pub proof fn receive_pauses_are_counted(state: ReceiveState, input: u32)
    requires
        state.valid(),
        state.step(input).1 is Sleep,
    ensures
        state.step(input).1 == (Action::Sleep { cycles: state.wait.pause }),
        state.wait.bounded() ==> state.step(input).0.wait.waited == state.wait.waited + 1,
        state.wait.bounded() ==> state.step(input).0.wait.waited <= state.wait.budget,
{
}

/// A receive of no bytes asks for nothing.
pub proof fn receive_of_nothing_is_finished(state: ReceiveState, input: u32)
    requires
        state.valid(),
        state.size == 0,
    ensures
        state.step(input) == (state, Action::Finished),
{
}

} // verus!
