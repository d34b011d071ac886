//! What a driver asks of the hardware, one step at a time.
//!
//! The drivers touch no register themselves. A piece of work, such as a configuration or a
//! transfer, is a value with a `step` function: each call takes the content of the register
//! that the step before asked to read and answers with the next [`Action`]. Whoever owns the
//! hardware performs the action and calls `step` again, until the answer is
//! [`Action::Finished`].

use vstd::prelude::*;
use crate::register::{apply_from, RegisterOp};

verus! {

/// One thing to do with the hardware.
#[derive(Clone, Copy, Debug, PartialEq, Eq, Structural)]
pub enum Action {
    /// Read the register at `address` and hand its content to the next step.
    Read { address: u32 },
    /// Write `value` to the register at `address`.
    Write { address: u32, value: u32 },
    /// Let `cycles` processor cycles pass.
    Sleep { cycles: u32 },
    /// Nothing is left to do.
    Finished,
}

/// A list of register writes to be made in order.
pub struct Sequence {
    ops: Vec<RegisterOp>,
    done: usize,
    merging: bool,
}

/// How far a [`Sequence`] has come.
#[verifier::ext_equal]
pub struct SequenceState {
    /// The writes to make.
    pub ops: Seq<RegisterOp>,
    /// How many of them have been made.
    pub done: int,
    /// Whether the register of the next write has been asked for, to merge a field into it.
    pub merging: bool,
}

impl SequenceState {
    pub open spec fn valid(self) -> bool {
        &&& 0 <= self.done <= self.ops.len()
        &&& self.merging ==> self.done < self.ops.len() && self.ops[self.done] is Merge
    }

    /// The state before the first step.
    pub open spec fn start(ops: Seq<RegisterOp>) -> SequenceState {
        SequenceState { ops, done: 0, merging: false }
    }

    pub open spec fn finished(self) -> bool {
        self.done >= self.ops.len()
    }

    /// The state with one more write made.
    pub open spec fn advanced(self) -> SequenceState {
        SequenceState { done: self.done + 1, merging: false, ..self }
    }

    /// The next state and what to do, given the content `input` of the register that the
    /// step before asked to read.
    pub open spec fn step(self, input: u32) -> (SequenceState, Action) {
        if self.done < 0 || self.finished() {
            (self, Action::Finished)
        } else {
            match self.ops[self.done] {
                RegisterOp::Store { address, value } => (
                    self.advanced(),
                    Action::Write { address, value },
                ),
                RegisterOp::Merge { address, fields } => if self.merging {
                    (self.advanced(), Action::Write { address, value: fields.apply_spec(input) })
                } else {
                    (SequenceState { merging: true, ..self }, Action::Read { address })
                },
            }
        }
    }

    /// Steps that are left at most.
    pub open spec fn fuel(self) -> nat {
        if self.valid() {
            (2 * (self.ops.len() - self.done) + if self.merging {
                0int
            } else {
                1int
            }) as nat
        } else {
            0
        }
    }

    /// The registers after every action from here on has been performed on `registers`,
    /// which hold what was last written to them.
    pub open spec fn run_on(self, registers: Map<u32, u32>, input: u32) -> Map<u32, u32>
        decreases self.fuel(),
    {
        if !self.valid() {
            registers
        } else {
            match self.step(input).1 {
                Action::Read { address } => self.step(input).0.run_on(
                    registers,
                    registers[address],
                ),
                Action::Write { address, value } => self.step(input).0.run_on(
                    registers.insert(address, value),
                    0,
                ),
                _ => registers,
            }
        }
    }
}

impl View for Sequence {
    type V = SequenceState;

    closed spec fn view(&self) -> SequenceState {
        SequenceState { ops: self.ops@, done: self.done as int, merging: self.merging }
    }
}

impl Sequence {
    /// The work of making the writes `ops` in order.
    pub fn new(ops: Vec<RegisterOp>) -> (sequence: Self)
        ensures
            sequence@ == SequenceState::start(ops@),
            sequence@.valid(),
    {
        Sequence { ops, done: 0, merging: false }
    }

    /// The work that asks for nothing.
    pub fn empty() -> (sequence: Self)
        ensures
            sequence@ == SequenceState::start(Seq::empty()),
            sequence@.finished(),
    {
        Sequence { ops: Vec::new(), done: 0, merging: false }
    }

    /// Whether every write has been made.
    pub fn is_finished(&self) -> (finished: bool)
        ensures
            finished == self@.finished(),
    {
        self.done >= self.ops.len()
    }

    /// What to do next. `input` is the content of the register that the step before asked to
    /// read; it is not looked at otherwise.
    pub fn step(&mut self, input: u32) -> (action: Action)
        ensures
            final(self)@ == old(self)@.step(input).0,
            action == old(self)@.step(input).1,
            old(self)@.valid() ==> final(self)@.valid(),
            old(self)@.valid() && action != Action::Finished ==> final(self)@.fuel() < old(
                self,
            )@.fuel(),
    {
        if self.done >= self.ops.len() {
            return Action::Finished;
        }
        match self.ops[self.done] {
            RegisterOp::Store { address, value } => {
                self.merging = false;
                self.done = self.done + 1;
                Action::Write { address, value }
            },
            RegisterOp::Merge { address, fields } => {
                if self.merging {
                    self.merging = false;
                    self.done = self.done + 1;
                    Action::Write { address, value: fields.apply(input) }
                } else {
                    self.merging = true;
                    Action::Read { address }
                }
            },
        }
    }
}

/// What to do with the content of the register that a [`Probe`] reads.
#[derive(Clone, Copy, Debug, PartialEq, Eq, Structural)]
pub enum Answer {
    /// Keep it.
    Keep,
    /// Write it to the register at `target`.
    Echo { target: u32 },
    /// Write it to the register at `target` if it is `expect`.
    Confirm { target: u32, expect: u32 },
}

/// One look at a register, and at most one write that answers it.
#[derive(Clone, Copy, Debug, PartialEq, Eq, Structural)]
pub struct Probe {
    /// Address of the register to read.
    pub source: u32,
    /// What to do with its content.
    pub answer: Answer,
    /// The content, once it has been read.
    pub content: Option<u32>,
    /// Whether the register has been asked for.
    pub asked: bool,
}

impl Probe {
    /// The probe before its first step.
    pub open spec fn start(source: u32, answer: Answer) -> Probe {
        Probe { source, answer, content: None, asked: false }
    }

    /// The probe that asks for nothing and holds the content 0.
    pub open spec fn spec_idle() -> Probe {
        Probe { source: 0, answer: Answer::Keep, content: Some(0), asked: true }
    }

    /// The write that answers the register content `content`, if there is one.
    pub open spec fn reply(self, content: u32) -> Option<Action> {
        match self.answer {
            Answer::Keep => None,
            Answer::Echo { target } => Some(Action::Write { address: target, value: content }),
            Answer::Confirm { target, expect } => if content == expect {
                Some(Action::Write { address: target, value: content })
            } else {
                None
            },
        }
    }

    /// The next state and what to do, given the content `input` of the register that the
    /// step before asked to read.
    pub open spec fn step_spec(self, input: u32) -> (Probe, Action) {
        if !self.asked {
            (Probe { asked: true, ..self }, Action::Read { address: self.source })
        } else if self.content is None {
            (
                Probe { content: Some(input), ..self },
                match self.reply(input) {
                    Some(action) => action,
                    None => Action::Finished,
                },
            )
        } else {
            (self, Action::Finished)
        }
    }

    pub fn new(source: u32, answer: Answer) -> (probe: Self)
        ensures
            probe == Self::start(source, answer),
    {
        Probe { source, answer, content: None, asked: false }
    }

    #[verifier::when_used_as_spec(spec_idle)]
    pub fn idle() -> (probe: Self)
        ensures
            probe == Self::spec_idle(),
            forall|input: u32| #[trigger] probe.step_spec(input) == (probe, Action::Finished),
    {
        Probe { source: 0, answer: Answer::Keep, content: Some(0), asked: true }
    }

    /// What to do next. `input` is the content of the register that the step before asked to
    /// read; it is not looked at otherwise.
    pub fn step(&mut self, input: u32) -> (action: Action)
        ensures
            (*final(self), action) == old(self).step_spec(input),
    {
        if !self.asked {
            self.asked = true;
            Action::Read { address: self.source }
        } else if self.content.is_none() {
            self.content = Some(input);
            match self.answer {
                Answer::Keep => Action::Finished,
                Answer::Echo { target } => Action::Write { address: target, value: input },
                Answer::Confirm { target, expect } => {
                    if input == expect {
                        Action::Write { address: target, value: input }
                    } else {
                        Action::Finished
                    }
                },
            }
        } else {
            Action::Finished
        }
    }
}

/// Performing what a sequence asks for, on registers that hold what was last written to them,
/// leaves them as making its writes in order does.
pub proof fn sequence_makes_its_writes(state: SequenceState, registers: Map<u32, u32>, input: u32)
    requires
        state.valid(),
        !state.merging,
    ensures
        state.run_on(registers, input) == apply_from(state.ops, state.done, registers),
    decreases state.ops.len() - state.done,
{
    if state.done < state.ops.len() {
        let op = state.ops[state.done];
        let after = op.apply_spec(registers);
        match op {
            RegisterOp::Store { address, value } => {
                assert(state.run_on(registers, input) == state.advanced().run_on(after, 0));
            },
            RegisterOp::Merge { address, fields } => {
                let asked = SequenceState { merging: true, ..state };
                assert(state.run_on(registers, input) == asked.run_on(
                    registers,
                    registers[address],
                ));
                assert(asked.run_on(registers, registers[address]) == state.advanced().run_on(
                    after,
                    0,
                ));
            },
        }
        sequence_makes_its_writes(state.advanced(), after, 0);
    }
}

} // verus!
