//! The callbacks that are called when a UART raises an interrupt.

use vstd::prelude::*;
use crate::InterruptType;

verus! {

/// The callbacks of one UART: at most one for each direction. A callback is handed out once,
/// when its interrupt is raised, and is gone from the table then.
///
/// A callback is to be registered while the interrupt of its direction is disabled, so that
/// it is not asked for before it is there.
pub struct Handlers<F> {
    receive: Option<F>,
    transmit: Option<F>,
}

impl<F> Handlers<F> {
    /// The callback for received bytes.
    pub closed spec fn receive(&self) -> Option<F> {
        self.receive
    }

    /// The callback for the empty transmitter.
    pub closed spec fn transmit(&self) -> Option<F> {
        self.transmit
    }

    /// The callback for `direction`. There is none for both directions at once.
    pub open spec fn slot(&self, direction: InterruptType) -> Option<F> {
        match direction {
            InterruptType::Receive => self.receive(),
            InterruptType::Transmit => self.transmit(),
            InterruptType::ReceiveTransmit => None,
        }
    }

    /// Whether the table `after` and `function` are what is left and what is handed out
    /// when the callback for `direction` is taken out of this table. Where no direction is
    /// given, nothing is handed out and the table stays as it is.
    pub open spec fn hands_out(
        &self,
        direction: Option<InterruptType>,
        after: &Handlers<F>,
        function: Option<F>,
    ) -> bool {
        match direction {
            Some(direction) => {
                &&& function == self.slot(direction)
                &&& after.slot(direction) is None
                &&& direction != InterruptType::Receive ==> after.receive() == self.receive()
                &&& direction != InterruptType::Transmit ==> after.transmit() == self.transmit()
            },
            None => {
                &&& function is None
                &&& after.receive() == self.receive()
                &&& after.transmit() == self.transmit()
            },
        }
    }

    /// The table without callbacks.
    pub fn new() -> (handlers: Self)
        ensures
            handlers.receive() is None,
            handlers.transmit() is None,
    {
        Handlers { receive: None, transmit: None }
    }

    /// Whether a callback is registered for `direction`.
    pub fn is_registered(&self, direction: InterruptType) -> (registered: bool)
        ensures
            registered == self.slot(direction) is Some,
    {
        match direction {
            InterruptType::Receive => self.receive.is_some(),
            InterruptType::Transmit => self.transmit.is_some(),
            InterruptType::ReceiveTransmit => false,
        }
    }

    /// Registers `function` for one direction, in place of the one that was there, which is
    /// handed back. For both directions at once nothing is registered and `function` is
    /// handed back.
    pub fn register(&mut self, direction: InterruptType, function: F) -> (displaced: Option<F>)
        ensures
            match direction {
                InterruptType::Receive => {
                    &&& final(self).receive() == Some(function)
                    &&& final(self).transmit() == old(self).transmit()
                    &&& displaced == old(self).receive()
                },
                InterruptType::Transmit => {
                    &&& final(self).receive() == old(self).receive()
                    &&& final(self).transmit() == Some(function)
                    &&& displaced == old(self).transmit()
                },
                InterruptType::ReceiveTransmit => {
                    &&& final(self).receive() == old(self).receive()
                    &&& final(self).transmit() == old(self).transmit()
                    &&& displaced == Some(function)
                },
            },
    {
        match direction {
            InterruptType::Receive => {
                let displaced = self.receive.take();
                self.receive = Some(function);
                displaced
            },
            InterruptType::Transmit => {
                let displaced = self.transmit.take();
                self.transmit = Some(function);
                displaced
            },
            InterruptType::ReceiveTransmit => Some(function),
        }
    }

    /// Takes the callback for `direction` out of the table.
    pub fn take(&mut self, direction: InterruptType) -> (function: Option<F>)
        ensures
            old(self).hands_out(Some(direction), final(self), function),
    {
        match direction {
            InterruptType::Receive => self.receive.take(),
            InterruptType::Transmit => self.transmit.take(),
            InterruptType::ReceiveTransmit => None,
        }
    }
}

} // verus!
