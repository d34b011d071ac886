//! The life of a driver handle: not initialized, then ready, with a lease on its GPIO lines.

use vstd::prelude::*;
use crate::errors::UartError;
use crate::gpio::PinLease;
use crate::register::RegisterOp;

verus! {

/// Where a driver handle stands.
///
/// A handle starts out not initialized and holds no line. A successful initialization makes
/// it ready; from then on it holds both its GPIO lines, until it is released. A handle that
/// is not initialized holds none: an initialization that fails hands back at once what was
/// granted for it.
#[derive(Clone, Copy, Debug, PartialEq, Eq, Structural)]
pub struct Lifecycle {
    /// Whether the peripheral has been configured and can be used.
    pub initialized: bool,
}

/// An initialization that did not go on to the registers.
#[derive(Clone, Copy, Debug, PartialEq, Eq, Structural)]
pub struct InitializationFailure {
    /// Why it failed.
    pub error: UartError,
    /// The lines that were granted for it and are to be given back.
    pub lines: PinLease,
}

impl Lifecycle {
    /// Where a new handle stands.
    pub open spec fn fresh() -> Lifecycle {
        Lifecycle { initialized: false }
    }

    /// The lines that the handle holds: both once it is initialized, none before.
    pub open spec fn spec_lease(self) -> PinLease {
        if self.initialized {
            PinLease::both()
        } else {
            PinLease::none()
        }
    }

    /// Whether an initialization can go on to the registers: the handle holds its lines or
    /// is granted both now, and the rates admit a divisor.
    pub open spec fn can_initialize(self, granted: PinLease, rates_valid: bool) -> bool {
        (self.initialized || granted.complete()) && rates_valid
    }

    /// Where the handle stands after an initialization: ready if it could go on to the
    /// registers, and as before if not.
    pub open spec fn initialize_spec(self, granted: PinLease, rates_valid: bool) -> Lifecycle {
        Lifecycle { initialized: self.initialized || self.can_initialize(granted, rates_valid) }
    }

    /// The lines to give back after an initialization that did not go on to the registers:
    /// those that were granted for it. A handle that is ready holds its lines already, so
    /// that none can have been granted anew.
    pub open spec fn spec_refused(self, granted: PinLease) -> PinLease {
        if self.initialized {
            PinLease::none()
        } else {
            granted
        }
    }

    /// Where the handle stands after a release.
    pub open spec fn release_spec(self) -> Lifecycle {
        Self::fresh()
    }

    /// The bytes that a handle sends if it is asked to send `bytes`: none while it is not
    /// initialized.
    pub open spec fn sendable(self, bytes: Seq<u8>) -> Seq<u8> {
        if self.initialized {
            bytes
        } else {
            Seq::empty()
        }
    }

    /// The writes that a handle asks for if it is asked to make the write `op`: none while
    /// it is not initialized.
    pub open spec fn writable(self, op: RegisterOp) -> Seq<RegisterOp> {
        if self.initialized {
            seq![op]
        } else {
            Seq::empty()
        }
    }

    pub fn new() -> (state: Self)
        ensures
            state == Self::fresh(),
    {
        Lifecycle { initialized: false }
    }

    #[verifier::when_used_as_spec(spec_lease)]
    pub fn lease(self) -> (lease: PinLease)
        ensures
            lease == self.spec_lease(),
    {
        if self.initialized {
            PinLease::both()
        } else {
            PinLease::none()
        }
    }

    #[verifier::when_used_as_spec(spec_refused)]
    pub fn refused(self, granted: PinLease) -> (lines: PinLease)
        ensures
            lines == self.spec_refused(granted),
    {
        if self.initialized {
            PinLease::none()
        } else {
            granted
        }
    }

    /// Takes in the lines that were granted and the outcome of the look at the rates, and
    /// says whether the initialization can go on to the registers. If it cannot, the handle
    /// stays as it was.
    pub fn initialize(&mut self, granted: PinLease, rates_valid: bool) -> (go: bool)
        ensures
            *final(self) == old(self).initialize_spec(granted, rates_valid),
            go == old(self).can_initialize(granted, rates_valid),
            !go ==> *final(self) == *old(self),
    {
        if (self.initialized || granted.complete()) && rates_valid {
            self.initialized = true;
            true
        } else {
            false
        }
    }

    /// Gives up the lines and says which ones are to be given back.
    pub fn release(&mut self) -> (held: PinLease)
        ensures
            *final(self) == old(self).release_spec(),
            held == old(self).lease(),
    {
        let held = self.lease();
        self.initialized = false;
        held
    }
}

/// An initialization that fails leaves the handle as it was, and with the lines that it
/// held before: whatever was granted for the attempt goes back.
pub proof fn failed_initialization_keeps_nothing(
    state: Lifecycle,
    granted: PinLease,
    rates_valid: bool,
)
    requires
        !state.can_initialize(granted, rates_valid),
    ensures
        state.initialize_spec(granted, rates_valid) == state,
        state.initialize_spec(granted, rates_valid).lease() == state.lease(),
        !state.initialized ==> state.refused(granted) == granted,
        !state.initialized ==> state.initialize_spec(granted, rates_valid).lease()
            == PinLease::none(),
{
}

/// A second initialization goes on to the registers wherever the first one did, with or
/// without lines granted anew, and leaves the handle ready.
pub proof fn initialize_again(
    state: Lifecycle,
    granted: PinLease,
    again: PinLease,
    rates_valid: bool,
)
    requires
        state.can_initialize(granted, rates_valid),
    ensures
        state.initialize_spec(granted, rates_valid).initialized,
        state.initialize_spec(granted, rates_valid).can_initialize(again, rates_valid),
        state.initialize_spec(granted, rates_valid).initialize_spec(again, rates_valid)
            == state.initialize_spec(granted, rates_valid),
{
}

/// A handle that was never initialized holds no line, and a release leaves none with the
/// handle: the release of a handle that never was ready, and a second release, have nothing
/// to give back.
pub proof fn release_gives_back_once(state: Lifecycle)
    ensures
        !state.initialized ==> state.lease() == PinLease::none(),
        Lifecycle::fresh().lease() == PinLease::none(),
        state.release_spec().lease() == PinLease::none(),
        !state.release_spec().initialized,
        state.release_spec().release_spec() == state.release_spec(),
{
}

} // verus!
