//! The order in which the receive interrupt is armed at boot.
//!
//! Once the interrupt is unmasked at the interrupt controller the handler may
//! run at any instruction, so everything it relies on has to be in place
//! before. The firmware asks [`Boot::next_step`] what to do, does it, and asks
//! again until there is nothing left; it starts the foreground loop after
//! that.

use vstd::prelude::*;

verus! {

/// One step of the arming sequence.
#[derive(Clone, Copy, Debug, PartialEq, Eq)]
pub enum BootStep {
    /// Configure and enable the serial peripheral: pins, baud rate, frame.
    ConfigureSerial,
    /// Enable the peripheral's receive-ready interrupt source.
    EnableReceiveInterrupt,
    /// Unmask the peripheral's interrupt at the interrupt controller.
    UnmaskInterrupt,
}

/// How far the arming sequence has come.
#[derive(Clone, Copy, Debug, PartialEq, Eq)]
pub struct Arming {
    /// The serial peripheral is configured and enabled.
    pub serial_configured: bool,
    /// The receive-ready interrupt source is enabled.
    pub receive_enabled: bool,
    /// The interrupt is unmasked at the interrupt controller.
    pub unmasked: bool,
}

impl Arming {
    /// The state out of reset: nothing done.
    pub open spec fn reset() -> Arming {
        Arming { serial_configured: false, receive_enabled: false, unmasked: false }
    }

    /// Every step was taken after the steps it relies on.
    pub open spec fn in_order(self) -> bool {
        &&& self.receive_enabled ==> self.serial_configured
        &&& self.unmasked ==> self.receive_enabled
    }

    /// The handler can only run against a peripheral that is fully set up.
    pub open spec fn safe(self) -> bool {
        self.unmasked ==> self.serial_configured && self.receive_enabled
    }

    /// All three steps are done: the handler may run from now on.
    pub open spec fn is_armed(self) -> bool {
        self.serial_configured && self.receive_enabled && self.unmasked
    }

    /// The step to take in this state: the first one that is not done yet.
    pub open spec fn pending_step(self) -> Option<BootStep> {
        if !self.serial_configured {
            Some(BootStep::ConfigureSerial)
        } else if !self.receive_enabled {
            Some(BootStep::EnableReceiveInterrupt)
        } else if !self.unmasked {
            Some(BootStep::UnmaskInterrupt)
        } else {
            None
        }
    }

    /// The state once `step` is done.
    pub open spec fn with(self, step: BootStep) -> Arming {
        match step {
            BootStep::ConfigureSerial => Arming { serial_configured: true, ..self },
            BootStep::EnableReceiveInterrupt => Arming { receive_enabled: true, ..self },
            BootStep::UnmaskInterrupt => Arming { unmasked: true, ..self },
        }
    }

    /// The state once the pending step, if any, is done.
    pub open spec fn advance(self) -> Arming {
        match self.pending_step() {
            Some(step) => self.with(step),
            None => self,
        }
    }
}

/// The sequence never runs ahead of itself: a state in which every step was
/// taken in order is safe, and the pending step leads to another such state.
/// In particular the interrupt is unmasked only once the peripheral is
/// configured and its receive-ready source enabled.
pub proof fn lemma_sequence_stays_in_order(arming: Arming)
    requires
        arming.in_order(),
    ensures
        arming.safe(),
        arming.advance().in_order(),
        arming.pending_step() == Some(BootStep::UnmaskInterrupt) ==> arming.serial_configured
            && arming.receive_enabled,
{
}

/// From reset the steps come out as configure, enable, unmask, with the
/// unmask last; after these three the sequence is armed and asks for nothing
/// more.
pub proof fn lemma_three_steps_arm()
    ensures
        Arming::reset().in_order(),
        Arming::reset().pending_step() == Some(BootStep::ConfigureSerial),
        Arming::reset().advance().pending_step() == Some(BootStep::EnableReceiveInterrupt),
        Arming::reset().advance().advance().pending_step() == Some(BootStep::UnmaskInterrupt),
        Arming::reset().advance().advance().advance().is_armed(),
        Arming::reset().advance().advance().advance().pending_step() == None::<BootStep>,
{
}

/// The arming sequence of one boot.
#[derive(Debug)]
pub struct Boot {
    serial_configured: bool,
    receive_enabled: bool,
    unmasked: bool,
}

impl View for Boot {
    type V = Arming;

    closed spec fn view(&self) -> Arming {
        Arming {
            serial_configured: self.serial_configured,
            receive_enabled: self.receive_enabled,
            unmasked: self.unmasked,
        }
    }
}

impl Boot {
    /// The sequence out of reset.
    pub fn new() -> (boot: Boot)
        ensures
            boot@ == Arming::reset(),
    {
        Boot { serial_configured: false, receive_enabled: false, unmasked: false }
    }

    /// Hands out the step to take now and records it as done, or `None` once
    /// the sequence is complete.
    pub fn next_step(&mut self) -> (step: Option<BootStep>)
        ensures
            step == old(self)@.pending_step(),
            final(self)@ == old(self)@.advance(),
            old(self)@.in_order() ==> final(self)@.in_order(),
    {
        if !self.serial_configured {
            self.serial_configured = true;
            Some(BootStep::ConfigureSerial)
        } else if !self.receive_enabled {
            self.receive_enabled = true;
            Some(BootStep::EnableReceiveInterrupt)
        } else if !self.unmasked {
            self.unmasked = true;
            Some(BootStep::UnmaskInterrupt)
        } else {
            None
        }
    }

    /// Whether the sequence is complete, so that the handler may run.
    pub fn is_armed(&self) -> (armed: bool)
        ensures
            armed == self@.is_armed(),
    {
        self.serial_configured && self.receive_enabled && self.unmasked
    }
}

} // verus!
