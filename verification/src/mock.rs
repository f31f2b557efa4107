//! A simulated backing pin: a fully specified implementation of the
//! capability, used to exercise the contract without hardware. The peer on
//! the wire and the backing primitive's health are both under the caller's
//! control.

use vstd::prelude::*;
use crate::capability::BidirectionalPin;
use crate::capability::PinMode;

verus! {

/// A mock pin. It starts in no known mode; the peer's level on the wire
/// and an injected sampling failure are plain fields, so a test can set up
/// any electrical situation directly.
pub struct MockPin {
    /// The mode the handle was last switched to, if any.
    pub mode_state: Option<PinMode>,
    /// The level this handle last drove.
    pub driven_level: bool,
    /// The level the peer drives onto the wire.
    pub line_level: bool,
    /// When set, the backing primitive reports a sampling failure.
    pub sampling_fails: bool,
}

impl MockPin {
    /// A fresh mock: undefined mode, line low, driving low, sampling healthy.
    pub fn new() -> (pin: MockPin)
        ensures
            pin.mode_state is None,
            !pin.driven_level,
            !pin.line_level,
            !pin.sampling_fails,
    {
        MockPin {
            mode_state: None,
            driven_level: false,
            line_level: false,
            sampling_fails: false,
        }
    }

    /// The peer drives the wire to `level`.
    pub fn drive_line(&mut self, level: bool)
        ensures
            *final(self) == (MockPin { line_level: level, ..*old(self) }),
    {
        self.line_level = level;
    }

    /// Make every later sample fail (or succeed again) at the backing
    /// primitive.
    pub fn inject_sampling_failure(&mut self, fails: bool)
        ensures
            *final(self) == (MockPin { sampling_fails: fails, ..*old(self) }),
    {
        self.sampling_fails = fails;
    }

    /// The mode the handle was last switched to, for a test's eyes; the
    /// capability itself exposes no such getter.
    pub fn current_mode(&self) -> (mode: Option<PinMode>)
        ensures
            mode == self.mode_state,
    {
        self.mode_state
    }

    /// The level this handle last drove, for a test's eyes.
    pub fn driven_level(&self) -> (level: bool)
        ensures
            level == self.driven_level,
    {
        self.driven_level
    }
}

impl BidirectionalPin for MockPin {
    open spec fn mode(&self) -> Option<PinMode> {
        self.mode_state
    }

    open spec fn driven(&self) -> bool {
        self.driven_level
    }

    open spec fn sample(&self) -> bool {
        !self.sampling_fails && self.line_level
    }

    fn set_as_output(&mut self)
        ensures
            *final(self) == (MockPin { mode_state: Some(PinMode::Output), ..*old(self) }),
    {
        self.mode_state = Some(PinMode::Output);
    }

    fn set_as_input(&mut self)
        ensures
            *final(self) == (MockPin { mode_state: Some(PinMode::Input), ..*old(self) }),
    {
        self.mode_state = Some(PinMode::Input);
    }

    fn set_high(&mut self)
        ensures
            *final(self) == (MockPin { driven_level: true, ..*old(self) }),
    {
        self.driven_level = true;
    }

    fn set_low(&mut self)
        ensures
            *final(self) == (MockPin { driven_level: false, ..*old(self) }),
    {
        self.driven_level = false;
    }

    fn is_high(&mut self) -> (high: bool)
        ensures
            *final(self) == *old(self),
            high == old(self).sample(),
    {
        if self.sampling_fails {
            false
        } else {
            self.line_level
        }
    }
}

/// When the backing primitive reports a sampling failure, the mock's sample
/// reads low, whatever the peer drives.
pub proof fn sampling_failure_reads_low(pin: MockPin)
    requires
        pin.sampling_fails,
    ensures
        !pin.sample(),
{
}

} // verus!
