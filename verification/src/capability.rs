//! The bidirectional-pin capability: six operations over an exclusively
//! owned handle to one physical GPIO line, with a two-state electrical mode.

use vstd::prelude::*;

verus! {

/// The electrical mode of the line: driving a level out, or sensing the
/// level that something else drives.
#[derive(Clone, Copy, PartialEq, Eq, Structural, Debug)]
pub enum PinMode {
    Output,
    Input,
}

/// A GPIO line whose direction is software-switchable at runtime.
///
/// The handle is exclusively owned; every operation takes it by `&mut`.
/// Mode is write-only state: the capability exposes no runtime getter, the
/// ghost `mode` function below exists only so that contracts can insist that
/// levels are driven in output mode and sampled in input mode. A fresh
/// handle may start in no known mode (`mode` is `None`); one of the two
/// mode setters must run before the first level operation.
pub trait BidirectionalPin: Sized {
    /// The electrical mode the handle is known to be in, if any.
    ///
    /// A verified implementation overrides this with its real model; an
    /// implementation the verifier never sees may leave the default, which
    /// claims no known mode.
    open spec fn mode(&self) -> Option<PinMode> {
        None
    }

    /// The level this handle last drove onto the line. Verified
    /// implementations override the default.
    open spec fn driven(&self) -> bool {
        false
    }

    /// The level the most recent sample of the line reported, with any
    /// sampling failure already degraded to low (`false`). Verified
    /// implementations override the default.
    open spec fn sample(&self) -> bool {
        false
    }

    /// Reconfigure the line to drive mode. Total: callable in any state,
    /// including when already in output mode (self-transition).
    fn set_as_output(&mut self)
        ensures
            final(self).mode() == Some(PinMode::Output),
    ;

    /// Reconfigure the line to sense mode. Total: callable in any state,
    /// including when already in input mode (self-transition).
    fn set_as_input(&mut self)
        ensures
            final(self).mode() == Some(PinMode::Input),
    ;

    /// Drive the line to logic high. Defined only in output mode.
    /// Fire-and-forget: a fallible backing primitive must not surface an
    /// error here.
    fn set_high(&mut self)
        requires
            old(self).mode() == Some(PinMode::Output),
        ensures
            final(self).mode() == Some(PinMode::Output),
            final(self).driven(),
    ;

    /// Drive the line to logic low. Defined only in output mode.
    /// Fire-and-forget, as `set_high` is.
    fn set_low(&mut self)
        requires
            old(self).mode() == Some(PinMode::Output),
        ensures
            final(self).mode() == Some(PinMode::Output),
            !final(self).driven(),
    ;

    /// Sample the line. Defined only in input mode. Returns true iff the
    /// sampled logic level is high; a backing primitive's failure to sample
    /// must already be degraded to `false`, never raised. What the wire
    /// carries may change between calls, so the result is pinned to the
    /// observation this call records, not to the handle's earlier state;
    /// the mode is untouched.
    fn is_high(&mut self) -> (high: bool)
        requires
            old(self).mode() == Some(PinMode::Input),
        ensures
            final(self).mode() == old(self).mode(),
            high == final(self).sample(),
    ;

    /// The derived operation: the logical negation of `is_high` at the
    /// moment of the call. It has this one universal definition; no
    /// implementation need override it.
    fn is_low(&mut self) -> (low: bool)
        requires
            old(self).mode() == Some(PinMode::Input),
        ensures
            final(self).mode() == old(self).mode(),
            low == !final(self).sample(),
    {
        !self.is_high()
    }
}

/// What a fallible backing sample collapses to at the capability boundary:
/// the reported level on success, and low on any failure.
pub open spec fn degraded_level<E>(sample: Result<bool, E>) -> bool {
    match sample {
        Ok(level) => level,
        Err(_) => false,
    }
}

/// Collapse a fallible backing sample to a best-effort level. A bit-bang
/// loop cannot tolerate control-flow interruption mid-frame, so a failure
/// is swallowed here and replaced by the defined default "not high".
pub fn sample_result_to_level<E>(sample: Result<bool, E>) -> (level: bool)
    ensures
        level == degraded_level(sample),
        sample is Err ==> !level,
{
    match sample {
        Ok(level) => level,
        Err(_) => false,
    }
}

/// A failed sample never reads high: whatever the backing error was, the
/// degraded level is low.
pub proof fn failed_sample_is_low<E>(sample: Result<bool, E>)
    requires
        sample is Err,
    ensures
        !degraded_level(sample),
{
}

} // verus!
