//! Direct binding of the capability to embassy-nrf's flexible pin. The
//! platform primitive wants explicit electrical parameters, so this adapter
//! supplies the fixed defaults of the half-duplex wire: standard drive
//! strength when driving, no pull resistor when sensing. The electrical
//! mode, which the hardware holds but the primitive does not report, is
//! tracked as ghost state.

use vstd::prelude::*;
use crate::capability::BidirectionalPin;
use crate::capability::PinMode;

verus! {

#[verifier::external_type_specification]
#[verifier::external_body]
pub struct ExFlex<'d>(embassy_nrf::gpio::Flex<'d>);

/// Relies on embassy_nrf::gpio::Flex::set_as_output: writes the pin's
/// configuration register to output direction with standard drive strength;
/// the output level held in the port's OUT register is left as it was.
#[verifier::external_body]
fn flex_set_as_output<'d>(flex: &mut embassy_nrf::gpio::Flex<'d>) {
    flex.set_as_output(embassy_nrf::gpio::OutputDrive::Standard);
}

/// Relies on embassy_nrf::gpio::Flex::set_as_input: writes the pin's
/// configuration register to input direction with no pull resistor; the
/// OUT register is left as it was.
#[verifier::external_body]
fn flex_set_as_input<'d>(flex: &mut embassy_nrf::gpio::Flex<'d>) {
    flex.set_as_input(embassy_nrf::gpio::Pull::None);
}

/// Relies on embassy_nrf::gpio::Flex::set_high: sets this pin's bit in the
/// port's OUT register; it cannot fail and does not reconfigure the pin's
/// direction.
#[verifier::external_body]
fn flex_set_high<'d>(flex: &mut embassy_nrf::gpio::Flex<'d>) {
    flex.set_high();
}

/// Relies on embassy_nrf::gpio::Flex::set_low: clears this pin's bit in
/// the port's OUT register; it cannot fail and does not reconfigure the
/// pin's direction.
#[verifier::external_body]
fn flex_set_low<'d>(flex: &mut embassy_nrf::gpio::Flex<'d>) {
    flex.set_low();
}

/// Relies on embassy_nrf::gpio::Flex::is_high: reads the port's IN
/// register and reports this pin's bit; it cannot fail, never blocks, and
/// does not reconfigure the pin. The level is the hardware's to choose, so
/// nothing more is promised of the result.
#[verifier::external_body]
fn flex_is_high<'d>(flex: &embassy_nrf::gpio::Flex<'d>) -> bool {
    flex.is_high()
}

/// An embassy-nrf flexible pin together with the ghost record of the mode
/// it was last switched to, the level it last drove, and the level it last
/// sampled.
pub struct NrfFlexPin<'d> {
    flex: embassy_nrf::gpio::Flex<'d>,
    mode_state: Ghost<Option<PinMode>>,
    driven_level: Ghost<bool>,
    sampled_level: Ghost<bool>,
}

impl<'d> NrfFlexPin<'d> {
    /// Adopt a flexible pin. Its electrical history is unknown here, so the
    /// handle starts with no known mode; a caller must switch the mode
    /// before the first level operation.
    pub fn new(flex: embassy_nrf::gpio::Flex<'d>) -> (pin: NrfFlexPin<'d>)
        ensures
            pin.mode() is None,
    {
        NrfFlexPin {
            flex,
            mode_state: Ghost(None),
            driven_level: Ghost(false),
            sampled_level: Ghost(false),
        }
    }
}

impl<'d> BidirectionalPin for NrfFlexPin<'d> {
    closed spec fn mode(&self) -> Option<PinMode> {
        self.mode_state@
    }

    closed spec fn driven(&self) -> bool {
        self.driven_level@
    }

    closed spec fn sample(&self) -> bool {
        self.sampled_level@
    }

    fn set_as_output(&mut self)
        ensures
            final(self).driven() == old(self).driven(),
            final(self).sample() == old(self).sample(),
    {
        flex_set_as_output(&mut self.flex);
        self.mode_state = Ghost(Some(PinMode::Output));
    }

    fn set_as_input(&mut self)
        ensures
            final(self).driven() == old(self).driven(),
            final(self).sample() == old(self).sample(),
    {
        flex_set_as_input(&mut self.flex);
        self.mode_state = Ghost(Some(PinMode::Input));
    }

    fn set_high(&mut self)
        ensures
            final(self).sample() == old(self).sample(),
    {
        flex_set_high(&mut self.flex);
        self.driven_level = Ghost(true);
    }

    fn set_low(&mut self)
        ensures
            final(self).sample() == old(self).sample(),
    {
        flex_set_low(&mut self.flex);
        self.driven_level = Ghost(false);
    }

    fn is_high(&mut self) -> (high: bool)
        ensures
            final(self).driven() == old(self).driven(),
    {
        let high = flex_is_high(&self.flex);
        self.sampled_level = Ghost(high);
        high
    }
}

} // verus!
