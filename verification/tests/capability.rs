use bidirectional_pin::BidirectionalPin;
use bidirectional_pin::MockPin;
use bidirectional_pin::PinMode;
use bidirectional_pin::sample_result_to_level;

fn fresh_input_pin(line_level: bool, sampling_fails: bool) -> MockPin {
    let mut pin = MockPin::new();
    pin.drive_line(line_level);
    pin.inject_sampling_failure(sampling_fails);
    pin.set_as_input();
    pin
}

#[test]
fn low_is_negation_of_high_on_a_low_line() {
    let mut pin = fresh_input_pin(false, false);
    let high = pin.is_high();
    let low = pin.is_low();
    assert_eq!(low, !high);
    assert!(!high);
    assert!(low);
}

#[test]
fn low_is_negation_of_high_on_a_high_line() {
    let mut pin = fresh_input_pin(true, false);
    let high = pin.is_high();
    let low = pin.is_low();
    assert_eq!(low, !high);
    assert!(high);
    assert!(!low);
}

#[test]
fn low_is_negation_of_high_under_sampling_failure() {
    let mut pin = fresh_input_pin(true, true);
    let high = pin.is_high();
    let low = pin.is_low();
    assert_eq!(low, !high);
}

#[test]
fn set_as_output_twice_is_idempotent() {
    let mut pin = MockPin::new();
    pin.set_as_output();
    assert_eq!(pin.current_mode(), Some(PinMode::Output));
    pin.set_as_output();
    assert_eq!(pin.current_mode(), Some(PinMode::Output));
}

#[test]
fn set_as_input_right_after_set_as_output_switches_mode() {
    let mut pin = MockPin::new();
    pin.set_as_output();
    pin.set_as_input();
    assert_eq!(pin.current_mode(), Some(PinMode::Input));
}

#[test]
fn sampling_failure_degrades_to_low_and_never_raises() {
    let mut pin = MockPin::new();
    pin.drive_line(true);
    pin.inject_sampling_failure(true);
    pin.set_as_input();
    assert!(!pin.is_high());
    assert!(pin.is_low());
}

#[test]
fn undefined_mode_scenario_drives_then_samples() {
    let mut pin = MockPin::new();
    assert_eq!(pin.current_mode(), None);
    pin.set_as_output();
    pin.set_high();
    assert!(pin.driven_level());
    pin.set_as_output();
    pin.set_low();
    assert!(!pin.driven_level());
    pin.set_as_input();
    assert!(!pin.is_high());
    assert!(pin.is_low());
}

#[test]
fn successful_sample_passes_the_level_through() {
    assert!(sample_result_to_level(Result::<bool, u8>::Ok(true)));
    assert!(!sample_result_to_level(Result::<bool, u8>::Ok(false)));
}

#[test]
fn failed_sample_collapses_to_low() {
    assert!(!sample_result_to_level(Result::<bool, u8>::Err(7)));
}

fn switch_and_sample<P: BidirectionalPin>(pin: &mut P) -> bool {
    pin.set_as_input();
    pin.is_high()
}

#[test]
fn capability_is_usable_generically() {
    let mut pin = MockPin::new();
    pin.drive_line(true);
    assert!(switch_and_sample(&mut pin));
}

#[test]
fn peer_level_changes_are_seen_by_later_samples() {
    let mut pin = MockPin::new();
    pin.set_as_input();
    pin.drive_line(true);
    assert!(pin.is_high());
    pin.drive_line(false);
    assert!(!pin.is_high());
}
