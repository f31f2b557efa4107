//! A capability contract for a single GPIO line that is switched at runtime
//! between driving (output) and sensing (input), as bit-banged half-duplex
//! buses need. The contract pins down the mode state machine, the derived
//! `is_low` operation, and the policy that a failed sample degrades to low.

pub mod capability;
pub mod mock;
pub mod nrf;

pub use capability::BidirectionalPin;
pub use capability::PinMode;
pub use capability::degraded_level;
pub use capability::failed_sample_is_low;
pub use capability::sample_result_to_level;
pub use mock::MockPin;
pub use nrf::NrfFlexPin;
