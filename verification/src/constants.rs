//! Device-wide tuning constants: the potentiometer's nominal analog range
//! and quantization, and the physical range of every tunable setting.

use vstd::prelude::*;

verus! {

// Potentiometer sampling parameters.
pub const POT_READ_COUNT: u16 = 5;
pub const POT_MIN: u16 = 430;
pub const POT_MAX: u16 = 3410;
// The nominal range is expanded by this margin on both ends so that the
// extreme segments stay reachable even when the physical wiper cannot
// quite reach its rail values.
pub const POT_DEADZONE: u16 = 200;
pub const POT_SEGMENTS: u16 = 10;

// Quantized segment range handed to the configuration model.
pub const SEGMENT_MIN: u8 = 0;
pub const SEGMENT_MAX: u8 = 10;

// Physical ranges of the tunable settings, in milliseconds.
pub const MIN_INHALE_TIME_MS: u16 = 3000;
pub const MAX_INHALE_TIME_MS: u16 = 10000;

pub const MIN_EXHALE_TIME_MS: u16 = 3000;
pub const MAX_EXHALE_TIME_MS: u16 = 10000;

pub const MIN_HOLD_TIME_MS: u16 = 1000;
pub const MAX_HOLD_TIME_MS: u16 = 10000;

pub const MIN_AIRLESS_TIME_MS: u16 = 500;
pub const MAX_AIRLESS_TIME_MS: u16 = 10000;

// Brightness ceiling, in percent of full duty.
pub const MIN_BRIGHTNESS_PCT: u16 = 0;
pub const MAX_BRIGHTNESS_PCT: u16 = 100;

} // verus!
