//! Breathing driver: translates the tuned duty-cycle range and the two
//! breath durations into the fade operations that pace the LED.
//!
//! The hardware fade primitive itself is an opaque blocking operation
//! outside the library; what is verified here is the plan handed to it —
//! a fade always runs over the driver's field values at the moment it is
//! started, and the duty range is never inverted.

use vstd::prelude::*;
use crate::constants;

verus! {

/// One timed ramp of the PWM duty cycle, handed to the hardware fade
/// primitive.
#[derive(Copy, Clone, PartialEq, Eq, Structural, Debug)]
pub struct Fade {
    /// Duty-cycle percentage the ramp starts from.
    pub start_duty: u8,
    /// Duty-cycle percentage the ramp ends at.
    pub end_duty: u8,
    /// How long the ramp takes, in milliseconds.
    pub duration_ms: u16,
}

/// The breathing driver's state, refreshed from the configuration once
/// per control-loop iteration.
pub struct BreathingLed {
    /// Duty-cycle percentage of an emptied breath.
    pub min_duty: u8,
    /// Duty-cycle percentage of a full breath: the brightness ceiling.
    pub max_duty: u8,
    /// Duration of the inhale fade, in milliseconds.
    pub breathe_in_time_ms: u16,
    /// Duration of the exhale fade, in milliseconds.
    pub breathe_out_time_ms: u16,
}

/// The uniform surface the control loop breathes through: something that
/// can plan the two timed fades of one breath.  On the device the plans
/// are handed to the hardware fade primitive, which blocks until each
/// ramp completes.
pub trait Breather {
    /// Duty-cycle percentage an emptied breath rests at.
    spec fn duty_floor(&self) -> u8;

    /// Duty-cycle percentage a full breath reaches.
    spec fn duty_ceiling(&self) -> u8;

    /// Duration of the inhale ramp, in milliseconds.
    spec fn inhale_ms(&self) -> u16;

    /// Duration of the exhale ramp, in milliseconds.
    spec fn exhale_ms(&self) -> u16;

    /// Plans the inhale: a fade from the empty duty up to the ceiling
    /// over the inhale duration, using the state at the moment the fade
    /// starts.  The duty range must not be inverted, or the fade
    /// direction would be undefined.
    fn breathe_in(&self) -> (fade: Fade)
        requires
            self.duty_floor() <= self.duty_ceiling(),
        ensures
            fade == (Fade {
                start_duty: self.duty_floor(),
                end_duty: self.duty_ceiling(),
                duration_ms: self.inhale_ms(),
            }),
    ;

    /// Plans the exhale: a fade from the ceiling back down to the empty
    /// duty over the exhale duration, using the state at the moment the
    /// fade starts.
    fn breathe_out(&self) -> (fade: Fade)
        requires
            self.duty_floor() <= self.duty_ceiling(),
        ensures
            fade == (Fade {
                start_duty: self.duty_ceiling(),
                end_duty: self.duty_floor(),
                duration_ms: self.exhale_ms(),
            }),
    ;
}

impl BreathingLed {
    /// The duty range must never be inverted, or the fade direction would
    /// be undefined.
    pub open spec fn wf(self) -> bool {
        self.min_duty <= self.max_duty
    }

    /// A fresh driver breathes over the full duty range at the shortest
    /// configured pace.
    pub fn new() -> (led: BreathingLed)
        ensures
            led == (BreathingLed {
                min_duty: 0u8,
                max_duty: 100u8,
                breathe_in_time_ms: constants::MIN_INHALE_TIME_MS,
                breathe_out_time_ms: constants::MIN_EXHALE_TIME_MS,
            }),
            led.wf(),
    {
        BreathingLed {
            min_duty: 0,
            max_duty: 100,
            breathe_in_time_ms: constants::MIN_INHALE_TIME_MS,
            breathe_out_time_ms: constants::MIN_EXHALE_TIME_MS,
        }
    }

}

impl Breather for BreathingLed {
    open spec fn duty_floor(&self) -> u8 {
        self.min_duty
    }

    open spec fn duty_ceiling(&self) -> u8 {
        self.max_duty
    }

    open spec fn inhale_ms(&self) -> u16 {
        self.breathe_in_time_ms
    }

    open spec fn exhale_ms(&self) -> u16 {
        self.breathe_out_time_ms
    }

    fn breathe_in(&self) -> (fade: Fade) {
        Fade {
            start_duty: self.min_duty,
            end_duty: self.max_duty,
            duration_ms: self.breathe_in_time_ms,
        }
    }

    fn breathe_out(&self) -> (fade: Fade) {
        Fade {
            start_duty: self.max_duty,
            end_duty: self.min_duty,
            duration_ms: self.breathe_out_time_ms,
        }
    }
}

} // verus!
