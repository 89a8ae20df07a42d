//! Guarded shared state: the configuration and the button dispatch table
//! behind a single mutual-exclusion region with interrupt-masking
//! semantics.
//!
//! The configuration is touched from two execution contexts — the
//! foreground control loop and the button interrupt — so every access
//! goes through this wrapper and never through a raw reference.  While
//! the foreground holds the region the interrupt is masked: a press that
//! arrives meanwhile stays latched in its button's pending condition and
//! is serviced only when the region is released, so the interrupt's
//! cursor move can only happen between foreground critical sections.

use vstd::prelude::*;
use crate::button::{
    lemma_pending_count_latch, lemma_pending_count_zero, pending_count, Button, Buttons,
};
use crate::config::{
    setting_index, spec_adjust_at, spec_next_cursor, Config, ConfigItem, SettingName,
    SETTING_COUNT,
};
use crate::constants;
use crate::led::BreathingLed;

verus! {

/// The process-wide shared state: the configuration, the registered
/// buttons, and whether the foreground currently holds the exclusion
/// region (equivalently, whether the button interrupt is masked).
pub struct SharedConfig {
    config: Config,
    buttons: Buttons,
    masked: bool,
}

impl SharedConfig {
    /// The configuration as the next critical section will observe it.
    pub closed spec fn config(self) -> Config {
        self.config
    }

    /// The registered buttons with their latched pending conditions.
    pub closed spec fn buttons(self) -> Seq<Button> {
        self.buttons.registered@
    }

    /// Whether the foreground holds the exclusion region, masking the
    /// button interrupt.
    pub closed spec fn masked(self) -> bool {
        self.masked
    }

    /// The configuration is well formed, and while the interrupt is
    /// unmasked no press stays latched: it was serviced the moment it
    /// arrived.
    pub open spec fn wf(self) -> bool {
        &&& self.config().wf()
        &&& !self.masked() ==> pending_count(self.buttons()) == 0
    }

    /// Sets up the shared state at startup: a freshly constructed
    /// configuration, no buttons registered yet, interrupt unmasked.
    pub fn new() -> (s: SharedConfig)
        ensures
            s.wf(),
            !s.masked(),
            s.config().is_initial(),
            s.buttons().len() == 0,
    {
        SharedConfig { config: Config::new(), buttons: Buttons::new(), masked: false }
    }

    /// Registers a button at startup; its pending condition starts
    /// cleared.
    pub fn register_button(&mut self, button: Button)
        requires
            old(self).wf(),
            !button.pending,
        ensures
            final(self).wf(),
            final(self).buttons() == old(self).buttons().push(button),
            final(self).config() == old(self).config(),
            final(self).masked() == old(self).masked(),
    {
        proof {
            assert(old(self).buttons().push(button).drop_last() =~= old(self).buttons());
        }
        self.buttons.register(button);
    }

    /// The foreground enters the exclusion region, masking the button
    /// interrupt.  Entering it again while it is held would deadlock, so
    /// that is excluded by contract.
    pub fn acquire(&mut self)
        requires
            old(self).wf(),
            !old(self).masked(),
        ensures
            final(self).wf(),
            final(self).masked(),
            final(self).config() == old(self).config(),
            final(self).buttons() == old(self).buttons(),
    {
        self.masked = true;
    }

    /// The foreground leaves the exclusion region.  Unmasking lets every
    /// press latched meanwhile fire at once: each moves the cursor by one
    /// position, and the setting values stay untouched.
    pub fn release(&mut self)
        requires
            old(self).wf(),
            old(self).masked(),
        ensures
            final(self).wf(),
            !final(self).masked(),
            final(self).config().items@ == old(self).config().items@,
            final(self).config().cursor() == (old(self).config().cursor() + pending_count(
                old(self).buttons(),
            )) % (SETTING_COUNT as int),
            final(self).buttons().len() == old(self).buttons().len(),
            forall|i: int|
                0 <= i < old(self).buttons().len() ==> !(#[trigger] final(self).buttons()[i]).pending,
            forall|i: int|
                0 <= i < old(self).buttons().len() ==> final(self).buttons()[i].name == old(
                    self,
                ).buttons()[i].name,
    {
        self.masked = false;
        self.buttons.signal_all(&mut self.config);
        proof {
            lemma_pending_count_zero(self.buttons.registered@);
        }
    }

    /// A falling edge on the button at `index`: the hardware latches its
    /// pending condition.  If the interrupt is masked the press stays
    /// deferred and the configuration is untouched; otherwise the
    /// interrupt fires at once and moves the cursor to the next setting.
    pub fn press(&mut self, index: usize)
        requires
            old(self).wf(),
            index < old(self).buttons().len(),
        ensures
            final(self).wf(),
            final(self).masked() == old(self).masked(),
            old(self).masked() ==> {
                &&& final(self).config() == old(self).config()
                &&& final(self).buttons() == old(self).buttons().update(
                    index as int,
                    Button { name: old(self).buttons()[index as int].name, pending: true },
                )
            },
            !old(self).masked() ==> {
                &&& final(self).config().items@ == old(self).config().items@
                &&& final(self).config().cursor() == spec_next_cursor(old(self).config().cursor())
                &&& final(self).buttons().len() == old(self).buttons().len()
                &&& forall|i: int|
                    0 <= i < old(self).buttons().len() ==> !(
                    #[trigger] final(self).buttons()[i]).pending
                &&& forall|i: int|
                    0 <= i < old(self).buttons().len() ==> final(self).buttons()[i].name == old(
                        self,
                    ).buttons()[i].name
            },
    {
        proof {
            lemma_pending_count_zero(self.buttons.registered@);
        }
        let mut button = self.buttons.registered[index];
        button.press();
        self.buttons.registered.set(index, button);
        proof {
            if !old(self).masked() {
                lemma_pending_count_latch(
                    old(self).buttons(),
                    index as int,
                    Button { name: old(self).buttons()[index as int].name, pending: true },
                );
            }
        }
        if !self.masked {
            self.buttons.signal_all(&mut self.config);
            proof {
                lemma_pending_count_zero(self.buttons.registered@);
                crate::config::lemma_cursor_cycle(old(self).config().cursor());
                vstd::arithmetic::div_mod::lemma_small_mod(
                    spec_next_cursor(old(self).config().cursor()) as nat,
                    SETTING_COUNT as nat,
                );
            }
        }
    }

    /// Under the exclusion region: recomputes the value of the setting
    /// under the cursor from a quantized potentiometer segment.
    pub fn adjust_current_setting(&mut self, value: u8)
        requires
            old(self).wf(),
            old(self).masked(),
            value <= constants::SEGMENT_MAX,
        ensures
            final(self).wf(),
            final(self).masked(),
            final(self).buttons() == old(self).buttons(),
            final(self).config().cursor() == old(self).config().cursor(),
            final(self).config().items@ == spec_adjust_at(
                old(self).config().items@,
                old(self).config().cursor(),
                value as int,
            ),
    {
        self.config.adjust_current_setting(value);
    }

    /// Under the exclusion region: a copy of the item under the cursor.
    pub fn current_item(&self) -> (item: ConfigItem)
        requires
            self.wf(),
            self.masked(),
        ensures
            item == self.config().items@[self.config().cursor()],
    {
        self.config.current_item()
    }

    /// Under the exclusion region: the value of the setting `setting`.
    pub fn get(&self, setting: SettingName) -> (r: Option<u16>)
        requires
            self.wf(),
            self.masked(),
        ensures
            r == Some(self.config().items@[setting_index(setting)].value),
    {
        self.config.get(setting)
    }

    /// One pass of the control loop's shared-state step: under the
    /// exclusion region, apply the sampled segment to the setting under
    /// the cursor, read back the two breath durations and the brightness
    /// ceiling into the breathing driver, and return a copy of the item
    /// under the cursor for the diagnostic log.  Presses deferred while
    /// the region was held fire on release, after the values were read:
    /// the foreground observes the moved cursor only on its next pass.
    pub fn control_step(&mut self, led: &mut BreathingLed, value: u8) -> (current: ConfigItem)
        requires
            old(self).wf(),
            !old(self).masked(),
            value <= constants::SEGMENT_MAX,
            old(led).min_duty == 0,
        ensures
            final(self).wf(),
            !final(self).masked(),
            final(self).config().items@ == spec_adjust_at(
                old(self).config().items@,
                old(self).config().cursor(),
                value as int,
            ),
            final(self).config().cursor() == (old(self).config().cursor() + pending_count(
                old(self).buttons(),
            )) % (SETTING_COUNT as int),
            current == final(self).config().items@[old(self).config().cursor()],
            final(led).min_duty == 0,
            final(led).max_duty == final(self).config().items@[setting_index(
                SettingName::BrightnessPct,
            )].value,
            final(led).breathe_in_time_ms == final(self).config().items@[setting_index(
                SettingName::InhaleTimeMs,
            )].value,
            final(led).breathe_out_time_ms == final(self).config().items@[setting_index(
                SettingName::ExhaleTimeMs,
            )].value,
            final(led).wf(),
    {
        self.acquire();
        self.adjust_current_setting(value);
        let current = self.current_item();
        let inhale = match self.get(SettingName::InhaleTimeMs) {
            Some(v) => v,
            None => constants::MIN_INHALE_TIME_MS,
        };
        let exhale = match self.get(SettingName::ExhaleTimeMs) {
            Some(v) => v,
            None => constants::MIN_EXHALE_TIME_MS,
        };
        let brightness = match self.get(SettingName::BrightnessPct) {
            Some(v) => v,
            None => constants::MAX_BRIGHTNESS_PCT,
        };
        led.breathe_in_time_ms = inhale;
        led.breathe_out_time_ms = exhale;
        proof {
            assert(self.config().items@[setting_index(SettingName::BrightnessPct)].value <= 100);
        }
        led.max_duty = brightness as u8;
        self.release();
        current
    }
}

} // verus!
