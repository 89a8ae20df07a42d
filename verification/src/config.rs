//! Configuration model: the ordered list of tunable settings, the cursor
//! identifying the setting currently being edited, and the per-setting
//! linear remap from a quantized potentiometer segment to a physical value.

use vstd::prelude::*;
use vstd::arithmetic::div_mod::{
    lemma_basic_div, lemma_div_is_ordered, lemma_div_multiples_vanish, lemma_small_mod,
};
use vstd::arithmetic::mul::{lemma_mul_inequality, lemma_mul_nonnegative, lemma_mul_upper_bound};
use crate::constants;

verus! {

/// Identity of one independently tunable device parameter.
#[derive(Copy, Clone, PartialEq, Eq, Structural, Debug)]
pub enum SettingName {
    InhaleTimeMs,
    ExhaleTimeMs,
    HoldTimeMs,
    AirlessTimeMs,
    BrightnessPct,
}

/// One tunable setting together with its current physical value.
#[derive(Copy, Clone, PartialEq, Eq, Structural, Debug)]
pub struct ConfigItem {
    pub setting: SettingName,
    pub value: u16,
}

/// Number of settings the device exposes; the configuration always holds
/// exactly one item per setting.
pub const SETTING_COUNT: usize = 5;

/// Lower end of the physical range baked into policy for each setting.
pub open spec fn setting_min(s: SettingName) -> int {
    match s {
        SettingName::InhaleTimeMs => constants::MIN_INHALE_TIME_MS as int,
        SettingName::ExhaleTimeMs => constants::MIN_EXHALE_TIME_MS as int,
        SettingName::HoldTimeMs => constants::MIN_HOLD_TIME_MS as int,
        SettingName::AirlessTimeMs => constants::MIN_AIRLESS_TIME_MS as int,
        SettingName::BrightnessPct => constants::MIN_BRIGHTNESS_PCT as int,
    }
}

/// Upper end of the physical range baked into policy for each setting.
pub open spec fn setting_max(s: SettingName) -> int {
    match s {
        SettingName::InhaleTimeMs => constants::MAX_INHALE_TIME_MS as int,
        SettingName::ExhaleTimeMs => constants::MAX_EXHALE_TIME_MS as int,
        SettingName::HoldTimeMs => constants::MAX_HOLD_TIME_MS as int,
        SettingName::AirlessTimeMs => constants::MAX_AIRLESS_TIME_MS as int,
        SettingName::BrightnessPct => constants::MAX_BRIGHTNESS_PCT as int,
    }
}

/// The setting stored at each position of the configuration.
pub open spec fn index_setting(i: int) -> SettingName {
    if i == 0 {
        SettingName::InhaleTimeMs
    } else if i == 1 {
        SettingName::ExhaleTimeMs
    } else if i == 2 {
        SettingName::HoldTimeMs
    } else if i == 3 {
        SettingName::AirlessTimeMs
    } else {
        SettingName::BrightnessPct
    }
}

/// Position of each setting in the configuration; inverse of `index_setting`.
pub open spec fn setting_index(s: SettingName) -> int {
    match s {
        SettingName::InhaleTimeMs => 0,
        SettingName::ExhaleTimeMs => 1,
        SettingName::HoldTimeMs => 2,
        SettingName::AirlessTimeMs => 3,
        SettingName::BrightnessPct => 4,
    }
}

/// Value every setting starts from: its minimum, except the brightness
/// ceiling, which starts at full duty.
pub open spec fn initial_value(s: SettingName) -> int {
    match s {
        SettingName::BrightnessPct => constants::MAX_BRIGHTNESS_PCT as int,
        _ => setting_min(s),
    }
}

/// Linear interpolation of a segment position into a value range,
/// truncated to an integer.
pub open spec fn spec_segment_to_value(
    segment: int,
    segment_min: int,
    segment_max: int,
    value_min: int,
    value_max: int,
) -> int {
    value_min + (segment - segment_min) * (value_max - value_min) / (segment_max - segment_min)
}

/// Value a setting takes when adjusted to `segment` under the device-wide
/// segment range.
pub open spec fn adjusted_value(s: SettingName, segment: int) -> int {
    spec_segment_to_value(
        segment,
        constants::SEGMENT_MIN as int,
        constants::SEGMENT_MAX as int,
        setting_min(s),
        setting_max(s),
    )
}

/// The item sequence after the item at `i` is adjusted to `segment`: that
/// item's value is recomputed by its setting's remap, everything else is
/// unchanged.
pub open spec fn spec_adjust_at(items: Seq<ConfigItem>, i: int, segment: int) -> Seq<ConfigItem> {
    items.update(
        i,
        ConfigItem {
            setting: items[i].setting,
            value: adjusted_value(items[i].setting, segment) as u16,
        },
    )
}

/// Maps a segment in `[segment_min, segment_max]` onto the declared value
/// range by linear interpolation.  A segment below `segment_min` is a
/// caller contract violation, excluded by the precondition; the sampler
/// never emits one.
pub fn segment_to_value(
    segment: u8,
    segment_min: u8,
    segment_max: u8,
    value_min: u16,
    value_max: u16,
) -> (value: u16)
    requires
        segment_min <= segment <= segment_max,
        segment_min < segment_max,
        value_min <= value_max,
    ensures
        value == spec_segment_to_value(
            segment as int,
            segment_min as int,
            segment_max as int,
            value_min as int,
            value_max as int,
        ),
        value_min <= value <= value_max,
{
    let span: u32 = (segment_max - segment_min) as u32;
    let diff: u32 = (value_max - value_min) as u32;
    let steps: u32 = (segment - segment_min) as u32;
    proof {
        lemma_mul_upper_bound(steps as int, 255, diff as int, 65535);
    }
    let numer: u32 = steps * diff;
    let offset: u32 = numer / span;
    proof {
        lemma_mul_nonnegative((segment - segment_min) as int, diff as int);
        lemma_mul_inequality((segment - segment_min) as int, span as int, diff as int);
        lemma_div_is_ordered(numer as int, span as int * diff as int, span as int);
        lemma_div_multiples_vanish(diff as int, span as int);
    }
    value_min + (offset as u16)
}

/// Across the whole segment range, a setting's adjusted value stays inside
/// its declared range and is monotonically non-decreasing in the segment.
pub proof fn lemma_remap_in_range_monotone(
    s1: int,
    s2: int,
    segment_min: int,
    segment_max: int,
    value_min: int,
    value_max: int,
)
    requires
        segment_min <= s1 <= s2 <= segment_max,
        segment_min < segment_max,
        value_min <= value_max,
    ensures
        value_min
            <= spec_segment_to_value(s1, segment_min, segment_max, value_min, value_max)
            <= spec_segment_to_value(s2, segment_min, segment_max, value_min, value_max)
            <= value_max,
{
    let span = segment_max - segment_min;
    let diff = value_max - value_min;
    lemma_mul_nonnegative(s1 - segment_min, diff);
    lemma_mul_inequality(s1 - segment_min, s2 - segment_min, diff);
    lemma_mul_inequality(s2 - segment_min, span, diff);
    lemma_div_is_ordered(0, (s1 - segment_min) * diff, span);
    lemma_div_is_ordered((s1 - segment_min) * diff, (s2 - segment_min) * diff, span);
    lemma_div_is_ordered((s2 - segment_min) * diff, span * diff, span);
    lemma_div_multiples_vanish(diff, span);
    assert(0int / span == 0) by {
        lemma_basic_div(0, span);
    }
}

/// The extreme segments remap exactly onto the ends of the value range:
/// the lowest segment gives the declared minimum, the highest the declared
/// maximum.
pub proof fn lemma_remap_endpoints(
    segment_min: int,
    segment_max: int,
    value_min: int,
    value_max: int,
)
    requires
        segment_min < segment_max,
        value_min <= value_max,
    ensures
        spec_segment_to_value(segment_min, segment_min, segment_max, value_min, value_max)
            == value_min,
        spec_segment_to_value(segment_max, segment_min, segment_max, value_min, value_max)
            == value_max,
{
    let span = segment_max - segment_min;
    let diff = value_max - value_min;
    assert((segment_min - segment_min) * diff == 0);
    lemma_basic_div(0, span);
    assert((segment_max - segment_min) * diff == span * diff);
    lemma_div_multiples_vanish(diff, span);
}

/// For every setting and all segments inside the device-wide range,
/// adjustment lands inside the setting's declared range and is
/// monotonically non-decreasing in the segment; the lowest segment lands
/// exactly on the declared minimum and the highest exactly on the
/// declared maximum.
pub proof fn lemma_adjust_range(s: SettingName, s1: int, s2: int)
    requires
        constants::SEGMENT_MIN <= s1 <= s2 <= constants::SEGMENT_MAX,
    ensures
        setting_min(s) <= adjusted_value(s, s1) <= adjusted_value(s, s2) <= setting_max(s),
        adjusted_value(s, constants::SEGMENT_MIN as int) == setting_min(s),
        adjusted_value(s, constants::SEGMENT_MAX as int) == setting_max(s),
{
    lemma_remap_in_range_monotone(
        s1,
        s2,
        constants::SEGMENT_MIN as int,
        constants::SEGMENT_MAX as int,
        setting_min(s),
        setting_max(s),
    );
    lemma_remap_endpoints(
        constants::SEGMENT_MIN as int,
        constants::SEGMENT_MAX as int,
        setting_min(s),
        setting_max(s),
    );
}

impl ConfigItem {
    /// Recomputes this item's value from a quantized segment via the
    /// per-setting linear remap.
    pub fn adjust(&mut self, segment: u8)
        requires
            constants::SEGMENT_MIN <= segment <= constants::SEGMENT_MAX,
        ensures
            final(self).setting == old(self).setting,
            final(self).value == adjusted_value(old(self).setting, segment as int),
            setting_min(final(self).setting) <= final(self).value
                <= setting_max(final(self).setting),
    {
        match self.setting {
            SettingName::InhaleTimeMs => {
                self.value = segment_to_value(
                    segment,
                    constants::SEGMENT_MIN,
                    constants::SEGMENT_MAX,
                    constants::MIN_INHALE_TIME_MS,
                    constants::MAX_INHALE_TIME_MS,
                );
            }
            SettingName::ExhaleTimeMs => {
                self.value = segment_to_value(
                    segment,
                    constants::SEGMENT_MIN,
                    constants::SEGMENT_MAX,
                    constants::MIN_EXHALE_TIME_MS,
                    constants::MAX_EXHALE_TIME_MS,
                );
            }
            SettingName::HoldTimeMs => {
                self.value = segment_to_value(
                    segment,
                    constants::SEGMENT_MIN,
                    constants::SEGMENT_MAX,
                    constants::MIN_HOLD_TIME_MS,
                    constants::MAX_HOLD_TIME_MS,
                );
            }
            SettingName::AirlessTimeMs => {
                self.value = segment_to_value(
                    segment,
                    constants::SEGMENT_MIN,
                    constants::SEGMENT_MAX,
                    constants::MIN_AIRLESS_TIME_MS,
                    constants::MAX_AIRLESS_TIME_MS,
                );
            }
            SettingName::BrightnessPct => {
                self.value = segment_to_value(
                    segment,
                    constants::SEGMENT_MIN,
                    constants::SEGMENT_MAX,
                    constants::MIN_BRIGHTNESS_PCT,
                    constants::MAX_BRIGHTNESS_PCT,
                );
            }
        }
    }
}

/// The ordered collection of tunable settings plus the cursor identifying
/// the one currently being edited.
pub struct Config {
    pub items: Vec<ConfigItem>,
    pub current_item_idx: usize,
}

impl Config {
    /// Position of the currently edited setting.
    pub open spec fn cursor(self) -> int {
        self.current_item_idx as int
    }

    /// Well-formedness: exactly one item per setting, in the fixed order,
    /// every value inside its setting's declared range, and the cursor a
    /// valid index.
    pub open spec fn wf(self) -> bool {
        &&& self.items@.len() == SETTING_COUNT
        &&& 0 <= self.cursor() < SETTING_COUNT
        &&& forall|i: int|
            0 <= i < SETTING_COUNT ==> (#[trigger] self.items@[i]).setting == index_setting(i)
        &&& forall|i: int|
            0 <= i < SETTING_COUNT ==> setting_min((#[trigger] self.items@[i]).setting)
                <= self.items@[i].value <= setting_max(self.items@[i].setting)
    }

    /// A configuration as freshly constructed: cursor on the first setting
    /// and every value at its initial default.
    pub open spec fn is_initial(self) -> bool {
        &&& self.wf()
        &&& self.cursor() == 0
        &&& forall|i: int|
            0 <= i < SETTING_COUNT ==> (#[trigger] self.items@[i]).value
                == initial_value(index_setting(i))
    }

    /// Builds the configuration with every item at its documented default:
    /// the minimum of its range, except brightness, which starts at full.
    pub fn new() -> (c: Config)
        ensures
            c.is_initial(),
    {
        let mut items: Vec<ConfigItem> = Vec::new();
        items.push(ConfigItem {
            setting: SettingName::InhaleTimeMs,
            value: constants::MIN_INHALE_TIME_MS,
        });
        items.push(ConfigItem {
            setting: SettingName::ExhaleTimeMs,
            value: constants::MIN_EXHALE_TIME_MS,
        });
        items.push(ConfigItem {
            setting: SettingName::HoldTimeMs,
            value: constants::MIN_HOLD_TIME_MS,
        });
        items.push(ConfigItem {
            setting: SettingName::AirlessTimeMs,
            value: constants::MIN_AIRLESS_TIME_MS,
        });
        items.push(ConfigItem { setting: SettingName::BrightnessPct, value: 100 });
        Config { items, current_item_idx: 0 }
    }

    /// Recomputes the value of the item matching `setting` from the given
    /// segment.  Every setting is always present, so exactly one item
    /// changes; the cursor does not move.
    pub fn adjust_setting(&mut self, setting: SettingName, value: u8)
        requires
            old(self).wf(),
            value <= constants::SEGMENT_MAX,
        ensures
            final(self).wf(),
            final(self).cursor() == old(self).cursor(),
            final(self).items@ == spec_adjust_at(
                old(self).items@,
                setting_index(setting),
                value as int,
            ),
    {
        let len = self.items.len();
        for i in 0..len
            invariant
                len == SETTING_COUNT,
                self.cursor() == old(self).cursor(),
                self.items@.len() == SETTING_COUNT,
                forall|j: int|
                    0 <= j < SETTING_COUNT ==> (#[trigger] self.items@[j]).setting
                        == index_setting(j),
                forall|j: int|
                    0 <= j < SETTING_COUNT ==> setting_min((#[trigger] self.items@[j]).setting)
                        <= self.items@[j].value <= setting_max(self.items@[j].setting),
                forall|j: int|
                    0 <= j < i && j != setting_index(setting) ==> #[trigger] self.items@[j]
                        == old(self).items@[j],
                forall|j: int|
                    i <= j < SETTING_COUNT ==> #[trigger] self.items@[j] == old(self).items@[j],
                i > setting_index(setting) ==> self.items@[setting_index(setting)]
                    == (ConfigItem {
                    setting,
                    value: adjusted_value(setting, value as int) as u16,
                }),
                value <= constants::SEGMENT_MAX,
        {
            if self.items[i].setting == setting {
                let mut item = self.items[i];
                item.adjust(value);
                self.items.set(i, item);
            }
        }
        proof {
            assert(self.items@ =~= old(self).items@.update(
                setting_index(setting),
                ConfigItem {
                    setting,
                    value: adjusted_value(setting, value as int) as u16,
                },
            ));
        }
    }

    /// Recomputes the value of the item at `index` from the given segment.
    pub fn adjust_setting_by_index(&mut self, index: usize, value: u8)
        requires
            old(self).wf(),
            index < old(self).items@.len(),
            value <= constants::SEGMENT_MAX,
        ensures
            final(self).wf(),
            final(self).cursor() == old(self).cursor(),
            final(self).items@ == spec_adjust_at(old(self).items@, index as int, value as int),
    {
        let mut item = self.items[index];
        item.adjust(value);
        self.items.set(index, item);
    }

    /// Recomputes the value of the item under the cursor from the given
    /// segment.
    pub fn adjust_current_setting(&mut self, value: u8)
        requires
            old(self).wf(),
            value <= constants::SEGMENT_MAX,
        ensures
            final(self).wf(),
            final(self).cursor() == old(self).cursor(),
            final(self).items@ == spec_adjust_at(
                old(self).items@,
                old(self).cursor(),
                value as int,
            ),
    {
        let idx = self.current_item_idx;
        self.adjust_setting_by_index(idx, value);
    }

    /// Advances the cursor by exactly one position, wrapping from the last
    /// item back to the first.  Always succeeds; the items do not change.
    pub fn next_item(&mut self)
        requires
            old(self).wf(),
        ensures
            final(self).wf(),
            final(self).items@ == old(self).items@,
            final(self).cursor() == spec_next_cursor(old(self).cursor()),
    {
        self.current_item_idx = (self.current_item_idx + 1) % self.items.len();
    }

    /// Returns a copy of the item under the cursor.
    pub fn current_item(&self) -> (item: ConfigItem)
        requires
            self.wf(),
        ensures
            item == self.items@[self.cursor()],
    {
        self.items[self.current_item_idx]
    }

    /// Looks up the value of the item matching `setting`.  Every setting is
    /// always present in a well-formed configuration, so the result is
    /// never absent.
    pub fn get(&self, setting: SettingName) -> (r: Option<u16>)
        requires
            self.wf(),
        ensures
            r == Some(self.items@[setting_index(setting)].value),
    {
        let len = self.items.len();
        for i in 0..len
            invariant
                len == SETTING_COUNT,
                self.wf(),
                forall|j: int| 0 <= j < i ==> (#[trigger] self.items@[j]).setting != setting,
        {
            if self.items[i].setting == setting {
                return Some(self.items[i].value);
            }
        }
        proof {
            assert(self.items@[setting_index(setting)].setting == setting);
        }
        None
    }
}

/// Where the cursor lands after one advance: the next position, wrapping
/// past the last item back to the first.
pub open spec fn spec_next_cursor(c: int) -> int {
    (c + 1) % (SETTING_COUNT as int)
}

/// Advancing the cursor once moves it by exactly one position and wraps
/// from the last item to the first; advancing it once per item returns it
/// to its starting position.
pub proof fn lemma_cursor_cycle(c: int)
    requires
        0 <= c < SETTING_COUNT,
    ensures
        spec_next_cursor(c) == if c == SETTING_COUNT - 1 { 0int } else { c + 1 },
        spec_next_cursor(
            spec_next_cursor(spec_next_cursor(spec_next_cursor(spec_next_cursor(c)))),
        ) == c,
{
    if c < SETTING_COUNT - 1 {
        lemma_small_mod((c + 1) as nat, SETTING_COUNT as nat);
    }
    assert forall|k: int| 0 <= k < SETTING_COUNT implies spec_next_cursor(k) == if k
        == SETTING_COUNT - 1 { 0int } else { k + 1 } by {
        if k < SETTING_COUNT - 1 {
            lemma_small_mod((k + 1) as nat, SETTING_COUNT as nat);
        }
    }
}

impl SettingName {
    /// Human-readable label of the setting, for the diagnostic log.
    pub fn as_str<'a>(&self) -> (r: &'a str)
        ensures
            r@ == setting_label(*self),
    {
        match self {
            SettingName::InhaleTimeMs => "Inhale Time MS",
            SettingName::ExhaleTimeMs => "Exhale Time MS",
            SettingName::HoldTimeMs => "Hold Time MS",
            SettingName::AirlessTimeMs => "Airless Time MS",
            SettingName::BrightnessPct => "Brightness Pct",
        }
    }
}

/// Label returned by `SettingName::as_str`.
pub open spec fn setting_label(s: SettingName) -> Seq<char> {
    match s {
        SettingName::InhaleTimeMs => "Inhale Time MS"@,
        SettingName::ExhaleTimeMs => "Exhale Time MS"@,
        SettingName::HoldTimeMs => "Hold Time MS"@,
        SettingName::AirlessTimeMs => "Airless Time MS"@,
        SettingName::BrightnessPct => "Brightness Pct"@,
    }
}

} // verus!
