//! Potentiometer sampler: averaging of raw analog readings, dead-zone
//! aware clipping, and quantization into a bounded segment index.
//!
//! The blocking analog reads themselves happen outside the library; the
//! raw samples are handed in as plain values and the whole numeric
//! pipeline on them is verified here.

use vstd::prelude::*;
use vstd::arithmetic::div_mod::{
    lemma_basic_div, lemma_div_by_self, lemma_div_is_ordered, lemma_div_multiples_vanish,
    lemma_fundamental_div_mod,
};
use vstd::arithmetic::mul::{lemma_mul_inequality, lemma_mul_is_distributive_sub_other_way};

verus! {

/// Read parameters of the potentiometer, set once at startup and
/// read-only thereafter.
pub struct Potentiometer {
    /// How many raw samples one `read` averages.
    pub read_count: u16,
    /// Nominal raw reading at the low rail.
    pub min_val: u16,
    /// Nominal raw reading at the high rail.
    pub max_val: u16,
    /// Margin added outside the nominal range on both ends so that the
    /// extreme segments stay reachable.
    pub deadzone: u16,
    /// Number of quantization buckets the reading is mapped into.
    pub segments: u16,
}

/// Sum of a sequence of raw samples.
pub open spec fn sum_of(s: Seq<u16>) -> int
    decreases s.len(),
{
    if s.len() == 0 {
        0
    } else {
        sum_of(s.drop_last()) + s.last()
    }
}

/// Arithmetic mean of a sequence of raw samples, truncated to an integer.
pub open spec fn mean_of(s: Seq<u16>) -> int {
    sum_of(s) / (s.len() as int)
}

impl Potentiometer {
    /// Well-formedness of the read parameters: at least one sample per
    /// read, a non-empty nominal range wide enough for the requested
    /// number of segments, and an expanded range that still fits the raw
    /// value type.
    pub open spec fn wf(self) -> bool {
        &&& 1 <= self.read_count
        &&& self.min_val < self.max_val
        &&& 1 <= self.segments <= self.max_val - self.min_val
        &&& self.max_val + self.deadzone <= u16::MAX
    }

    /// Low end of the dead-zone expanded range.  The expansion saturates
    /// at zero when the margin exceeds the nominal minimum, rather than
    /// wrapping around.
    pub open spec fn augmented_min(self) -> int {
        if self.deadzone <= self.min_val {
            self.min_val - self.deadzone
        } else {
            0
        }
    }

    /// High end of the dead-zone expanded range.
    pub open spec fn augmented_max(self) -> int {
        self.max_val + self.deadzone
    }

    /// Width of one quantization bucket.
    pub open spec fn divisor(self) -> int {
        (self.augmented_max() - self.augmented_min()) / (self.segments as int)
    }

    /// The mean reading clipped into the expanded range.
    pub open spec fn clip(self, v: int) -> int {
        if v > self.augmented_max() {
            self.augmented_max()
        } else if v < self.augmented_min() {
            self.augmented_min()
        } else {
            v
        }
    }

    /// Segment a mean reading quantizes into: its offset above the
    /// expanded minimum in whole buckets, capped at the highest segment.
    pub open spec fn segment_of(self, v: int) -> int {
        let q = (self.clip(v) - self.augmented_min()) / self.divisor();
        if q > self.segments - 1 {
            self.segments - 1
        } else {
            q
        }
    }

    /// Builds the sampler from its read parameters.
    pub fn new(
        read_count: u16,
        min_val: u16,
        max_val: u16,
        deadzone: u16,
        segments: u16,
    ) -> (p: Potentiometer)
        requires
            1 <= read_count,
            min_val < max_val,
            1 <= segments <= max_val - min_val,
            max_val + deadzone <= u16::MAX,
        ensures
            p == (Potentiometer { read_count, min_val, max_val, deadzone, segments }),
            p.wf(),
    {
        Potentiometer { read_count, min_val, max_val, deadzone, segments }
    }

    /// The bucket width is at least one raw unit.
    proof fn lemma_divisor_positive(self)
        requires
            self.wf(),
        ensures
            self.divisor() >= 1,
    {
        let span = self.augmented_max() - self.augmented_min();
        lemma_div_is_ordered(self.segments as int, span, self.segments as int);
        lemma_div_by_self(self.segments as int);
    }

    /// Turns one batch of raw samples into a segment index: averages the
    /// samples, clips the mean into the dead-zone expanded range, and
    /// quantizes.  The result is always a valid segment, whatever the raw
    /// input was.
    pub fn read(&self, samples: &Vec<u16>) -> (segment: u16)
        requires
            self.wf(),
            samples@.len() == self.read_count as int,
        ensures
            segment == self.segment_of(mean_of(samples@)),
            segment < self.segments,
    {
        let count = samples.len();
        let mut sum: u32 = 0;
        for i in 0..count
            invariant
                count == samples@.len(),
                count <= 0xFFFF,
                sum == sum_of(samples@.take(i as int)),
                sum <= i * 0xFFFF,
        {
            proof {
                assert(samples@.take(i + 1).drop_last() =~= samples@.take(i as int));
                assert((i + 1) * 0xFFFF == i * 0xFFFF + 0xFFFF) by {
                    lemma_mul_is_distributive_sub_other_way(0xFFFF, i + 1, 1);
                }
            }
            sum = sum + samples[i] as u32;
        }
        proof {
            assert(samples@.take(count as int) =~= samples@);
            lemma_mul_inequality(count as int, 0xFFFF, 0xFFFF);
            lemma_div_is_ordered(sum as int, 0xFFFF * count as int, count as int);
            lemma_div_multiples_vanish(0xFFFF, count as int);
            lemma_div_is_ordered(0, sum as int, count as int);
            lemma_basic_div(0, count as int);
        }
        let avg: u16 = (sum / count as u32) as u16;
        let augmented_max: u16 = self.max_val + self.deadzone;
        let augmented_min: u16 = if self.deadzone <= self.min_val {
            self.min_val - self.deadzone
        } else {
            0
        };
        let clipped: u16 = if avg > augmented_max {
            augmented_max
        } else if avg < augmented_min {
            augmented_min
        } else {
            avg
        };
        let divisor: u16 = (augmented_max - augmented_min) / self.segments;
        proof {
            self.lemma_divisor_positive();
        }
        let q: u16 = (clipped - augmented_min) / divisor;
        if q > self.segments - 1 {
            self.segments - 1
        } else {
            q
        }
    }

    /// A mean reading exactly at the nominal low rail falls in the lowest
    /// segment, and one exactly at the nominal high rail falls in the
    /// highest, whenever the dead-zone margin is narrower than one bucket.
    pub proof fn lemma_rail_readings(self)
        requires
            self.wf(),
            self.deadzone < self.divisor(),
        ensures
            self.segment_of(self.min_val as int) == 0,
            self.segment_of(self.max_val as int) == self.segments - 1,
    {
        let lo = self.augmented_min();
        let hi = self.augmented_max();
        let span = hi - lo;
        let d = self.divisor();
        let n = self.segments as int;
        self.lemma_divisor_positive();

        // Low rail: the offset above the expanded minimum is at most the
        // dead-zone margin, which is below one bucket width.
        assert(self.clip(self.min_val as int) == self.min_val);
        lemma_basic_div(self.min_val - lo, d);

        // High rail: the expanded span holds `n` whole buckets plus a
        // remainder, and the margin is below one bucket, so the high rail
        // sits at least `n - 1` buckets above the expanded minimum.
        assert(self.clip(self.max_val as int) == self.max_val);
        lemma_fundamental_div_mod(span, n);
        let r = span % n;
        assert(span == n * d + r);
        assert(self.max_val - lo == span - self.deadzone);
        assert((n - 1) * d == n * d - d) by {
            lemma_mul_is_distributive_sub_other_way(d, n, 1);
        }
        assert(span - self.deadzone >= (n - 1) * d);
        lemma_div_is_ordered((n - 1) * d, self.max_val - lo, d);
        lemma_div_multiples_vanish(n - 1, d);
        assert((self.max_val - lo) / d >= n - 1);
    }
}

} // verus!
