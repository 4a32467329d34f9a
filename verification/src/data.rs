//! Data-driven techniques.
use crate::technique::{repeat, uniform, Technique, TechniqueOutput};
use crate::units::{clamp_unit, interpolate, lerp, unit_clamp, ONE};
use vstd::prelude::*;

verus! {

/// Counts a number up from a start value to an end value.
///
/// The number itself is read with [`CountUp::current_value`]. As a technique
/// it reports the clamped progress as opacity, for whoever draws the number.
#[derive(Debug, Clone)]
pub struct CountUp {
    /// The duration in microseconds.
    pub duration: u64,
    /// The value at the start, in millionths.
    pub from: i64,
    /// The value at the end, in millionths.
    pub to: i64,
}

impl Default for CountUp {
    /// A count from 0 to 100 in one second.
    fn default() -> (t: CountUp)
        ensures
            t.duration == 1_000_000,
            t.from == 0,
            t.to == 100_000_000,
    {
        CountUp { duration: 1_000_000, from: 0, to: 100_000_000 }
    }
}

impl CountUp {
    /// The number shown at `progress`: the point at that ratio on the way
    /// from `from` to `to`, where progress above one counts as one.
    pub fn current_value(&self, progress: u64) -> (v: i64)
        ensures
            v == lerp(self.from as int, self.to as int, unit_clamp(progress as int)),
    {
        interpolate(self.from, self.to, clamp_unit(progress))
    }
}

impl Technique for CountUp {
    open spec fn wf(&self) -> bool {
        true
    }

    open spec fn spec_name(&self) -> Seq<char> {
        "CountUp"@
    }

    open spec fn spec_duration(&self) -> u64 {
        self.duration
    }

    open spec fn spec_apply(&self, progress: u64) -> TechniqueOutput {
        TechniqueOutput {
            opacity: unit_clamp(progress as int) as i64,
            ..TechniqueOutput::identity()
        }
    }

    open spec fn spec_apply_items(&self, count: usize, progress: u64) -> Seq<TechniqueOutput> {
        uniform(count, self.spec_apply(progress))
    }

    fn name(&self) -> (n: &str) {
        "CountUp"
    }

    fn duration(&self) -> (d: u64) {
        self.duration
    }

    fn apply(&self, progress: u64) -> (out: TechniqueOutput) {
        let p = clamp_unit(progress);
        TechniqueOutput {
            opacity: p as i64,
            translate_x: 0,
            translate_y: 0,
            scale: ONE as i64,
            rotation: 0,
        }
    }

    fn apply_items(&self, count: usize, progress: u64) -> (out: Vec<TechniqueOutput>) {
        repeat(count, self.apply(progress))
    }
}

} // verus!
