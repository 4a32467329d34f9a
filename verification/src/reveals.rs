//! Reveal techniques: an element fades into view.
use crate::technique::{repeat, uniform, Technique, TechniqueOutput};
use crate::units::{clamp_unit, scale_by, share, unit_clamp, ONE};
use vstd::prelude::*;

verus! {

/// Fades an element in, from transparent to opaque.
#[derive(Debug, Clone)]
pub struct FadeIn {
    /// The duration in microseconds.
    pub duration: u64,
}

impl Default for FadeIn {
    /// A fade of half a second.
    fn default() -> (t: FadeIn)
        ensures
            t.duration == 500_000,
    {
        FadeIn { duration: 500_000 }
    }
}

impl Technique for FadeIn {
    open spec fn wf(&self) -> bool {
        true
    }

    open spec fn spec_name(&self) -> Seq<char> {
        "FadeIn"@
    }

    open spec fn spec_duration(&self) -> u64 {
        self.duration
    }

    open spec fn spec_apply(&self, progress: u64) -> TechniqueOutput {
        TechniqueOutput {
            opacity: unit_clamp(progress as int) as i64,
            ..TechniqueOutput::identity()
        }
    }

    open spec fn spec_apply_items(&self, count: usize, progress: u64) -> Seq<TechniqueOutput> {
        uniform(count, self.spec_apply(progress))
    }

    fn name(&self) -> (n: &str) {
        "FadeIn"
    }

    fn duration(&self) -> (d: u64) {
        self.duration
    }

    fn apply(&self, progress: u64) -> (out: TechniqueOutput) {
        let p = clamp_unit(progress);
        TechniqueOutput {
            opacity: p as i64,
            translate_x: 0,
            translate_y: 0,
            scale: ONE as i64,
            rotation: 0,
        }
    }

    fn apply_items(&self, count: usize, progress: u64) -> (out: Vec<TechniqueOutput>) {
        repeat(count, self.apply(progress))
    }
}

/// Fades an element in while it rises into place.
#[derive(Debug, Clone)]
pub struct FadeUp {
    /// The duration in microseconds.
    pub duration: u64,
    /// The distance below the resting place at which the element starts, in
    /// millionths of a pixel.
    pub distance: i64,
}

impl Default for FadeUp {
    /// A rise of 30 pixels in six tenths of a second.
    fn default() -> (t: FadeUp)
        ensures
            t.duration == 600_000,
            t.distance == 30_000_000,
    {
        FadeUp { duration: 600_000, distance: 30_000_000 }
    }
}

impl Technique for FadeUp {
    open spec fn wf(&self) -> bool {
        true
    }

    open spec fn spec_name(&self) -> Seq<char> {
        "FadeUp"@
    }

    open spec fn spec_duration(&self) -> u64 {
        self.duration
    }

    open spec fn spec_apply(&self, progress: u64) -> TechniqueOutput {
        let p = unit_clamp(progress as int);
        TechniqueOutput {
            opacity: p as i64,
            translate_y: share(self.distance as int, ONE - p) as i64,
            ..TechniqueOutput::identity()
        }
    }

    open spec fn spec_apply_items(&self, count: usize, progress: u64) -> Seq<TechniqueOutput> {
        uniform(count, self.spec_apply(progress))
    }

    fn name(&self) -> (n: &str) {
        "FadeUp"
    }

    fn duration(&self) -> (d: u64) {
        self.duration
    }

    fn apply(&self, progress: u64) -> (out: TechniqueOutput) {
        let p = clamp_unit(progress);
        TechniqueOutput {
            opacity: p as i64,
            translate_x: 0,
            translate_y: scale_by(self.distance, ONE - p),
            scale: ONE as i64,
            rotation: 0,
        }
    }

    fn apply_items(&self, count: usize, progress: u64) -> (out: Vec<TechniqueOutput>) {
        repeat(count, self.apply(progress))
    }
}

} // verus!
