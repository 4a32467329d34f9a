//! Motion techniques: an element moves or grows into place.
use crate::technique::{repeat, uniform, Technique, TechniqueOutput};
use crate::units::{clamp_unit, interpolate, lerp, scale_by, share, unit_clamp, ONE};
use vstd::prelude::*;

verus! {

/// Slides an element from an offset to its resting place.
#[derive(Debug, Clone)]
pub struct Slide {
    /// The duration in microseconds.
    pub duration: u64,
    /// The horizontal offset at the start, in millionths of a pixel.
    pub offset_x: i64,
    /// The vertical offset at the start, in millionths of a pixel.
    pub offset_y: i64,
}

impl Default for Slide {
    /// A slide from 100 pixels to the right, in half a second.
    fn default() -> (t: Slide)
        ensures
            t.duration == 500_000,
            t.offset_x == 100_000_000,
            t.offset_y == 0,
    {
        Slide { duration: 500_000, offset_x: 100_000_000, offset_y: 0 }
    }
}

impl Technique for Slide {
    open spec fn wf(&self) -> bool {
        true
    }

    open spec fn spec_name(&self) -> Seq<char> {
        "Slide"@
    }

    open spec fn spec_duration(&self) -> u64 {
        self.duration
    }

    open spec fn spec_apply(&self, progress: u64) -> TechniqueOutput {
        let p = unit_clamp(progress as int);
        TechniqueOutput {
            translate_x: share(self.offset_x as int, ONE - p) as i64,
            translate_y: share(self.offset_y as int, ONE - p) as i64,
            ..TechniqueOutput::identity()
        }
    }

    open spec fn spec_apply_items(&self, count: usize, progress: u64) -> Seq<TechniqueOutput> {
        uniform(count, self.spec_apply(progress))
    }

    fn name(&self) -> (n: &str) {
        "Slide"
    }

    fn duration(&self) -> (d: u64) {
        self.duration
    }

    fn apply(&self, progress: u64) -> (out: TechniqueOutput) {
        let p = clamp_unit(progress);
        TechniqueOutput {
            opacity: ONE as i64,
            translate_x: scale_by(self.offset_x, ONE - p),
            translate_y: scale_by(self.offset_y, ONE - p),
            scale: ONE as i64,
            rotation: 0,
        }
    }

    fn apply_items(&self, count: usize, progress: u64) -> (out: Vec<TechniqueOutput>) {
        repeat(count, self.apply(progress))
    }
}

/// Scales an element from one size to another.
#[derive(Debug, Clone)]
pub struct Scale {
    /// The duration in microseconds.
    pub duration: u64,
    /// The scale factor at the start.
    pub from: i64,
    /// The scale factor at the end.
    pub to: i64,
}

impl Default for Scale {
    /// Growth from nothing to the natural size, in four tenths of a second.
    fn default() -> (t: Scale)
        ensures
            t.duration == 400_000,
            t.from == 0,
            t.to == ONE,
    {
        Scale { duration: 400_000, from: 0, to: ONE as i64 }
    }
}

impl Technique for Scale {
    open spec fn wf(&self) -> bool {
        true
    }

    open spec fn spec_name(&self) -> Seq<char> {
        "Scale"@
    }

    open spec fn spec_duration(&self) -> u64 {
        self.duration
    }

    open spec fn spec_apply(&self, progress: u64) -> TechniqueOutput {
        TechniqueOutput {
            scale: lerp(self.from as int, self.to as int, unit_clamp(progress as int)) as i64,
            ..TechniqueOutput::identity()
        }
    }

    open spec fn spec_apply_items(&self, count: usize, progress: u64) -> Seq<TechniqueOutput> {
        uniform(count, self.spec_apply(progress))
    }

    fn name(&self) -> (n: &str) {
        "Scale"
    }

    fn duration(&self) -> (d: u64) {
        self.duration
    }

    fn apply(&self, progress: u64) -> (out: TechniqueOutput) {
        let p = clamp_unit(progress);
        TechniqueOutput {
            opacity: ONE as i64,
            translate_x: 0,
            translate_y: 0,
            scale: interpolate(self.from, self.to, p),
            rotation: 0,
        }
    }

    fn apply_items(&self, count: usize, progress: u64) -> (out: Vec<TechniqueOutput>) {
        repeat(count, self.apply(progress))
    }
}

} // verus!
