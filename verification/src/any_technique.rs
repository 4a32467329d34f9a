//! The techniques that a scene can play, as one type.
//!
//! The registry keeps every technique that was played and evaluates it again
//! for each frame. [`AnyTechnique`] holds any of the techniques of this crate,
//! and any of them wrapped in an easing curve or a stagger, to any depth.
use crate::data::CountUp;
use crate::motion::{Scale, Slide};
use crate::reveals::{FadeIn, FadeUp};
use crate::staging::{phase, stagger_phase, stagger_total, Stagger};
use crate::technique::{ease, ease_value, Ease, Technique, TechniqueOutput, WithEase};
use crate::units::MAX_ITEMS;
use vstd::prelude::*;

verus! {

/// A technique of this crate, or one wrapped in an easing curve or a stagger.
#[derive(Debug)]
pub enum AnyTechnique {
    FadeIn(FadeIn),
    FadeUp(FadeUp),
    Slide(Slide),
    Scale(Scale),
    CountUp(CountUp),
    /// The inner technique with its progress reshaped by a curve.
    Eased { inner: Box<AnyTechnique>, ease: Ease },
    /// The inner technique fanned out over items, each `delay` after the one
    /// before.
    Staggered { inner: Box<AnyTechnique>, delay: u64, count: usize },
}

impl AnyTechnique {
    /// The configuration is usable.
    pub open spec fn wf(&self) -> bool
        decreases self,
    {
        match self {
            AnyTechnique::FadeIn(t) => t.wf(),
            AnyTechnique::FadeUp(t) => t.wf(),
            AnyTechnique::Slide(t) => t.wf(),
            AnyTechnique::Scale(t) => t.wf(),
            AnyTechnique::CountUp(t) => t.wf(),
            AnyTechnique::Eased { inner, .. } => inner.wf(),
            AnyTechnique::Staggered { inner, delay, count } => inner.wf() && stagger_total(
                inner.spec_duration() as int,
                *delay as int,
                *count as int,
            ) <= u64::MAX,
        }
    }

    /// The name.
    pub open spec fn spec_name(&self) -> Seq<char>
        decreases self,
    {
        match self {
            AnyTechnique::FadeIn(t) => t.spec_name(),
            AnyTechnique::FadeUp(t) => t.spec_name(),
            AnyTechnique::Slide(t) => t.spec_name(),
            AnyTechnique::Scale(t) => t.spec_name(),
            AnyTechnique::CountUp(t) => t.spec_name(),
            AnyTechnique::Eased { inner, .. } => inner.spec_name(),
            AnyTechnique::Staggered { .. } => "Stagger"@,
        }
    }

    /// The duration in microseconds.
    pub open spec fn spec_duration(&self) -> u64
        decreases self,
    {
        match self {
            AnyTechnique::FadeIn(t) => t.spec_duration(),
            AnyTechnique::FadeUp(t) => t.spec_duration(),
            AnyTechnique::Slide(t) => t.spec_duration(),
            AnyTechnique::Scale(t) => t.spec_duration(),
            AnyTechnique::CountUp(t) => t.spec_duration(),
            AnyTechnique::Eased { inner, .. } => inner.spec_duration(),
            AnyTechnique::Staggered { inner, delay, count } => stagger_total(
                inner.spec_duration() as int,
                *delay as int,
                *count as int,
            ) as u64,
        }
    }

    /// The output at `progress`.
    pub open spec fn spec_apply(&self, progress: u64) -> TechniqueOutput
        decreases self,
    {
        match self {
            AnyTechnique::FadeIn(t) => t.spec_apply(progress),
            AnyTechnique::FadeUp(t) => t.spec_apply(progress),
            AnyTechnique::Slide(t) => t.spec_apply(progress),
            AnyTechnique::Scale(t) => t.spec_apply(progress),
            AnyTechnique::CountUp(t) => t.spec_apply(progress),
            AnyTechnique::Eased { inner, ease } => inner.spec_apply(
                ease_value(*ease, progress as int) as u64,
            ),
            AnyTechnique::Staggered { inner, delay, count } => inner.spec_apply(
                stagger_phase(
                    inner.spec_duration() as int,
                    *delay as int,
                    *count as int,
                    0,
                    progress as int,
                ) as u64,
            ),
        }
    }

    /// The outputs for the `count` items of a list at `progress`.
    pub open spec fn spec_apply_items(&self, count: usize, progress: u64) -> Seq<TechniqueOutput>
        decreases self,
    {
        match self {
            AnyTechnique::FadeIn(t) => t.spec_apply_items(count, progress),
            AnyTechnique::FadeUp(t) => t.spec_apply_items(count, progress),
            AnyTechnique::Slide(t) => t.spec_apply_items(count, progress),
            AnyTechnique::Scale(t) => t.spec_apply_items(count, progress),
            AnyTechnique::CountUp(t) => t.spec_apply_items(count, progress),
            AnyTechnique::Eased { inner, ease } => inner.spec_apply_items(
                count,
                ease_value(*ease, progress as int) as u64,
            ),
            AnyTechnique::Staggered { inner, delay, .. } => Seq::new(
                count as nat,
                |i: int|
                    inner.spec_apply(
                        stagger_phase(
                            inner.spec_duration() as int,
                            *delay as int,
                            count as int,
                            i,
                            progress as int,
                        ) as u64,
                    ),
            ),
        }
    }

    /// The name of the technique.
    pub fn name(&self) -> (n: &str)
        requires
            self.wf(),
        ensures
            n@ == self.spec_name(),
        decreases self,
    {
        match self {
            AnyTechnique::FadeIn(t) => t.name(),
            AnyTechnique::FadeUp(t) => t.name(),
            AnyTechnique::Slide(t) => t.name(),
            AnyTechnique::Scale(t) => t.name(),
            AnyTechnique::CountUp(t) => t.name(),
            AnyTechnique::Eased { inner, .. } => inner.name(),
            AnyTechnique::Staggered { .. } => "Stagger",
        }
    }

    /// The duration of the technique in microseconds.
    pub fn duration(&self) -> (d: u64)
        requires
            self.wf(),
        ensures
            d == self.spec_duration(),
        decreases self,
    {
        match self {
            AnyTechnique::FadeIn(t) => t.duration(),
            AnyTechnique::FadeUp(t) => t.duration(),
            AnyTechnique::Slide(t) => t.duration(),
            AnyTechnique::Scale(t) => t.duration(),
            AnyTechnique::CountUp(t) => t.duration(),
            AnyTechnique::Eased { inner, .. } => inner.duration(),
            AnyTechnique::Staggered { inner, delay, count } => {
                let base = inner.duration();
                if *count > 1 {
                    assert(0 <= *delay * (*count - 1)) by (nonlinear_arith)
                        requires
                            *count > 1,
                    ;
                    base + *delay * ((*count - 1) as u64)
                } else {
                    base
                }
            },
        }
    }

    /// The output at `progress`.
    pub fn apply(&self, progress: u64) -> (out: TechniqueOutput)
        requires
            self.wf(),
        ensures
            out == self.spec_apply(progress),
        decreases self,
    {
        match self {
            AnyTechnique::FadeIn(t) => t.apply(progress),
            AnyTechnique::FadeUp(t) => t.apply(progress),
            AnyTechnique::Slide(t) => t.apply(progress),
            AnyTechnique::Scale(t) => t.apply(progress),
            AnyTechnique::CountUp(t) => t.apply(progress),
            AnyTechnique::Eased { inner, ease: curve } => inner.apply(ease(*curve, progress)),
            AnyTechnique::Staggered { inner, delay, count } => {
                let local = phase(inner.duration(), *delay, *count, 0, progress);
                inner.apply(local)
            },
        }
    }

    /// The outputs for a list of `count` items at `progress`, one per item.
    pub fn apply_items(&self, count: usize, progress: u64) -> (out: Vec<TechniqueOutput>)
        requires
            self.wf(),
            count <= MAX_ITEMS,
        ensures
            out@ == self.spec_apply_items(count, progress),
        decreases self,
    {
        match self {
            AnyTechnique::FadeIn(t) => t.apply_items(count, progress),
            AnyTechnique::FadeUp(t) => t.apply_items(count, progress),
            AnyTechnique::Slide(t) => t.apply_items(count, progress),
            AnyTechnique::Scale(t) => t.apply_items(count, progress),
            AnyTechnique::CountUp(t) => t.apply_items(count, progress),
            AnyTechnique::Eased { inner, ease: curve } => inner.apply_items(
                count,
                ease(*curve, progress),
            ),
            AnyTechnique::Staggered { inner, delay, .. } => {
                let base = inner.duration();
                let mut out: Vec<TechniqueOutput> = Vec::new();
                let mut i: usize = 0;
                while i < count
                    invariant
                        i <= count <= MAX_ITEMS,
                        inner.wf(),
                        base == inner.spec_duration(),
                        out@.len() == i,
                        forall|j: int|
                            0 <= j < i ==> out@[j] == inner.spec_apply(
                                stagger_phase(
                                    base as int,
                                    *delay as int,
                                    count as int,
                                    j,
                                    progress as int,
                                ) as u64,
                            ),
                    decreases count - i,
                {
                    let local = phase(base, *delay, count, i, progress);
                    out.push(inner.apply(local));
                    i = i + 1;
                }
                assert(out@ =~= self.spec_apply_items(count, progress));
                out
            },
        }
    }
}

impl Technique for AnyTechnique {
    open spec fn wf(&self) -> bool {
        AnyTechnique::wf(self)
    }

    open spec fn spec_name(&self) -> Seq<char> {
        AnyTechnique::spec_name(self)
    }

    open spec fn spec_duration(&self) -> u64 {
        AnyTechnique::spec_duration(self)
    }

    open spec fn spec_apply(&self, progress: u64) -> TechniqueOutput {
        AnyTechnique::spec_apply(self, progress)
    }

    open spec fn spec_apply_items(&self, count: usize, progress: u64) -> Seq<TechniqueOutput> {
        AnyTechnique::spec_apply_items(self, count, progress)
    }

    fn name(&self) -> (n: &str) {
        AnyTechnique::name(self)
    }

    fn duration(&self) -> (d: u64) {
        AnyTechnique::duration(self)
    }

    fn apply(&self, progress: u64) -> (out: TechniqueOutput) {
        AnyTechnique::apply(self, progress)
    }

    fn apply_items(&self, count: usize, progress: u64) -> (out: Vec<TechniqueOutput>) {
        AnyTechnique::apply_items(self, count, progress)
    }
}

/// A technique gives one output for each item of a list.
pub proof fn lemma_one_output_per_item(technique: AnyTechnique, count: usize, progress: u64)
    ensures
        technique.spec_apply_items(count, progress).len() == count,
    decreases technique,
{
    match technique {
        AnyTechnique::Eased { inner, ease } => {
            lemma_one_output_per_item(*inner, count, ease_value(ease, progress as int) as u64);
        },
        _ => {},
    }
}

/// Whether `any` behaves as `technique` does: whether both are usable on the
/// same terms and agree on the name, the duration and every output.
pub open spec fn runs_as<T: Technique>(any: AnyTechnique, technique: T) -> bool {
    &&& any.wf() == technique.wf()
    &&& any.spec_name() == technique.spec_name()
    &&& any.spec_duration() == technique.spec_duration()
    &&& forall|p: u64| #[trigger] any.spec_apply(p) == technique.spec_apply(p)
    &&& forall|c: usize, p: u64| #[trigger]
        any.spec_apply_items(c, p) == technique.spec_apply_items(c, p)
}

/// A technique that a scene can play: one that can be held as an
/// [`AnyTechnique`].
pub trait Playable: Technique + Sized {
    /// The technique as an `AnyTechnique` that behaves as it does.
    fn into_any(self) -> (any: AnyTechnique)
        ensures
            runs_as(any, self),
    ;
}

impl Playable for AnyTechnique {
    fn into_any(self) -> (any: AnyTechnique) {
        self
    }
}

impl Playable for FadeIn {
    fn into_any(self) -> (any: AnyTechnique) {
        AnyTechnique::FadeIn(self)
    }
}

impl Playable for FadeUp {
    fn into_any(self) -> (any: AnyTechnique) {
        AnyTechnique::FadeUp(self)
    }
}

impl Playable for Slide {
    fn into_any(self) -> (any: AnyTechnique) {
        AnyTechnique::Slide(self)
    }
}

impl Playable for Scale {
    fn into_any(self) -> (any: AnyTechnique) {
        AnyTechnique::Scale(self)
    }
}

impl Playable for CountUp {
    fn into_any(self) -> (any: AnyTechnique) {
        AnyTechnique::CountUp(self)
    }
}

impl<T: Playable> Playable for WithEase<T> {
    fn into_any(self) -> (any: AnyTechnique) {
        let curve = self.ease;
        let inner = self.inner.into_any();
        let any = AnyTechnique::Eased { inner: Box::new(inner), ease: curve };
        proof {
            assert forall|p: u64| #[trigger] any.spec_apply(p) == self.spec_apply(p) by {
                let eased = ease_value(curve, p as int) as u64;
                assert(inner.spec_apply(eased) == self.inner.spec_apply(eased));
            }
            assert forall|c: usize, p: u64| #[trigger]
                any.spec_apply_items(c, p) == self.spec_apply_items(c, p) by {
                let eased = ease_value(curve, p as int) as u64;
                assert(inner.spec_apply_items(c, eased) == self.inner.spec_apply_items(c, eased));
            }
        }
        any
    }
}

impl<T: Playable> Playable for Stagger<T> {
    fn into_any(self) -> (any: AnyTechnique) {
        let delay = self.delay;
        let count = self.count;
        let inner = self.inner.into_any();
        let any = AnyTechnique::Staggered { inner: Box::new(inner), delay, count };
        proof {
            let base = self.inner.spec_duration() as int;
            assert forall|p: u64| #[trigger] any.spec_apply(p) == self.spec_apply(p) by {
                let local = stagger_phase(base, delay as int, count as int, 0, p as int) as u64;
                assert(inner.spec_apply(local) == self.inner.spec_apply(local));
            }
            assert forall|c: usize, p: u64| #[trigger]
                any.spec_apply_items(c, p) == self.spec_apply_items(c, p) by {
                assert forall|i: int| 0 <= i < c implies any.spec_apply_items(c, p)[i]
                    == self.spec_apply_items(c, p)[i] by {
                    let local = stagger_phase(base, delay as int, c as int, i, p as int) as u64;
                    assert(inner.spec_apply(local) == self.inner.spec_apply(local));
                }
                assert(any.spec_apply_items(c, p) =~= self.spec_apply_items(c, p));
            }
        }
        any
    }
}

} // verus!
