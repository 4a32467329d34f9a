//! Techniques: pure mappings from progress to a visual transform, and the
//! easing curves that reshape progress.
//!
//! Progress, opacity and scale count millionths of one; translations count
//! millionths of a pixel (see [`crate::units`]).
use crate::units::{clamp_unit, interpolate, lerp, unit_clamp, MAX_ITEMS, ONE};
use vstd::prelude::*;

verus! {

/// The easing curves.
#[derive(Debug, Clone, Copy, PartialEq, Eq, Hash, Structural)]
pub enum Ease {
    Linear,
    EaseIn,
    EaseOut,
    EaseInOut,
    OutBack,
    OutBounce,
    Spring,
}

/// The overshoot constant of the `OutBack` curve, 1.70158.
pub const BACK_OVERSHOOT: u64 = 1_701_580;

/// The number of equal steps into which the `Spring` curve is tabulated.
pub const SPRING_STEPS: u64 = 64;

/// The `Spring` curve `1 - e^(-6t) cos(2 pi t)` at `t = k / 64`, rounded to
/// millionths.
pub open spec fn spring_knot(k: int) -> int {
    if k <= 0 { 0 }
    else if k == 1 { 93874 } else if k == 2 { 186900 } else if k == 3 { 277664 }
    else if k == 4 { 365028 } else if k == 5 { 448108 } else if k == 6 { 526243 }
    else if k == 7 { 598967 } else if k == 8 { 665986 } else if k == 9 { 727151 }
    else if k == 10 { 782436 } else if k == 11 { 831918 } else if k == 12 { 875761 }
    else if k == 13 { 914192 } else if k == 14 { 947492 } else if k == 15 { 975980 }
    else if k == 16 { 1000000 } else if k == 17 { 1019913 } else if k == 18 { 1036088 }
    else if k == 19 { 1048892 } else if k == 20 { 1058686 } else if k == 21 { 1065822 }
    else if k == 22 { 1070633 } else if k == 23 { 1073436 } else if k == 24 { 1074529 }
    else if k == 25 { 1074184 } else if k == 26 { 1072653 } else if k == 27 { 1070165 }
    else if k == 28 { 1066926 } else if k == 29 { 1063117 } else if k == 30 { 1058901 }
    else if k == 31 { 1054417 } else if k == 32 { 1049787 } else if k == 33 { 1045113 }
    else if k == 34 { 1040482 } else if k == 35 { 1035963 } else if k == 36 { 1031613 }
    else if k == 37 { 1027477 } else if k == 38 { 1023587 } else if k == 39 { 1019966 }
    else if k == 40 { 1016630 } else if k == 41 { 1013584 } else if k == 42 { 1010832 }
    else if k == 43 { 1008368 } else if k == 44 { 1006186 } else if k == 45 { 1004272 }
    else if k == 46 { 1002614 } else if k == 47 { 1001196 } else if k == 48 { 1000000 }
    else if k == 49 { 999009 } else if k == 50 { 998203 } else if k == 51 { 997566 }
    else if k == 52 { 997078 } else if k == 53 { 996723 } else if k == 54 { 996483 }
    else if k == 55 { 996344 } else if k == 56 { 996289 } else if k == 57 { 996307 }
    else if k == 58 { 996383 } else if k == 59 { 996507 } else if k == 60 { 996668 }
    else if k == 61 { 996858 } else if k == 62 { 997068 } else if k == 63 { 997291 }
    else { 997521 }
}

/// `t` squared.
pub open spec fn ease_in_curve(t: int) -> int {
    t * t / (ONE as int)
}

/// One minus the square of what is left of `t`.
pub open spec fn ease_out_curve(t: int) -> int {
    ONE - (ONE - t) * (ONE - t) / (ONE as int)
}

/// The two-piece quadratic: `2 t^2` below one half, `1 - (2 - 2t)^2 / 2` from
/// there on.
pub open spec fn ease_in_out_curve(t: int) -> int {
    if 2 * t < ONE {
        2 * t * t / (ONE as int)
    } else {
        ONE - (2 * ONE - 2 * t) * (2 * ONE - 2 * t) / (2 * ONE as int)
    }
}

/// The cubic part of `OutBack`, `u^2 ((s + 1) u - s)` for `u = 1 - t`, which
/// is taken from one. It is scaled by the cube of `ONE`.
pub open spec fn back_dip(t: int) -> int {
    let u = ONE - t;
    u * u * ((BACK_OVERSHOOT + ONE) * u - BACK_OVERSHOOT * ONE)
}

/// The overshooting cubic `1 + (t - 1)^2 ((s + 1)(t - 1) + s)`, its cubic part
/// rounded toward zero.
pub open spec fn out_back_curve(t: int) -> int {
    let dip = back_dip(t);
    let cube = (ONE as int) * (ONE as int) * (ONE as int);
    if dip >= 0 {
        ONE - dip / cube
    } else {
        ONE + (-dip) / cube
    }
}

/// The four-piece bounce, with the pieces `7.5625 (t - c)^2 + h` written over
/// the common denominator.
pub open spec fn out_bounce_curve(t: int) -> int {
    if 11 * t < 4 * ONE {
        121 * t * t / (16 * ONE as int)
    } else if 11 * t < 8 * ONE {
        (11 * t - 6 * ONE) * (11 * t - 6 * ONE) / (16 * ONE as int) + 750_000
    } else if 11 * t < 10 * ONE {
        (11 * t - 9 * ONE) * (11 * t - 9 * ONE) / (16 * ONE as int) + 937_500
    } else {
        (22 * t - 21 * ONE) * (22 * t - 21 * ONE) / (64 * ONE as int) + 984_375
    }
}

/// The damped oscillation, read from its table and interpolated linearly
/// between neighbouring knots.
pub open spec fn spring_curve(t: int) -> int {
    let pos = t * SPRING_STEPS;
    let k = pos / (ONE as int);
    let frac = pos % (ONE as int);
    lerp(spring_knot(k), spring_knot(k + 1), frac)
}

/// The value of `curve` at `t`, where `t` above one counts as one.
pub open spec fn ease_value(curve: Ease, t: int) -> int {
    let t = unit_clamp(t);
    match curve {
        Ease::Linear => t,
        Ease::EaseIn => ease_in_curve(t),
        Ease::EaseOut => ease_out_curve(t),
        Ease::EaseInOut => ease_in_out_curve(t),
        Ease::OutBack => out_back_curve(t),
        Ease::OutBounce => out_bounce_curve(t),
        Ease::Spring => spring_curve(t),
    }
}

/// The tabulated value of the `Spring` curve at knot `k`.
fn spring_knot_at(k: u64) -> (v: i64)
    requires
        k <= SPRING_STEPS + 1,
    ensures
        v == spring_knot(k as int),
        0 <= v <= 1_074_529,
{
    if k == 0 { 0 }
    else if k == 1 { 93874 } else if k == 2 { 186900 } else if k == 3 { 277664 }
    else if k == 4 { 365028 } else if k == 5 { 448108 } else if k == 6 { 526243 }
    else if k == 7 { 598967 } else if k == 8 { 665986 } else if k == 9 { 727151 }
    else if k == 10 { 782436 } else if k == 11 { 831918 } else if k == 12 { 875761 }
    else if k == 13 { 914192 } else if k == 14 { 947492 } else if k == 15 { 975980 }
    else if k == 16 { 1000000 } else if k == 17 { 1019913 } else if k == 18 { 1036088 }
    else if k == 19 { 1048892 } else if k == 20 { 1058686 } else if k == 21 { 1065822 }
    else if k == 22 { 1070633 } else if k == 23 { 1073436 } else if k == 24 { 1074529 }
    else if k == 25 { 1074184 } else if k == 26 { 1072653 } else if k == 27 { 1070165 }
    else if k == 28 { 1066926 } else if k == 29 { 1063117 } else if k == 30 { 1058901 }
    else if k == 31 { 1054417 } else if k == 32 { 1049787 } else if k == 33 { 1045113 }
    else if k == 34 { 1040482 } else if k == 35 { 1035963 } else if k == 36 { 1031613 }
    else if k == 37 { 1027477 } else if k == 38 { 1023587 } else if k == 39 { 1019966 }
    else if k == 40 { 1016630 } else if k == 41 { 1013584 } else if k == 42 { 1010832 }
    else if k == 43 { 1008368 } else if k == 44 { 1006186 } else if k == 45 { 1004272 }
    else if k == 46 { 1002614 } else if k == 47 { 1001196 } else if k == 48 { 1000000 }
    else if k == 49 { 999009 } else if k == 50 { 998203 } else if k == 51 { 997566 }
    else if k == 52 { 997078 } else if k == 53 { 996723 } else if k == 54 { 996483 }
    else if k == 55 { 996344 } else if k == 56 { 996289 } else if k == 57 { 996307 }
    else if k == 58 { 996383 } else if k == 59 { 996507 } else if k == 60 { 996668 }
    else if k == 61 { 996858 } else if k == 62 { 997068 } else if k == 63 { 997291 }
    else { 997521 }
}

/// The square of a ratio of at most `bound`, over `denom`.
fn square_over(x: u64, denom: u64, bound: u64) -> (r: u64)
    requires
        x <= bound <= 0xffff_ffff,
        denom > 0,
    ensures
        r == (x as int) * (x as int) / (denom as int),
        r <= bound * bound / (denom as int),
{
    proof {
        crate::units::lemma_mul_bound(x as int, x as int, bound as int, bound as int);
        crate::units::lemma_mul_bound(
            bound as int,
            bound as int,
            0xffff_ffff as int,
            0xffff_ffff as int,
        );
        crate::units::lemma_div_monotone(
            (x as int) * (x as int),
            (bound as int) * (bound as int),
            denom as int,
        );
    }
    x * x / denom
}

/// The `OutBack` curve at `t`.
fn out_back(t: u64) -> (r: u64)
    requires
        t <= ONE,
    ensures
        r == out_back_curve(t as int),
{
    let u: i128 = (ONE - t) as i128;
    proof {
        crate::units::lemma_mul_bound(u as int, u as int, ONE as int, ONE as int);
        crate::units::lemma_mul_bound(
            (BACK_OVERSHOOT + ONE) as int,
            u as int,
            (BACK_OVERSHOOT + ONE) as int,
            ONE as int,
        );
    }
    let square: i128 = u * u;
    let slope: i128 = ((BACK_OVERSHOOT + ONE) as i128) * u - ((BACK_OVERSHOOT * ONE) as i128);
    assert(slope <= (ONE as int) * (ONE as int));
    assert(-(BACK_OVERSHOOT as int) * (ONE as int) <= slope);
    let cube: i128 = (ONE as i128) * (ONE as i128) * (ONE as i128);
    if slope >= 0 {
        proof {
            crate::units::lemma_mul_bound(
                square as int,
                slope as int,
                (ONE as int) * (ONE as int),
                (ONE as int) * (ONE as int),
            );
            assert(square * slope == back_dip(t as int)) by (nonlinear_arith)
                requires
                    square == u * u,
                    slope == (BACK_OVERSHOOT + ONE) * u - BACK_OVERSHOOT * ONE,
                    u == ONE - t,
            ;
            crate::units::lemma_div_monotone(
                (square as int) * (slope as int),
                (ONE as int) * (ONE as int) * ((ONE as int) * (ONE as int)),
                cube as int,
            );
            assert((ONE as int) * (ONE as int) * ((ONE as int) * (ONE as int)) / (cube as int)
                == ONE as int) by (nonlinear_arith)
                requires
                    cube == (ONE as int) * (ONE as int) * (ONE as int),
            ;
        }
        let dip: i128 = square * slope;
        (ONE as i128 - dip / cube) as u64
    } else {
        let rise: i128 = -slope;
        proof {
            crate::units::lemma_mul_bound(
                square as int,
                rise as int,
                (ONE as int) * (ONE as int),
                (BACK_OVERSHOOT as int) * (ONE as int),
            );
            assert(square * rise == -back_dip(t as int)) by (nonlinear_arith)
                requires
                    square == u * u,
                    rise == -((BACK_OVERSHOOT + ONE) * u - BACK_OVERSHOOT * ONE),
                    u == ONE - t,
            ;
            crate::units::lemma_div_monotone(
                (square as int) * (rise as int),
                (ONE as int) * (ONE as int) * ((BACK_OVERSHOOT as int) * (ONE as int)),
                cube as int,
            );
            assert((ONE as int) * (ONE as int) * ((BACK_OVERSHOOT as int) * (ONE as int)) / (
            cube as int) == BACK_OVERSHOOT as int) by (nonlinear_arith)
                requires
                    cube == (ONE as int) * (ONE as int) * (ONE as int),
            ;
        }
        let lift: i128 = square * rise;
        (ONE as i128 + lift / cube) as u64
    }
}

/// The `OutBounce` curve at `t`.
fn out_bounce(t: u64) -> (r: u64)
    requires
        t <= ONE,
    ensures
        r == out_bounce_curve(t as int),
{
    if 11 * t < 4 * ONE {
        let r = square_over(11 * t, 16 * ONE, 4 * ONE);
        proof {
            assert(121 * (t as int) * (t as int) == (11 * t) * (11 * t)) by (nonlinear_arith);
        }
        r
    } else if 11 * t < 8 * ONE {
        let x: u64 = if 11 * t >= 6 * ONE {
            11 * t - 6 * ONE
        } else {
            6 * ONE - 11 * t
        };
        proof {
            assert((x as int) * (x as int) == (11 * t - 6 * ONE) * (11 * t - 6 * ONE))
                by (nonlinear_arith)
                requires
                    x == 11 * t - 6 * ONE || x == -(11 * t - 6 * ONE),
            ;
        }
        square_over(x, 16 * ONE, 2 * ONE) + 750_000
    } else if 11 * t < 10 * ONE {
        let x: u64 = if 11 * t >= 9 * ONE {
            11 * t - 9 * ONE
        } else {
            9 * ONE - 11 * t
        };
        proof {
            assert((x as int) * (x as int) == (11 * t - 9 * ONE) * (11 * t - 9 * ONE))
                by (nonlinear_arith)
                requires
                    x == 11 * t - 9 * ONE || x == -(11 * t - 9 * ONE),
            ;
        }
        square_over(x, 16 * ONE, ONE) + 937_500
    } else {
        let x: u64 = if 22 * t >= 21 * ONE {
            22 * t - 21 * ONE
        } else {
            21 * ONE - 22 * t
        };
        proof {
            assert((x as int) * (x as int) == (22 * t - 21 * ONE) * (22 * t - 21 * ONE))
                by (nonlinear_arith)
                requires
                    x == 22 * t - 21 * ONE || x == -(22 * t - 21 * ONE),
            ;
        }
        square_over(x, 64 * ONE, ONE) + 984_375
    }
}

/// The `Spring` curve at `t`.
fn spring(t: u64) -> (r: u64)
    requires
        t <= ONE,
    ensures
        r == spring_curve(t as int),
{
    let pos: u64 = t * SPRING_STEPS;
    let k: u64 = pos / ONE;
    let frac: u64 = pos % ONE;
    let low = spring_knot_at(k);
    let high = spring_knot_at(k + 1);
    interpolate(low, high, frac) as u64
}

/// Applies an easing curve to the progress `t`. A `t` above one counts as one.
/// `OutBack` and `Spring` rise above one between the end points.
#[must_use]
pub fn ease(curve: Ease, t: u64) -> (r: u64)
    ensures
        r == ease_value(curve, t as int),
{
    let t = clamp_unit(t);
    match curve {
        Ease::Linear => t,
        Ease::EaseIn => square_over(t, ONE, ONE),
        Ease::EaseOut => ONE - square_over(ONE - t, ONE, ONE),
        Ease::EaseInOut => {
            if 2 * t < ONE {
                let r = square_over(2 * t, 2 * ONE, ONE);
                proof {
                    assert((2 * t) * (2 * t) / (2 * ONE as int) == 2 * (t as int) * (t as int) / (
                    ONE as int)) by (nonlinear_arith);
                }
                r
            } else {
                ONE - square_over(2 * ONE - 2 * t, 2 * ONE, ONE)
            }
        },
        Ease::OutBack => out_back(t),
        Ease::OutBounce => out_bounce(t),
        Ease::Spring => spring(t),
    }
}

/// Every curve starts at zero and ends within a hundredth of one: all but
/// `Spring` end at one exactly.
pub proof fn lemma_ease_end_points(curve: Ease)
    ensures
        ease_value(curve, 0) == 0,
        ONE - 10_000 < ease_value(curve, ONE as int) < ONE + 10_000,
        curve != Ease::Spring ==> ease_value(curve, ONE as int) == ONE,
{
    let cube = (ONE as int) * (ONE as int) * (ONE as int);
    match curve {
        Ease::OutBack => {
            assert(back_dip(0) == (ONE as int) * cube) by (nonlinear_arith)
                requires
                    cube == (ONE as int) * (ONE as int) * (ONE as int),
            ;
            assert((ONE as int) * cube / cube == ONE as int) by (nonlinear_arith)
                requires
                    cube > 0,
            ;
            assert(back_dip(ONE as int) == 0) by (nonlinear_arith);
            assert(0int / cube == 0);
        },
        Ease::Spring => {
            crate::units::lemma_share_bounds(spring_knot(1) - spring_knot(0), 0);
            crate::units::lemma_share_bounds(spring_knot(65) - spring_knot(64), 0);
            assert(spring_curve(0) == 0);
            assert(spring_curve(ONE as int) == 997_521);
        },
        Ease::Linear => {},
        Ease::EaseIn => {
            assert(ease_in_curve(ONE as int) == ONE) by (nonlinear_arith);
            assert(ease_in_curve(0) == 0) by (nonlinear_arith);
        },
        Ease::EaseOut => {
            assert(ease_out_curve(ONE as int) == ONE) by (nonlinear_arith);
            assert(ease_out_curve(0) == 0) by (nonlinear_arith);
        },
        Ease::EaseInOut => {
            assert(ease_in_out_curve(ONE as int) == ONE) by (nonlinear_arith);
            assert(ease_in_out_curve(0) == 0) by (nonlinear_arith);
        },
        Ease::OutBounce => {
            assert(out_bounce_curve(ONE as int) == ONE) by (nonlinear_arith);
            assert(out_bounce_curve(0) == 0) by (nonlinear_arith);
        },
    }
}

/// The visual state that a technique gives at one progress.
#[derive(Debug, Clone, Copy, PartialEq, Eq, Structural)]
pub struct TechniqueOutput {
    /// Opacity, from 0 (transparent) to `ONE` (opaque).
    pub opacity: i64,
    /// Horizontal translation in millionths of a pixel.
    pub translate_x: i64,
    /// Vertical translation in millionths of a pixel.
    pub translate_y: i64,
    /// Scale factor, `ONE` for the natural size.
    pub scale: i64,
    /// Rotation in millionths of a degree.
    pub rotation: i64,
}

impl TechniqueOutput {
    /// The output that changes nothing: opaque, at the natural size, in place.
    pub open spec fn identity() -> TechniqueOutput {
        TechniqueOutput {
            opacity: ONE as i64,
            translate_x: 0,
            translate_y: 0,
            scale: ONE as i64,
            rotation: 0,
        }
    }
}

impl Default for TechniqueOutput {
    /// The output that changes nothing.
    fn default() -> (out: TechniqueOutput)
        ensures
            out == TechniqueOutput::identity(),
    {
        TechniqueOutput {
            opacity: ONE as i64,
            translate_x: 0,
            translate_y: 0,
            scale: ONE as i64,
            rotation: 0,
        }
    }
}

/// What every animation technique offers: a name, a duration, and the output
/// at a given progress, for one element or for each item of a list.
///
/// The executable methods compute what the specification methods state, so a
/// technique is a pure function of its configuration and the progress.
pub trait Technique {
    /// The configuration is usable: its durations can be computed.
    spec fn wf(&self) -> bool;

    /// The name.
    spec fn spec_name(&self) -> Seq<char>;

    /// The duration in microseconds.
    spec fn spec_duration(&self) -> u64;

    /// The output at `progress`.
    spec fn spec_apply(&self, progress: u64) -> TechniqueOutput;

    /// The outputs for the `count` items of a list at `progress`.
    spec fn spec_apply_items(&self, count: usize, progress: u64) -> Seq<TechniqueOutput>;

    /// The name of the technique.
    fn name(&self) -> (n: &str)
        requires
            self.wf(),
        ensures
            n@ == self.spec_name(),
    ;

    /// The duration of the technique in microseconds.
    fn duration(&self) -> (d: u64)
        requires
            self.wf(),
        ensures
            d == self.spec_duration(),
    ;

    /// The output at `progress`, from 0 at the start to `ONE` at the end.
    fn apply(&self, progress: u64) -> (out: TechniqueOutput)
        requires
            self.wf(),
        ensures
            out == self.spec_apply(progress),
    ;

    /// The outputs for a list of `count` items at `progress`, one per item.
    fn apply_items(&self, count: usize, progress: u64) -> (out: Vec<TechniqueOutput>)
        requires
            self.wf(),
            count <= MAX_ITEMS,
        ensures
            out@ == self.spec_apply_items(count, progress),
    ;
}

/// The same output for each of `count` items.
pub open spec fn uniform(count: usize, out: TechniqueOutput) -> Seq<TechniqueOutput> {
    Seq::new(count as nat, |i: int| out)
}

/// A list that holds `out` once for each of `count` items.
pub fn repeat(count: usize, out: TechniqueOutput) -> (list: Vec<TechniqueOutput>)
    ensures
        list@ == uniform(count, out),
{
    let mut list: Vec<TechniqueOutput> = Vec::new();
    let mut i: usize = 0;
    while i < count
        invariant
            i <= count,
            list@ == uniform(i, out),
        decreases count - i,
    {
        list.push(out);
        assert(list@ =~= uniform((i + 1) as usize, out));
        i = i + 1;
    }
    list
}

/// A technique whose progress is reshaped by an easing curve.
#[derive(Debug, Clone)]
pub struct WithEase<T: Technique> {
    pub inner: T,
    pub ease: Ease,
}

impl<T: Technique> Technique for WithEase<T> {
    open spec fn wf(&self) -> bool {
        self.inner.wf()
    }

    open spec fn spec_name(&self) -> Seq<char> {
        self.inner.spec_name()
    }

    open spec fn spec_duration(&self) -> u64 {
        self.inner.spec_duration()
    }

    open spec fn spec_apply(&self, progress: u64) -> TechniqueOutput {
        self.inner.spec_apply(ease_value(self.ease, progress as int) as u64)
    }

    open spec fn spec_apply_items(&self, count: usize, progress: u64) -> Seq<TechniqueOutput> {
        self.inner.spec_apply_items(count, ease_value(self.ease, progress as int) as u64)
    }

    fn name(&self) -> (n: &str) {
        self.inner.name()
    }

    fn duration(&self) -> (d: u64) {
        self.inner.duration()
    }

    fn apply(&self, progress: u64) -> (out: TechniqueOutput) {
        let eased = ease(self.ease, progress);
        self.inner.apply(eased)
    }

    fn apply_items(&self, count: usize, progress: u64) -> (out: Vec<TechniqueOutput>) {
        let eased = ease(self.ease, progress);
        self.inner.apply_items(count, eased)
    }
}

/// Combinators that every technique has.
pub trait TechniqueExt: Technique + Sized {
    /// Wraps the technique so that `curve` reshapes its progress.
    fn with_ease(self, curve: Ease) -> (eased: WithEase<Self>)
        ensures
            eased.inner == self,
            eased.ease == curve,
    {
        WithEase { inner: self, ease: curve }
    }
}

impl<T: Technique> TechniqueExt for T {

}

} // verus!
