//! Staging techniques: one technique fanned out over the items of a list.
use crate::technique::{Technique, TechniqueOutput};
use crate::units::{ceil_div, lemma_ceil_div, lemma_mul_bound, MAX_ITEMS, ONE};
use vstd::prelude::*;

verus! {

/// The duration of a stagger over `count` items: the inner duration, and one
/// delay for each item after the first.
pub open spec fn stagger_total(inner: int, delay: int, count: int) -> int {
    if count > 1 {
        inner + delay * (count - 1)
    } else {
        inner
    }
}

/// The time by which item `index` starts after the first.
pub open spec fn stagger_offset(delay: int, count: int, index: int) -> int {
    if count > 1 {
        delay * index
    } else {
        0
    }
}

/// The progress of item `index` within its own run of the inner technique,
/// when the stagger as a whole is at `progress`.
///
/// The whole lasts `total`; the item runs from its offset for the inner
/// duration. Before its run the item is at zero, after it at one, and within
/// it at the share of the run that has passed. A stagger without duration is
/// complete at once.
///
/// The progress is compared as it comes: an easing curve may hand on a
/// progress above one, which lies past the run of every item of the list.
pub open spec fn stagger_phase(inner: int, delay: int, count: int, index: int, progress: int) -> int {
    let total = stagger_total(inner, delay, count);
    let offset = stagger_offset(delay, count, index);
    let done = progress * total;
    if total <= 0 {
        ONE as int
    } else if done <= offset * ONE {
        0
    } else if done >= (offset + inner) * ONE {
        ONE as int
    } else {
        (done - offset * ONE) / inner
    }
}

/// The progress of item `index` within its own run.
pub(crate) fn phase(inner: u64, delay: u64, count: usize, index: usize, progress: u64) -> (local: u64)
    requires
        index <= MAX_ITEMS,
        count <= MAX_ITEMS || stagger_total(inner as int, delay as int, count as int) <= u64::MAX,
    ensures
        local == stagger_phase(
            inner as int,
            delay as int,
            count as int,
            index as int,
            progress as int,
        ),
        local <= ONE,
{
    let ghost total_spec = stagger_total(inner as int, delay as int, count as int);
    let ghost offset_spec = stagger_offset(delay as int, count as int, index as int);
    let extra: u128 = if count > 1 {
        proof {
            if count <= MAX_ITEMS {
                lemma_mul_bound(
                    delay as int,
                    count as int - 1,
                    u64::MAX as int,
                    MAX_ITEMS as int,
                );
            } else {
                assert(0 <= delay * (count - 1)) by (nonlinear_arith)
                    requires
                        0 <= delay,
                        count > 1,
                ;
            }
        }
        (delay as u128) * ((count - 1) as u128)
    } else {
        0
    };
    let total: u128 = (inner as u128) + extra;
    assert(total == total_spec);
    assert(total <= 0x1_0000_0000_0000_0000_0000_0000) by (nonlinear_arith)
        requires
            total == total_spec,
            total_spec <= u64::MAX || total_spec <= u64::MAX + (u64::MAX as int) * (
            MAX_ITEMS as int),
            MAX_ITEMS == 0xffff_ffff,
    ;
    if total == 0 {
        return ONE;
    }
    let offset: u128 = if count > 1 {
        proof {
            lemma_mul_bound(delay as int, index as int, u64::MAX as int, MAX_ITEMS as int);
        }
        (delay as u128) * (index as u128)
    } else {
        0
    };
    assert(offset == offset_spec);
    proof {
        lemma_mul_bound(
            offset as int,
            ONE as int,
            (u64::MAX as int) * (MAX_ITEMS as int),
            ONE as int,
        );
        lemma_mul_bound(
            (offset + inner) as int,
            ONE as int,
            (u64::MAX as int) * (MAX_ITEMS as int) + u64::MAX,
            ONE as int,
        );
    }
    let low: u128 = offset * (ONE as u128);
    let high: u128 = (offset + (inner as u128)) * (ONE as u128);
    // The product of progress and total need not fit where the progress is
    // large, so the progress is held against the two bounds over the total.
    let start: u128 = low / total;
    if (progress as u128) <= start {
        assert(progress * total <= low) by (nonlinear_arith)
            requires
                0 <= progress <= start,
                start == low / total,
                total > 0,
                low >= 0,
        ;
        return 0;
    }
    assert(progress * total > low) by (nonlinear_arith)
        requires
            progress > start,
            start == low / total,
            total > 0,
            low >= 0,
    ;
    let end: u128 = if high % total == 0 {
        high / total
    } else {
        high / total + 1
    };
    proof {
        lemma_ceil_div(high as int, total as int);
        assert(end == ceil_div(high as int, total as int));
    }
    if (progress as u128) >= end {
        assert(progress * total >= high) by (nonlinear_arith)
            requires
                progress >= end,
                end * total >= high,
                total > 0,
        ;
        return ONE;
    }
    assert(high > 0) by {
        if high == 0 {
            assert(0int % (total as int) == 0 && 0int / (total as int) == 0) by (nonlinear_arith)
                requires
                    total > 0,
            ;
        }
    }
    assert(progress * total < high) by (nonlinear_arith)
        requires
            0 <= progress <= end - 1,
            (end - 1) * total < high,
            total > 0,
    ;
    let done: u128 = (progress as u128) * total;
    assert(inner > 0 && (done - low) / (inner as int) < ONE) by (nonlinear_arith)
        requires
            low < done < high,
            low == offset * ONE,
            high == (offset + inner) * ONE,
            inner >= 0,
    ;
    ((done - low) / (inner as u128)) as u64
}

/// Runs a technique over the items of a list, each item starting a fixed
/// delay after the one before.
#[derive(Debug, Clone)]
pub struct Stagger<T: Technique> {
    /// The technique that each item runs.
    pub inner: T,
    /// The delay between the starts of neighbouring items, in microseconds.
    pub delay: u64,
    /// The number of items that the duration is computed for.
    pub count: usize,
}

impl<T: Technique> Stagger<T> {
    /// The output of item `index` of `count` when the whole is at `progress`.
    pub open spec fn spec_apply_item_for_count(
        &self,
        index: usize,
        count: usize,
        progress: u64,
    ) -> TechniqueOutput {
        self.inner.spec_apply(
            stagger_phase(
                self.inner.spec_duration() as int,
                self.delay as int,
                count as int,
                index as int,
                progress as int,
            ) as u64,
        )
    }

    /// A stagger over one item, with a delay of a tenth of a second.
    pub fn new(inner: T) -> (s: Stagger<T>)
        ensures
            s.inner == inner,
            s.delay == 100_000,
            s.count == 1,
    {
        Stagger { inner, delay: 100_000, count: 1 }
    }

    /// The same stagger with another delay between items.
    #[must_use]
    pub fn with_delay(self, delay: u64) -> (s: Stagger<T>)
        ensures
            s.inner == self.inner,
            s.delay == delay,
            s.count == self.count,
    {
        let mut s = self;
        s.delay = delay;
        s
    }

    /// The same stagger over another number of items.
    #[must_use]
    pub fn with_count(self, count: usize) -> (s: Stagger<T>)
        ensures
            s.inner == self.inner,
            s.delay == self.delay,
            s.count == count,
    {
        let mut s = self;
        s.count = count;
        s
    }

    /// The duration of the stagger over a list of `count` items, whatever
    /// number the stagger was configured with: the inner duration, and one
    /// delay for each item after the first. Nothing is given where the
    /// duration does not fit 64 bits.
    pub fn duration_for_count(&self, count: usize) -> (d: Option<u64>)
        requires
            self.inner.wf(),
        ensures
            match d {
                Some(d) => d == stagger_total(
                    self.inner.spec_duration() as int,
                    self.delay as int,
                    count as int,
                ),
                None => stagger_total(
                    self.inner.spec_duration() as int,
                    self.delay as int,
                    count as int,
                ) > u64::MAX,
            },
    {
        let inner = self.inner.duration();
        let extra: u128 = if count > 1 {
            proof {
                lemma_mul_bound(
                    self.delay as int,
                    count as int - 1,
                    u64::MAX as int,
                    u64::MAX as int,
                );
                assert((u64::MAX as int) * (u64::MAX as int) + u64::MAX <= u128::MAX)
                    by (nonlinear_arith)
                    requires
                        u64::MAX == 0xffff_ffff_ffff_ffff,
                        u128::MAX == 0xffff_ffff_ffff_ffff_ffff_ffff_ffff_ffff,
                ;
            }
            (self.delay as u128) * ((count - 1) as u128)
        } else {
            0
        };
        let total: u128 = (inner as u128) + extra;
        if total > u64::MAX as u128 {
            None
        } else {
            Some(total as u64)
        }
    }

    /// The output of item `index`, counted from 0, when the whole is at
    /// `progress`, for the number of items that the stagger was configured
    /// with.
    pub fn apply_item(&self, index: usize, progress: u64) -> (out: TechniqueOutput)
        requires
            self.wf(),
            index <= MAX_ITEMS,
        ensures
            out == self.spec_apply_item_for_count(index, self.count, progress),
    {
        let local = phase(self.inner.duration(), self.delay, self.count, index, progress);
        self.inner.apply(local)
    }

    /// The output of item `index` of a list that holds `count` items, whatever
    /// number the stagger was configured with.
    pub fn apply_item_for_count(&self, index: usize, count: usize, progress: u64) -> (out:
        TechniqueOutput)
        requires
            self.inner.wf(),
            index <= MAX_ITEMS,
            count <= MAX_ITEMS,
        ensures
            out == self.spec_apply_item_for_count(index, count, progress),
    {
        let local = phase(self.inner.duration(), self.delay, count, index, progress);
        self.inner.apply(local)
    }
}

impl<T: Technique> Technique for Stagger<T> {
    /// The inner technique is usable and the total duration fits 64 bits.
    open spec fn wf(&self) -> bool {
        &&& self.inner.wf()
        &&& stagger_total(
            self.inner.spec_duration() as int,
            self.delay as int,
            self.count as int,
        ) <= u64::MAX
    }

    open spec fn spec_name(&self) -> Seq<char> {
        "Stagger"@
    }

    open spec fn spec_duration(&self) -> u64 {
        stagger_total(
            self.inner.spec_duration() as int,
            self.delay as int,
            self.count as int,
        ) as u64
    }

    open spec fn spec_apply(&self, progress: u64) -> TechniqueOutput {
        self.spec_apply_item_for_count(0, self.count, progress)
    }

    open spec fn spec_apply_items(&self, count: usize, progress: u64) -> Seq<TechniqueOutput> {
        Seq::new(
            count as nat,
            |i: int| self.spec_apply_item_for_count(i as usize, count, progress),
        )
    }

    fn name(&self) -> (n: &str) {
        "Stagger"
    }

    fn duration(&self) -> (d: u64) {
        let inner = self.inner.duration();
        if self.count > 1 {
            assert(0 <= self.delay * (self.count - 1)) by (nonlinear_arith)
                requires
                    self.count > 1,
            ;
            inner + self.delay * ((self.count - 1) as u64)
        } else {
            inner
        }
    }

    fn apply(&self, progress: u64) -> (out: TechniqueOutput) {
        self.apply_item(0, progress)
    }

    fn apply_items(&self, count: usize, progress: u64) -> (out: Vec<TechniqueOutput>) {
        let mut out: Vec<TechniqueOutput> = Vec::new();
        let mut i: usize = 0;
        while i < count
            invariant
                i <= count <= MAX_ITEMS,
                self.inner.wf(),
                out@.len() == i,
                forall|j: int|
                    0 <= j < i ==> out@[j] == self.spec_apply_item_for_count(
                        j as usize,
                        count,
                        progress,
                    ),
            decreases count - i,
        {
            out.push(self.apply_item_for_count(i, count, progress));
            i = i + 1;
        }
        assert(out@ =~= self.spec_apply_items(count, progress));
        out
    }
}

/// A stagger configured for `n >= 1` items lasts as long as the inner
/// technique and `n - 1` delays.
pub proof fn lemma_stagger_duration<T: Technique>(inner: T, delay: u64, n: usize)
    requires
        n >= 1,
        (Stagger { inner, delay, count: n }).wf(),
    ensures
        (Stagger { inner, delay, count: n }).spec_duration() == inner.spec_duration() + delay * (n
            - 1),
{
    assert(n == 1 ==> delay * (n - 1) == 0) by (nonlinear_arith);
}

/// At any progress, an earlier item of a stagger is at least as far along its
/// own run as a later one.
pub proof fn lemma_stagger_phase_order(
    inner: int,
    delay: int,
    count: int,
    i: int,
    j: int,
    progress: int,
)
    requires
        0 <= inner,
        0 <= delay,
        0 <= i <= j,
        0 <= progress,
    ensures
        stagger_phase(inner, delay, count, i, progress) >= stagger_phase(
            inner,
            delay,
            count,
            j,
            progress,
        ),
        0 <= stagger_phase(inner, delay, count, j, progress) <= ONE,
{
    let total = stagger_total(inner, delay, count);
    let oi = stagger_offset(delay, count, i);
    let oj = stagger_offset(delay, count, j);
    let done = progress * total;
    assert(0 <= oi <= oj) by (nonlinear_arith)
        requires
            0 <= delay,
            0 <= i <= j,
            oi == delay * i || oi == 0,
            oj == delay * j || oj == 0,
            (oi == 0 && oj == 0) || (oi == delay * i && oj == delay * j),
    ;
    if total > 0 {
        if done > oj * ONE && done < (oj + inner) * ONE {
            assert(inner > 0 && 0 <= (done - oj * ONE) / inner < ONE) by (nonlinear_arith)
                requires
                    oj * ONE < done < (oj + inner) * ONE,
                    inner >= 0,
            ;
        }
        if done > oi * ONE && done < (oi + inner) * ONE {
            assert(inner > 0 && 0 <= (done - oi * ONE) / inner < ONE) by (nonlinear_arith)
                requires
                    oi * ONE < done < (oi + inner) * ONE,
                    inner >= 0,
            ;
            if done > oj * ONE && done < (oj + inner) * ONE {
                assert((done - oj * ONE) / inner <= (done - oi * ONE) / inner)
                    by (nonlinear_arith)
                    requires
                        inner > 0,
                        oi <= oj,
                        0 <= done - oj * ONE,
                ;
            }
        }
        assert(oi * ONE <= oj * ONE) by (nonlinear_arith)
            requires
                oi <= oj,
        ;
        assert((oi + inner) * ONE <= (oj + inner) * ONE) by (nonlinear_arith)
            requires
                oi <= oj,
        ;
    }
}

} // verus!
