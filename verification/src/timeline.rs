//! The timeline: an ordered run of typed segments with a frame rate.
//!
//! The timeline is the master clock of a scene. It accounts for durations, maps
//! instants to frame numbers and answers range queries. Times count
//! microseconds (see [`crate::units`]).
use crate::positions::{
    lemma_positions_agree, lemma_positions_grow, lemma_positions_stop, positions_below,
};
use crate::units::{ceil_div, lemma_mul_bound, MAX_TIME, SECOND};
use vstd::prelude::*;

verus! {

/// One interval on the timeline.
#[derive(Debug, Clone, PartialEq, Eq)]
pub enum Segment {
    /// Spoken text.
    Narration { text: String, duration: u64 },
    /// The window during which a technique animates its targets.
    Animation { name: String, duration: u64 },
    /// A pacing gap.
    Silence { duration: u64 },
    /// A reference to a pre-recorded audio or video asset.
    Clip { path: String, duration: u64 },
}

impl Segment {
    /// The duration of the segment in microseconds.
    pub open spec fn spec_duration(&self) -> u64 {
        match self {
            Segment::Narration { duration, .. } => *duration,
            Segment::Animation { duration, .. } => *duration,
            Segment::Silence { duration } => *duration,
            Segment::Clip { duration, .. } => *duration,
        }
    }

    /// Whether the segment is a narration.
    pub open spec fn is_narration(&self) -> bool {
        self is Narration
    }

    /// The same segment with another duration.
    pub open spec fn with_duration(self, d: u64) -> Segment {
        match self {
            Segment::Narration { text, .. } => Segment::Narration { text, duration: d },
            Segment::Animation { name, .. } => Segment::Animation { name, duration: d },
            Segment::Silence { .. } => Segment::Silence { duration: d },
            Segment::Clip { path, .. } => Segment::Clip { path, duration: d },
        }
    }

    /// The duration of the segment in microseconds.
    #[verifier::when_used_as_spec(spec_duration)]
    pub fn duration(&self) -> (d: u64)
        ensures
            d == self.spec_duration(),
    {
        match self {
            Segment::Narration { duration, .. } => *duration,
            Segment::Animation { duration, .. } => *duration,
            Segment::Silence { duration } => *duration,
            Segment::Clip { duration, .. } => *duration,
        }
    }

    /// A copy of the segment that lasts `d` microseconds.
    pub fn retimed(&self, d: u64) -> (s: Segment)
        ensures
            s == self.with_duration(d),
    {
        match self {
            Segment::Narration { text, .. } => Segment::Narration {
                text: text.clone(),
                duration: d,
            },
            Segment::Animation { name, .. } => Segment::Animation {
                name: name.clone(),
                duration: d,
            },
            Segment::Silence { .. } => Segment::Silence { duration: d },
            Segment::Clip { path, .. } => Segment::Clip { path: path.clone(), duration: d },
        }
    }
}

/// The time taken by the first `k` segments: the instant at which segment `k`
/// starts.
pub open spec fn elapsed(segs: Seq<Segment>, k: int) -> int
    decreases k,
{
    if k <= 0 || k > segs.len() {
        0
    } else {
        elapsed(segs, k - 1) + segs[k - 1].spec_duration()
    }
}

/// The time taken by all segments.
pub open spec fn total_of(segs: Seq<Segment>) -> int {
    elapsed(segs, segs.len() as int)
}

/// The number of frames that cover `total` microseconds at `fps` frames per
/// second: the product rounded up, held to what a `u32` can count.
pub open spec fn frames_in(total: int, fps: int) -> int {
    if total <= 0 {
        0
    } else {
        let exact = ceil_div(total * fps, SECOND as int);
        if exact > u32::MAX as int {
            u32::MAX as int
        } else {
            exact
        }
    }
}

/// The frame that is on screen at `time`, on a timeline of `frames` frames: the
/// product of time and rate rounded down, held to the valid frame numbers.
pub open spec fn frame_index(frames: int, fps: int, time: int) -> int {
    if frames <= 0 || time <= 0 {
        0
    } else {
        let raw = time * fps / (SECOND as int);
        if raw > frames - 1 {
            frames - 1
        } else {
            raw
        }
    }
}

/// Whether position `i` holds a narration.
pub open spec fn narration_at(segs: Seq<Segment>) -> spec_fn(int) -> bool {
    |i: int| segs[i].is_narration()
}

/// The positions of all narrations, in ascending order.
pub open spec fn narration_positions(segs: Seq<Segment>) -> Seq<int> {
    positions_below(segs.len() as int, narration_at(segs))
}

/// Whether a segment that starts at `seg_start` and lasts `seg_dur` overlaps
/// the query range from `start` to `end`: whether the half-open intervals
/// `[seg_start, seg_start + seg_dur)` and `[start, end)` share an instant. A
/// segment without duration and a range without length hold no instant, so
/// they overlap nothing.
pub open spec fn overlaps(seg_start: int, seg_dur: int, start: int, end: int) -> bool {
    seg_dur > 0 && start < end && seg_start < end && seg_start + seg_dur > start
}

/// Whether the segment at position `i` overlaps the query range.
pub open spec fn hit_at(segs: Seq<Segment>, start: int, end: int) -> spec_fn(int) -> bool {
    |i: int| overlaps(elapsed(segs, i), segs[i].spec_duration() as int, start, end)
}

/// The positions of all segments that overlap the query range, ascending.
pub open spec fn hits(segs: Seq<Segment>, start: int, end: int) -> Seq<int> {
    positions_below(segs.len() as int, hit_at(segs, start, end))
}

/// The number of narrations before position `i`.
pub open spec fn narration_rank(segs: Seq<Segment>, i: int) -> int {
    positions_below(i, narration_at(segs)).len() as int
}

/// The segments with each narration given its new duration: the narration of
/// rank `j` gets `durations[j]`, and every other segment stays as it is.
pub open spec fn resolved(segs: Seq<Segment>, durations: Seq<u64>) -> Seq<Segment> {
    Seq::new(
        segs.len(),
        |i: int|
            if segs[i].is_narration() {
                segs[i].with_duration(durations[narration_rank(segs, i)])
            } else {
                segs[i]
            },
    )
}

/// The time taken by the segments below `k` that are no narrations.
pub open spec fn elapsed_unspoken(segs: Seq<Segment>, k: int) -> int
    decreases k,
{
    if k <= 0 || k > segs.len() {
        0
    } else if segs[k - 1].is_narration() {
        elapsed_unspoken(segs, k - 1)
    } else {
        elapsed_unspoken(segs, k - 1) + segs[k - 1].spec_duration()
    }
}

/// The sum of the first `k` durations.
pub open spec fn sum_of(durations: Seq<u64>, k: int) -> int
    decreases k,
{
    if k <= 0 || k > durations.len() {
        0
    } else {
        sum_of(durations, k - 1) + durations[k - 1]
    }
}

/// The total duration of the timeline once its narrations last as long as
/// `durations`: the time of all other segments and the sum of the durations.
pub open spec fn retimed_total(segs: Seq<Segment>, durations: Seq<u64>) -> int {
    elapsed_unspoken(segs, segs.len() as int) + sum_of(durations, durations.len() as int)
}

/// The sum of more durations is no less.
pub proof fn lemma_sum_grows(durations: Seq<u64>, k: int, n: int)
    requires
        0 <= k <= n <= durations.len(),
    ensures
        0 <= sum_of(durations, k) <= sum_of(durations, n),
    decreases n,
{
    if k < n {
        lemma_sum_grows(durations, k, n - 1);
    } else if k > 0 {
        lemma_sum_grows(durations, k - 1, n - 1);
    }
}

/// The sum of the durations, where it is at most `limit`.
pub fn sum_within(durations: &[u64], limit: u64) -> (sum: Option<u64>)
    ensures
        match sum {
            Some(total) => total == sum_of(durations@, durations@.len() as int) && total <= limit,
            None => sum_of(durations@, durations@.len() as int) > limit,
        },
{
    let mut total: u64 = 0;
    let mut i: usize = 0;
    while i < durations.len()
        invariant
            i <= durations@.len(),
            total == sum_of(durations@, i as int),
            total <= limit,
        decreases durations@.len() - i,
    {
        if durations[i] > limit - total {
            proof {
                lemma_sum_grows(durations@, i as int + 1, durations@.len() as int);
            }
            return None;
        }
        total = total + durations[i];
        i = i + 1;
    }
    Some(total)
}

/// Elapsed time never decreases along the timeline.
pub proof fn lemma_elapsed_monotone(segs: Seq<Segment>, i: int, j: int)
    requires
        0 <= i <= j <= segs.len(),
    ensures
        0 <= elapsed(segs, i) <= elapsed(segs, j),
    decreases j,
{
    if j > 0 {
        if i < j {
            lemma_elapsed_monotone(segs, i, j - 1);
        } else {
            lemma_elapsed_monotone(segs, i - 1, j - 1);
        }
    }
}

/// Elapsed time up to `k` depends on the first `k` segments only.
pub proof fn lemma_elapsed_prefix(a: Seq<Segment>, b: Seq<Segment>, k: int)
    requires
        0 <= k <= a.len(),
        k <= b.len(),
        forall|i: int| 0 <= i < k ==> a[i].spec_duration() == b[i].spec_duration(),
    ensures
        elapsed(a, k) == elapsed(b, k),
    decreases k,
{
    if k > 0 {
        lemma_elapsed_prefix(a, b, k - 1);
    }
}

/// Appending a segment adds its duration to the total and leaves every earlier
/// start time as it was.
pub proof fn lemma_elapsed_push(segs: Seq<Segment>, seg: Segment)
    ensures
        total_of(segs.push(seg)) == total_of(segs) + seg.spec_duration(),
        forall|k: int| 0 <= k <= segs.len() ==> elapsed(segs.push(seg), k) == elapsed(segs, k),
{
    let after = segs.push(seg);
    assert forall|k: int| 0 <= k <= segs.len() implies elapsed(after, k) == elapsed(segs, k) by {
        lemma_elapsed_prefix(after, segs, k);
    }
    assert(after[after.len() - 1] == seg);
}

/// Giving segment `index` the duration `d` shifts every later start time by the
/// difference and leaves the earlier ones as they were.
pub proof fn lemma_elapsed_update(segs: Seq<Segment>, index: int, d: u64, k: int)
    requires
        0 <= index < segs.len(),
        0 <= k <= segs.len(),
    ensures
        k <= index ==> elapsed(segs.update(index, segs[index].with_duration(d)), k) == elapsed(
            segs,
            k,
        ),
        k > index ==> elapsed(segs.update(index, segs[index].with_duration(d)), k) == elapsed(
            segs,
            k,
        ) - segs[index].spec_duration() + d,
    decreases k,
{
    let after = segs.update(index, segs[index].with_duration(d));
    if k > 0 {
        lemma_elapsed_update(segs, index, d, k - 1);
        if k - 1 != index {
            assert(after[k - 1] == segs[k - 1]);
        }
    }
}

/// A range query finds exactly the segments that overlap the range: each
/// position that it gives overlaps, each overlapping position is given, and
/// the positions ascend.
pub proof fn lemma_hits_exact(segs: Seq<Segment>, start: int, end: int)
    ensures
        forall|i: int|
            0 <= i < segs.len() ==> (hits(segs, start, end).contains(i) <==> overlaps(
                elapsed(segs, i),
                segs[i].spec_duration() as int,
                start,
                end,
            )),
        forall|j: int|
            0 <= j < hits(segs, start, end).len() ==> 0 <= #[trigger] hits(segs, start, end)[j]
                < segs.len(),
        forall|a: int, b: int|
            0 <= a < b < hits(segs, start, end).len() ==> hits(segs, start, end)[a] < hits(
                segs,
                start,
                end,
            )[b],
{
    let pred = hit_at(segs, start, end);
    crate::positions::lemma_positions_below(segs.len() as int, pred);
    assert forall|i: int| 0 <= i < segs.len() implies (hits(segs, start, end).contains(i)
        <==> overlaps(elapsed(segs, i), segs[i].spec_duration() as int, start, end)) by {
        if hits(segs, start, end).contains(i) {
            let j = choose|j: int|
                0 <= j < hits(segs, start, end).len() && hits(segs, start, end)[j] == i;
            assert(pred(hits(segs, start, end)[j]));
        }
        if overlaps(elapsed(segs, i), segs[i].spec_duration() as int, start, end) {
            assert(pred(i));
        }
    }
}

/// Once the start of segment `k` has reached the end of the range, no later
/// segment overlaps it.
pub proof fn lemma_hits_stop(segs: Seq<Segment>, k: int, start: int, end: int)
    requires
        0 <= k <= segs.len(),
        elapsed(segs, k) >= end,
    ensures
        hits(segs, start, end) == positions_below(k, hit_at(segs, start, end)),
{
    let pred = hit_at(segs, start, end);
    assert forall|i: int| k <= i < segs.len() implies !#[trigger] pred(i) by {
        lemma_elapsed_monotone(segs, k, i);
    }
    lemma_positions_stop(k, segs.len() as int, pred);
}

/// A query over a range that holds no instant finds nothing.
pub proof fn lemma_hits_empty_range(segs: Seq<Segment>, start: int, end: int)
    requires
        start >= end,
    ensures
        hits(segs, start, end).len() == 0,
{
    let pred = hit_at(segs, start, end);
    assert forall|i: int| 0 <= i < segs.len() implies !#[trigger] pred(i) by {}
    lemma_positions_stop(0, segs.len() as int, pred);
}

/// A query that starts at or after the end of the timeline finds nothing.
pub proof fn lemma_hits_past_end(segs: Seq<Segment>, start: int, end: int)
    requires
        start >= total_of(segs),
    ensures
        hits(segs, start, end).len() == 0,
{
    let pred = hit_at(segs, start, end);
    assert forall|i: int| 0 <= i < segs.len() implies !#[trigger] pred(i) by {
        lemma_elapsed_monotone(segs, i + 1, segs.len() as int);
    }
    lemma_positions_stop(0, segs.len() as int, pred);
}

/// Whether the instant `t` lies in the range from `from` up to, but not
/// including, `to`.
pub open spec fn within(t: int, from: int, to: int) -> bool {
    from <= t < to
}

/// To overlap is to share an instant: a segment overlaps a range exactly when
/// some `t` lies in `[seg_start, seg_start + seg_dur)` and in `[start, end)`.
pub proof fn lemma_overlaps_shares_instant(seg_start: int, seg_dur: int, start: int, end: int)
    ensures
        overlaps(seg_start, seg_dur, start, end) <==> exists|t: int|
            #[trigger] within(t, seg_start, seg_start + seg_dur) && within(t, start, end),
{
    if overlaps(seg_start, seg_dur, start, end) {
        let t = if seg_start >= start {
            seg_start
        } else {
            start
        };
        assert(within(t, seg_start, seg_start + seg_dur) && within(t, start, end));
    }
}

/// Appending a narration adds one narration, at the new position; appending
/// any other segment adds none.
pub proof fn lemma_narrations_push(segs: Seq<Segment>, segment: Segment)
    ensures
        narration_positions(segs.push(segment)) == if segment.is_narration() {
            narration_positions(segs).push(segs.len() as int)
        } else {
            narration_positions(segs)
        },
{
    let after = segs.push(segment);
    assert forall|i: int| 0 <= i < segs.len() implies #[trigger] narration_at(after)(i)
        == narration_at(segs)(i) by {
        assert(after[i] == segs[i]);
    }
    lemma_positions_agree(segs.len() as int, narration_at(after), narration_at(segs));
    assert(after[segs.len() as int] == segment);
}

/// The rank of a narration is below the number of narrations.
pub proof fn lemma_rank_in_range(segs: Seq<Segment>, i: int)
    requires
        0 <= i < segs.len(),
        segs[i].is_narration(),
    ensures
        0 <= narration_rank(segs, i) < narration_positions(segs).len(),
        narration_rank(segs, i + 1) == narration_rank(segs, i) + 1,
{
    lemma_positions_grow(i + 1, segs.len() as int, narration_at(segs));
}

/// The segments that are no narrations take no more time than all segments.
pub proof fn lemma_unspoken_bound(segs: Seq<Segment>, k: int)
    requires
        0 <= k <= segs.len(),
    ensures
        0 <= elapsed_unspoken(segs, k) <= elapsed(segs, k),
    decreases k,
{
    if k > 0 {
        lemma_unspoken_bound(segs, k - 1);
    }
}

/// After narrations got new durations, the time up to position `k` is the
/// time of the other segments below `k` and the new durations of the narrations
/// below `k`.
pub proof fn lemma_resolved_elapsed(segs: Seq<Segment>, durations: Seq<u64>, k: int)
    requires
        0 <= k <= segs.len(),
        durations.len() == narration_positions(segs).len(),
    ensures
        elapsed(resolved(segs, durations), k) == elapsed_unspoken(segs, k) + sum_of(
            durations,
            narration_rank(segs, k),
        ),
    decreases k,
{
    if k > 0 {
        lemma_resolved_elapsed(segs, durations, k - 1);
        lemma_positions_grow(k, segs.len() as int, narration_at(segs));
        if segs[k - 1].is_narration() {
            lemma_rank_in_range(segs, k - 1);
        }
    }
}

/// After narrations got new durations, the total duration is the sum of the
/// durations of all other segments and of the new durations.
pub proof fn lemma_resolved_total(segs: Seq<Segment>, durations: Seq<u64>)
    requires
        durations.len() == narration_positions(segs).len(),
    ensures
        total_of(resolved(segs, durations)) == elapsed_unspoken(segs, segs.len() as int)
            + sum_of(durations, durations.len() as int),
        resolved(segs, durations).len() == segs.len(),
{
    lemma_resolved_elapsed(segs, durations, segs.len() as int);
}

/// New durations change no segment that is no narration, and keep the kind
/// and the text of every narration.
pub proof fn lemma_resolved_keeps_shape(segs: Seq<Segment>, durations: Seq<u64>, i: int)
    requires
        0 <= i < segs.len(),
    ensures
        !segs[i].is_narration() ==> resolved(segs, durations)[i] == segs[i],
        segs[i].is_narration() ==> resolved(segs, durations)[i] == segs[i].with_duration(
            durations[narration_rank(segs, i)],
        ),
        resolved(segs, durations)[i].is_narration() == segs[i].is_narration(),
{
}

/// An ordered run of segments and the frame rate at which it is shown.
#[derive(Debug, Clone)]
pub struct Timeline {
    segments: Vec<Segment>,
    fps: u32,
}

/// The frame rate of a timeline that was given none.
pub const DEFAULT_FPS: u32 = 30;

impl View for Timeline {
    type V = Seq<Segment>;

    /// The segments in order.
    closed spec fn view(&self) -> Seq<Segment> {
        self.segments@
    }
}

impl Timeline {
    /// The frame rate.
    pub closed spec fn spec_fps(&self) -> u32 {
        self.fps
    }

    /// A timeline is well formed when its total duration is at most `MAX_TIME`.
    pub open spec fn wf(&self) -> bool {
        total_of(self@) <= MAX_TIME
    }

    /// The total duration in microseconds.
    pub open spec fn spec_total_duration(&self) -> int {
        total_of(self@)
    }

    /// The number of frames.
    pub open spec fn spec_total_frames(&self) -> int {
        frames_in(total_of(self@), self.spec_fps() as int)
    }

    /// The frame on screen at `time`.
    pub open spec fn spec_frame_at(&self, time: int) -> int {
        frame_index(self.spec_total_frames(), self.spec_fps() as int, time)
    }

    /// The number of segments fits a `usize`.
    pub proof fn lemma_len_fits(&self)
        ensures
            self@.len() <= usize::MAX,
    {
        assert(self.segments@.len() == self.segments.len());
    }

    /// An empty timeline at `fps` frames per second.
    pub fn new(fps: u32) -> (tl: Timeline)
        ensures
            tl@ == Seq::<Segment>::empty(),
            tl.spec_fps() == fps,
            tl.wf(),
    {
        Timeline { segments: Vec::new(), fps }
    }

    /// Appends a segment. Earlier segments keep their order and their start
    /// times.
    pub fn add_segment(&mut self, segment: Segment)
        requires
            old(self).wf(),
            total_of(old(self)@) + segment.spec_duration() <= MAX_TIME,
        ensures
            final(self)@ == old(self)@.push(segment),
            final(self).spec_fps() == old(self).spec_fps(),
            final(self).wf(),
            total_of(final(self)@) == total_of(old(self)@) + segment.spec_duration(),
    {
        proof {
            lemma_elapsed_push(self@, segment);
        }
        self.segments.push(segment);
    }

    /// The segments in order.
    pub fn segments(&self) -> (s: &[Segment])
        ensures
            s@ == self@,
    {
        self.segments.as_slice()
    }

    /// The frame rate.
    pub fn fps(&self) -> (f: u32)
        ensures
            f == self.spec_fps(),
    {
        self.fps
    }

    /// The time taken by the first `count` segments, which is the instant at
    /// which segment `count` starts.
    pub fn elapsed_before(&self, count: usize) -> (t: u64)
        requires
            self.wf(),
            count <= self@.len(),
        ensures
            t == elapsed(self@, count as int),
            t <= total_of(self@),
    {
        let mut sum: u64 = 0;
        let mut i: usize = 0;
        proof {
            lemma_elapsed_monotone(self@, count as int, self@.len() as int);
        }
        while i < count
            invariant
                i <= count <= self.segments@.len(),
                self.segments@ == self@,
                sum == elapsed(self@, i as int),
                elapsed(self@, count as int) <= MAX_TIME,
            decreases count - i,
        {
            proof {
                lemma_elapsed_monotone(self@, i as int + 1, count as int);
            }
            sum = sum + self.segments[i].duration();
            i = i + 1;
        }
        sum
    }

    /// The total duration in microseconds: the sum of the segments' durations.
    pub fn total_duration(&self) -> (t: u64)
        requires
            self.wf(),
        ensures
            t == total_of(self@),
    {
        self.elapsed_before(self.segments.len())
    }

    /// The number of frames: total duration times frame rate, rounded up, and
    /// zero for a timeline without duration.
    pub fn total_frames(&self) -> (n: u32)
        requires
            self.wf(),
        ensures
            n == self.spec_total_frames(),
    {
        let total = self.total_duration();
        if total == 0 {
            return 0;
        }
        proof {
            lemma_mul_bound(total as int, self.fps as int, MAX_TIME as int, u32::MAX as int);
        }
        let product: u128 = (total as u128) * (self.fps as u128);
        let whole: u128 = product / (SECOND as u128);
        let exact: u128 = if product % (SECOND as u128) == 0 {
            whole
        } else {
            whole + 1
        };
        if exact > u32::MAX as u128 {
            u32::MAX
        } else {
            exact as u32
        }
    }

    /// The frame on screen at `time`. A time before the start gives frame 0, a
    /// time at or past the end gives the last frame, and a timeline without
    /// frames gives 0.
    pub fn frame_at(&self, time: i64) -> (frame: u32)
        requires
            self.wf(),
        ensures
            frame == self.spec_frame_at(time as int),
            self.spec_total_frames() > 0 ==> frame < self.spec_total_frames(),
            self.spec_total_frames() == 0 ==> frame == 0,
    {
        let total = self.total_frames();
        if total == 0 {
            return 0;
        }
        if time <= 0 {
            return 0;
        }
        proof {
            lemma_mul_bound(time as int, self.fps as int, MAX_TIME as int, u32::MAX as int);
        }
        let raw: u128 = (time as u128) * (self.fps as u128) / (SECOND as u128);
        if raw > (total - 1) as u128 {
            total - 1
        } else {
            raw as u32
        }
    }

    /// Gives segment `index` a new duration. Returns `false`, and changes
    /// nothing, when there is no such segment.
    pub fn update_segment_duration(&mut self, index: usize, duration: u64) -> (updated: bool)
        requires
            old(self).wf(),
            index < old(self)@.len() ==> total_of(old(self)@) - old(self)@[index as int].spec_duration()
                + duration <= MAX_TIME,
        ensures
            updated == (index < old(self)@.len()),
            updated ==> final(self)@ == old(self)@.update(
                index as int,
                old(self)@[index as int].with_duration(duration),
            ),
            !updated ==> final(self)@ == old(self)@,
            final(self).spec_fps() == old(self).spec_fps(),
            final(self).wf(),
    {
        if index < self.segments.len() {
            let replaced = self.segments[index].retimed(duration);
            proof {
                lemma_elapsed_update(self@, index as int, duration, self@.len() as int);
            }
            self.segments.set(index, replaced);
            true
        } else {
            false
        }
    }

    /// The time taken by the segments that are no narrations.
    pub fn unspoken_duration(&self) -> (t: u64)
        requires
            self.wf(),
        ensures
            t == elapsed_unspoken(self@, self@.len() as int),
            t <= total_of(self@),
    {
        let mut sum: u64 = 0;
        let mut i: usize = 0;
        while i < self.segments.len()
            invariant
                i <= self.segments@.len(),
                self.segments@ == self@,
                self.wf(),
                sum == elapsed_unspoken(self@, i as int),
            decreases self.segments@.len() - i,
        {
            proof {
                lemma_unspoken_bound(self@, i as int + 1);
                lemma_elapsed_monotone(self@, i as int + 1, self@.len() as int);
            }
            match &self.segments[i] {
                Segment::Narration { .. } => {},
                other => {
                    sum = sum + other.duration();
                },
            }
            i = i + 1;
        }
        proof {
            lemma_unspoken_bound(self@, self@.len() as int);
        }
        sum
    }

    /// Whether the timeline stays within its longest duration once its
    /// narrations last as long as `durations`.
    pub fn fits_narrations(&self, durations: &[u64]) -> (fits: bool)
        requires
            self.wf(),
        ensures
            fits == (retimed_total(self@, durations@) <= MAX_TIME),
    {
        let unspoken = self.unspoken_duration();
        proof {
            lemma_elapsed_monotone(self@, 0, self@.len() as int);
        }
        sum_within(durations, MAX_TIME - unspoken).is_some()
    }

    /// Gives every narration a new duration: the narration of rank `j` gets
    /// `durations[j]`. The other segments stay as they are.
    pub fn retime_narrations(&mut self, durations: &[u64])
        requires
            old(self).wf(),
            durations@.len() == narration_positions(old(self)@).len(),
            total_of(resolved(old(self)@, durations@)) <= MAX_TIME,
        ensures
            final(self)@ == resolved(old(self)@, durations@),
            final(self).spec_fps() == old(self).spec_fps(),
            final(self).wf(),
    {
        let n = self.segments.len();
        let ghost before = self@;
        let ghost after = resolved(before, durations@);
        let mut i: usize = 0;
        let mut rank: usize = 0;
        while i < n
            invariant
                i <= n == before.len(),
                self.segments@.len() == n,
                self.fps == old(self).fps,
                before == old(self)@,
                after == resolved(before, durations@),
                durations@.len() == narration_positions(before).len(),
                rank == narration_rank(before, i as int),
                forall|x: int| 0 <= x < i ==> self.segments@[x] == after[x],
                forall|x: int| i <= x < n ==> self.segments@[x] == before[x],
            decreases n - i,
        {
            let spoken = match &self.segments[i] {
                Segment::Narration { .. } => true,
                _ => false,
            };
            if spoken {
                proof {
                    lemma_rank_in_range(before, i as int);
                }
                let replaced = self.segments[i].retimed(durations[rank]);
                self.segments.set(i, replaced);
                rank = rank + 1;
            }
            i = i + 1;
        }
        assert(self.segments@ =~= after);
    }

    /// The positions of all narration segments, in ascending order.
    pub fn narration_indices(&self) -> (indices: Vec<usize>)
        ensures
            indices@.len() == narration_positions(self@).len(),
            forall|j: int|
                0 <= j < indices@.len() ==> (#[trigger] indices@[j]) as int == narration_positions(
                    self@,
                )[j],
    {
        let mut indices: Vec<usize> = Vec::new();
        let mut i: usize = 0;
        let ghost pred = narration_at(self@);
        while i < self.segments.len()
            invariant
                i <= self.segments@.len(),
                self.segments@ == self@,
                pred == narration_at(self@),
                indices@.len() == positions_below(i as int, pred).len(),
                forall|j: int|
                    0 <= j < indices@.len() ==> (#[trigger] indices@[j]) as int == positions_below(
                        i as int,
                        pred,
                    )[j],
            decreases self.segments@.len() - i,
        {
            match &self.segments[i] {
                Segment::Narration { .. } => {
                    indices.push(i);
                },
                _ => {},
            }
            i = i + 1;
        }
        indices
    }

    /// The segments that overlap the range from `start` to `end`, each with its
    /// start time, in timeline order. A segment that begins at `s` and lasts `d`
    /// overlaps when its interval `[s, s + d)` shares an instant with
    /// `[start, end)`; a segment without duration is never found, and a range
    /// without length finds nothing.
    pub fn segments_in_range(&self, start: i64, end: i64) -> (found: Vec<(u64, &Segment)>)
        requires
            self.wf(),
        ensures
            found@.len() == hits(self@, start as int, end as int).len(),
            forall|j: int|
                0 <= j < found@.len() ==> {
                    &&& (#[trigger] found@[j]).0 == elapsed(
                        self@,
                        hits(self@, start as int, end as int)[j],
                    )
                    &&& *found@[j].1 == self@[hits(self@, start as int, end as int)[j]]
                },
    {
        let mut found: Vec<(u64, &Segment)> = Vec::new();
        let mut cursor: u64 = 0;
        let mut i: usize = 0;
        let n = self.segments.len();
        let ghost pred = hit_at(self@, start as int, end as int);
        if start >= end {
            proof {
                lemma_hits_empty_range(self@, start as int, end as int);
            }
            return found;
        }
        while i < n && (cursor as i128) < (end as i128)
            invariant
                i <= n == self.segments@.len(),
                self.segments@ == self@,
                self.wf(),
                start < end,
                pred == hit_at(self@, start as int, end as int),
                cursor == elapsed(self@, i as int),
                found@.len() == positions_below(i as int, pred).len(),
                forall|j: int|
                    0 <= j < found@.len() ==> {
                        &&& (#[trigger] found@[j]).0 == elapsed(
                            self@,
                            positions_below(i as int, pred)[j],
                        )
                        &&& *found@[j].1 == self@[positions_below(i as int, pred)[j]]
                    },
            decreases n - i,
        {
            proof {
                lemma_elapsed_monotone(self@, i as int + 1, n as int);
            }
            let seg = &self.segments[i];
            let seg_end: u64 = cursor + seg.duration();
            if seg.duration() > 0 && (seg_end as i128) > (start as i128) {
                found.push((cursor, seg));
            }
            cursor = seg_end;
            i = i + 1;
        }
        proof {
            if i < n {
                lemma_hits_stop(self@, i as int, start as int, end as int);
            }
        }
        found
    }
}

/// A timeline without duration has no frames. Any other has as many frames as
/// its duration times its frame rate, rounded up, as long as a `u32` can count
/// them.
pub proof fn lemma_total_frames(tl: Timeline)
    ensures
        total_of(tl@) >= 0,
        total_of(tl@) == 0 ==> tl.spec_total_frames() == 0,
        total_of(tl@) > 0 && ceil_div(total_of(tl@) * tl.spec_fps(), SECOND as int) <= u32::MAX
            ==> tl.spec_total_frames() == ceil_div(total_of(tl@) * tl.spec_fps(), SECOND as int),
        0 <= tl.spec_total_frames() <= u32::MAX,
{
    lemma_elapsed_monotone(tl@, 0, tl@.len() as int);
    let total = total_of(tl@);
    if total > 0 {
        assert(0 <= total * tl.spec_fps()) by (nonlinear_arith)
            requires
                0 <= total,
                0 <= tl.spec_fps(),
        ;
        crate::units::lemma_ceil_div(total * tl.spec_fps(), SECOND as int);
    }
}

/// The frame number never decreases as time goes on, and it is always a valid
/// frame number: at most the last frame, and 0 where there are no frames.
pub proof fn lemma_frame_at_monotone(tl: Timeline, earlier: int, later: int)
    requires
        earlier <= later,
    ensures
        tl.spec_frame_at(earlier) <= tl.spec_frame_at(later),
        0 <= tl.spec_frame_at(earlier),
        tl.spec_total_frames() > 0 ==> tl.spec_frame_at(earlier) <= tl.spec_total_frames() - 1,
        tl.spec_total_frames() == 0 ==> tl.spec_frame_at(earlier) == 0,
{
    lemma_total_frames(tl);
    let fps = tl.spec_fps() as int;
    if earlier > 0 {
        assert(0 <= earlier * fps <= later * fps) by (nonlinear_arith)
            requires
                0 < earlier <= later,
                0 <= fps,
        ;
        crate::units::lemma_div_monotone(earlier * fps, later * fps, SECOND as int);
    } else if later > 0 {
        assert(0 <= later * fps) by (nonlinear_arith)
            requires
                0 < later,
                0 <= fps,
        ;
        crate::units::lemma_div_monotone(0, later * fps, SECOND as int);
    }
}

impl Default for Timeline {
    /// An empty timeline at the default frame rate.
    fn default() -> (tl: Timeline)
        ensures
            tl@ == Seq::<Segment>::empty(),
            tl.spec_fps() == DEFAULT_FPS,
            tl.wf(),
    {
        Timeline::new(DEFAULT_FPS)
    }
}

/// Builds a [`Timeline`] by chained calls.
#[derive(Debug)]
pub struct TimelineBuilder {
    segments: Vec<Segment>,
    fps: u32,
}

impl View for TimelineBuilder {
    type V = Seq<Segment>;

    /// The segments added so far.
    closed spec fn view(&self) -> Seq<Segment> {
        self.segments@
    }
}

impl TimelineBuilder {
    /// The frame rate chosen so far.
    pub closed spec fn spec_fps(&self) -> u32 {
        self.fps
    }

    /// A builder without segments, at the default frame rate.
    pub fn new() -> (b: TimelineBuilder)
        ensures
            b@ == Seq::<Segment>::empty(),
            b.spec_fps() == DEFAULT_FPS,
    {
        TimelineBuilder { segments: Vec::new(), fps: DEFAULT_FPS }
    }

    /// Sets the frame rate.
    pub fn fps(self, fps: u32) -> (b: TimelineBuilder)
        ensures
            b@ == self@,
            b.spec_fps() == fps,
    {
        let mut b = self;
        b.fps = fps;
        b
    }

    /// Adds a narration segment.
    pub fn narration(self, text: &str, duration: u64) -> (b: TimelineBuilder)
        ensures
            b@.len() == self@.len() + 1,
            b@.drop_last() == self@,
            b@.last() matches Segment::Narration { text: t, duration: d } && t@ == text@ && d
                == duration,
            b.spec_fps() == self.spec_fps(),
    {
        let mut b = self;
        b.segments.push(Segment::Narration { text: text.to_owned(), duration });
        assert(b.segments@.drop_last() == self.segments@);
        b
    }

    /// Adds an animation segment.
    pub fn animation(self, name: &str, duration: u64) -> (b: TimelineBuilder)
        ensures
            b@.len() == self@.len() + 1,
            b@.drop_last() == self@,
            b@.last() matches Segment::Animation { name: n, duration: d } && n@ == name@ && d
                == duration,
            b.spec_fps() == self.spec_fps(),
    {
        let mut b = self;
        b.segments.push(Segment::Animation { name: name.to_owned(), duration });
        assert(b.segments@.drop_last() == self.segments@);
        b
    }

    /// Adds a silence segment.
    pub fn silence(self, duration: u64) -> (b: TimelineBuilder)
        ensures
            b@ == self@.push(Segment::Silence { duration }),
            b.spec_fps() == self.spec_fps(),
    {
        let mut b = self;
        b.segments.push(Segment::Silence { duration });
        b
    }

    /// Adds a clip segment.
    pub fn clip(self, path: &str, duration: u64) -> (b: TimelineBuilder)
        ensures
            b@.len() == self@.len() + 1,
            b@.drop_last() == self@,
            b@.last() matches Segment::Clip { path: p, duration: d } && p@ == path@ && d
                == duration,
            b.spec_fps() == self.spec_fps(),
    {
        let mut b = self;
        b.segments.push(Segment::Clip { path: path.to_owned(), duration });
        assert(b.segments@.drop_last() == self.segments@);
        b
    }

    /// Whether the segments added so far fit a timeline: whether their total
    /// duration is at most `MAX_TIME`.
    pub fn fits(&self) -> (ok: bool)
        ensures
            ok == (total_of(self@) <= MAX_TIME),
    {
        let mut sum: u64 = 0;
        let mut i: usize = 0;
        while i < self.segments.len()
            invariant
                i <= self.segments@.len(),
                self.segments@ == self@,
                sum == elapsed(self@, i as int),
                sum <= MAX_TIME,
            decreases self.segments@.len() - i,
        {
            let d = self.segments[i].duration();
            if d > MAX_TIME - sum {
                proof {
                    lemma_elapsed_monotone(self@, i as int + 1, self@.len() as int);
                }
                return false;
            }
            sum = sum + d;
            i = i + 1;
        }
        true
    }

    /// The timeline that holds the segments added, in the order of the calls.
    pub fn build(self) -> (tl: Timeline)
        requires
            total_of(self@) <= MAX_TIME,
        ensures
            tl@ == self@,
            tl.spec_fps() == self.spec_fps(),
            tl.wf(),
    {
        Timeline { segments: self.segments, fps: self.fps }
    }
}

impl Default for TimelineBuilder {
    /// A builder without segments, at the default frame rate.
    fn default() -> (b: TimelineBuilder)
        ensures
            b@ == Seq::<Segment>::empty(),
            b.spec_fps() == DEFAULT_FPS,
    {
        TimelineBuilder::new()
    }
}

} // verus!
