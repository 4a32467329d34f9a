//! The scene registry: the authoring surface of a scene.
//!
//! A scene is written as a run of calls against [`M`]. Each call appends to the
//! timeline or records an element or an animation; no call looks ahead or
//! reorders what came before. Once synthesized speech is at hand,
//! [`M::resolve_narration_durations`] replaces the estimated narration
//! durations and brings every recorded timestamp in line with them.
use crate::any_technique::{runs_as, AnyTechnique, Playable};
use crate::frame::ElementKind;
use crate::technique::Technique;
use crate::text::{count_words, decimal, decimal_digits, join, joined, word_count};
use crate::theme::Theme;
use crate::timeline::{
    elapsed, lemma_elapsed_monotone, lemma_elapsed_push, lemma_narrations_push,
    lemma_resolved_total, narration_positions, resolved, retimed_total, total_of, Segment,
    Timeline,
};
use crate::units::{MAX_ITEMS, MAX_TIME, SECOND};
use crate::voice::Voice;
use vstd::prelude::*;
use vstd::string::StringExecFns;

verus! {

/// The duration of a beat, a short rhythmic pause: three tenths of a second.
pub const BEAT_DURATION: u64 = 300_000;

/// The duration of a breath, a longer pause: eight tenths of a second.
pub const BREATH_DURATION: u64 = 800_000;

/// The speaking rate, in words per minute, from which the duration of a
/// narration is estimated.
pub const DEFAULT_NARRATION_WPM: u64 = 150;

/// The direction tag of a metric.
#[derive(Debug, Clone, Copy, PartialEq, Eq, Structural)]
pub enum Direction {
    Up,
    Down,
    Neutral,
}

/// The tag under which a direction is recorded.
pub open spec fn direction_tag(direction: Direction) -> Seq<char> {
    match direction {
        Direction::Up => "up"@,
        Direction::Down => "down"@,
        Direction::Neutral => "neutral"@,
    }
}

/// A handle to a visual element: its identifier.
#[derive(Debug, Clone, Copy, PartialEq, Eq, Hash, Structural)]
pub struct Element(pub u64);

/// What the registry records of an element.
#[derive(Debug, Clone)]
pub struct ElementRecord {
    /// The identifier, which is the value of the element's handle.
    pub id: u64,
    /// The structural kind.
    pub kind: ElementKind,
    /// The text.
    pub content: String,
    /// The items of a list; empty for every other kind.
    pub items: Vec<String>,
    /// The instant at which the element was created.
    pub created_at: u64,
    /// The number of segments on the timeline when the element was created.
    pub segments_at_creation: usize,
    /// The instant at which the element was cleared from the screen, if it was.
    pub ended_at: Option<u64>,
    /// The number of segments on the timeline when the element was cleared.
    pub segments_at_end: Option<usize>,
}

impl ElementRecord {
    /// Whether the element is on screen at `time`: from its creation on, and
    /// before its end if it has one.
    pub open spec fn visible_at(&self, time: int) -> bool {
        self.created_at <= time && (self.ended_at matches Some(end) ==> time < end)
    }

    /// Whether the element has left the screen by `time`: whether it has an
    /// end, at `time` or before.
    pub open spec fn ended_by(&self, time: int) -> bool {
        self.ended_at matches Some(end) && end <= time
    }

    /// The record with its timestamps taken anew from the segments: each is the
    /// time taken by as many segments as were counted when it was recorded.
    pub open spec fn retimed(self, segs: Seq<Segment>) -> ElementRecord {
        ElementRecord {
            created_at: elapsed(segs, self.segments_at_creation as int) as u64,
            ended_at: match self.segments_at_end {
                Some(count) => Some(elapsed(segs, count as int) as u64),
                None => self.ended_at,
            },
            ..self
        }
    }

    /// The record as it is once cleared at `now`, with `count` segments on the
    /// timeline. A record that has an end already stays as it is.
    pub open spec fn cleared(self, now: u64, count: usize) -> ElementRecord {
        if self.ended_at is None {
            ElementRecord { ended_at: Some(now), segments_at_end: Some(count), ..self }
        } else {
            self
        }
    }
}

/// The binding of a technique to its targets and to its place on the timeline.
pub struct AnimationRecord {
    /// The technique, evaluated when a frame is computed.
    pub technique: AnyTechnique,
    /// The identifiers of the elements that the technique animates.
    pub target_ids: Vec<u64>,
    /// The position of the animation segment on the timeline.
    pub segment_index: usize,
}

/// Why narration durations could not be resolved.
#[derive(Debug, Clone, PartialEq, Eq)]
pub enum ResolveDurationError {
    /// The number of durations differs from the number of narrations.
    LengthMismatch {
        /// The number of narrations on the timeline.
        expected: usize,
        /// The number of durations that were handed in.
        provided: usize,
    },
}

impl ResolveDurationError {
    /// The message of the error.
    pub open spec fn spec_message(&self) -> Seq<char> {
        match self {
            ResolveDurationError::LengthMismatch { expected, provided } => {
                "narration duration count mismatch: expected "@ + decimal_digits(*expected as nat)
                    + ", got "@ + decimal_digits(*provided as nat)
            },
        }
    }

    /// The message of the error, which names both counts.
    pub fn message(&self) -> (s: String)
        ensures
            s@ == self.spec_message(),
    {
        match self {
            ResolveDurationError::LengthMismatch { expected, provided } => {
                let mut s = String::from_str("narration duration count mismatch: expected ");
                s.append(decimal(*expected as u64).as_str());
                s.append(", got ");
                s.append(decimal(*provided as u64).as_str());
                s
            },
        }
    }
}

/// The estimated duration of a narration of `words` words: at the default
/// speaking rate, and never shorter than one word.
pub open spec fn narration_estimate(words: nat) -> int {
    let counted = if words < 1 {
        1
    } else {
        words as int
    };
    counted * 60 * SECOND / (DEFAULT_NARRATION_WPM as int)
}

/// The estimate is 0.4 seconds for each word, and a text has no more words
/// than characters.
pub proof fn lemma_narration_estimate(text: Seq<char>)
    ensures
        narration_estimate(word_count(text)) == 400_000 * (if word_count(text) < 1 {
            1
        } else {
            word_count(text) as int
        }),
        400_000 <= narration_estimate(word_count(text)),
        narration_estimate(word_count(text)) <= 400_000 * (if text.len() < 1 {
            1
        } else {
            text.len() as int
        }),
{
    crate::text::lemma_word_count_bound(text);
    let words = word_count(text);
    let counted = if words < 1 {
        1
    } else {
        words as int
    };
    assert(counted * 60 * SECOND / (DEFAULT_NARRATION_WPM as int) == 400_000 * counted)
        by (nonlinear_arith)
        requires
            SECOND == 1_000_000,
            DEFAULT_NARRATION_WPM == 150,
    ;
}

/// What a record must hold to agree with the timeline: its identifier is its
/// position, its timestamps are the times taken by the segments that were
/// counted, and its list is not too long.
pub open spec fn record_ok(segs: Seq<Segment>, record: ElementRecord, position: int) -> bool {
    &&& record.id == position
    &&& record.segments_at_creation <= segs.len()
    &&& record.created_at == elapsed(segs, record.segments_at_creation as int)
    &&& record.items@.len() <= MAX_ITEMS
    &&& match (record.ended_at, record.segments_at_end) {
        (Some(end), Some(count)) => count <= segs.len() && end == elapsed(segs, count as int),
        (None, None) => true,
        _ => false,
    }
}

/// What a binding must hold: a usable technique, an animation segment that
/// carries the name and the duration of the technique, and targets that
/// exist.
pub open spec fn binding_ok(segs: Seq<Segment>, elements: int, binding: AnimationRecord) -> bool {
    &&& binding.technique.wf()
    &&& binding.segment_index < segs.len()
    &&& segs[binding.segment_index as int] matches Segment::Animation { name, duration } && name@
        == binding.technique.spec_name() && duration == binding.technique.spec_duration()
    &&& forall|t: int| 0 <= t < binding.target_ids@.len() ==> #[trigger] binding.target_ids@[t] < elements
}

/// Appending a segment keeps the records and the bindings in agreement with
/// the timeline.
pub proof fn lemma_wf_after_push(before: SceneView, after: SceneView, segment: Segment)
    requires
        before.wf(),
        after.timeline.wf(),
        after.timeline@ == before.timeline@.push(segment),
        after.records == before.records,
        after.bindings.len() >= before.bindings.len(),
        forall|a: int| 0 <= a < before.bindings.len() ==> after.bindings[a] == before.bindings[a],
        forall|a: int|
            before.bindings.len() <= a < after.bindings.len() ==> binding_ok(
                after.timeline@,
                after.records.len() as int,
                after.bindings[a],
            ),
    ensures
        after.wf(),
{
    lemma_elapsed_push(before.timeline@, segment);
    assert forall|j: int| 0 <= j < after.records.len() implies record_ok(
        after.timeline@,
        #[trigger] after.records[j],
        j,
    ) by {
        assert(record_ok(before.timeline@, before.records[j], j));
    }
    assert forall|a: int| 0 <= a < after.bindings.len() implies binding_ok(
        after.timeline@,
        after.records.len() as int,
        #[trigger] after.bindings[a],
    ) by {
        if a < before.bindings.len() {
            assert(binding_ok(before.timeline@, before.records.len() as int, before.bindings[a]));
        }
    }
}

/// A record that is retimed takes each timestamp anew from the count that was
/// recorded with it, over the new segments, and keeps everything else: the
/// counts themselves, and no end where it had none.
pub proof fn lemma_retimed(
    record: ElementRecord,
    position: int,
    before: Seq<Segment>,
    after: Seq<Segment>,
)
    requires
        record_ok(before, record, position),
        after.len() == before.len(),
        total_of(after) <= MAX_TIME,
    ensures
        record_ok(after, record.retimed(after), position),
        record.retimed(after).created_at == elapsed(after, record.segments_at_creation as int),
        record.retimed(after).segments_at_creation == record.segments_at_creation,
        record.retimed(after).segments_at_end == record.segments_at_end,
        match record.segments_at_end {
            Some(count) => record.retimed(after).ended_at == Some(
                elapsed(after, count as int) as u64,
            ) && elapsed(after, count as int) <= MAX_TIME,
            None => record.retimed(after).ended_at is None,
        },
        record.retimed(after).id == record.id,
        record.retimed(after).kind == record.kind,
        record.retimed(after).content == record.content,
        record.retimed(after).items == record.items,
{
    lemma_elapsed_monotone(after, record.segments_at_creation as int, after.len() as int);
    if record.segments_at_end is Some {
        lemma_elapsed_monotone(after, record.segments_at_end->0 as int, after.len() as int);
    }
}

/// The registry stays consistent where the timeline keeps its length and
/// every segment that is no narration, the bindings stay, and each record is
/// the one before, retimed to the new segments or, on the same segments, left
/// as it is or cleared now; records that were added must agree by themselves.
pub proof fn lemma_wf_kept(before: SceneView, after: SceneView)
    requires
        before.wf(),
        after.timeline.wf(),
        after.timeline@.len() == before.timeline@.len(),
        forall|i: int|
            0 <= i < before.timeline@.len() && !(#[trigger] before.timeline@[i]).is_narration()
                ==> after.timeline@[i] == before.timeline@[i],
        after.bindings == before.bindings,
        after.records.len() >= before.records.len(),
        forall|j: int|
            0 <= j < before.records.len() ==> {
                ||| (#[trigger] after.records[j]) == before.records[j].retimed(after.timeline@)
                ||| after.timeline@ == before.timeline@ && after.records[j] == before.records[j]
                ||| after.timeline@ == before.timeline@ && after.records[j]
                    == before.records[j].cleared(
                    total_of(after.timeline@) as u64,
                    after.timeline@.len() as usize,
                )
            },
        forall|j: int|
            before.records.len() <= j < after.records.len() ==> record_ok(
                after.timeline@,
                #[trigger] after.records[j],
                j,
            ),
    ensures
        after.wf(),
{
    lemma_elapsed_monotone(after.timeline@, 0, after.timeline@.len() as int);
    after.timeline.lemma_len_fits();
    assert forall|j: int| 0 <= j < after.records.len() implies record_ok(
        after.timeline@,
        #[trigger] after.records[j],
        j,
    ) by {
        if j < before.records.len() {
            assert(record_ok(before.timeline@, before.records[j], j));
            lemma_retimed(before.records[j], j, before.timeline@, after.timeline@);
        }
    }
    assert forall|a: int| 0 <= a < after.bindings.len() implies binding_ok(
        after.timeline@,
        after.records.len() as int,
        #[trigger] after.bindings[a],
    ) by {
        assert(binding_ok(before.timeline@, before.records.len() as int, before.bindings[a]));
    }
}

/// What resolving gives where `provided` durations are handed in: success
/// where there is one for each narration, and otherwise the error that names
/// both numbers.
pub open spec fn resolve_outcome(segs: Seq<Segment>, provided: nat) -> Result<
    (),
    ResolveDurationError,
> {
    if provided == narration_positions(segs).len() {
        Ok(())
    } else {
        Err(
            ResolveDurationError::LengthMismatch {
                expected: narration_positions(segs).len() as usize,
                provided: provided as usize,
            },
        )
    }
}

/// Resolving fails on a mismatch of the two numbers and on nothing else, and
/// the error holds both.
pub proof fn lemma_mismatch_is_the_only_failure(segs: Seq<Segment>, provided: nat)
    ensures
        resolve_outcome(segs, provided) is Ok <==> provided == narration_positions(segs).len(),
        resolve_outcome(segs, provided) matches Err(e) ==> e
            == (ResolveDurationError::LengthMismatch {
            expected: narration_positions(segs).len() as usize,
            provided: provided as usize,
        }),
{
}

/// In a consistent registry every timestamp is the time taken by the segments
/// that were counted when it was recorded: an element was created when the
/// segments before its creation end, and ended when those before its end do.
pub proof fn lemma_timestamps(scene: SceneView, i: int)
    requires
        scene.wf(),
        0 <= i < scene.records.len(),
    ensures
        scene.records[i].created_at == elapsed(
            scene.timeline@,
            scene.records[i].segments_at_creation as int,
        ),
        scene.records[i].ended_at is Some <==> scene.records[i].segments_at_end is Some,
        scene.records[i].ended_at matches Some(end) ==> end == elapsed(
            scene.timeline@,
            scene.records[i].segments_at_end->0 as int,
        ),
        scene.records[i].retimed(scene.timeline@) == scene.records[i],
{
    assert(record_ok(scene.timeline@, scene.records[i], i));
}

/// The state of a scene registry.
pub struct SceneView {
    /// The timeline.
    pub timeline: Timeline,
    /// The element records, in the order of their creation.
    pub records: Seq<ElementRecord>,
    /// The animation bindings, in the order of their creation.
    pub bindings: Seq<AnimationRecord>,
    /// The theme.
    pub theme: Theme,
    /// The voice.
    pub voice: Voice,
}

impl SceneView {
    /// The registry is consistent: the timeline is well formed, and every
    /// record and every binding agrees with it.
    pub open spec fn wf(&self) -> bool {
        &&& self.timeline.wf()
        &&& forall|i: int|
            0 <= i < self.records.len() ==> record_ok(self.timeline@, #[trigger] self.records[i], i)
        &&& forall|a: int|
            0 <= a < self.bindings.len() ==> binding_ok(
                self.timeline@,
                self.records.len() as int,
                #[trigger] self.bindings[a],
            )
    }
}

/// The scene registry that a scene is authored against.
pub struct M {
    next_element_id: u64,
    current_theme: Theme,
    current_voice: Voice,
    timeline: Timeline,
    elements: Vec<ElementRecord>,
    animations: Vec<AnimationRecord>,
}

impl View for M {
    type V = SceneView;

    closed spec fn view(&self) -> SceneView {
        SceneView {
            timeline: self.timeline,
            records: self.elements@,
            bindings: self.animations@,
            theme: self.current_theme,
            voice: self.current_voice,
        }
    }
}

/// A scene: a run of authoring calls against a registry.
pub trait Scene {
    /// The time that the scene needs on the timeline at most. A scene that
    /// does not say needs a timeline to itself.
    open spec fn spec_length() -> int {
        MAX_TIME as int
    }

    /// Builds the scene on a registry whose timeline has room for it.
    fn build(m: &mut M)
        requires
            old(m).wf(),
            total_of(old(m)@.timeline@) + Self::spec_length() <= MAX_TIME,
        ensures
            final(m).wf(),
            total_of(final(m)@.timeline@) <= total_of(old(m)@.timeline@) + Self::spec_length(),
    ;
}

impl M {
    /// The identifier that the next element gets.
    pub closed spec fn spec_next_id(&self) -> u64 {
        self.next_element_id
    }

    /// The registry is consistent, and the next identifier is the number of
    /// elements recorded so far.
    pub open spec fn wf(&self) -> bool {
        &&& self@.wf()
        &&& self.spec_next_id() == self@.records.len()
    }

    /// An empty registry with the dark theme and the primary voice.
    pub fn new() -> (m: M)
        ensures
            m.wf(),
            m@.timeline@ == Seq::<Segment>::empty(),
            m@.timeline.spec_fps() == crate::timeline::DEFAULT_FPS,
            m@.records == Seq::<ElementRecord>::empty(),
            m@.bindings == Seq::<AnimationRecord>::empty(),
            m@.theme.name@ == "moron-dark"@,
            m@.theme.css_pairs() == crate::theme::dark_css(),
            m@.voice.backend_type == crate::voice::VoiceBackendType::Kokoro,
            m@.voice.speed == crate::units::ONE,
            m@.voice.pitch == crate::units::ONE,
    {
        M {
            next_element_id: 0,
            current_theme: Theme::default(),
            current_voice: Voice::kokoro(),
            timeline: Timeline::default(),
            elements: Vec::new(),
            animations: Vec::new(),
        }
    }

    /// The theme.
    pub fn current_theme(&self) -> (t: &Theme)
        ensures
            *t == self@.theme,
    {
        &self.current_theme
    }

    /// The voice.
    pub fn current_voice(&self) -> (v: &Voice)
        ensures
            *v == self@.voice,
    {
        &self.current_voice
    }

    /// The timeline.
    pub fn timeline(&self) -> (t: &Timeline)
        ensures
            *t == self@.timeline,
    {
        &self.timeline
    }

    /// The estimated duration of the narration `text`, where it fits 64 bits.
    pub fn estimate_narration(text: &str) -> (d: Option<u64>)
        ensures
            match d {
                Some(d) => d == narration_estimate(word_count(text@)),
                None => narration_estimate(word_count(text@)) > u64::MAX,
            },
    {
        let words = count_words(text);
        let counted: u128 = if words < 1 {
            1
        } else {
            words as u128
        };
        assert(counted * 60 * SECOND == counted * 60_000_000) by (nonlinear_arith)
            requires
                SECOND == 1_000_000,
        ;
        let wide: u128 = counted * 60_000_000 / (DEFAULT_NARRATION_WPM as u128);
        if wide > u64::MAX as u128 {
            None
        } else {
            Some(wide as u64)
        }
    }

    /// Queues the narration `text`. Its duration is estimated from the number
    /// of its words.
    pub fn narrate(&mut self, text: &str)
        requires
            old(self).wf(),
            total_of(old(self)@.timeline@) + narration_estimate(word_count(text@)) <= MAX_TIME,
        ensures
            final(self).wf(),
            final(self)@.timeline@.len() == old(self)@.timeline@.len() + 1,
            final(self)@.timeline@.drop_last() == old(self)@.timeline@,
            final(self)@.timeline@.last() matches Segment::Narration { text: t, duration: d } && t@
                == text@ && d == narration_estimate(word_count(text@)),
            total_of(final(self)@.timeline@) == total_of(old(self)@.timeline@) + narration_estimate(
                word_count(text@),
            ),
            narration_positions(final(self)@.timeline@).len() == narration_positions(
                old(self)@.timeline@,
            ).len() + 1,
            final(self)@.timeline.spec_fps() == old(self)@.timeline.spec_fps(),
            final(self)@.records == old(self)@.records,
            final(self)@.bindings == old(self)@.bindings,
            final(self)@.theme == old(self)@.theme,
            final(self)@.voice == old(self)@.voice,
    {
        proof {
            lemma_elapsed_monotone(self@.timeline@, 0, self@.timeline@.len() as int);
        }
        let duration = match M::estimate_narration(text) {
            Some(d) => d,
            None => 0,
        };
        let segment = Segment::Narration { text: text.to_owned(), duration };
        proof {
            lemma_elapsed_push(self@.timeline@, segment);
            lemma_narrations_push(self@.timeline@, segment);
        }
        self.append(segment);
        assert(self@.timeline@.drop_last() == old(self)@.timeline@);
    }

    /// Appends a segment and keeps the registry consistent.
    fn append(&mut self, segment: Segment)
        requires
            old(self).wf(),
            total_of(old(self)@.timeline@) + segment.spec_duration() <= MAX_TIME,
        ensures
            final(self).wf(),
            final(self)@.timeline@ == old(self)@.timeline@.push(segment),
            final(self)@.timeline.spec_fps() == old(self)@.timeline.spec_fps(),
            final(self)@.records == old(self)@.records,
            final(self)@.bindings == old(self)@.bindings,
            final(self)@.theme == old(self)@.theme,
            final(self)@.voice == old(self)@.voice,
    {
        self.timeline.add_segment(segment);
        proof {
            lemma_wf_after_push(old(self)@, self@, segment);
        }
    }

    /// Puts the text on screen as plain display text.
    pub fn show(&mut self, text: &str) -> (e: Element)
        requires
            old(self).wf(),
        ensures
            final(self).minted(*old(self), e),
            final(self)@.records.last().kind == ElementKind::Show,
            final(self)@.records.last().content@ == text@,
            final(self)@.records.last().items@.len() == 0,
    {
        self.mint_element_with_meta(ElementKind::Show, text.to_owned(), Vec::new())
    }

    /// Puts the text on screen as a title card.
    pub fn title(&mut self, text: &str) -> (e: Element)
        requires
            old(self).wf(),
        ensures
            final(self).minted(*old(self), e),
            final(self)@.records.last().kind == ElementKind::Title,
            final(self)@.records.last().content@ == text@,
            final(self)@.records.last().items@.len() == 0,
    {
        self.mint_element_with_meta(ElementKind::Title, text.to_owned(), Vec::new())
    }

    /// Puts the text on screen as a section heading.
    pub fn section(&mut self, text: &str) -> (e: Element)
        requires
            old(self).wf(),
        ensures
            final(self).minted(*old(self), e),
            final(self)@.records.last().kind == ElementKind::Section,
            final(self)@.records.last().content@ == text@,
            final(self)@.records.last().items@.len() == 0,
    {
        self.mint_element_with_meta(ElementKind::Section, text.to_owned(), Vec::new())
    }

    /// Puts a metric on screen: the label, a colon and the value, with the tag
    /// of the direction.
    pub fn metric(&mut self, label: &str, value: &str, direction: Direction) -> (e: Element)
        requires
            old(self).wf(),
        ensures
            final(self).minted(*old(self), e),
            final(self)@.records.last().kind matches ElementKind::Metric { direction: tag } && tag@
                == direction_tag(direction),
            final(self)@.records.last().content@ == label@ + ": "@ + value@,
            final(self)@.records.last().items@.len() == 0,
    {
        let tag = match direction {
            Direction::Up => "up",
            Direction::Down => "down",
            Direction::Neutral => "neutral",
        };
        let mut content = String::from_str(label);
        content.append(": ");
        content.append(value);
        self.mint_element_with_meta(
            ElementKind::Metric { direction: tag.to_owned() },
            content,
            Vec::new(),
        )
    }

    /// Puts a list on screen. Each item is kept by itself, so that a technique
    /// can animate the items one by one; the text of the element is the items
    /// joined by a comma and a space.
    pub fn steps(&mut self, items: &[&str]) -> (e: Element)
        requires
            old(self).wf(),
            items@.len() <= MAX_ITEMS,
        ensures
            final(self).minted(*old(self), e),
            final(self)@.records.last().kind == (ElementKind::Steps { count: items@.len() as usize }),
            final(self)@.records.last().content@ == joined(items@, ", "@, items@.len() as int),
            final(self)@.records.last().items@.len() == items@.len(),
            forall|i: int|
                0 <= i < items@.len() ==> (#[trigger] final(self)@.records.last().items@[i])@
                    == items@[i]@,
    {
        let mut owned: Vec<String> = Vec::new();
        let mut i: usize = 0;
        while i < items.len()
            invariant
                i <= items@.len(),
                owned@.len() == i,
                forall|j: int| 0 <= j < i ==> (#[trigger] owned@[j])@ == items@[j]@,
            decreases items@.len() - i,
        {
            owned.push(items[i].to_owned());
            i = i + 1;
        }
        self.mint_element_with_meta(
            ElementKind::Steps { count: owned.len() },
            join(items, ", "),
            owned,
        )
    }

    /// Inserts a beat: a silence of `BEAT_DURATION`.
    pub fn beat(&mut self)
        requires
            old(self).wf(),
            total_of(old(self)@.timeline@) + BEAT_DURATION <= MAX_TIME,
        ensures
            final(self).paused(*old(self), BEAT_DURATION),
    {
        proof {
            lemma_elapsed_push(self@.timeline@, Segment::Silence { duration: BEAT_DURATION });
            lemma_narrations_push(self@.timeline@, Segment::Silence { duration: BEAT_DURATION });
        }
        self.append(Segment::Silence { duration: BEAT_DURATION });
    }

    /// Inserts a breath: a silence of `BREATH_DURATION`.
    pub fn breath(&mut self)
        requires
            old(self).wf(),
            total_of(old(self)@.timeline@) + BREATH_DURATION <= MAX_TIME,
        ensures
            final(self).paused(*old(self), BREATH_DURATION),
    {
        proof {
            lemma_elapsed_push(self@.timeline@, Segment::Silence { duration: BREATH_DURATION });
            lemma_narrations_push(self@.timeline@, Segment::Silence { duration: BREATH_DURATION });
        }
        self.append(Segment::Silence { duration: BREATH_DURATION });
    }

    /// Inserts a silence of `duration` microseconds.
    pub fn wait(&mut self, duration: u64)
        requires
            old(self).wf(),
            total_of(old(self)@.timeline@) + duration <= MAX_TIME,
        ensures
            final(self).paused(*old(self), duration),
    {
        proof {
            lemma_elapsed_push(self@.timeline@, Segment::Silence { duration });
            lemma_narrations_push(self@.timeline@, Segment::Silence { duration });
        }
        self.append(Segment::Silence { duration });
    }

    /// What a pacing call does: it appends a silence and changes nothing else.
    pub open spec fn paused(&self, before: M, duration: u64) -> bool {
        &&& self.wf()
        &&& self@.timeline@ == before@.timeline@.push(Segment::Silence { duration })
        &&& total_of(self@.timeline@) == total_of(before@.timeline@) + duration
        &&& narration_positions(self@.timeline@) == narration_positions(before@.timeline@)
        &&& self@.timeline.spec_fps() == before@.timeline.spec_fps()
        &&& self@.records == before@.records
        &&& self@.bindings == before@.bindings
        &&& self@.theme == before@.theme
        &&& self@.voice == before@.voice
    }

    /// What a structural call does: it records one element, created now, with
    /// no end, under the next identifier, and changes nothing else.
    pub open spec fn minted(&self, before: M, handle: Element) -> bool {
        &&& self.wf()
        &&& self@.timeline == before@.timeline
        &&& self@.bindings == before@.bindings
        &&& self@.theme == before@.theme
        &&& self@.voice == before@.voice
        &&& self@.records.len() == before@.records.len() + 1
        &&& self@.records.drop_last() == before@.records
        &&& handle == Element(before@.records.len() as u64)
        &&& self@.records.last().id == before@.records.len()
        &&& self@.records.last().created_at == total_of(before@.timeline@)
        &&& self@.records.last().segments_at_creation == before@.timeline@.len()
        &&& self@.records.last().ended_at is None
        &&& self@.records.last().segments_at_end is None
    }

    /// Clears the screen: every element that has no end yet ends now. Elements
    /// that ended before stay as they are.
    pub fn clear(&mut self)
        requires
            old(self).wf(),
        ensures
            final(self).wf(),
            final(self)@.timeline == old(self)@.timeline,
            final(self)@.bindings == old(self)@.bindings,
            final(self)@.theme == old(self)@.theme,
            final(self)@.voice == old(self)@.voice,
            final(self)@.records.len() == old(self)@.records.len(),
            forall|i: int|
                0 <= i < old(self)@.records.len() ==> #[trigger] final(self)@.records[i] == old(
                    self,
                )@.records[i].cleared(
                    total_of(old(self)@.timeline@) as u64,
                    old(self)@.timeline@.len() as usize,
                ),
            forall|i: int|
                0 <= i < final(self)@.records.len() ==> (
                #[trigger] final(self)@.records[i]).ended_by(total_of(final(self)@.timeline@)),
    {
        let now = self.timeline.total_duration();
        let count = self.timeline.segments().len();
        let n = self.elements.len();
        let mut i: usize = 0;
        while i < n
            invariant
                i <= n == old(self)@.records.len(),
                self.elements@.len() == n,
                self.timeline == old(self).timeline,
                self.animations == old(self).animations,
                self.current_theme == old(self).current_theme,
                self.current_voice == old(self).current_voice,
                self.next_element_id == old(self).next_element_id,
                old(self).wf(),
                now == total_of(old(self)@.timeline@),
                count == old(self)@.timeline@.len(),
                forall|j: int|
                    0 <= j < i ==> #[trigger] self.elements@[j] == old(self)@.records[j].cleared(
                        now,
                        count,
                    ),
                forall|j: int| i <= j < n ==> #[trigger] self.elements@[j] == old(self)@.records[j],
            decreases n - i,
        {
            if self.elements[i].ended_at.is_none() {
                self.elements[i].ended_at = Some(now);
                self.elements[i].segments_at_end = Some(count);
            }
            i = i + 1;
        }
        proof {
            lemma_wf_kept(old(self)@, self@);
            assert forall|j: int| 0 <= j < self@.records.len() implies (
            #[trigger] self@.records[j]).ended_by(total_of(self@.timeline@)) by {
                assert(record_ok(self@.timeline@, self@.records[j], j));
                if self@.records[j].segments_at_end is Some {
                    lemma_elapsed_monotone(
                        self@.timeline@,
                        self@.records[j].segments_at_end->0 as int,
                        self@.timeline@.len() as int,
                    );
                }
            }
        }
    }

    /// Plays a technique: appends an animation segment that carries the name
    /// and the duration of the technique, and binds the technique to the
    /// element that was created last, or to none where there is no element.
    pub fn play<T: Playable>(&mut self, technique: T)
        requires
            old(self).wf(),
            technique.wf(),
            total_of(old(self)@.timeline@) + technique.spec_duration() <= MAX_TIME,
        ensures
            final(self).wf(),
            final(self)@.timeline@.len() == old(self)@.timeline@.len() + 1,
            final(self)@.timeline@.drop_last() == old(self)@.timeline@,
            final(self)@.timeline@.last() matches Segment::Animation { name, duration } && name@
                == technique.spec_name() && duration == technique.spec_duration(),
            total_of(final(self)@.timeline@) == total_of(old(self)@.timeline@)
                + technique.spec_duration(),
            narration_positions(final(self)@.timeline@) == narration_positions(
                old(self)@.timeline@,
            ),
            final(self)@.timeline.spec_fps() == old(self)@.timeline.spec_fps(),
            final(self)@.records == old(self)@.records,
            final(self)@.theme == old(self)@.theme,
            final(self)@.voice == old(self)@.voice,
            final(self)@.bindings.len() == old(self)@.bindings.len() + 1,
            final(self)@.bindings.drop_last() == old(self)@.bindings,
            runs_as(final(self)@.bindings.last().technique, technique),
            final(self)@.bindings.last().segment_index == old(self)@.timeline@.len(),
            final(self)@.bindings.last().target_ids@ == if old(self)@.records.len() > 0 {
                seq![old(self)@.records.last().id]
            } else {
                Seq::<u64>::empty()
            },
    {
        let segment_index = self.timeline.segments().len();
        let mut target_ids: Vec<u64> = Vec::new();
        if self.elements.len() > 0 {
            assert(record_ok(
                self@.timeline@,
                self@.records[self@.records.len() - 1],
                self@.records.len() - 1,
            ));
            target_ids.push(self.elements[self.elements.len() - 1].id);
        }
        let name = technique.name().to_owned();
        let duration = technique.duration();
        let segment = Segment::Animation { name, duration };
        self.timeline.add_segment(segment);
        let any = technique.into_any();
        self.animations.push(AnimationRecord { technique: any, target_ids, segment_index });
        proof {
            assert(self@.timeline@.drop_last() == old(self)@.timeline@);
            assert(self@.bindings.drop_last() == old(self)@.bindings);
            lemma_wf_after_push(old(self)@, self@, segment);
            lemma_narrations_push(old(self)@.timeline@, segment);
        }
    }

    /// Sets the theme.
    pub fn theme(&mut self, theme: Theme)
        requires
            old(self).wf(),
        ensures
            final(self).wf(),
            final(self)@ == (SceneView { theme, ..old(self)@ }),
    {
        self.current_theme = theme;
    }

    /// Sets the voice.
    pub fn voice(&mut self, voice: Voice)
        requires
            old(self).wf(),
        ensures
            final(self).wf(),
            final(self)@ == (SceneView { voice, ..old(self)@ }),
    {
        self.current_voice = voice;
    }

    /// The element records, in the order of their creation.
    pub fn elements(&self) -> (records: &[ElementRecord])
        ensures
            records@ == self@.records,
    {
        self.elements.as_slice()
    }

    /// The animation bindings, in the order of their creation.
    pub fn animations(&self) -> (bindings: &[AnimationRecord])
        ensures
            bindings@ == self@.bindings,
    {
        self.animations.as_slice()
    }

    /// The number of narrations on the timeline: the number of durations that
    /// `resolve_narration_durations` takes.
    pub fn narration_count(&self) -> (n: usize)
        ensures
            n == narration_positions(self@.timeline@).len(),
    {
        self.timeline.narration_indices().len()
    }

    /// What resolving does where it succeeds: the narrations last as long as
    /// `durations`, every record is retimed to the new segments, and nothing
    /// else changes.
    pub open spec fn retimed_to(&self, before: M, durations: Seq<u64>) -> bool {
        &&& self@.timeline@ == resolved(before@.timeline@, durations)
        &&& total_of(self@.timeline@) == retimed_total(before@.timeline@, durations)
        &&& self@.timeline.spec_fps() == before@.timeline.spec_fps()
        &&& self@.bindings == before@.bindings
        &&& self@.theme == before@.theme
        &&& self@.voice == before@.voice
        &&& self@.records.len() == before@.records.len()
        &&& forall|i: int|
            0 <= i < before@.records.len() ==> #[trigger] self@.records[i]
                == before@.records[i].retimed(self@.timeline@)
    }

    /// Replaces the estimated durations of the narrations by `durations`, one
    /// for each narration in the order of the timeline, and takes every
    /// timestamp of every element anew from the segments.
    ///
    /// Where the number of durations differs from the number of narrations,
    /// nothing changes and the error names both numbers. Nothing is done
    /// either, and nothing is given, where the numbers agree but the timeline
    /// would become longer than it may be.
    pub fn try_resolve_narration_durations(&mut self, durations: &[u64]) -> (outcome: Option<
        Result<(), ResolveDurationError>,
    >)
        requires
            old(self).wf(),
        ensures
            final(self).wf(),
            outcome is None <==> durations@.len() == narration_positions(
                old(self)@.timeline@,
            ).len() && retimed_total(old(self)@.timeline@, durations@) > MAX_TIME,
            match outcome {
                Some(result) => {
                    &&& result == resolve_outcome(old(self)@.timeline@, durations@.len())
                    &&& match result {
                        Ok(()) => final(self).retimed_to(*old(self), durations@),
                        Err(_) => final(self)@ == old(self)@,
                    }
                },
                None => final(self)@ == old(self)@,
            },
    {
        if durations.len() == self.narration_count() && !self.timeline.fits_narrations(durations) {
            return None;
        }
        Some(self.resolve_narration_durations(durations))
    }

    /// Replaces the estimated durations of the narrations by `durations`, one
    /// for each narration in the order of the timeline, and takes every
    /// timestamp of every element anew from the segments.
    ///
    /// Where the number of durations differs from the number of narrations,
    /// nothing changes and the error names both numbers.
    pub fn resolve_narration_durations(&mut self, durations: &[u64]) -> (outcome: Result<
        (),
        ResolveDurationError,
    >)
        requires
            old(self).wf(),
            durations@.len() == narration_positions(old(self)@.timeline@).len() ==> retimed_total(
                old(self)@.timeline@,
                durations@,
            ) <= MAX_TIME,
        ensures
            final(self).wf(),
            outcome == resolve_outcome(old(self)@.timeline@, durations@.len()),
            match outcome {
                Ok(()) => final(self).retimed_to(*old(self), durations@),
                Err(_) => final(self)@ == old(self)@,
            },
    {
        let expected = self.narration_count();
        if durations.len() != expected {
            return Err(
                ResolveDurationError::LengthMismatch { expected, provided: durations.len() },
            );
        }
        proof {
            lemma_resolved_total(self@.timeline@, durations@);
        }
        self.timeline.retime_narrations(durations);
        let ghost segs = self@.timeline@;
        let n = self.elements.len();
        let mut i: usize = 0;
        while i < n
            invariant
                i <= n == old(self)@.records.len(),
                self.elements@.len() == n,
                self.timeline.wf(),
                self@.timeline@ == segs,
                segs == resolved(old(self)@.timeline@, durations@),
                segs.len() == old(self)@.timeline@.len(),
                self@.timeline.spec_fps() == old(self)@.timeline.spec_fps(),
                self.animations == old(self).animations,
                self.current_theme == old(self).current_theme,
                self.current_voice == old(self).current_voice,
                self.next_element_id == old(self).next_element_id,
                old(self).wf(),
                forall|j: int|
                    0 <= j < i ==> #[trigger] self.elements@[j] == old(self)@.records[j].retimed(segs),
                forall|j: int| i <= j < n ==> #[trigger] self.elements@[j] == old(self)@.records[j],
            decreases n - i,
        {
            assert(record_ok(old(self)@.timeline@, old(self)@.records[i as int], i as int));
            let created = self.timeline.elapsed_before(self.elements[i].segments_at_creation);
            self.elements[i].created_at = created;
            match self.elements[i].segments_at_end {
                Some(count) => {
                    let ended = self.timeline.elapsed_before(count);
                    self.elements[i].ended_at = Some(ended);
                },
                None => {},
            }
            i = i + 1;
        }
        proof {
            lemma_wf_kept(old(self)@, self@);
        }
        Ok(())
    }

    /// Records an element under the next identifier, created at the present
    /// end of the timeline.
    fn mint_element_with_meta(&mut self, kind: ElementKind, content: String, items: Vec<String>) -> (e:
        Element)
        requires
            old(self).wf(),
            items@.len() <= MAX_ITEMS,
        ensures
            final(self).minted(*old(self), e),
            final(self)@.records.last().kind == kind,
            final(self)@.records.last().content == content,
            final(self)@.records.last().items == items,
    {
        let id = self.next_element_id;
        let created_at = self.timeline.total_duration();
        let segments_at_creation = self.timeline.segments().len();
        self.elements.push(
            ElementRecord {
                id,
                kind,
                content,
                items,
                created_at,
                segments_at_creation,
                ended_at: None,
                segments_at_end: None,
            },
        );
        assert(self.elements@.len() == self.elements.len());
        self.next_element_id = self.next_element_id + 1;
        proof {
            assert(self@.records.drop_last() == old(self)@.records);
            lemma_elapsed_monotone(self@.timeline@, 0, self@.timeline@.len() as int);
            lemma_wf_kept(old(self)@, self@);
        }
        Element(id)
    }
}

impl Default for M {
    /// An empty registry with the dark theme and the primary voice.
    fn default() -> (m: M)
        ensures
            m.wf(),
            m@.timeline@ == Seq::<Segment>::empty(),
            m@.records == Seq::<ElementRecord>::empty(),
            m@.bindings == Seq::<AnimationRecord>::empty(),
    {
        M::new()
    }
}

} // verus!
