//! The frame state: the complete visual snapshot of a scene at one instant.
//!
//! [`compute_frame_state`] is a pure function of the scene registry and the
//! requested instant. It never fails: an instant outside the timeline is
//! clamped into it.
use crate::any_technique::{lemma_one_output_per_item, AnyTechnique};
use crate::facade::{binding_ok, record_ok, ElementRecord, SceneView, M};
use crate::positions::{lemma_positions_grow, positions_below};
use crate::technique::TechniqueOutput;
use crate::theme::pair_views;
use crate::timeline::{elapsed, hits, lemma_elapsed_monotone, total_of, Segment};
use crate::units::{lemma_mul_bound, MAX_TIME, ONE, SECOND};
use vstd::prelude::*;

verus! {

/// The structural kind of a visual element.
#[derive(Debug, Clone, PartialEq, Eq)]
pub enum ElementKind {
    /// A title card.
    Title,
    /// Plain display text.
    Show,
    /// A section heading.
    Section,
    /// A metric with a direction tag: `up`, `down` or `neutral`.
    Metric { direction: String },
    /// A list of `count` items.
    Steps { count: usize },
}

impl ElementKind {
    /// Whether the kind is a header: a title or a section heading. The other
    /// kinds are bodies.
    pub open spec fn spec_is_header(&self) -> bool {
        self is Title || self is Section
    }

    /// A copy of the kind.
    pub fn duplicate(&self) -> (k: ElementKind)
        ensures
            k == *self,
    {
        match self {
            ElementKind::Title => ElementKind::Title,
            ElementKind::Show => ElementKind::Show,
            ElementKind::Section => ElementKind::Section,
            ElementKind::Metric { direction } => ElementKind::Metric {
                direction: direction.clone(),
            },
            ElementKind::Steps { count } => ElementKind::Steps { count: *count },
        }
    }
}

/// The layout position of an element that is not on screen, and of a single
/// element that is: the middle.
pub const LAYOUT_MIDDLE: u64 = 500_000;

/// The visual state of one item of a list.
#[derive(Debug, Clone, PartialEq, Eq)]
pub struct ItemState {
    /// The text of the item.
    pub text: String,
    /// Opacity, from 0 (transparent) to `ONE` (opaque).
    pub opacity: i64,
    /// Horizontal translation in millionths of a pixel.
    pub translate_x: i64,
    /// Vertical translation in millionths of a pixel.
    pub translate_y: i64,
    /// Scale factor, `ONE` for the natural size.
    pub scale: i64,
    /// Rotation in millionths of a degree.
    pub rotation: i64,
}

impl ItemState {
    /// The transform of the item.
    pub open spec fn pose(&self) -> TechniqueOutput {
        TechniqueOutput {
            opacity: self.opacity,
            translate_x: self.translate_x,
            translate_y: self.translate_y,
            scale: self.scale,
            rotation: self.rotation,
        }
    }

    /// An item with the transform that changes nothing.
    pub fn new(text: String) -> (item: ItemState)
        ensures
            item.text == text,
            item.pose() == TechniqueOutput::identity(),
    {
        ItemState {
            text,
            opacity: ONE as i64,
            translate_x: 0,
            translate_y: 0,
            scale: ONE as i64,
            rotation: 0,
        }
    }
}

/// The visual state of one element.
#[derive(Debug, Clone, PartialEq, Eq)]
pub struct ElementState {
    /// The identifier of the element.
    pub id: u64,
    /// The structural kind.
    pub kind: ElementKind,
    /// The text.
    pub content: String,
    /// The items of a list with their own transforms; empty for other kinds.
    pub items: Vec<ItemState>,
    /// Whether the element is on screen.
    pub visible: bool,
    /// Opacity, from 0 (transparent) to `ONE` (opaque).
    pub opacity: i64,
    /// Horizontal translation in millionths of a pixel.
    pub translate_x: i64,
    /// Vertical translation in millionths of a pixel.
    pub translate_y: i64,
    /// Scale factor, `ONE` for the natural size.
    pub scale: i64,
    /// Rotation in millionths of a degree.
    pub rotation: i64,
    /// The vertical position in the frame: 0 is the top, `ONE` the bottom.
    pub layout_y: u64,
}

impl ElementState {
    /// The transform of the element itself.
    pub open spec fn pose(&self) -> TechniqueOutput {
        TechniqueOutput {
            opacity: self.opacity,
            translate_x: self.translate_x,
            translate_y: self.translate_y,
            scale: self.scale,
            rotation: self.rotation,
        }
    }

    /// The transforms of the items.
    pub open spec fn item_poses(&self) -> Seq<TechniqueOutput> {
        Seq::new(self.items@.len(), |k: int| self.items@[k].pose())
    }

    /// The texts of the items.
    pub open spec fn item_texts(&self) -> Seq<String> {
        Seq::new(self.items@.len(), |k: int| self.items@[k].text)
    }

    /// The role of the element in the layout.
    pub open spec fn role(&self) -> Role {
        if !self.visible {
            Role::Hidden
        } else if self.kind.spec_is_header() {
            Role::Header
        } else {
            Role::Body
        }
    }
}

/// The theme of a frame: its name and its CSS custom properties.
#[derive(Debug, Clone, PartialEq, Eq)]
pub struct ThemeState {
    /// The name of the theme.
    pub name: String,
    /// The custom properties, as ordered pairs of key and value.
    pub css_properties: Vec<(String, String)>,
}

/// The complete visual state of a scene at one instant.
#[derive(Debug, Clone, PartialEq, Eq)]
pub struct FrameState {
    /// The instant, clamped into the timeline.
    pub time: u64,
    /// The number of the frame, counted from 0.
    pub frame: u32,
    /// The total duration of the timeline.
    pub total_duration: u64,
    /// The frame rate.
    pub fps: u32,
    /// The state of every element, on screen or not, in the order of creation.
    pub elements: Vec<ElementState>,
    /// The text of the narration that is spoken at the instant, if any.
    pub active_narration: Option<String>,
    /// The theme.
    pub theme: ThemeState,
}

/// The transforms of one element: its own and those of its items.
pub struct Pose {
    pub own: TechniqueOutput,
    pub items: Seq<TechniqueOutput>,
}

/// The role of an element in the layout: none, that of a header or that of a
/// body.
pub enum Role {
    Hidden,
    Header,
    Body,
}

/// The transform of an element that is not on screen: transparent and scaled
/// to nothing.
pub open spec fn hidden() -> TechniqueOutput {
    TechniqueOutput { opacity: 0, translate_x: 0, translate_y: 0, scale: 0, rotation: 0 }
}

/// The instant clamped into a timeline of `total` microseconds.
pub open spec fn clamped(time: int, total: int) -> int {
    if time <= 0 {
        0
    } else if time > total {
        total
    } else {
        time
    }
}

/// The transforms of an element before any technique is applied: the identity
/// if it is on screen, the hidden transform if not, and the identity for each
/// item.
pub open spec fn initial_pose(record: ElementRecord, time: int) -> Pose {
    Pose {
        own: if record.visible_at(time) {
            TechniqueOutput::identity()
        } else {
            hidden()
        },
        items: Seq::new(record.items@.len(), |k: int| TechniqueOutput::identity()),
    }
}

/// The transforms of all elements before any technique is applied.
pub open spec fn initial_poses(records: Seq<ElementRecord>, time: int) -> Seq<Pose> {
    Seq::new(records.len(), |i: int| initial_pose(records[i], time))
}

/// The progress at `time` of the animation that is anchored to the segment at
/// `index`: zero before the segment, one from its end on, and the share of
/// the segment that has passed in between. A segment without duration is
/// complete at once.
pub open spec fn binding_progress(segs: Seq<Segment>, index: int, time: int) -> int {
    let start = elapsed(segs, index);
    let duration = segs[index].spec_duration() as int;
    if time < start {
        0
    } else if time >= start + duration || duration <= 0 {
        ONE as int
    } else {
        (time - start) * ONE / duration
    }
}

/// The transforms after `technique` at `progress` is applied to the element
/// whose identifier is `target`. An element that is not on screen is left as
/// it is. A list takes the outputs in its items and keeps its own transform;
/// any other element takes the output itself.
pub open spec fn pose_target(
    poses: Seq<Pose>,
    records: Seq<ElementRecord>,
    time: int,
    technique: AnyTechnique,
    progress: u64,
    target: u64,
) -> Seq<Pose> {
    let i = target as int;
    if i < poses.len() && records[i].visible_at(time) {
        if poses[i].items.len() > 0 {
            poses.update(
                i,
                Pose {
                    own: poses[i].own,
                    items: technique.spec_apply_items(poses[i].items.len() as usize, progress),
                },
            )
        } else {
            poses.update(i, Pose { own: technique.spec_apply(progress), items: poses[i].items })
        }
    } else {
        poses
    }
}

/// The transforms after the technique is applied to the first `k` targets.
pub open spec fn pose_targets(
    poses: Seq<Pose>,
    records: Seq<ElementRecord>,
    time: int,
    technique: AnyTechnique,
    progress: u64,
    targets: Seq<u64>,
    k: int,
) -> Seq<Pose>
    decreases k,
{
    if k <= 0 {
        poses
    } else {
        pose_target(
            pose_targets(poses, records, time, technique, progress, targets, k - 1),
            records,
            time,
            technique,
            progress,
            targets[k - 1],
        )
    }
}

/// The transforms after the first `k` bindings of the scene are applied to
/// `start`, in the order in which they were recorded.
pub open spec fn animated_from(start: Seq<Pose>, scene: SceneView, time: int, k: int) -> Seq<Pose>
    decreases k,
{
    if k <= 0 {
        start
    } else {
        let binding = scene.bindings[k - 1];
        pose_targets(
            animated_from(start, scene, time, k - 1),
            scene.records,
            time,
            binding.technique,
            binding_progress(scene.timeline@, binding.segment_index as int, time) as u64,
            binding.target_ids@,
            binding.target_ids@.len() as int,
        )
    }
}

/// The transforms of all elements of the scene at `time`: the initial
/// transforms with every binding applied.
pub open spec fn animated(scene: SceneView, time: int) -> Seq<Pose> {
    animated_from(initial_poses(scene.records, time), scene, time, scene.bindings.len() as int)
}

/// Whether position `i` holds a visible header.
pub open spec fn header_at(roles: Seq<Role>) -> spec_fn(int) -> bool {
    |i: int| roles[i] is Header
}

/// Whether position `i` holds a visible body.
pub open spec fn body_at(roles: Seq<Role>) -> spec_fn(int) -> bool {
    |i: int| roles[i] is Body
}

/// The number of visible headers below position `k`.
pub open spec fn headers_below(roles: Seq<Role>, k: int) -> int {
    positions_below(k, header_at(roles)).len() as int
}

/// The number of visible bodies below position `k`.
pub open spec fn bodies_below(roles: Seq<Role>, k: int) -> int {
    positions_below(k, body_at(roles)).len() as int
}

/// The number of visible elements.
pub open spec fn visible_count(roles: Seq<Role>) -> int {
    headers_below(roles, roles.len() as int) + bodies_below(roles, roles.len() as int)
}

/// The slot of the visible element at position `i`: headers come first, then
/// bodies, each group in the order of creation.
pub open spec fn slot_of(roles: Seq<Role>, i: int) -> int {
    if roles[i] is Header {
        headers_below(roles, i)
    } else {
        headers_below(roles, roles.len() as int) + bodies_below(roles, i)
    }
}

/// The vertical position of slot `slot` among `count` visible elements: the
/// middle for one, 0.3 and 0.65 for two, and from three on an even spread
/// from 0.2 to 0.8.
pub open spec fn layout_position(count: int, slot: int) -> int {
    if count <= 1 {
        LAYOUT_MIDDLE as int
    } else if count == 2 {
        if slot == 0 {
            300_000
        } else {
            650_000
        }
    } else {
        200_000 + 600_000 * slot / (count - 1)
    }
}

/// The vertical position of the element at position `i`: that of its slot if
/// it is on screen, the middle if not.
pub open spec fn layout_of(roles: Seq<Role>, i: int) -> int {
    if roles[i] is Hidden {
        LAYOUT_MIDDLE as int
    } else {
        layout_position(visible_count(roles), slot_of(roles, i))
    }
}

/// The roles of the elements in the layout.
pub open spec fn roles_of(states: Seq<ElementState>) -> Seq<Role> {
    Seq::new(states.len(), |i: int| states[i].role())
}

/// The transforms of the elements.
pub open spec fn poses_of(states: Seq<ElementState>) -> Seq<Pose> {
    Seq::new(states.len(), |i: int| Pose { own: states[i].pose(), items: states[i].item_poses() })
}

/// Whether a state shows its record at `time`: the same identifier, kind,
/// text and item texts, and the visibility of the record at that instant.
pub open spec fn shows(state: ElementState, record: ElementRecord, time: int) -> bool {
    &&& state.id == record.id
    &&& state.kind == record.kind
    &&& state.content == record.content
    &&& state.item_texts() == record.items@
    &&& state.visible == record.visible_at(time)
}

/// The half of the duration of a frame, rounded up; without a frame rate, the
/// whole timeline.
pub open spec fn half_frame(fps: int) -> int {
    if fps <= 0 {
        MAX_TIME as int
    } else {
        crate::units::ceil_div(SECOND as int, 2 * fps)
    }
}

/// The end of the window in which a narration counts as spoken at `time`.
pub open spec fn window_end(time: int, epsilon: int) -> int {
    if time + epsilon > MAX_TIME {
        MAX_TIME as int
    } else {
        time + epsilon
    }
}

/// The first position from `from` on, in the order of `found`, that holds a
/// narration.
pub open spec fn first_spoken(segs: Seq<Segment>, found: Seq<int>, from: int) -> Option<int>
    decreases found.len() - from,
{
    if from < 0 || from >= found.len() {
        None
    } else if segs[found[from]].is_narration() {
        Some(found[from])
    } else {
        first_spoken(segs, found, from + 1)
    }
}

/// The position of the narration that is spoken at `time`: the first
/// narration among the segments that overlap the window from `time` on.
pub open spec fn spoken_at(segs: Seq<Segment>, time: int, epsilon: int) -> Option<int> {
    first_spoken(segs, hits(segs, time, window_end(time, epsilon)), 0)
}

/// The text of the narration that is spoken at `time`, if there is one.
pub open spec fn spoken_text(segs: Seq<Segment>, time: int, epsilon: int) -> Option<String> {
    match spoken_at(segs, time, epsilon) {
        Some(i) => match segs[i] {
            Segment::Narration { text, .. } => Some(text),
            _ => None,
        },
        None => None,
    }
}

/// Whether `kind` is a header: a title or a section heading.
pub fn is_header(kind: &ElementKind) -> (b: bool)
    ensures
        b == kind.spec_is_header(),
{
    match kind {
        ElementKind::Title => true,
        ElementKind::Section => true,
        _ => false,
    }
}

/// The text of the narration that is spoken at `time`, if any: that of the
/// first narration among the segments that overlap the window of `epsilon`
/// microseconds from `time` on.
pub fn find_active_narration(m: &M, time: u64, epsilon: u64) -> (spoken: Option<String>)
    requires
        m.wf(),
        time <= MAX_TIME,
    ensures
        spoken == spoken_text(m@.timeline@, time as int, epsilon as int),
{
    let end: u64 = if epsilon > MAX_TIME - time {
        MAX_TIME
    } else {
        time + epsilon
    };
    let found = m.timeline().segments_in_range(time as i64, end as i64);
    let ghost segs = m@.timeline@;
    let ghost positions = hits(segs, time as int, end as int);
    proof {
        crate::positions::lemma_positions_below(
            segs.len() as int,
            crate::timeline::hit_at(segs, time as int, end as int),
        );
    }
    let mut i: usize = 0;
    while i < found.len()
        invariant
            i <= found@.len() == positions.len(),
            segs == m@.timeline@,
            positions == hits(segs, time as int, window_end(time as int, epsilon as int)),
            forall|j: int| 0 <= j < found@.len() ==> *(#[trigger] found@[j]).1 == segs[positions[j]],
            first_spoken(segs, positions, 0) == first_spoken(segs, positions, i as int),
        decreases found@.len() - i,
    {
        match found[i].1 {
            Segment::Narration { text, .. } => {
                assert(*found@[i as int].1 == segs[positions[i as int]]);
                return Some(text.clone());
            },
            _ => {},
        }
        i = i + 1;
    }
    None
}

/// The state of every element at `time` before any technique is applied:
/// visible elements opaque at their natural size, the others transparent and
/// scaled to nothing, and every item of a list with the identity transform.
fn initial_elements(records: &[ElementRecord], time: u64) -> (states: Vec<ElementState>)
    ensures
        states@.len() == records@.len(),
        forall|i: int|
            0 <= i < states@.len() ==> shows(#[trigger] states@[i], records@[i], time as int)
                && states@[i].layout_y == LAYOUT_MIDDLE,
        poses_of(states@) == initial_poses(records@, time as int),
{
    let mut states: Vec<ElementState> = Vec::new();
    let mut i: usize = 0;
    while i < records.len()
        invariant
            i <= records@.len(),
            states@.len() == i,
            forall|j: int|
                0 <= j < i ==> shows(#[trigger] states@[j], records@[j], time as int)
                    && states@[j].layout_y == LAYOUT_MIDDLE,
            forall|j: int|
                0 <= j < i ==> (#[trigger] poses_of(states@)[j]) == initial_pose(
                    records@[j],
                    time as int,
                ),
        decreases records@.len() - i,
    {
        let record = &records[i];
        let visible = record.created_at <= time && match record.ended_at {
            Some(end) => time < end,
            None => true,
        };
        let mut items: Vec<ItemState> = Vec::new();
        let mut k: usize = 0;
        while k < record.items.len()
            invariant
                k <= record.items@.len(),
                items@.len() == k,
                forall|x: int|
                    0 <= x < k ==> (#[trigger] items@[x]).text == record.items@[x] && items@[x].pose()
                        == TechniqueOutput::identity(),
            decreases record.items@.len() - k,
        {
            items.push(ItemState::new(record.items[k].clone()));
            k = k + 1;
        }
        let level: i64 = if visible {
            ONE as i64
        } else {
            0
        };
        let state = ElementState {
            id: record.id,
            kind: record.kind.duplicate(),
            content: record.content.clone(),
            items,
            visible,
            opacity: level,
            translate_x: 0,
            translate_y: 0,
            scale: level,
            rotation: 0,
            layout_y: LAYOUT_MIDDLE,
        };
        proof {
            assert(state.item_texts() =~= record.items@);
            assert(state.item_poses() =~= initial_pose(*record, time as int).items);
        }
        let ghost before = states@;
        states.push(state);
        proof {
            assert forall|j: int| 0 <= j < i + 1 implies (#[trigger] poses_of(states@)[j])
                == initial_pose(records@[j], time as int) by {
                if j < i {
                    assert(states@[j] == before[j]);
                    assert(poses_of(before)[j] == initial_pose(records@[j], time as int));
                }
            }
        }
        i = i + 1;
    }
    assert(poses_of(states@) =~= initial_poses(records@, time as int));
    states
}

/// Gives the element its own transform and leaves everything else as it is.
fn set_pose(element: &mut ElementState, output: TechniqueOutput)
    ensures
        final(element).pose() == output,
        final(element).items == old(element).items,
        final(element).id == old(element).id,
        final(element).kind == old(element).kind,
        final(element).content == old(element).content,
        final(element).visible == old(element).visible,
        final(element).layout_y == old(element).layout_y,
{
    element.opacity = output.opacity;
    element.translate_x = output.translate_x;
    element.translate_y = output.translate_y;
    element.scale = output.scale;
    element.rotation = output.rotation;
}

/// Gives each item of the element the transform at its position in
/// `outputs` and leaves everything else, the texts of the items too, as it is.
fn set_item_poses(element: &mut ElementState, outputs: &Vec<TechniqueOutput>)
    requires
        outputs@.len() == old(element).items@.len(),
    ensures
        final(element).item_poses() == outputs@,
        final(element).item_texts() == old(element).item_texts(),
        final(element).pose() == old(element).pose(),
        final(element).id == old(element).id,
        final(element).kind == old(element).kind,
        final(element).content == old(element).content,
        final(element).visible == old(element).visible,
        final(element).layout_y == old(element).layout_y,
{
    let mut i: usize = 0;
    while i < outputs.len()
        invariant
            i <= outputs@.len() == element.items@.len(),
            element.items@.len() == old(element).items@.len(),
            forall|k: int| 0 <= k < i ==> (#[trigger] element.items@[k]).pose() == outputs@[k],
            forall|k: int|
                0 <= k < element.items@.len() ==> (#[trigger] element.items@[k]).text == old(
                    element,
                ).items@[k].text,
            element.pose() == old(element).pose(),
            element.id == old(element).id,
            element.kind == old(element).kind,
            element.content == old(element).content,
            element.visible == old(element).visible,
            element.layout_y == old(element).layout_y,
        decreases outputs@.len() - i,
    {
        if i < element.items.len() {
            let output = outputs[i];
            element.items[i].opacity = output.opacity;
            element.items[i].translate_x = output.translate_x;
            element.items[i].translate_y = output.translate_y;
            element.items[i].scale = output.scale;
            element.items[i].rotation = output.rotation;
        }
        i = i + 1;
    }
    assert(element.item_poses() =~= outputs@);
    assert(element.item_texts() =~= old(element).item_texts());
}

/// The progress at `time` of the animation anchored to the segment at `index`.
fn progress_at(m: &M, index: usize, time: u64) -> (progress: u64)
    requires
        m.wf(),
        index < m@.timeline@.len(),
        time <= MAX_TIME,
    ensures
        progress == binding_progress(m@.timeline@, index as int, time as int),
        progress <= ONE,
{
    let start = m.timeline().elapsed_before(index);
    let duration = m.timeline().segments()[index].duration();
    proof {
        lemma_elapsed_monotone(m@.timeline@, index as int + 1, m@.timeline@.len() as int);
    }
    let end = start + duration;
    if time < start {
        0
    } else if time >= end || duration == 0 {
        ONE
    } else {
        let passed = time - start;
        proof {
            lemma_mul_bound(passed as int, ONE as int, MAX_TIME as int, ONE as int);
            assert(passed * ONE / (duration as int) < ONE) by (nonlinear_arith)
                requires
                    0 <= passed < duration,
            ;
        }
        ((passed as u128) * (ONE as u128) / (duration as u128)) as u64
    }
}

/// Applies every binding of the scene to the elements, in the order in which
/// the bindings were recorded.
///
/// For each binding the progress follows from the place of its segment on
/// the timeline; the technique is then applied to each target that is on
/// screen.
fn apply_animations(m: &M, time: u64, elements: &mut Vec<ElementState>)
    requires
        m.wf(),
        time <= MAX_TIME,
        old(elements)@.len() == m@.records.len(),
        forall|i: int|
            0 <= i < old(elements)@.len() ==> shows(
                #[trigger] old(elements)@[i],
                m@.records[i],
                time as int,
            ),
    ensures
        final(elements)@.len() == old(elements)@.len(),
        forall|i: int|
            0 <= i < final(elements)@.len() ==> shows(
                #[trigger] final(elements)@[i],
                m@.records[i],
                time as int,
            ) && final(elements)@[i].layout_y == old(elements)@[i].layout_y,
        poses_of(final(elements)@) == animated_from(
            poses_of(old(elements)@),
            m@,
            time as int,
            m@.bindings.len() as int,
        ),
{
    let ghost start = poses_of(elements@);
    let ghost records = m@.records;
    let bindings = m.animations();
    let mut a: usize = 0;
    while a < bindings.len()
        invariant
            a <= bindings@.len(),
            bindings@ == m@.bindings,
            records == m@.records,
            m.wf(),
            time <= MAX_TIME,
            elements@.len() == records.len(),
            start == poses_of(old(elements)@),
            forall|i: int|
                0 <= i < elements@.len() ==> shows(#[trigger] elements@[i], records[i], time as int)
                    && elements@[i].layout_y == old(elements)@[i].layout_y,
            poses_of(elements@) == animated_from(start, m@, time as int, a as int),
        decreases bindings@.len() - a,
    {
        let binding = &bindings[a];
        assert(binding_ok(m@.timeline@, records.len() as int, m@.bindings[a as int]));
        let progress = progress_at(m, binding.segment_index, time);
        let ghost base = poses_of(elements@);
        let mut j: usize = 0;
        while j < binding.target_ids.len()
            invariant
                j <= binding.target_ids@.len(),
                a < bindings@.len(),
                bindings@ == m@.bindings,
                *binding == bindings@[a as int],
                binding.technique.wf(),
                records == m@.records,
                m.wf(),
                progress <= ONE,
                elements@.len() == records.len(),
                forall|i: int|
                    0 <= i < elements@.len() ==> shows(
                        #[trigger] elements@[i],
                        records[i],
                        time as int,
                    ) && elements@[i].layout_y == old(elements)@[i].layout_y,
                poses_of(elements@) == pose_targets(
                    base,
                    records,
                    time as int,
                    binding.technique,
                    progress,
                    binding.target_ids@,
                    j as int,
                ),
            decreases binding.target_ids@.len() - j,
        {
            let target = binding.target_ids[j];
            let ghost before = elements@;
            let ghost poses = poses_of(before);
            if target < elements.len() as u64 {
                let idx = target as usize;
                assert(shows(before[idx as int], records[idx as int], time as int));
                assert(record_ok(m@.timeline@, records[idx as int], idx as int));
                assert(poses[idx as int].items.len() == before[idx as int].items@.len());
                if elements[idx].visible {
                    let count = elements[idx].items.len();
                    if count > 0 {
                        assert(before[idx as int].item_texts().len() == records[idx as int].items@.len());
                        let outputs = binding.technique.apply_items(count, progress);
                        proof {
                            lemma_one_output_per_item(binding.technique, count, progress);
                        }
                        set_item_poses(&mut elements[idx], &outputs);
                    } else {
                        let output = binding.technique.apply(progress);
                        set_pose(&mut elements[idx], output);
                        assert(elements@[idx as int].item_poses() =~= before[idx as int].item_poses());
                        assert(elements@[idx as int].item_texts() =~= before[idx as int].item_texts());
                    }
                    proof {
                        let after = pose_target(
                            poses,
                            records,
                            time as int,
                            binding.technique,
                            progress,
                            target,
                        );
                        assert forall|i: int| 0 <= i < elements@.len() implies (
                        #[trigger] poses_of(elements@)[i]) == after[i] by {
                            if i != idx {
                                assert(elements@[i] == before[i]);
                                assert(poses[i] == poses_of(before)[i]);
                            }
                        }
                        assert(poses_of(elements@) =~= after);
                    }
                }
            }
            j = j + 1;
        }
        a = a + 1;
    }
}

/// Gives every element that is on screen its vertical position.
///
/// Headers take the first slots and bodies the slots after them, each group
/// in the order of creation. One element stands in the middle, two stand at
/// 0.3 and 0.65, and three or more are spread evenly from 0.2 to 0.8. An
/// element that is not on screen keeps the position it has.
fn assign_layout_positions(elements: &mut Vec<ElementState>)
    ensures
        final(elements)@.len() == old(elements)@.len(),
        forall|i: int|
            0 <= i < old(elements)@.len() ==> #[trigger] final(elements)@[i] == (if old(
                elements,
            )@[i].visible {
                ElementState {
                    layout_y: layout_of(roles_of(old(elements)@), i) as u64,
                    ..old(elements)@[i]
                }
            } else {
                old(elements)@[i]
            }),
{
    let ghost roles = roles_of(elements@);
    let n = elements.len();
    let mut headers: usize = 0;
    let mut bodies: usize = 0;
    let mut i: usize = 0;
    while i < n
        invariant
            i <= n == elements@.len(),
            elements@ == old(elements)@,
            roles == roles_of(elements@),
            headers == headers_below(roles, i as int),
            bodies == bodies_below(roles, i as int),
            headers + bodies <= i,
        decreases n - i,
    {
        if elements[i].visible {
            if is_header(&elements[i].kind) {
                headers = headers + 1;
            } else {
                bodies = bodies + 1;
            }
        }
        i = i + 1;
    }
    let count = headers + bodies;
    if count == 0 {
        proof {
            assert forall|i: int| 0 <= i < n implies !old(elements)@[i].visible by {
                if old(elements)@[i].visible {
                    lemma_slot_in_range(roles, i);
                }
            }
        }
        return ;
    }
    let mut seen_headers: usize = 0;
    let mut seen_bodies: usize = 0;
    let mut i: usize = 0;
    while i < n
        invariant
            i <= n == elements@.len(),
            n == old(elements)@.len(),
            roles == roles_of(old(elements)@),
            count == visible_count(roles),
            headers == headers_below(roles, n as int),
            count == headers + bodies,
            seen_headers == headers_below(roles, i as int),
            seen_bodies == bodies_below(roles, i as int),
            forall|j: int|
                0 <= j < i ==> #[trigger] elements@[j] == (if old(elements)@[j].visible {
                    ElementState {
                        layout_y: layout_of(roles, j) as u64,
                        ..old(elements)@[j]
                    }
                } else {
                    old(elements)@[j]
                }),
            forall|j: int| i <= j < n ==> #[trigger] elements@[j] == old(elements)@[j],
        decreases n - i,
    {
        if elements[i].visible {
            proof {
                lemma_slot_in_range(roles, i as int);
            }
            let slot: usize = if is_header(&elements[i].kind) {
                seen_headers = seen_headers + 1;
                seen_headers - 1
            } else {
                seen_bodies = seen_bodies + 1;
                headers + (seen_bodies - 1)
            };
            assert(slot == slot_of(roles, i as int));
            let position: u64 = if count == 1 {
                LAYOUT_MIDDLE
            } else if count == 2 {
                if slot == 0 {
                    300_000
                } else {
                    650_000
                }
            } else {
                proof {
                    assert(600_000 * slot / (count - 1) as int <= 600_000) by (nonlinear_arith)
                        requires
                            0 <= slot <= count - 1,
                            count > 1,
                    ;
                }
                (200_000 + 600_000 * (slot as u128) / ((count - 1) as u128)) as u64
            };
            elements[i].layout_y = position;
        }
        i = i + 1;
    }
}

/// The slot of a visible element is below the number of visible elements.
pub proof fn lemma_slot_in_range(roles: Seq<Role>, i: int)
    requires
        0 <= i < roles.len(),
        !(roles[i] is Hidden),
    ensures
        0 <= slot_of(roles, i) < visible_count(roles),
        roles[i] is Header ==> slot_of(roles, i) < headers_below(roles, roles.len() as int),
        roles[i] is Body ==> slot_of(roles, i) >= headers_below(roles, roles.len() as int),
{
    lemma_positions_grow(i + 1, roles.len() as int, header_at(roles));
    lemma_positions_grow(i + 1, roles.len() as int, body_at(roles));
}

/// Headers stand before bodies: whatever the order of creation, a visible
/// header has a lower slot than a visible body.
pub proof fn lemma_headers_precede_bodies(roles: Seq<Role>, header: int, body: int)
    requires
        0 <= header < roles.len(),
        0 <= body < roles.len(),
        roles[header] is Header,
        roles[body] is Body,
    ensures
        slot_of(roles, header) < slot_of(roles, body),
{
    lemma_slot_in_range(roles, header);
    lemma_slot_in_range(roles, body);
}

/// Within its group an element that was created earlier has the lower slot:
/// of two visible headers, and of two visible bodies, the one at the lower
/// position comes first.
pub proof fn lemma_slots_keep_order(roles: Seq<Role>, earlier: int, later: int)
    requires
        0 <= earlier < later < roles.len(),
        !(roles[earlier] is Hidden),
        roles[earlier] == roles[later],
    ensures
        slot_of(roles, earlier) < slot_of(roles, later),
{
    lemma_positions_grow(earlier + 1, later, header_at(roles));
    lemma_positions_grow(earlier + 1, later, body_at(roles));
}

/// The largest number of visible elements for which every slot has a
/// position of its own. The positions are counted in millionths, and the
/// spread from 0.2 to 0.8 holds 600,001 of them.
pub const DISTINCT_POSITIONS: u64 = 600_001;

/// A higher slot never stands above a lower one, and it stands strictly below
/// as long as the visible elements are few enough for every slot to have a
/// position of its own.
pub proof fn lemma_layout_position_order(count: int, lower: int, higher: int)
    requires
        0 <= lower < higher < count,
    ensures
        layout_position(count, lower) <= layout_position(count, higher),
        count <= DISTINCT_POSITIONS ==> layout_position(count, lower) < layout_position(
            count,
            higher,
        ),
{
    if count > 2 {
        let step = count - 1;
        assert(600_000 * lower / step <= 600_000 * higher / step) by (nonlinear_arith)
            requires
                0 <= lower < higher,
                step > 0,
        ;
        if count <= DISTINCT_POSITIONS {
            assert(600_000 * lower / step < 600_000 * higher / step) by (nonlinear_arith)
                requires
                    0 <= lower < higher,
                    0 < step <= 600_000,
            ;
        }
    }
}

/// The layout follows the slots. A visible header stands above every visible
/// body, and within each group an element that was created earlier stands
/// above a later one: never below, and strictly above as long as every slot
/// has a position of its own.
pub proof fn lemma_layout_order(roles: Seq<Role>, upper: int, lower: int)
    requires
        0 <= upper < roles.len(),
        0 <= lower < roles.len(),
        !(roles[upper] is Hidden),
        !(roles[lower] is Hidden),
        (roles[upper] is Header && roles[lower] is Body) || (roles[upper] == roles[lower] && upper
            < lower),
    ensures
        slot_of(roles, upper) < slot_of(roles, lower),
        layout_of(roles, upper) <= layout_of(roles, lower),
        visible_count(roles) <= DISTINCT_POSITIONS ==> layout_of(roles, upper) < layout_of(
            roles,
            lower,
        ),
        200_000 <= layout_of(roles, upper) <= 800_000,
        200_000 <= layout_of(roles, lower) <= 800_000,
{
    lemma_slot_in_range(roles, upper);
    lemma_slot_in_range(roles, lower);
    if roles[upper] == roles[lower] {
        lemma_slots_keep_order(roles, upper, lower);
    }
    lemma_layout_position_order(
        visible_count(roles),
        slot_of(roles, upper),
        slot_of(roles, lower),
    );
    lemma_layout_position_bounds(visible_count(roles), slot_of(roles, upper));
    lemma_layout_position_bounds(visible_count(roles), slot_of(roles, lower));
}

/// The positions of the layout: the middle for one visible element, 0.3 and
/// 0.65 for two, and 0.2, 0.5 and 0.8 for three.
pub proof fn lemma_layout_positions()
    ensures
        layout_position(1, 0) == 500_000,
        layout_position(2, 0) == 300_000,
        layout_position(2, 1) == 650_000,
        layout_position(3, 0) == 200_000,
        layout_position(3, 1) == 500_000,
        layout_position(3, 2) == 800_000,
{
}

/// Every position of the layout lies in the frame, between 0.2 and 0.8.
pub proof fn lemma_layout_position_bounds(count: int, slot: int)
    requires
        0 <= slot < count,
    ensures
        200_000 <= layout_position(count, slot) <= 800_000,
{
    if count > 2 {
        assert(0 <= 600_000 * slot / (count - 1) <= 600_000) by (nonlinear_arith)
            requires
                0 <= slot <= count - 1,
                count > 1,
        ;
    }
}

/// Computes the complete visual state of the scene at `time`.
///
/// The instant is clamped into the timeline. Each element is on screen from
/// its creation to its end; the bindings are applied in order to the elements
/// on screen; the elements on screen get their layout positions; and the
/// narration that is spoken at the instant is looked up.
pub fn compute_frame_state(m: &M, time: i64) -> (fs: FrameState)
    requires
        m.wf(),
    ensures
        fs.time == clamped(time as int, total_of(m@.timeline@)),
        fs.frame == m@.timeline.spec_frame_at(fs.time as int),
        fs.total_duration == total_of(m@.timeline@),
        fs.fps == m@.timeline.spec_fps(),
        fs.elements@.len() == m@.records.len(),
        forall|i: int|
            0 <= i < fs.elements@.len() ==> shows(
                #[trigger] fs.elements@[i],
                m@.records[i],
                fs.time as int,
            ),
        poses_of(fs.elements@) == animated(m@, fs.time as int),
        forall|i: int|
            0 <= i < fs.elements@.len() ==> (#[trigger] fs.elements@[i]).layout_y == layout_of(
                roles_of(fs.elements@),
                i,
            ) && 200_000 <= fs.elements@[i].layout_y <= 800_000,
        fs.active_narration == spoken_text(
            m@.timeline@,
            fs.time as int,
            half_frame(m@.timeline.spec_fps() as int),
        ),
        fs.theme.name == m@.theme.name,
        pair_views(fs.theme.css_properties@) == m@.theme.css_pairs(),
{
    let total_duration = m.timeline().total_duration();
    let fps = m.timeline().fps();
    let at: u64 = if time <= 0 {
        0
    } else if time as u64 > total_duration {
        total_duration
    } else {
        time as u64
    };
    let frame = m.timeline().frame_at(at as i64);
    let mut elements = initial_elements(m.elements(), at);
    let ghost initial = elements@;
    apply_animations(m, at, &mut elements);
    let ghost posed = elements@;
    assign_layout_positions(&mut elements);
    proof {
        assert(roles_of(elements@) =~= roles_of(posed));
        assert forall|i: int| 0 <= i < elements@.len() implies (#[trigger] elements@[i]).layout_y
            == layout_of(roles_of(elements@), i) && 200_000 <= elements@[i].layout_y <= 800_000 by {
            assert(posed[i].layout_y == initial[i].layout_y);
            if posed[i].visible {
                lemma_slot_in_range(roles_of(posed), i);
                lemma_layout_position_bounds(
                    visible_count(roles_of(posed)),
                    slot_of(roles_of(posed), i),
                );
            }
        }
        assert forall|i: int| 0 <= i < elements@.len() implies shows(
            #[trigger] elements@[i],
            m@.records[i],
            at as int,
        ) by {
            assert(shows(posed[i], m@.records[i], at as int));
            assert(elements@[i].item_texts() =~= posed[i].item_texts());
        }
        assert forall|i: int| 0 <= i < elements@.len() implies (#[trigger] poses_of(elements@)[i])
            == poses_of(posed)[i] by {
            assert(elements@[i].item_poses() =~= posed[i].item_poses());
        }
        assert(poses_of(elements@) =~= poses_of(posed));
    }
    let epsilon: u64 = if fps == 0 {
        MAX_TIME
    } else {
        let step: u64 = 2 * (fps as u64);
        if SECOND % step == 0 {
            SECOND / step
        } else {
            SECOND / step + 1
        }
    };
    let active_narration = find_active_narration(m, at, epsilon);
    let theme = m.current_theme();
    let theme = ThemeState { name: theme.name.clone(), css_properties: theme.to_css_properties() };
    FrameState { time: at, frame, total_duration, fps, elements, active_narration, theme }
}

} // verus!
