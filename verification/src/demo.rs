//! A short demo scene that exercises every stage of the pipeline.
use crate::facade::{lemma_narration_estimate, narration_estimate, ElementRecord, Scene, M};
use crate::frame::ElementKind;
use crate::positions::positions_below;
use crate::reveals::{FadeIn, FadeUp};
use crate::text::word_count;
use crate::timeline::{narration_positions, total_of};
use vstd::prelude::*;

verus! {

/// A scene of 9.4 seconds: a title card, a section heading and a line
/// of text, each narrated or animated.
pub struct DemoScene;

/// The narration has 9 words.
proof fn lemma_first_narration()
    ensures
        narration_estimate(word_count("This is a demo of the moron rendering pipeline."@)) == 3600000,
{
    reveal_strlit("This is a demo of the moron rendering pipeline.");
    reveal_with_fuel(positions_below, 48);
    lemma_narration_estimate("This is a demo of the moron rendering pipeline."@);
}

/// The narration has 7 words.
proof fn lemma_second_narration()
    ensures
        narration_estimate(word_count("Scene to timeline to frames to video."@)) == 2800000,
{
    reveal_strlit("Scene to timeline to frames to video.");
    reveal_with_fuel(positions_below, 38);
    lemma_narration_estimate("Scene to timeline to frames to video."@);
}

/// The three elements of the scene, `start` being the instant at which the
/// scene begins: the title at once, the section heading 4.4 seconds and the
/// line 8.6 seconds later. None of them ends.
pub open spec fn demo_elements(added: Seq<ElementRecord>, start: int) -> bool {
    &&& added.len() == 3
    &&& added[0].kind == ElementKind::Title
    &&& added[0].content@ == "moron Demo"@
    &&& added[0].created_at == start
    &&& added[1].kind == ElementKind::Section
    &&& added[1].content@ == "Pipeline"@
    &&& added[1].created_at == start + 4_400_000
    &&& added[2].kind == ElementKind::Show
    &&& added[2].content@ == "Built with Rust."@
    &&& added[2].created_at == start + 8_600_000
    &&& forall|i: int| 0 <= i < 3 ==> (#[trigger] added[i]).ended_at is None
}

impl Scene for DemoScene {
    /// The scene takes 9.4 seconds: narrations of 9 and 7 words, fades
    /// of 0.5, 0.6 and 0.5 seconds, two beats and a breath.
    open spec fn spec_length() -> int {
        9_400_000
    }

    /// Builds the scene: three elements, three animations and eight segments.
    fn build(m: &mut M)
        ensures
            total_of(final(m)@.timeline@) == total_of(old(m)@.timeline@) + Self::spec_length(),
            final(m)@.timeline@.len() == old(m)@.timeline@.len() + 8,
            narration_positions(final(m)@.timeline@).len() == narration_positions(
                old(m)@.timeline@,
            ).len() + 2,
            final(m)@.records.len() == old(m)@.records.len() + 3,
            final(m)@.bindings.len() == old(m)@.bindings.len() + 3,
            final(m)@.theme == old(m)@.theme,
            final(m)@.voice == old(m)@.voice,
            forall|i: int|
                0 <= i < old(m)@.records.len() ==> #[trigger] final(m)@.records[i]
                    == old(m)@.records[i],
            demo_elements(
                final(m)@.records.subrange(
                    old(m)@.records.len() as int,
                    final(m)@.records.len() as int,
                ),
                total_of(old(m)@.timeline@),
            ),
    {
        let ghost before = m@.records;
        proof {
            lemma_first_narration();
            lemma_second_narration();
        }
        m.title("moron Demo");
        m.narrate("This is a demo of the moron rendering pipeline.");
        m.play(FadeIn::default());
        m.beat();

        m.section("Pipeline");
        m.narrate("Scene to timeline to frames to video.");
        m.play(FadeUp::default());
        m.breath();

        m.show("Built with Rust.");
        m.play(FadeIn { duration: 500_000 });
        m.beat();
        proof {
            let records = m@.records;
            assert(records.drop_last().drop_last().drop_last() == before);
            let added = records.subrange(before.len() as int, records.len() as int);
            assert(added[0] == records.drop_last().drop_last().last());
            assert(added[1] == records.drop_last().last());
            assert(added[2] == records.last());
        }
    }
}

} // verus!
