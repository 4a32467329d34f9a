//! A showcase scene that introduces the engine in six slides.
use crate::data::CountUp;
use crate::facade::{
    lemma_narration_estimate, narration_estimate, Direction, ElementRecord, Scene, M,
};
use crate::frame::ElementKind;
use crate::motion::Slide;
use crate::positions::positions_below;
use crate::reveals::{FadeIn, FadeUp};
use crate::staging::Stagger;
use crate::technique::{Ease, TechniqueExt, WithEase};
use crate::text::word_count;
use crate::timeline::{narration_positions, total_of};
use vstd::prelude::*;

verus! {

/// A scene of six slides: a cold open, the problem, the solution, the key
/// features, a metric and the closing.
pub struct WhatIsMoronScene;

/// The animation of a section heading: a slide from 200 pixels to the left,
/// easing out.
fn section_slide() -> (t: WithEase<Slide>)
    ensures
        t.inner.duration == 500_000,
        t.inner.offset_x == -200_000_000,
        t.inner.offset_y == 0,
        t.ease == Ease::EaseOut,
{
    Slide { duration: 500_000, offset_x: -200_000_000, offset_y: 0 }.with_ease(Ease::EaseOut)
}

/// The animation of a list: a rise with overshoot, staggered over three
/// items.
fn staggered_rise() -> (t: Stagger<WithEase<FadeUp>>)
    ensures
        t.inner.inner.duration == 600_000,
        t.inner.inner.distance == 30_000_000,
        t.inner.ease == Ease::OutBack,
        t.delay == 100_000,
        t.count == 3,
{
    Stagger::new(FadeUp::default().with_ease(Ease::OutBack)).with_count(3)
}

/// The narration has 11 words.
proof fn lemma_cold_open()
    ensures
        narration_estimate(word_count("What if making explainer videos was as simple as writing Rust?"@)) == 4400000,
{
    reveal_strlit("What if making explainer videos was as simple as writing Rust?");
    reveal_with_fuel(positions_below, 63);
    lemma_narration_estimate("What if making explainer videos was as simple as writing Rust?"@);
}

/// The narration has 8 words.
proof fn lemma_problem()
    ensures
        narration_estimate(word_count("Complex tools. Expensive licenses. Hours of manual work."@)) == 3200000,
{
    reveal_strlit("Complex tools. Expensive licenses. Hours of manual work.");
    reveal_with_fuel(positions_below, 57);
    lemma_narration_estimate("Complex tools. Expensive licenses. Hours of manual work."@);
}

/// The narration has 9 words.
proof fn lemma_solution()
    ensures
        narration_estimate(word_count("Write a scene. Run one command. Get a video."@)) == 3600000,
{
    reveal_strlit("Write a scene. Run one command. Get a video.");
    reveal_with_fuel(positions_below, 45);
    lemma_narration_estimate("Write a scene. Run one command. Get a video."@);
}

/// The narration has 9 words.
proof fn lemma_features()
    ensures
        narration_estimate(word_count("No internet. No cloud. Everything runs on your machine."@)) == 3600000,
{
    reveal_strlit("No internet. No cloud. Everything runs on your machine.");
    reveal_with_fuel(positions_below, 56);
    lemma_narration_estimate("No internet. No cloud. Everything runs on your machine."@);
}

/// The narration has 10 words.
proof fn lemma_metric()
    ensures
        narration_estimate(word_count("All of this in under fifteen thousand lines of code."@)) == 4000000,
{
    reveal_strlit("All of this in under fifteen thousand lines of code.");
    reveal_with_fuel(positions_below, 53);
    lemma_narration_estimate("All of this in under fifteen thousand lines of code."@);
}

/// The narration has 7 words.
proof fn lemma_closing()
    ensures
        narration_estimate(word_count("Motion graphics. Obviously in Rust. Offline natively."@)) == 2800000,
{
    reveal_strlit("Motion graphics. Obviously in Rust. Offline natively.");
    reveal_with_fuel(positions_below, 54);
    lemma_narration_estimate("Motion graphics. Obviously in Rust. Offline natively."@);
}

/// What is on screen when the scene ends, `total` being the end of the
/// timeline: the two elements of the closing slide, which were put up 4.5 and
/// 3.7 seconds before the end and have no end, and nothing else; every
/// element before them had left the screen when the closing slide began.
pub open spec fn closing_slide(records: Seq<ElementRecord>, total: int) -> bool {
    let title = records[records.len() - 2];
    let line = records[records.len() - 1];
    &&& records.len() >= 2
    &&& title.kind == ElementKind::Title
    &&& title.content@ == "moron"@
    &&& title.created_at == total - 4_500_000
    &&& title.ended_at is None
    &&& line.kind == ElementKind::Show
    &&& line.content@ == "Offline. Fast. Professional."@
    &&& line.created_at == total - 3_700_000
    &&& line.ended_at is None
    &&& forall|i: int|
        0 <= i < records.len() - 2 ==> (#[trigger] records[i]).ended_by(total - 4_500_000)
}

impl Scene for WhatIsMoronScene {
    /// The scene takes 33.1 seconds: 21.6 seconds of narration, 7.4 seconds
    /// of animation and 4.1 seconds of pauses.
    open spec fn spec_length() -> int {
        33_100_000
    }

    /// Builds the scene: eleven elements on six slides, each slide cleared
    /// before the next, with six narrations. When the scene ends, the title
    /// and the line of the closing slide are on screen and nothing else.
    fn build(m: &mut M)
        ensures
            total_of(final(m)@.timeline@) == total_of(old(m)@.timeline@) + Self::spec_length(),
            final(m)@.timeline@.len() == old(m)@.timeline@.len() + 24,
            narration_positions(final(m)@.timeline@).len() == narration_positions(
                old(m)@.timeline@,
            ).len() + 6,
            final(m)@.records.len() == old(m)@.records.len() + 11,
            final(m)@.bindings.len() == old(m)@.bindings.len() + 11,
            final(m)@.theme == old(m)@.theme,
            final(m)@.voice == old(m)@.voice,
            closing_slide(final(m)@.records, total_of(final(m)@.timeline@)),
    {
        proof {
            lemma_cold_open();
            lemma_problem();
            lemma_solution();
            lemma_features();
            lemma_metric();
            lemma_closing();
        }
        // Slide 1: cold open.
        m.title("What is moron?");
        m.play(FadeIn { duration: 800_000 });
        m.beat();
        m.narrate("What if making explainer videos was as simple as writing Rust?");
        m.breath();

        // Slide 2: the problem.
        m.clear();
        m.section("The Problem");
        m.play(section_slide());
        m.narrate("Complex tools. Expensive licenses. Hours of manual work.");
        m.show("Complex tools. Expensive licenses. Manual labor.");
        m.play(FadeUp::default());
        m.breath();

        // Slide 3: the solution.
        m.clear();
        m.section("A Better Way");
        m.play(section_slide());
        m.narrate("Write a scene. Run one command. Get a video.");
        m.steps(&["Write a scene in Rust", "Run moron build", "Get a finished MP4"]);
        m.play(staggered_rise());
        m.breath();

        // Slide 4: key features.
        m.clear();
        m.section("Built Different");
        m.play(section_slide());
        m.narrate("No internet. No cloud. Everything runs on your machine.");
        m.steps(&["Fully offline", "Open source", "LLM-friendly API"]);
        m.play(staggered_rise());
        m.breath();

        // Slide 5: the metric.
        m.clear();
        m.section("Lean and Mean");
        m.play(section_slide());
        m.narrate("All of this in under fifteen thousand lines of code.");
        m.metric("Lines of Code", "< 15K", Direction::Down);
        m.play(CountUp::default());
        m.beat();

        // Slide 6: closing.
        m.clear();
        let ghost cleared = m@.records;
        let ghost closing = total_of(m@.timeline@);
        m.title("moron");
        m.play(FadeIn { duration: 800_000 });
        m.show("Offline. Fast. Professional.");
        m.play(FadeIn { duration: 600_000 });
        m.narrate("Motion graphics. Obviously in Rust. Offline natively.");
        m.beat();
        proof {
            let records = m@.records;
            assert(records.drop_last().drop_last() == cleared);
            assert forall|i: int| 0 <= i < records.len() - 2 implies (
            #[trigger] records[i]).ended_by(closing) by {
                assert(records[i] == cleared[i]);
            }
        }
    }
}

} // verus!
