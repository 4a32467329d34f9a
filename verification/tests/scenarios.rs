//! Worked scenarios, from authoring calls to frame states.

use moron::{
    compute_frame_state, FadeIn, ResolveDurationError, Scene, Segment, Stagger, Technique,
    WhatIsMoronScene, M,
};

/// Seconds as microseconds.
fn us(seconds: f64) -> u64 {
    (seconds * 1_000_000.0).round() as u64
}

/// An instant in seconds as signed microseconds.
fn at(seconds: f64) -> i64 {
    (seconds * 1_000_000.0).round() as i64
}

/// A ratio as millionths.
fn fx(value: f64) -> i64 {
    (value * 1_000_000.0).round() as i64
}

#[test]
fn a_narration_of_two_words_takes_eight_tenths_of_a_second() {
    let mut m = M::new();
    m.narrate("hello world");
    let segments = m.timeline().segments();
    assert_eq!(segments.len(), 1);
    assert_eq!(
        segments[0],
        Segment::Narration {
            text: "hello world".to_string(),
            duration: us(0.8),
        }
    );
}

#[test]
fn resolved_durations_move_the_elements_that_follow() {
    let mut m = M::new();
    m.title("A");
    m.narrate("hello"); // 1 word: 0.4s
    m.show("B");
    assert_eq!(m.elements()[0].created_at, us(0.0));
    assert_eq!(m.elements()[1].created_at, us(0.4));

    m.resolve_narration_durations(&[us(1.0)]).unwrap();

    assert_eq!(m.elements()[0].created_at, us(0.0));
    assert_eq!(m.elements()[1].created_at, us(1.0));
    assert_eq!(m.timeline().total_duration(), us(1.0));
}

#[test]
fn three_durations_for_two_narrations_are_refused() {
    let mut m = M::new();
    m.narrate("one");
    m.narrate("two three");
    let before: Vec<u64> = m.timeline().segments().iter().map(|s| s.duration()).collect();

    assert_eq!(
        m.resolve_narration_durations(&[us(1.0), us(2.0), us(3.0)]),
        Err(ResolveDurationError::LengthMismatch {
            expected: 2,
            provided: 3,
        })
    );

    let after: Vec<u64> = m.timeline().segments().iter().map(|s| s.duration()).collect();
    assert_eq!(before, after);
    assert_eq!(after, vec![us(0.4), us(0.8)]);
}

#[test]
fn a_fade_of_one_second_on_a_visible_element() {
    let mut m = M::new();
    m.title("Hello");
    m.play(FadeIn { duration: us(1.0) });

    assert_eq!(compute_frame_state(&m, at(0.0)).elements[0].opacity, fx(0.0));
    assert_eq!(compute_frame_state(&m, at(0.5)).elements[0].opacity, fx(0.5));
    assert_eq!(compute_frame_state(&m, at(1.0)).elements[0].opacity, fx(1.0));
    // The technique by itself gives the same.
    let fade = FadeIn { duration: us(1.0) };
    assert_eq!(fade.apply(0).opacity, fx(0.0));
    assert_eq!(fade.apply(500_000).opacity, fx(0.5));
    assert_eq!(fade.apply(1_000_000).opacity, fx(1.0));
}

#[test]
fn a_stagger_over_a_list_of_three() {
    let stagger = Stagger::new(FadeIn { duration: us(0.5) }).with_delay(us(0.1));
    // For three items the whole takes 0.7s.
    assert_eq!(stagger.clone().with_count(3).duration(), us(0.7));

    let mut m = M::new();
    m.steps(&["a", "b", "c"]);
    m.play(stagger.with_count(3));
    assert_eq!(m.timeline().total_duration(), us(0.7));

    // After 0.35s the first item is further than the last.
    let fs = compute_frame_state(&m, at(0.35));
    let items = &fs.elements[0].items;
    assert!(items[0].opacity > items[2].opacity);
    assert_eq!(items[0].opacity, fx(0.7));
    assert_eq!(items[1].opacity, fx(0.5));
    assert_eq!(items[2].opacity, fx(0.3));
}

#[test]
fn a_stagger_follows_the_list_and_not_its_own_count() {
    // The stagger is configured for one item and played on a list of three:
    // its segment takes 0.5s, and the three items share it.
    let mut m = M::new();
    m.steps(&["a", "b", "c"]);
    m.play(Stagger::new(FadeIn { duration: us(0.5) }).with_delay(us(0.1)));
    assert_eq!(m.timeline().total_duration(), us(0.5));

    // Half way through the segment the whole of 0.7s is half way: 0.35s.
    let fs = compute_frame_state(&m, at(0.25));
    let items = &fs.elements[0].items;
    assert_eq!(items[0].opacity, fx(0.7));
    assert_eq!(items[2].opacity, fx(0.3));
}

#[test]
fn the_showcase_scene_in_numbers() {
    let mut m = M::new();
    WhatIsMoronScene::build(&mut m);
    assert_eq!(m.timeline().total_duration(), us(33.1));
    assert_eq!(m.timeline().segments().len(), 24);
    assert_eq!(m.elements().len(), 11);
    assert_eq!(m.animations().len(), 11);
    assert_eq!(m.timeline().total_frames(), 993);
}
