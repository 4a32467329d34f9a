//! Tests of the scene registry.

use moron::facade::DEFAULT_NARRATION_WPM;
use moron::{
    Direction, Element, ElementKind, FadeIn, FadeUp, ResolveDurationError, Scene, Segment,
    Technique, Theme, Voice, VoiceBackendType, BEAT_DURATION, BREATH_DURATION, M,
};

/// Seconds as microseconds.
fn us(seconds: f64) -> u64 {
    (seconds * 1_000_000.0).round() as u64
}

#[test]
fn construct_m_and_create_elements() {
    let mut m = M::new();

    let e1 = m.title("Hello");
    let e2 = m.show("World");
    let e3 = m.section("Part 1");
    let e4 = m.metric("Revenue", "$1M", Direction::Up);
    let e5 = m.steps(&["one", "two", "three"]);

    // Each call should mint a unique element handle.
    let ids = [e1, e2, e3, e4, e5];
    for (i, a) in ids.iter().enumerate() {
        for (j, b) in ids.iter().enumerate() {
            if i != j {
                assert_ne!(a, b, "elements {i} and {j} must be unique");
            }
        }
    }
}

#[test]
fn scene_trait_is_implementable() {
    struct DemoScene;

    impl Scene for DemoScene {
        fn build(m: &mut M) {
            m.title("Demo");
            m.show("content");
        }
    }

    let mut m = M::new();
    DemoScene::build(&mut m);
}

#[test]
fn direction_enum_variants() {
    // Ensure all variants exist and are distinct.
    assert_ne!(Direction::Up, Direction::Down);
    assert_ne!(Direction::Up, Direction::Neutral);
    assert_ne!(Direction::Down, Direction::Neutral);
}

#[test]
fn default_m() {
    let mut m = M::default();
    assert!(m.elements().is_empty());
    assert_eq!(m.current_theme().name, "moron-dark");
    assert!(matches!(
        m.current_voice().backend_type,
        VoiceBackendType::Kokoro
    ));
    // The first identifier is 0.
    assert_eq!(m.title("first"), Element(0));
}

#[test]
fn theme_and_voice_setters() {
    let mut m = M::new();

    // Change theme
    let mut custom_theme = Theme::default();
    custom_theme.name = "custom".to_string();
    m.theme(custom_theme);
    assert_eq!(m.current_theme().name, "custom");

    // Change voice
    let piper = Voice::piper();
    m.voice(piper);
    assert!(matches!(
        m.current_voice().backend_type,
        VoiceBackendType::Piper
    ));
}

#[test]
fn play_records_animation_segments() {
    let mut m = M::new();
    m.play(FadeIn::default());
    m.play(FadeUp::default());

    assert_eq!(m.timeline().segments().len(), 2);
    let total = m.timeline().total_duration();
    let expected = FadeIn::default().duration() + FadeUp::default().duration();
    assert_eq!(total, expected);
}

#[test]
fn beat_adds_silence() {
    let mut m = M::new();
    m.beat();
    assert_eq!(m.timeline().segments().len(), 1);
    assert_eq!(m.timeline().total_duration(), BEAT_DURATION);
}

#[test]
fn breath_adds_silence() {
    let mut m = M::new();
    m.breath();
    assert_eq!(m.timeline().segments().len(), 1);
    assert_eq!(m.timeline().total_duration(), BREATH_DURATION);
}

#[test]
fn wait_adds_custom_silence() {
    let mut m = M::new();
    m.wait(us(2.5));
    assert_eq!(m.timeline().segments().len(), 1);
    assert_eq!(m.timeline().total_duration(), us(2.5));
}

#[test]
fn narrate_records_narration() {
    let mut m = M::new();
    m.narrate("Hello world");
    assert_eq!(m.timeline().segments().len(), 1);
    // "Hello world" = 2 words, 2 * 60 / 150 = 0.8s
    assert_eq!(m.timeline().total_duration(), us(0.8));
}

#[test]
fn timeline_tracks_cumulative_duration() {
    let mut m = M::new();
    m.narrate("Hello world"); // 0.8s
    m.beat(); // 0.3s
    m.play(FadeIn { duration: us(0.5) }); // 0.5s
    m.breath(); // 0.8s
    m.wait(us(1.0)); // 1.0s

    assert_eq!(m.timeline().segments().len(), 5);
    let expected = us(0.8) + us(0.3) + us(0.5) + us(0.8) + us(1.0);
    assert_eq!(m.timeline().total_duration(), expected);
}

#[test]
fn segments_at_creation_tracked() {
    let mut m = M::new();
    m.title("A"); // 0 segments exist
    m.narrate("first"); // adds segment 0
    m.show("B"); // 1 segment exists
    m.narrate("second"); // adds segment 1
    m.section("C"); // 2 segments exist

    assert_eq!(m.elements()[0].segments_at_creation, 0); // "A"
    assert_eq!(m.elements()[1].segments_at_creation, 1); // "B"
    assert_eq!(m.elements()[2].segments_at_creation, 2); // "C"
}

#[test]
fn narration_count() {
    let mut m = M::new();
    assert_eq!(m.narration_count(), 0);

    m.narrate("one");
    assert_eq!(m.narration_count(), 1);

    m.beat();
    m.narrate("two");
    assert_eq!(m.narration_count(), 2);
}

#[test]
fn resolve_narration_durations() {
    let mut m = M::new();
    // "hello" = 1 word -> 1*60/150 = 0.4s
    m.title("A"); // created_at = 0.0, segments_at = 0
    m.narrate("hello"); // segment 0: WPM est = 0.4
    m.show("B"); // created_at = 0.4, segments_at = 1
    m.narrate("hello"); // segment 1: WPM est = 0.4
    m.section("D"); // created_at = 0.8, segments_at = 2

    // Verify WPM estimates
    assert_eq!(m.elements()[0].created_at, us(0.0));
    assert_eq!(m.elements()[1].created_at, us(0.4));
    assert_eq!(m.elements()[2].created_at, us(0.8));
    assert_eq!(m.timeline().total_duration(), us(0.8));

    // Resolve with actual TTS durations
    m.resolve_narration_durations(&[us(1.0), us(2.0)]).unwrap();

    // After resolution: segment 0 = 1.0, segment 1 = 2.0
    assert_eq!(m.timeline().total_duration(), us(3.0));
    assert_eq!(m.elements()[0].created_at, us(0.0)); // before all segments
    assert_eq!(m.elements()[1].created_at, us(1.0)); // after segment 0
    assert_eq!(m.elements()[2].created_at, us(3.0)); // after segments 0+1
}

#[test]
fn resolve_narration_durations_length_mismatch() {
    let mut m = M::new();
    m.narrate("A");
    m.narrate("B");

    let err = m.resolve_narration_durations(&[us(1.0), us(2.0), us(3.0)]);
    assert_eq!(
        err,
        Err(ResolveDurationError::LengthMismatch {
            expected: 2,
            provided: 3,
        })
    );

    // Also test with too few
    let err = m.resolve_narration_durations(&[us(1.0)]);
    assert_eq!(
        err,
        Err(ResolveDurationError::LengthMismatch {
            expected: 2,
            provided: 1,
        })
    );
}

#[test]
fn resolve_preserves_non_narration_timing() {
    let mut m = M::new();
    m.narrate("word"); // segment 0: WPM = 0.4
    m.wait(us(0.5)); // segment 1: silence 0.5
    m.narrate("word"); // segment 2: WPM = 0.4
    m.title("end"); // created_at = 1.3, segments_at = 3

    m.resolve_narration_durations(&[us(1.0), us(2.0)]).unwrap();

    // Silence should be untouched
    assert_eq!(m.timeline().segments()[1].duration(), us(0.5));
    // Total = 1.0 + 0.5 + 2.0 = 3.5
    assert_eq!(m.timeline().total_duration(), us(3.5));
    // Element after all 3 segments: 1.0 + 0.5 + 2.0 = 3.5
    assert_eq!(m.elements()[0].created_at, us(3.5));
}

#[test]
fn resolve_duration_error_display() {
    let err = ResolveDurationError::LengthMismatch {
        expected: 3,
        provided: 1,
    };
    let msg = err.message();
    assert!(msg.contains("3"));
    assert!(msg.contains("1"));
    assert!(msg.contains("mismatch"));
}

#[test]
fn resolve_with_zero_narrations_succeeds() {
    let mut m = M::new();
    m.wait(us(1.0));
    m.title("A");

    // Empty slice matches zero narrations
    m.resolve_narration_durations(&[]).unwrap();

    // Nothing changed
    assert_eq!(m.timeline().total_duration(), us(1.0));
    assert_eq!(m.elements()[0].created_at, us(1.0));
}

// ---------------------------------------------------------------------------
// Further cases
// ---------------------------------------------------------------------------

#[test]
fn narration_estimate_counts_words() {
    assert_eq!(DEFAULT_NARRATION_WPM, 150);
    assert_eq!(M::estimate_narration("hello world"), Some(us(0.8)));
    assert_eq!(M::estimate_narration("hello"), Some(us(0.4)));
    // Runs of white space of any kind separate words.
    assert_eq!(
        M::estimate_narration("  one\ttwo\n\nthree\u{a0}four  "),
        Some(us(1.6))
    );
    // A text without words still takes the time of one word.
    assert_eq!(M::estimate_narration(""), Some(us(0.4)));
    assert_eq!(M::estimate_narration("   "), Some(us(0.4)));
}

#[test]
fn narration_keeps_its_text() {
    let mut m = M::new();
    m.narrate("Hello world");
    match &m.timeline().segments()[0] {
        Segment::Narration { text, duration } => {
            assert_eq!(text, "Hello world");
            assert_eq!(*duration, us(0.8));
        }
        other => panic!("expected a narration, got {other:?}"),
    }
}

#[test]
fn identifiers_count_up_from_zero() {
    let mut m = M::new();
    assert_eq!(m.title("a"), Element(0));
    assert_eq!(m.show("b"), Element(1));
    m.clear();
    assert_eq!(m.section("c"), Element(2));
    for (i, record) in m.elements().iter().enumerate() {
        assert_eq!(record.id, i as u64);
    }
}

#[test]
fn metric_and_steps_records() {
    let mut m = M::new();
    m.metric("Growth", "+24%", Direction::Neutral);
    m.metric("Cost", "-3%", Direction::Down);
    m.steps(&["one", "two", "three"]);
    m.steps(&[]);
    let records = m.elements();
    assert_eq!(records[0].content, "Growth: +24%");
    assert_eq!(
        records[0].kind,
        ElementKind::Metric {
            direction: "neutral".to_string()
        }
    );
    assert_eq!(
        records[1].kind,
        ElementKind::Metric {
            direction: "down".to_string()
        }
    );
    assert_eq!(records[2].content, "one, two, three");
    assert_eq!(records[2].items, vec!["one", "two", "three"]);
    assert_eq!(records[2].kind, ElementKind::Steps { count: 3 });
    assert_eq!(records[3].content, "");
    assert_eq!(records[3].kind, ElementKind::Steps { count: 0 });
}

#[test]
fn clear_ends_what_has_no_end_yet() {
    let mut m = M::new();
    m.title("a");
    m.wait(us(1.0));
    m.clear();
    m.show("b");
    m.wait(us(0.5));
    m.clear();
    m.show("c");

    let records = m.elements();
    assert_eq!(records[0].ended_at, Some(us(1.0)));
    assert_eq!(records[0].segments_at_end, Some(1));
    // The second clear leaves the first element as it was.
    assert_eq!(records[1].created_at, us(1.0));
    assert_eq!(records[1].ended_at, Some(us(1.5)));
    assert_eq!(records[1].segments_at_end, Some(2));
    assert_eq!(records[2].ended_at, None);
    assert_eq!(records[2].segments_at_end, None);
}

#[test]
fn play_binds_the_last_element() {
    let mut m = M::new();
    m.play(FadeIn::default()); // nothing to bind
    m.title("a");
    m.show("b");
    m.wait(us(1.0));
    m.play(FadeUp::default());

    let bindings = m.animations();
    assert_eq!(bindings.len(), 2);
    assert!(bindings[0].target_ids.is_empty());
    assert_eq!(bindings[0].segment_index, 0);
    assert_eq!(bindings[1].target_ids, vec![1]);
    assert_eq!(bindings[1].segment_index, 2);
    assert_eq!(bindings[1].technique.name(), "FadeUp");
    match &m.timeline().segments()[2] {
        Segment::Animation { name, duration } => {
            assert_eq!(name, "FadeUp");
            assert_eq!(*duration, us(0.6));
        }
        other => panic!("expected an animation, got {other:?}"),
    }
}

#[test]
fn resolve_retimes_ends_as_well() {
    let mut m = M::new();
    m.title("a");
    m.narrate("one two"); // 0.8s
    m.clear(); // the title ends at 0.8
    m.show("b");
    m.narrate("three"); // 0.4s
    m.clear(); // the text ends at 1.2
    assert_eq!(m.elements()[0].ended_at, Some(us(0.8)));
    assert_eq!(m.elements()[1].ended_at, Some(us(1.2)));

    m.resolve_narration_durations(&[us(2.0), us(3.0)]).unwrap();

    assert_eq!(m.elements()[0].created_at, us(0.0));
    assert_eq!(m.elements()[0].ended_at, Some(us(2.0)));
    assert_eq!(m.elements()[1].created_at, us(2.0));
    assert_eq!(m.elements()[1].ended_at, Some(us(5.0)));
    assert_eq!(m.timeline().total_duration(), us(5.0));
}

#[test]
fn a_mismatch_changes_nothing() {
    let mut m = M::new();
    m.narrate("one two"); // 0.8s
    m.title("a");
    m.narrate("three"); // 0.4s
    m.show("b");
    m.clear();

    let err = m.resolve_narration_durations(&[us(1.0), us(2.0), us(3.0)]);
    assert_eq!(
        err,
        Err(ResolveDurationError::LengthMismatch {
            expected: 2,
            provided: 3,
        })
    );
    assert_eq!(
        err.unwrap_err().message(),
        "narration duration count mismatch: expected 2, got 3"
    );
    assert_eq!(m.timeline().segments()[0].duration(), us(0.8));
    assert_eq!(m.timeline().segments()[1].duration(), us(0.4));
    assert_eq!(m.elements()[0].created_at, us(0.8));
    assert_eq!(m.elements()[1].created_at, us(1.2));
    assert_eq!(m.elements()[1].ended_at, Some(us(1.2)));
}

#[test]
fn resolving_without_a_bound_to_meet() {
    let mut m = M::new();
    m.title("a");
    m.narrate("one"); // 0.4s
    m.beat(); // 0.3s
    m.show("b");

    // A mismatch is told as ever.
    assert_eq!(
        m.try_resolve_narration_durations(&[]),
        Some(Err(ResolveDurationError::LengthMismatch {
            expected: 1,
            provided: 0,
        }))
    );
    // Durations that make the timeline too long, by one microsecond here, are
    // not taken, and nothing changes.
    let longest = moron::units::MAX_TIME - us(0.3);
    assert!(!m.timeline().fits_narrations(&[longest + 1]));
    assert_eq!(m.try_resolve_narration_durations(&[longest + 1]), None);
    assert_eq!(m.timeline().total_duration(), us(0.7));
    assert_eq!(m.elements()[1].created_at, us(0.7));
    // A mismatch counts before the length.
    assert_eq!(
        m.try_resolve_narration_durations(&[u64::MAX, u64::MAX]),
        Some(Err(ResolveDurationError::LengthMismatch {
            expected: 1,
            provided: 2,
        }))
    );
    // Durations that fit are taken.
    assert!(m.timeline().fits_narrations(&[longest]));
    assert_eq!(m.try_resolve_narration_durations(&[us(2.0)]), Some(Ok(())));
    assert_eq!(m.timeline().total_duration(), us(2.3));
    assert_eq!(m.elements()[1].created_at, us(2.3));
    assert_eq!(m.try_resolve_narration_durations(&[longest]), Some(Ok(())));
    assert_eq!(m.timeline().total_duration(), moron::units::MAX_TIME);
}
