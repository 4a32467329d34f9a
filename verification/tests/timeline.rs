//! Tests of the timeline: durations, frame mapping and range queries.

use moron::timeline::{Segment, Timeline, TimelineBuilder, DEFAULT_FPS};

/// Seconds as microseconds.
fn us(seconds: f64) -> u64 {
    (seconds * 1_000_000.0).round() as u64
}

/// An instant in seconds as signed microseconds.
fn at(seconds: f64) -> i64 {
    (seconds * 1_000_000.0).round() as i64
}

#[test]
fn empty_timeline_has_zero_duration() {
    let tl = Timeline::default();
    assert_eq!(tl.total_duration(), us(0.0));
    assert_eq!(tl.total_frames(), 0);
    assert_eq!(tl.frame_at(at(0.0)), 0);
    assert_eq!(tl.frame_at(at(5.0)), 0);
}

#[test]
fn add_segments_and_check_duration() {
    let mut tl = Timeline::new(30);
    tl.add_segment(Segment::Narration {
        text: "Hello".into(),
        duration: us(2.0),
    });
    tl.add_segment(Segment::Silence { duration: us(0.5) });
    tl.add_segment(Segment::Animation {
        name: "FadeIn".into(),
        duration: us(1.0),
    });

    assert_eq!(tl.total_duration(), us(3.5));
    assert_eq!(tl.segments().len(), 3);
}

#[test]
fn frame_at_basic_mapping() {
    let tl = TimelineBuilder::new()
        .fps(30)
        .narration("Test", us(2.0))
        .silence(us(1.0))
        .build();

    // 3.0s at 30fps = 90 frames (0..89)
    assert_eq!(tl.frame_at(at(0.0)), 0);
    assert_eq!(tl.frame_at(at(1.0)), 30);
    assert_eq!(tl.frame_at(at(2.0)), 60);
    assert_eq!(tl.frame_at(at(2.5)), 75);
}

#[test]
fn frame_at_60fps() {
    let tl = TimelineBuilder::new()
        .fps(60)
        .animation("FadeUp", us(1.0))
        .build();

    assert_eq!(tl.frame_at(at(0.0)), 0);
    assert_eq!(tl.frame_at(at(0.5)), 30);
    assert_eq!(tl.frame_at(at(1.0)), 59); // clamped to last frame
}

#[test]
fn frame_at_clamps_out_of_range() {
    let tl = TimelineBuilder::new().fps(30).silence(us(1.0)).build();

    // 1.0s at 30fps = 30 frames (0..29)
    assert_eq!(tl.frame_at(at(-1.0)), 0);
    assert_eq!(tl.frame_at(at(100.0)), 29);
}

#[test]
fn segments_in_range_overlap() {
    let tl = TimelineBuilder::new()
        .fps(30)
        .narration("Hello", us(2.0)) // [0.0, 2.0)
        .silence(us(0.5)) // [2.0, 2.5)
        .animation("FadeIn", us(1.0)) // [2.5, 3.5)
        .build();

    // Query [1.5, 2.5) should hit narration and silence
    let hits = tl.segments_in_range(at(1.5), at(2.5));
    assert_eq!(hits.len(), 2);
    assert_eq!(hits[0].0, us(0.0)); // narration starts at 0
    assert_eq!(hits[1].0, us(2.0)); // silence starts at 2

    // Query [0.0, 0.1) should hit only narration
    let hits = tl.segments_in_range(at(0.0), at(0.1));
    assert_eq!(hits.len(), 1);

    // Query [10.0, 20.0) should hit nothing
    let hits = tl.segments_in_range(at(10.0), at(20.0));
    assert_eq!(hits.len(), 0);
}

#[test]
fn builder_produces_correct_timeline() {
    let tl = TimelineBuilder::new()
        .fps(60)
        .narration("Intro", us(3.0))
        .silence(us(0.3))
        .animation("FadeUp", us(0.5))
        .clip("/tmp/clip.mp4", us(5.0))
        .build();

    assert_eq!(tl.fps(), 60);
    assert_eq!(tl.segments().len(), 4);
    assert_eq!(tl.total_duration(), us(8.8));
}

#[test]
fn builder_default_fps() {
    let tl = TimelineBuilder::new().build();
    assert_eq!(tl.fps(), DEFAULT_FPS);
    assert_eq!(tl.fps(), 30);
}

#[test]
fn segment_duration_method() {
    let narr = Segment::Narration {
        text: "Hi".into(),
        duration: us(1.5),
    };
    let anim = Segment::Animation {
        name: "Slide".into(),
        duration: us(0.8),
    };
    let sil = Segment::Silence { duration: us(0.3) };
    let clip = Segment::Clip {
        path: "/tmp/a.wav".into(),
        duration: us(4.2),
    };

    assert_eq!(narr.duration(), us(1.5));
    assert_eq!(anim.duration(), us(0.8));
    assert_eq!(sil.duration(), us(0.3));
    assert_eq!(clip.duration(), us(4.2));
}

#[test]
fn total_frames_rounding() {
    // 1.0s at 30fps should give exactly 30 frames
    let tl = TimelineBuilder::new().fps(30).silence(us(1.0)).build();
    assert_eq!(tl.total_frames(), 30);

    // 0.1s at 30fps = 3.0 frames -> ceil -> 3
    let tl = TimelineBuilder::new().fps(30).silence(us(0.1)).build();
    assert_eq!(tl.total_frames(), 3);
}

#[test]
fn update_segment_duration() {
    let mut tl = Timeline::new(30);
    tl.add_segment(Segment::Narration {
        text: "Hi".into(),
        duration: us(1.0),
    });
    tl.add_segment(Segment::Silence { duration: us(0.5) });
    tl.add_segment(Segment::Narration {
        text: "Bye".into(),
        duration: us(1.0),
    });

    // Total starts at 2.5
    assert_eq!(tl.total_duration(), us(2.5));

    // Update middle segment (silence) from 0.5 to 1.5
    assert!(tl.update_segment_duration(1, us(1.5)));
    assert_eq!(tl.total_duration(), us(3.5));

    // Update first narration from 1.0 to 2.0
    assert!(tl.update_segment_duration(0, us(2.0)));
    assert_eq!(tl.total_duration(), us(4.5));
}

#[test]
fn update_segment_duration_out_of_bounds() {
    let mut tl = Timeline::new(30);
    tl.add_segment(Segment::Silence { duration: us(1.0) });

    assert!(!tl.update_segment_duration(5, us(2.0)));
    // Timeline unchanged
    assert_eq!(tl.total_duration(), us(1.0));
}

#[test]
fn narration_indices_mixed() {
    let mut tl = Timeline::new(30);
    tl.add_segment(Segment::Narration {
        text: "A".into(),
        duration: us(1.0),
    }); // index 0
    tl.add_segment(Segment::Silence { duration: us(0.5) }); // index 1
    tl.add_segment(Segment::Narration {
        text: "B".into(),
        duration: us(1.0),
    }); // index 2
    tl.add_segment(Segment::Animation {
        name: "FadeIn".into(),
        duration: us(0.5),
    }); // index 3

    assert_eq!(tl.narration_indices(), vec![0, 2]);
}

#[test]
fn narration_indices_empty() {
    let mut tl = Timeline::new(30);
    tl.add_segment(Segment::Silence { duration: us(1.0) });
    tl.add_segment(Segment::Animation {
        name: "FadeIn".into(),
        duration: us(0.5),
    });

    assert!(tl.narration_indices().is_empty());
}

// ---------------------------------------------------------------------------
// Further cases
// ---------------------------------------------------------------------------

#[test]
fn total_frames_is_the_ceiling_of_duration_times_rate() {
    // 1.01s at 30fps = 30.3 frames -> 31
    let tl = TimelineBuilder::new().fps(30).silence(us(1.01)).build();
    assert_eq!(tl.total_frames(), 31);
    // One microsecond still needs a frame.
    let tl = TimelineBuilder::new().fps(30).silence(1).build();
    assert_eq!(tl.total_frames(), 1);
    // No frame rate, no frames.
    let tl = TimelineBuilder::new().fps(0).silence(us(1.0)).build();
    assert_eq!(tl.total_frames(), 0);
    assert_eq!(tl.frame_at(at(0.5)), 0);
}

#[test]
fn total_frames_is_held_to_what_a_u32_counts() {
    let tl = TimelineBuilder::new()
        .fps(u32::MAX)
        .silence(us(3600.0))
        .build();
    assert_eq!(tl.total_frames(), u32::MAX);
    assert_eq!(tl.frame_at(at(3600.0)), u32::MAX - 1);
}

#[test]
fn frame_at_never_decreases() {
    let tl = TimelineBuilder::new()
        .fps(24)
        .narration("a", us(1.3))
        .silence(us(0.7))
        .build();
    let frames = tl.total_frames();
    let mut last = 0;
    let mut t: i64 = -500_000;
    while t < 3_000_000 {
        let frame = tl.frame_at(t);
        assert!(frame >= last);
        assert!(frame < frames);
        last = frame;
        t += 12_345;
    }
    assert_eq!(last, frames - 1);
}

#[test]
fn segments_in_range_holds_the_overlapping_segments() {
    let tl = TimelineBuilder::new()
        .narration("a", us(1.0)) // [0, 1)
        .silence(us(1.0)) // [1, 2)
        .animation("b", us(1.0)) // [2, 3)
        .build();

    // A range that ends where a segment starts leaves that segment out.
    let hits = tl.segments_in_range(at(0.5), at(1.0));
    assert_eq!(hits.len(), 1);
    assert!(matches!(hits[0].1, Segment::Narration { .. }));

    // A range that starts where a segment ends leaves that segment out.
    let hits = tl.segments_in_range(at(1.0), at(1.5));
    assert_eq!(hits.len(), 1);
    assert_eq!(hits[0].0, us(1.0));
    assert!(matches!(hits[0].1, Segment::Silence { .. }));

    // A range over everything holds everything, in order.
    let hits = tl.segments_in_range(at(-1.0), at(10.0));
    assert_eq!(hits.len(), 3);
    assert_eq!(hits[2].0, us(2.0));

    // A range past the end holds nothing.
    assert!(tl.segments_in_range(at(3.0), at(4.0)).is_empty());
}

#[test]
fn retime_narrations_touches_narrations_only() {
    let mut tl = TimelineBuilder::new()
        .narration("a", us(1.0))
        .silence(us(0.5))
        .narration("b", us(1.0))
        .build();
    tl.retime_narrations(&[us(2.0), us(3.0)]);
    assert_eq!(tl.segments()[0].duration(), us(2.0));
    assert_eq!(tl.segments()[1].duration(), us(0.5));
    assert_eq!(tl.segments()[2].duration(), us(3.0));
    assert_eq!(tl.elapsed_before(2), us(2.5));
    assert_eq!(tl.total_duration(), us(5.5));
}

#[test]
fn builder_knows_whether_its_segments_fit() {
    let builder = TimelineBuilder::new().silence(us(1.0));
    assert!(builder.fits());
    let builder = TimelineBuilder::new()
        .silence(u64::MAX / 2)
        .silence(u64::MAX / 2);
    assert!(!builder.fits());
}

#[test]
fn a_segment_without_duration_is_never_found() {
    let tl = TimelineBuilder::new()
        .silence(us(1.0)) // [0, 1)
        .animation("flash", 0) // at 1, without duration
        .silence(us(1.0)) // [1, 2)
        .build();
    // The interval of the middle segment holds no instant.
    let hits = tl.segments_in_range(at(0.5), at(1.5));
    assert_eq!(hits.len(), 2);
    assert_eq!(hits[0].0, us(0.0));
    assert_eq!(hits[0].1.duration(), us(1.0));
    assert_eq!(hits[1].0, us(1.0));
    assert_eq!(hits[1].1.duration(), us(1.0));
    assert!(matches!(hits[1].1, Segment::Silence { .. }));
    assert_eq!(tl.segments_in_range(at(-1.0), at(10.0)).len(), 2);
}

#[test]
fn a_range_without_length_finds_nothing() {
    let tl = TimelineBuilder::new().silence(us(10.0)).build();
    assert!(tl.segments_in_range(at(0.5), at(0.5)).is_empty());
    // A range that ends before it starts holds no instant either.
    assert!(tl.segments_in_range(at(5.0), at(3.0)).is_empty());
    assert_eq!(tl.segments_in_range(at(3.0), at(5.0)).len(), 1);
}

#[test]
fn sums_within_a_limit() {
    assert_eq!(moron::timeline::sum_within(&[], 0), Some(0));
    assert_eq!(moron::timeline::sum_within(&[1, 2, 3], 6), Some(6));
    assert_eq!(moron::timeline::sum_within(&[1, 2, 3], 5), None);
    assert_eq!(moron::timeline::sum_within(&[u64::MAX, u64::MAX], u64::MAX), None);
    assert_eq!(moron::timeline::sum_within(&[u64::MAX, 0], u64::MAX), Some(u64::MAX));
}
