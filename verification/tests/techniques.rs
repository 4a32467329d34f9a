//! Tests of the techniques, the easing curves and their combinations.

use moron::{
    ease, CountUp, Ease, FadeIn, FadeUp, Scale, Slide, Stagger, Technique, TechniqueExt,
    TechniqueOutput,
};

/// Seconds as microseconds.
fn us(seconds: f64) -> u64 {
    (seconds * 1_000_000.0).round() as u64
}

/// A ratio or a number of pixels as millionths.
fn fx(value: f64) -> i64 {
    (value * 1_000_000.0).round() as i64
}

/// A progress as millionths.
fn p(value: f64) -> u64 {
    (value * 1_000_000.0).round() as u64
}

#[test]
fn technique_composition_type_checks() {
    let fade_up = FadeUp::default();
    let eased = fade_up.with_ease(Ease::OutBack);
    let stagger = Stagger::new(eased);

    assert_eq!(stagger.name(), "Stagger");
    assert_eq!(stagger.inner.name(), "FadeUp");
    assert_eq!(stagger.inner.ease, Ease::OutBack);
}

#[test]
fn with_ease_preserves_duration() {
    let slide = Slide::default();
    let original_duration = slide.duration();
    let eased = slide.with_ease(Ease::EaseInOut);
    assert_eq!(eased.duration(), original_duration);
}

#[test]
fn stagger_calculates_total_duration() {
    let fade_in = FadeIn { duration: us(1.0) };
    let stagger = Stagger::new(fade_in).with_delay(us(0.2)).with_count(5);
    assert_eq!(stagger.duration(), us(1.8));
}

#[test]
fn all_techniques_have_names() {
    assert_eq!(FadeIn::default().name(), "FadeIn");
    assert_eq!(FadeUp::default().name(), "FadeUp");
    assert_eq!(Slide::default().name(), "Slide");
    assert_eq!(Scale::default().name(), "Scale");
    assert_eq!(CountUp::default().name(), "CountUp");
}

#[test]
fn fade_in_at_start_and_end() {
    let fi = FadeIn::default();
    let start = fi.apply(p(0.0));
    let end = fi.apply(p(1.0));
    assert_eq!(start.opacity, fx(0.0));
    assert_eq!(end.opacity, fx(1.0));
    assert_eq!(end.scale, fx(1.0));
}

#[test]
fn fade_up_opacity_and_translation() {
    let fu = FadeUp::default(); // distance = 30.0
    let start = fu.apply(p(0.0));
    let mid = fu.apply(p(0.5));
    let end = fu.apply(p(1.0));

    assert_eq!(start.opacity, fx(0.0));
    assert_eq!(start.translate_y, fx(30.0));

    assert_eq!(mid.opacity, fx(0.5));
    assert_eq!(mid.translate_y, fx(15.0));

    assert_eq!(end.opacity, fx(1.0));
    assert_eq!(end.translate_y, fx(0.0));
}

#[test]
fn slide_translation() {
    let s = Slide::default(); // offset_x = 100.0
    let start = s.apply(p(0.0));
    let end = s.apply(p(1.0));

    assert_eq!(start.translate_x, fx(100.0));
    assert_eq!(end.translate_x, fx(0.0));
    assert_eq!(start.opacity, fx(1.0)); // opacity stays 1
}

#[test]
fn scale_interpolation() {
    let s = Scale::default(); // from=0.0, to=1.0
    assert_eq!(s.apply(p(0.0)).scale, fx(0.0));
    assert_eq!(s.apply(p(0.5)).scale, fx(0.5));
    assert_eq!(s.apply(p(1.0)).scale, fx(1.0));
}

#[test]
fn count_up_value() {
    let cu = CountUp {
        duration: us(1.0),
        from: fx(10.0),
        to: fx(50.0),
    };
    assert_eq!(cu.current_value(p(0.0)), fx(10.0));
    assert_eq!(cu.current_value(p(0.5)), fx(30.0));
    assert_eq!(cu.current_value(p(1.0)), fx(50.0));
}

#[test]
fn stagger_delegates_to_inner() {
    let fi = FadeIn { duration: us(0.5) };
    let stagger = Stagger::new(fi).with_count(3).with_delay(us(0.1));
    // At progress 0, first item should be at start
    let start = stagger.apply(p(0.0));
    assert_eq!(start.opacity, fx(0.0));
}

#[test]
fn easing_linear_identity() {
    for i in 0..=10 {
        let t = i as f64 / 10.0;
        assert_eq!(ease(Ease::Linear, p(t)), p(t));
    }
}

#[test]
fn easing_curves_boundaries() {
    // All curves should map 0→~0 and 1→~1
    let curves = [
        Ease::Linear,
        Ease::EaseIn,
        Ease::EaseOut,
        Ease::EaseInOut,
        Ease::OutBack,
        Ease::OutBounce,
        Ease::Spring,
    ];
    for curve in curves {
        let at_0 = ease(curve, p(0.0)) as f64 / 1_000_000.0;
        let at_1 = ease(curve, p(1.0)) as f64 / 1_000_000.0;
        assert!(at_0.abs() < 0.01, "{curve:?} at 0.0 = {at_0} (expected ~0)");
        assert!(
            (at_1 - 1.0).abs() < 0.01,
            "{curve:?} at 1.0 = {at_1} (expected ~1)"
        );
    }
}

#[test]
fn with_ease_remaps_progress() {
    let fi = FadeIn { duration: us(0.5) };
    let eased = fi.with_ease(Ease::EaseIn);

    // EaseIn at 0.5 = 0.25 (t^2), so opacity should be 0.25
    let mid = eased.apply(p(0.5));
    assert_eq!(mid.opacity, fx(0.25));
}

#[test]
fn outback_overshoots() {
    // OutBack should overshoot 1.0 somewhere in the middle
    let mid = ease(Ease::OutBack, p(0.5));
    assert!(mid > p(1.0), "OutBack at 0.5 should overshoot: {mid}");
}

#[test]
fn stagger_fade_up_with_easing() {
    let fade_up = FadeUp::default(); // duration 0.6, distance 30.0
    let eased = fade_up.with_ease(Ease::OutBack);
    let stagger = Stagger::new(eased).with_count(3).with_delay(us(0.1));

    assert_eq!(stagger.name(), "Stagger");

    // Total duration: 0.6 + 0.1 * 2 = 0.8
    assert_eq!(stagger.duration(), us(0.8));

    // At progress 0, inner technique hasn't started — output is at start state
    let start = stagger.apply(p(0.0));
    assert!(
        start.opacity < fx(0.01),
        "opacity at start should be near 0, got {}",
        start.opacity
    );
    assert!(
        start.translate_y > fx(29.0),
        "translate_y at start should be near 30, got {}",
        start.translate_y
    );

    // At progress 1, first item should be complete — OutBack settles to ~1.0
    let end = stagger.apply(p(1.0));
    assert!(
        (end.opacity - fx(1.0)).abs() < fx(0.05),
        "opacity at end should be near 1.0, got {}",
        end.opacity
    );
    assert!(
        end.translate_y.abs() < fx(1.5),
        "translate_y at end should be near 0, got {}",
        end.translate_y
    );
}

#[test]
fn eased_slide_midpoint() {
    let slide = Slide::default(); // offset_x = 100.0
    let eased = slide.with_ease(Ease::EaseIn);

    // EaseIn at 0.5 = 0.25 (t^2), so translate_x should be 100 * (1 - 0.25) = 75
    let mid = eased.apply(p(0.5));
    assert_eq!(mid.translate_x, fx(75.0));

    // At start, full offset
    let start = eased.apply(p(0.0));
    assert_eq!(start.translate_x, fx(100.0));

    // At end, no offset
    let end = eased.apply(p(1.0));
    assert_eq!(end.translate_x, fx(0.0));
}

#[test]
fn technique_output_identity() {
    let identity = TechniqueOutput::default();
    assert_eq!(identity.opacity, fx(1.0));
    assert_eq!(identity.translate_x, fx(0.0));
    assert_eq!(identity.translate_y, fx(0.0));
    assert_eq!(identity.scale, fx(1.0));
    assert_eq!(identity.rotation, fx(0.0));
}

// ---------------------------------------------------------------------------
// Further cases
// ---------------------------------------------------------------------------

#[test]
fn easing_curves_at_chosen_points() {
    // EaseIn: t^2
    assert_eq!(ease(Ease::EaseIn, p(0.3)), p(0.09));
    // EaseOut: 1 - (1 - t)^2
    assert_eq!(ease(Ease::EaseOut, p(0.3)), p(0.51));
    // EaseInOut: 2 t^2 below one half, 1 - (2 - 2t)^2 / 2 above
    assert_eq!(ease(Ease::EaseInOut, p(0.25)), p(0.125));
    assert_eq!(ease(Ease::EaseInOut, p(0.5)), p(0.5));
    assert_eq!(ease(Ease::EaseInOut, p(0.75)), p(0.875));
    // OutBack at one half: 1 + 0.25 * (1.70158 - 1.35079) = 1.0876975
    assert_eq!(ease(Ease::OutBack, p(0.5)), 1_087_697);
    // OutBounce: 7.5625 t^2 on the first piece, and the later pieces
    assert_eq!(ease(Ease::OutBounce, p(0.2)), p(0.3025));
    assert_eq!(ease(Ease::OutBounce, p(0.5)), p(0.765625));
    assert_eq!(ease(Ease::OutBounce, p(0.8)), 940_000);
    assert_eq!(ease(Ease::OutBounce, p(0.95)), 984_531);
    // Spring passes one at a quarter and at three quarters, where the cosine
    // is zero.
    assert_eq!(ease(Ease::Spring, p(0.25)), p(1.0));
    assert_eq!(ease(Ease::Spring, p(0.75)), p(1.0));
    assert_eq!(ease(Ease::Spring, p(1.0)), 997_521);
}

#[test]
fn spring_follows_the_damped_oscillation() {
    for i in 0..=200 {
        let t = i as f64 / 200.0;
        let exact = 1.0 - (-6.0 * t).exp() * (2.0 * std::f64::consts::PI * t).cos();
        let got = ease(Ease::Spring, p(t)) as f64 / 1_000_000.0;
        assert!((got - exact).abs() < 0.001, "spring at {t}: {got} against {exact}");
    }
}

#[test]
fn easing_counts_progress_above_one_as_one() {
    for curve in [Ease::Linear, Ease::EaseIn, Ease::OutBack, Ease::Spring] {
        assert_eq!(ease(curve, p(1.5)), ease(curve, p(1.0)));
    }
}

#[test]
fn techniques_clamp_progress_above_one() {
    assert_eq!(FadeIn::default().apply(p(2.0)).opacity, fx(1.0));
    assert_eq!(FadeUp::default().apply(p(2.0)).translate_y, 0);
    assert_eq!(Scale::default().apply(p(7.0)).scale, fx(1.0));
}

#[test]
fn slide_with_a_negative_offset() {
    let s = Slide {
        duration: us(0.5),
        offset_x: fx(-200.0),
        offset_y: fx(40.0),
    };
    let quarter = s.apply(p(0.25));
    assert_eq!(quarter.translate_x, fx(-150.0));
    assert_eq!(quarter.translate_y, fx(30.0));
    // Shares are rounded toward zero on both sides.
    let tiny = Slide {
        duration: 1,
        offset_x: -3,
        offset_y: 3,
    };
    assert_eq!(tiny.apply(p(0.5)).translate_x, -1);
    assert_eq!(tiny.apply(p(0.5)).translate_y, 1);
}

#[test]
fn stagger_duration_for_one_item_and_for_none() {
    let one = Stagger::new(FadeIn { duration: us(0.5) }).with_delay(us(0.2));
    assert_eq!(one.duration(), us(0.5));
    let none = Stagger::new(FadeIn { duration: us(0.5) })
        .with_delay(us(0.2))
        .with_count(0);
    assert_eq!(none.duration(), us(0.5));
    let four = Stagger::new(FadeIn { duration: us(0.5) })
        .with_delay(us(0.2))
        .with_count(4);
    assert_eq!(four.duration(), us(1.1));
}

#[test]
fn stagger_items_run_one_after_the_other() {
    // Inner 0.5s, delay 0.1s, three items: 0.7s in all.
    let stagger = Stagger::new(FadeIn { duration: us(0.5) }).with_delay(us(0.1));
    // At 0.35s, which is half of the whole, item 0 has run 0.35s of its 0.5s,
    // item 1 0.25s and item 2 0.15s.
    let out = stagger.apply_items(3, p(0.5));
    assert_eq!(out.len(), 3);
    assert_eq!(out[0].opacity, fx(0.7));
    assert_eq!(out[1].opacity, fx(0.5));
    assert_eq!(out[2].opacity, fx(0.3));
    assert!(out[0].opacity > out[2].opacity);
    // The same by item.
    assert_eq!(stagger.apply_item_for_count(1, 3, p(0.5)).opacity, fx(0.5));
    // Before its start an item is at the start, after its end at the end.
    let early = stagger.apply_items(3, p(0.1));
    assert_eq!(early[2].opacity, 0);
    let late = stagger.apply_items(3, p(1.0));
    assert_eq!(late[0].opacity, fx(1.0));
    assert_eq!(late[2].opacity, fx(1.0));
}

#[test]
fn stagger_without_duration_is_complete() {
    let stagger = Stagger::new(FadeIn { duration: 0 }).with_delay(0).with_count(3);
    assert_eq!(stagger.duration(), 0);
    assert_eq!(stagger.apply(p(0.0)).opacity, fx(1.0));
    assert_eq!(stagger.apply_item(2, p(0.0)).opacity, fx(1.0));
}

#[test]
fn plain_techniques_give_every_item_the_same_output() {
    let out = FadeIn::default().apply_items(4, p(0.25));
    assert_eq!(out.len(), 4);
    for item in out {
        assert_eq!(item.opacity, fx(0.25));
    }
    let eased = FadeIn::default()
        .with_ease(Ease::EaseIn)
        .apply_items(2, p(0.5));
    assert_eq!(eased.len(), 2);
    assert_eq!(eased[1].opacity, fx(0.25));
}

#[test]
fn stagger_compares_the_progress_as_it_comes() {
    // An inner technique without duration, three items 0.1s apart: the whole
    // takes 0.2s and the last item starts at its end. A progress above one
    // lies past that start, so the item is complete.
    let stagger = Stagger::new(FadeIn { duration: 0 }).with_delay(us(0.1));
    assert_eq!(stagger.apply_item_for_count(2, 3, 1_087_700).opacity, fx(1.0));
    // At one exactly the last item is at its start.
    assert_eq!(stagger.apply_item_for_count(2, 3, p(1.0)).opacity, fx(0.0));
    assert_eq!(stagger.apply_item_for_count(1, 3, p(1.0)).opacity, fx(1.0));

    // An overshooting curve hands on a progress above one: OutBack at 0.6 is
    // 1.099351.
    assert_eq!(ease(Ease::OutBack, p(0.6)), 1_099_351);
    let eased = Stagger::new(FadeIn { duration: 0 })
        .with_delay(us(0.1))
        .with_count(3)
        .with_ease(Ease::OutBack);
    let out = eased.apply_items(3, p(0.6));
    assert_eq!(out.len(), 3);
    for item in out {
        assert_eq!(item.opacity, fx(1.0));
    }

    // An item beyond the list, at a progress above one: inner 0.5s, delay
    // 0.1s, two items, so 0.6s in all. At 1.05 of the whole 0.63s have
    // passed, and item 5, which starts at 0.5s, has run 0.13s of its 0.5s.
    let stagger = Stagger::new(FadeIn { duration: us(0.5) }).with_delay(us(0.1));
    assert_eq!(stagger.apply_item_for_count(5, 2, p(1.05)).opacity, fx(0.26));
    // A very large progress is past every run.
    assert_eq!(stagger.apply_item_for_count(5, 2, u64::MAX).opacity, fx(1.0));
    assert_eq!(stagger.apply_item_for_count(0, 2, u64::MAX).opacity, fx(1.0));
}

#[test]
fn stagger_duration_for_a_given_count() {
    let stagger = Stagger::new(FadeIn { duration: us(0.5) })
        .with_delay(us(0.1))
        .with_count(7);
    // The count that is handed in counts, not the one of the stagger.
    assert_eq!(stagger.duration_for_count(3), Some(us(0.7)));
    assert_eq!(stagger.duration_for_count(1), Some(us(0.5)));
    assert_eq!(stagger.duration_for_count(0), Some(us(0.5)));
    assert_eq!(stagger.duration_for_count(7), Some(stagger.duration()));
    let endless = Stagger::new(FadeIn { duration: 1 }).with_delay(u64::MAX);
    assert_eq!(endless.duration_for_count(2), None);
    assert_eq!(
        Stagger::new(FadeIn { duration: 0 })
            .with_delay(u64::MAX)
            .duration_for_count(2),
        Some(u64::MAX)
    );
}
