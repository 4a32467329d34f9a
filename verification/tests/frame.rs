//! Tests of the frame state.

use moron::{
    compute_frame_state, Direction, Ease, ElementKind, FadeIn, FadeUp, Slide, Stagger,
    TechniqueExt, Theme, M,
};

/// Seconds as microseconds.
fn us(seconds: f64) -> u64 {
    (seconds * 1_000_000.0).round() as u64
}

/// An instant in seconds as signed microseconds.
fn at(seconds: f64) -> i64 {
    (seconds * 1_000_000.0).round() as i64
}

/// A ratio or a number of pixels as millionths.
fn fx(value: f64) -> i64 {
    (value * 1_000_000.0).round() as i64
}

/// A layout position as millionths.
fn pos(value: f64) -> u64 {
    (value * 1_000_000.0).round() as u64
}

/// The theme of a frame as a JSON value: its name, and its custom properties
/// as an object.
fn theme_json(theme: &moron::ThemeState) -> serde_json::Value {
    let mut properties = serde_json::Map::new();
    for (key, value) in &theme.css_properties {
        properties.insert(key.clone(), serde_json::Value::String(value.clone()));
    }
    let mut object = serde_json::Map::new();
    object.insert(
        "name".to_string(),
        serde_json::Value::String(theme.name.clone()),
    );
    object.insert(
        "cssProperties".to_string(),
        serde_json::Value::Object(properties),
    );
    serde_json::Value::Object(object)
}

/// The value of the custom property `key`.
fn property<'a>(pairs: &'a [(String, String)], key: &str) -> Option<&'a String> {
    pairs.iter().find(|(k, _)| k == key).map(|(_, v)| v)
}

#[test]
fn empty_scene_frame_state() {
    let m = M::new();
    let fs = compute_frame_state(&m, at(0.0));

    assert_eq!(fs.time, us(0.0));
    assert_eq!(fs.frame, 0);
    assert_eq!(fs.total_duration, us(0.0));
    assert_eq!(fs.fps, 30);
    assert!(fs.elements.is_empty());
    assert!(fs.active_narration.is_none());
    assert_eq!(fs.theme.name, "moron-dark");
    assert!(!fs.theme.css_properties.is_empty());
}

#[test]
fn elements_visible_at_creation_time() {
    let mut m = M::new();
    // Elements created at t=0 (before any segments advance the timeline)
    let _e1 = m.title("Hello");
    let _e2 = m.show("World");

    let fs = compute_frame_state(&m, at(0.0));

    assert_eq!(fs.elements.len(), 2);
    assert!(fs.elements[0].visible);
    assert!(fs.elements[1].visible);
    assert_eq!(fs.elements[0].content, "Hello");
    assert_eq!(fs.elements[1].content, "World");
    assert_eq!(fs.elements[0].opacity, fx(1.0));
}

#[test]
fn elements_not_visible_before_creation() {
    let mut m = M::new();
    // Push a narration first
    m.narrate("Some narration here");
    // Then create an element — it will be created after the narration
    let _e1 = m.title("After Narration");

    // At t=0 the element hasn't been created yet
    let fs = compute_frame_state(&m, at(0.0));
    assert_eq!(fs.elements.len(), 1);
    assert!(!fs.elements[0].visible);
    assert_eq!(fs.elements[0].opacity, fx(0.0));

    // At t=3.0 the element should be visible
    let fs = compute_frame_state(&m, at(3.0));
    assert!(fs.elements[0].visible);
    assert_eq!(fs.elements[0].opacity, fx(1.0));
}

#[test]
fn active_narration_during_segment() {
    let mut m = M::new();
    m.narrate("Hello world"); // ~0.8s

    // At t=0.0, narration should be active
    let fs = compute_frame_state(&m, at(0.0));
    assert_eq!(fs.active_narration, Some("Hello world".to_string()));

    // At t=0.4, narration should still be active
    let fs = compute_frame_state(&m, at(0.4));
    assert_eq!(fs.active_narration, Some("Hello world".to_string()));
}

#[test]
fn no_narration_during_silence() {
    let mut m = M::new();
    m.narrate("Hello world"); // ~0.8s
    m.wait(us(2.0)); // silence from 0.8 to 2.8

    // At t=1.5, we're in the silence segment
    let fs = compute_frame_state(&m, at(1.5));
    assert!(fs.active_narration.is_none());
}

#[test]
fn metric_element_preserves_direction() {
    let mut m = M::new();
    m.metric("Revenue", "$1M", Direction::Up);

    let fs = compute_frame_state(&m, at(0.0));
    assert_eq!(fs.elements.len(), 1);
    assert_eq!(
        fs.elements[0].kind,
        ElementKind::Metric {
            direction: "up".to_string()
        }
    );
    assert_eq!(fs.elements[0].content, "Revenue: $1M");
}

#[test]
fn steps_element_preserves_items() {
    let mut m = M::new();
    m.steps(&["one", "two", "three"]);

    let fs = compute_frame_state(&m, at(0.0));
    assert_eq!(fs.elements.len(), 1);
    assert_eq!(fs.elements[0].kind, ElementKind::Steps { count: 3 });
    let item_texts: Vec<&str> = fs.elements[0]
        .items
        .iter()
        .map(|i| i.text.as_str())
        .collect();
    assert_eq!(item_texts, vec!["one", "two", "three"]);
}

#[test]
fn frame_number_computed_correctly() {
    let mut m = M::new();
    m.wait(us(2.0)); // 2 seconds at 30fps = 60 frames (0..59)

    let fs = compute_frame_state(&m, at(1.0));
    assert_eq!(fs.frame, 30); // 1.0s * 30fps = frame 30

    let fs = compute_frame_state(&m, at(0.0));
    assert_eq!(fs.frame, 0);
}

#[test]
fn time_clamped_to_valid_range() {
    let mut m = M::new();
    m.wait(us(1.0));

    // Negative time clamped to 0
    let fs = compute_frame_state(&m, at(-5.0));
    assert_eq!(fs.time, us(0.0));

    // Time beyond duration clamped
    let fs = compute_frame_state(&m, at(100.0));
    assert_eq!(fs.time, us(1.0));
}

#[test]
fn theme_state_contains_css_properties() {
    let m = M::new();
    let fs = compute_frame_state(&m, at(0.0));

    assert_eq!(fs.theme.name, "moron-dark");
    assert!(property(&fs.theme.css_properties, "--moron-bg-primary").is_some());
    assert!(property(&fs.theme.css_properties, "--moron-accent").is_some());
    assert!(fs.theme.css_properties.len() >= 50);
}

#[test]
fn section_element_kind() {
    let mut m = M::new();
    m.section("Part 1");

    let fs = compute_frame_state(&m, at(0.0));
    assert_eq!(fs.elements[0].kind, ElementKind::Section);
    assert_eq!(fs.elements[0].content, "Part 1");
}

#[test]
fn multiple_elements_with_timing() {
    let mut m = M::new();
    m.title("Intro"); // created at t=0
    m.wait(us(1.0));
    m.show("Detail"); // created at t=1.0
    m.wait(us(1.0));
    m.section("Part 2"); // created at t=2.0

    // At t=0.5: only Intro visible
    let fs = compute_frame_state(&m, at(0.5));
    let visible: Vec<_> = fs.elements.iter().filter(|e| e.visible).collect();
    assert_eq!(visible.len(), 1);
    assert_eq!(visible[0].content, "Intro");

    // At t=1.5: Intro and Detail visible
    let fs = compute_frame_state(&m, at(1.5));
    let visible: Vec<_> = fs.elements.iter().filter(|e| e.visible).collect();
    assert_eq!(visible.len(), 2);

    // At t=2.5: all three visible
    let fs = compute_frame_state(&m, at(2.5));
    let visible: Vec<_> = fs.elements.iter().filter(|e| e.visible).collect();
    assert_eq!(visible.len(), 3);
}

#[test]
fn two_themes_produce_different_frame_state() {
    // Dark theme (default)
    let m_dark = M::new();
    let fs_dark = compute_frame_state(&m_dark, at(0.0));

    // Light theme
    let mut m_light = M::new();
    m_light.theme(Theme::light());
    let fs_light = compute_frame_state(&m_light, at(0.0));

    // Theme names must differ.
    assert_eq!(fs_dark.theme.name, "moron-dark");
    assert_eq!(fs_light.theme.name, "moron-light");
    assert_ne!(fs_dark.theme.name, fs_light.theme.name);

    // Both must have all 56 CSS properties.
    assert_eq!(fs_dark.theme.css_properties.len(), 56);
    assert_eq!(fs_light.theme.css_properties.len(), 56);

    // At least the background and foreground colors must differ.
    assert_ne!(
        property(&fs_dark.theme.css_properties, "--moron-bg-primary"),
        property(&fs_light.theme.css_properties, "--moron-bg-primary"),
        "bg-primary must differ between dark and light themes"
    );
    assert_ne!(
        property(&fs_dark.theme.css_properties, "--moron-fg-primary"),
        property(&fs_light.theme.css_properties, "--moron-fg-primary"),
        "fg-primary must differ between dark and light themes"
    );

    // The full ThemeState structs must differ.
    assert_ne!(fs_dark.theme, fs_light.theme);

    // JSON output must differ.
    let json_dark = serde_json::to_string(&theme_json(&fs_dark.theme)).unwrap();
    let json_light = serde_json::to_string(&theme_json(&fs_light.theme)).unwrap();
    assert_ne!(
        json_dark, json_light,
        "Theme JSON must differ between dark and light"
    );
}

// -- Layout tests ------------------------------------------------------

#[test]
fn layout_single_element_centered() {
    let mut m = M::new();
    m.title("Solo Title");

    let fs = compute_frame_state(&m, at(0.0));
    assert_eq!(fs.elements[0].layout_y, pos(0.5));
}

#[test]
fn layout_title_plus_show() {
    let mut m = M::new();
    m.title("Heading");
    m.show("Body text");

    let fs = compute_frame_state(&m, at(0.0));
    let title = fs
        .elements
        .iter()
        .find(|e| e.content == "Heading")
        .unwrap();
    let show = fs
        .elements
        .iter()
        .find(|e| e.content == "Body text")
        .unwrap();

    // Title (header) should be above Show (body).
    assert_eq!(title.layout_y, pos(0.3), "title layout_y: {}", title.layout_y);
    assert_eq!(show.layout_y, pos(0.65), "show layout_y: {}", show.layout_y);
}

#[test]
fn layout_section_plus_steps() {
    let mut m = M::new();
    m.section("Features");
    m.steps(&["fast", "offline", "simple"]);

    let fs = compute_frame_state(&m, at(0.0));
    let section = fs
        .elements
        .iter()
        .find(|e| e.content == "Features")
        .unwrap();
    let steps = fs
        .elements
        .iter()
        .find(|e| e.kind == ElementKind::Steps { count: 3 })
        .unwrap();

    assert_eq!(section.layout_y, pos(0.3));
    assert_eq!(steps.layout_y, pos(0.65));
}

#[test]
fn layout_three_elements() {
    let mut m = M::new();
    m.section("Intro");
    m.show("Detail");
    m.steps(&["a", "b"]);

    let fs = compute_frame_state(&m, at(0.0));
    let section = fs.elements.iter().find(|e| e.content == "Intro").unwrap();
    let show = fs.elements.iter().find(|e| e.content == "Detail").unwrap();
    let steps = fs
        .elements
        .iter()
        .find(|e| e.kind == ElementKind::Steps { count: 2 })
        .unwrap();

    // Header first, then two bodies. 3 elements: 0.2, 0.5, 0.8.
    assert_eq!(section.layout_y, pos(0.2), "section: {}", section.layout_y);
    assert_eq!(show.layout_y, pos(0.5), "show: {}", show.layout_y);
    assert_eq!(steps.layout_y, pos(0.8), "steps: {}", steps.layout_y);
}

#[test]
fn layout_after_clear_recenters() {
    let mut m = M::new();
    m.title("Slide 1");
    m.show("Detail");
    m.wait(us(1.0));
    m.clear();
    m.title("Slide 2 Solo");

    // At t=1.5 only "Slide 2 Solo" is visible.
    let fs = compute_frame_state(&m, at(1.5));
    let visible: Vec<_> = fs.elements.iter().filter(|e| e.visible).collect();
    assert_eq!(visible.len(), 1);
    assert_eq!(visible[0].layout_y, pos(0.5));
}

#[test]
fn layout_hidden_elements_ignored() {
    let mut m = M::new();
    m.title("Early");
    m.wait(us(1.0));
    m.show("Late"); // created at t=1.0

    // At t=0.5 only "Early" is visible.
    let fs = compute_frame_state(&m, at(0.5));
    let early = fs.elements.iter().find(|e| e.content == "Early").unwrap();
    assert!(early.visible);
    assert_eq!(early.layout_y, pos(0.5), "solo visible should center");
}

#[test]
fn layout_two_body_elements() {
    let mut m = M::new();
    m.show("First");
    m.show("Second");

    let fs = compute_frame_state(&m, at(0.0));
    let first = &fs.elements[0];
    let second = &fs.elements[1];

    // Two bodies: 0.3, 0.65.
    assert_eq!(first.layout_y, pos(0.3));
    assert_eq!(second.layout_y, pos(0.65));
}

#[test]
fn layout_empty_scene() {
    let m = M::new();
    let fs = compute_frame_state(&m, at(0.0));
    assert!(fs.elements.is_empty());
}

// -- Animation execution tests -----------------------------------------

#[test]
fn animation_fade_in_progress() {
    let mut m = M::new();
    m.title("Hello"); // element 0, created at t=0
    m.play(FadeIn { duration: us(1.0) }); // animation segment [0.0, 1.0)

    // At start of animation: progress=0.0, opacity=0.0
    let fs = compute_frame_state(&m, at(0.0));
    assert!(fs.elements[0].visible);
    assert_eq!(fs.elements[0].opacity, fx(0.0));

    // At midpoint: progress=0.5, opacity=0.5
    let fs = compute_frame_state(&m, at(0.5));
    assert_eq!(fs.elements[0].opacity, fx(0.5));

    // At end of animation: progress=1.0, opacity=1.0
    let fs = compute_frame_state(&m, at(1.0));
    assert_eq!(fs.elements[0].opacity, fx(1.0));
}

#[test]
fn animation_before_start_shows_initial_state() {
    let mut m = M::new();
    m.title("Hello");
    m.wait(us(1.0)); // silence [0.0, 1.0)
    m.play(FadeIn { duration: us(0.5) }); // animation [1.0, 1.5)

    // At t=0.5, animation hasn't started → apply(0.0) → opacity=0.0
    let fs = compute_frame_state(&m, at(0.5));
    assert!(fs.elements[0].visible);
    assert_eq!(fs.elements[0].opacity, fx(0.0));
}

#[test]
fn animation_after_end_shows_final_state() {
    let mut m = M::new();
    m.title("Hello");
    m.play(FadeIn { duration: us(0.5) }); // animation [0.0, 0.5)
    m.wait(us(1.0)); // silence [0.5, 1.5)

    // At t=1.0, animation completed → apply(1.0) → opacity=1.0
    let fs = compute_frame_state(&m, at(1.0));
    assert!(fs.elements[0].visible);
    assert_eq!(fs.elements[0].opacity, fx(1.0));
    assert_eq!(fs.elements[0].scale, fx(1.0));
}

#[test]
fn no_animation_retains_defaults() {
    let mut m = M::new();
    m.title("Hello");
    m.wait(us(1.0));

    let fs = compute_frame_state(&m, at(0.5));
    assert!(fs.elements[0].visible);
    assert_eq!(fs.elements[0].opacity, fx(1.0));
    assert_eq!(fs.elements[0].scale, fx(1.0));
    assert_eq!(fs.elements[0].translate_x, fx(0.0));
    assert_eq!(fs.elements[0].translate_y, fx(0.0));
}

#[test]
fn animation_fade_up_produces_translation() {
    let mut m = M::new();
    m.title("Hello");
    m.play(FadeUp {
        duration: us(1.0),
        distance: fx(30.0),
    });

    // At midpoint: opacity=0.5, translate_y=15.0
    let fs = compute_frame_state(&m, at(0.5));
    assert_eq!(fs.elements[0].opacity, fx(0.5));
    assert_eq!(fs.elements[0].translate_y, fx(15.0));

    // At end: opacity=1.0, translate_y=0.0
    let fs = compute_frame_state(&m, at(1.0));
    assert_eq!(fs.elements[0].opacity, fx(1.0));
    assert_eq!(fs.elements[0].translate_y, fx(0.0));
}

#[test]
fn animation_not_applied_to_invisible_element() {
    let mut m = M::new();
    m.title("Hello");
    m.clear();
    m.play(FadeIn { duration: us(0.5) });
    m.wait(us(1.0));

    // Element cleared before animation — stays at invisible defaults
    let fs = compute_frame_state(&m, at(0.25));
    assert!(!fs.elements[0].visible);
    assert_eq!(fs.elements[0].opacity, fx(0.0));
    assert_eq!(fs.elements[0].scale, fx(0.0));
}

#[test]
fn animation_with_preceding_segments() {
    let mut m = M::new();
    m.narrate("Hello world"); // 0.8s narration [0.0, 0.8)
    m.title("Title"); // element 0, created at t=0.8
    m.play(FadeIn { duration: us(1.0) }); // animation [0.8, 1.8)
    m.wait(us(1.0)); // silence [1.8, 2.8)

    // At t=0.8 (animation start): progress=0.0, opacity=0.0
    let fs = compute_frame_state(&m, at(0.8));
    assert!(fs.elements[0].visible);
    assert_eq!(fs.elements[0].opacity, fx(0.0));

    // At t=1.3 (midpoint): progress=0.5, opacity=0.5
    let fs = compute_frame_state(&m, at(1.3));
    assert_eq!(fs.elements[0].opacity, fx(0.5));

    // At t=2.0 (after animation): progress=1.0, opacity=1.0
    let fs = compute_frame_state(&m, at(2.0));
    assert_eq!(fs.elements[0].opacity, fx(1.0));
}

// -- Per-item animation tests (Stagger + Steps) -------------------------

#[test]
fn stagger_steps_per_item_opacity() {
    let mut m = M::new();
    m.steps(&["a", "b", "c"]);
    // Stagger with FadeIn: inner=0.5s, delay=0.1, count doesn't matter
    // (apply_items receives count=3 from element's items).
    // Total stagger duration for 3 items = 0.5 + 0.1*(3-1) = 0.7s
    m.play(Stagger::new(FadeIn { duration: us(0.5) }).with_delay(us(0.1)));

    // At start (t=0, progress=0): all items at apply(0) → opacity=0
    let fs = compute_frame_state(&m, at(0.0));
    assert_eq!(fs.elements[0].items.len(), 3);
    for item in &fs.elements[0].items {
        assert_eq!(item.opacity, fx(0.0), "item opacity at start: {}", item.opacity);
    }
}

#[test]
fn stagger_steps_first_item_animates_before_last() {
    let mut m = M::new();
    m.steps(&["a", "b", "c"]);
    // Total duration for 3 items: 0.5 + 0.1*2 = 0.7s
    m.play(Stagger::new(FadeIn { duration: us(0.5) }).with_delay(us(0.1)));

    // At t=0.35 (progress=0.5): first item well into animation, last item barely started
    let fs = compute_frame_state(&m, at(0.35));
    let first = &fs.elements[0].items[0];
    let last = &fs.elements[0].items[2];
    assert!(
        first.opacity > last.opacity,
        "first item ({}) should be more opaque than last ({})",
        first.opacity,
        last.opacity
    );
}

#[test]
fn stagger_steps_end_state() {
    let mut m = M::new();
    m.steps(&["a", "b", "c"]);
    // Duration: 0.5 + 0.1*2 = 0.7s
    let stagger = Stagger::new(FadeIn { duration: us(0.5) }).with_delay(us(0.1));
    m.play(stagger);
    m.wait(us(1.0));

    // At t=1.0 (well past animation end): all items fully opaque
    let fs = compute_frame_state(&m, at(1.0));
    for item in &fs.elements[0].items {
        assert_eq!(item.opacity, fx(1.0), "item opacity at end: {}", item.opacity);
    }
}

#[test]
fn stagger_steps_element_level_stays_default() {
    let mut m = M::new();
    m.steps(&["a", "b"]);
    m.play(Stagger::new(FadeIn { duration: us(0.5) }).with_delay(us(0.1)));

    // At midpoint: element-level opacity should remain 1.0
    // (per-item transforms handle the animation, not element-level)
    let fs = compute_frame_state(&m, at(0.25));
    assert_eq!(
        fs.elements[0].opacity,
        fx(1.0),
        "element-level opacity should stay 1.0, got: {}",
        fs.elements[0].opacity
    );
}

#[test]
fn non_stagger_steps_all_items_same() {
    let mut m = M::new();
    m.steps(&["a", "b", "c"]);
    m.play(FadeIn { duration: us(1.0) });

    // At midpoint: FadeIn's apply_items default gives all items same opacity
    let fs = compute_frame_state(&m, at(0.5));
    for item in &fs.elements[0].items {
        assert_eq!(
            item.opacity,
            fx(0.5),
            "non-stagger items should all have same opacity: {}",
            item.opacity
        );
    }
}

#[test]
fn item_state_default_transforms() {
    let mut m = M::new();
    m.steps(&["x", "y"]);

    // No animation: items should have default transforms
    let fs = compute_frame_state(&m, at(0.0));
    for item in &fs.elements[0].items {
        assert_eq!(item.opacity, fx(1.0));
        assert_eq!(item.scale, fx(1.0));
        assert_eq!(item.translate_x, fx(0.0));
        assert_eq!(item.translate_y, fx(0.0));
        assert_eq!(item.rotation, fx(0.0));
    }
}

// ---------------------------------------------------------------------------
// Further cases
// ---------------------------------------------------------------------------

#[test]
fn an_element_is_visible_from_creation_to_end() {
    let mut m = M::new();
    m.wait(us(1.0));
    m.title("a"); // created at 1.0
    m.wait(us(1.0));
    m.clear(); // ended at 2.0
    m.wait(us(1.0));

    let visible_at = |seconds: f64| compute_frame_state(&m, at(seconds)).elements[0].visible;
    assert!(!visible_at(0.999999));
    assert!(visible_at(1.0));
    assert!(visible_at(1.999999));
    assert!(!visible_at(2.0));
    assert!(!visible_at(3.0));
}

#[test]
fn headers_stand_before_bodies() {
    let mut m = M::new();
    m.show("body 1");
    m.title("header 1");
    m.steps(&["x"]);
    m.section("header 2");
    m.metric("m", "1", Direction::Up);

    let fs = compute_frame_state(&m, at(0.0));
    // Five visible: 0.2, 0.35, 0.5, 0.65, 0.8; headers first.
    assert_eq!(fs.elements[1].layout_y, pos(0.2)); // header 1
    assert_eq!(fs.elements[3].layout_y, pos(0.35)); // header 2
    assert_eq!(fs.elements[0].layout_y, pos(0.5)); // body 1
    assert_eq!(fs.elements[2].layout_y, pos(0.65)); // steps
    assert_eq!(fs.elements[4].layout_y, pos(0.8)); // metric
}

#[test]
fn layout_of_four_and_of_eight() {
    let mut m = M::new();
    for text in ["a", "b", "c", "d"] {
        m.show(text);
    }
    let fs = compute_frame_state(&m, at(0.0));
    let ys: Vec<u64> = fs.elements.iter().map(|e| e.layout_y).collect();
    assert_eq!(ys, vec![pos(0.2), pos(0.4), pos(0.6), pos(0.8)]);

    for text in ["e", "f", "g", "h"] {
        m.show(text);
    }
    let fs = compute_frame_state(&m, at(0.0));
    // 0.2 + 0.6 * i / 7, rounded down to millionths.
    assert_eq!(fs.elements[1].layout_y, 285_714);
    assert_eq!(fs.elements[7].layout_y, pos(0.8));
}

#[test]
fn a_hidden_element_keeps_the_middle() {
    let mut m = M::new();
    m.title("a");
    m.show("b");
    m.wait(us(1.0));
    m.clear();
    m.show("c");
    m.show("d");
    m.show("e");
    let fs = compute_frame_state(&m, at(1.0));
    assert_eq!(fs.elements[0].layout_y, pos(0.5));
    assert_eq!(fs.elements[1].layout_y, pos(0.5));
    assert_eq!(fs.elements[2].layout_y, pos(0.2));
    assert_eq!(fs.elements[4].layout_y, pos(0.8));
}

#[test]
fn an_animation_without_duration_is_complete() {
    let mut m = M::new();
    m.title("a");
    m.play(FadeIn { duration: 0 });
    m.wait(us(1.0));
    assert_eq!(compute_frame_state(&m, at(0.0)).elements[0].opacity, fx(1.0));
    assert_eq!(compute_frame_state(&m, at(0.5)).elements[0].opacity, fx(1.0));
}

#[test]
fn a_later_animation_overrides_an_earlier_one() {
    let mut m = M::new();
    m.title("a");
    m.play(FadeIn { duration: us(1.0) }); // [0, 1)
    m.play(Slide {
        duration: us(1.0),
        offset_x: fx(100.0),
        offset_y: 0,
    }); // [1, 2)
    // At 0.5 the fade is half way, but the slide, which is applied after it
    // and has not begun, puts the element at its start: opaque and offset.
    let fs = compute_frame_state(&m, at(0.5));
    assert_eq!(fs.elements[0].opacity, fx(1.0));
    assert_eq!(fs.elements[0].translate_x, fx(100.0));
    let fs = compute_frame_state(&m, at(1.5));
    assert_eq!(fs.elements[0].translate_x, fx(50.0));
}

#[test]
fn an_eased_stagger_on_a_list() {
    let mut m = M::new();
    m.steps(&["a", "b", "c"]);
    m.play(Stagger::new(FadeUp::default().with_ease(Ease::EaseIn)).with_count(3));
    // Inner 0.6s, delay 0.1s, three items: 0.8s. At 0.4s item 0 has run 0.4s
    // of 0.6s: progress 2/3, eased to 4/9.
    let fs = compute_frame_state(&m, at(0.4));
    let items = &fs.elements[0].items;
    assert_eq!(items[0].opacity, 444_443);
    // Item 2 has run 0.2s of 0.6s: progress 1/3, eased to 1/9.
    assert_eq!(items[2].opacity, 111_110);
    assert!(items[0].translate_y < items[2].translate_y);
    assert_eq!(fs.elements[0].translate_y, 0);
}

#[test]
fn the_narration_is_found_by_its_window() {
    let mut m = M::new();
    m.wait(us(1.0));
    m.narrate("one two"); // [1.0, 1.8)
    m.wait(us(1.0));
    // Half a frame before the narration begins it counts as spoken.
    let before = compute_frame_state(&m, at(0.99));
    assert_eq!(before.active_narration, Some("one two".to_string()));
    let early = compute_frame_state(&m, at(0.98));
    assert_eq!(early.active_narration, None);
    let last = compute_frame_state(&m, at(1.799999));
    assert_eq!(last.active_narration, Some("one two".to_string()));
    let after = compute_frame_state(&m, at(1.8));
    assert_eq!(after.active_narration, None);
}

#[test]
fn the_theme_is_handed_through() {
    let mut m = M::new();
    let theme = Theme::light();
    let expected = theme.to_css_properties();
    m.theme(theme);
    let fs = compute_frame_state(&m, at(0.0));
    assert_eq!(fs.theme.css_properties, expected);
    assert_eq!(fs.theme.css_properties[0].0, "--moron-bg-primary");
}

#[test]
fn a_narration_without_duration_is_never_spoken() {
    let mut m = M::new();
    m.wait(us(1.0));
    m.narrate("one two"); // [1.0, 1.8)
    m.wait(us(1.0));
    m.resolve_narration_durations(&[0]).unwrap();
    // The narration now lasts no time, at 1.0s, between the two pauses.
    assert_eq!(m.timeline().total_duration(), us(2.0));
    for seconds in [0.0, 0.99, 0.995, 1.0, 1.005, 2.0] {
        let fs = compute_frame_state(&m, at(seconds));
        assert_eq!(fs.active_narration, None, "at {seconds}");
    }
}

#[test]
fn the_layout_keeps_the_order_of_each_group() {
    let mut m = M::new();
    m.show("body 1");
    m.section("header 1");
    m.show("body 2");
    m.title("header 2");
    m.show("body 3");
    m.wait(us(1.0));
    let fs = compute_frame_state(&m, at(0.5));
    let y = |i: usize| fs.elements[i].layout_y;
    // Headers above bodies, whatever the order of creation.
    for header in [1, 3] {
        for body in [0, 2, 4] {
            assert!(y(header) < y(body));
        }
    }
    // Each group in the order of creation.
    assert!(y(1) < y(3));
    assert!(y(0) < y(2) && y(2) < y(4));
    for element in &fs.elements {
        assert!(element.layout_y <= 1_000_000);
    }
}
