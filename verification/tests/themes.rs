//! Tests of the themes and their CSS custom properties.

use std::collections::HashMap;

use moron::Theme;

#[test]
fn default_theme_has_non_empty_values() {
    let theme = Theme::default();
    assert!(!theme.name.is_empty());
    assert!(!theme.colors.bg_primary.is_empty());
    assert!(!theme.colors.accent.is_empty());
    assert!(!theme.typography.font_sans.is_empty());
    assert!(!theme.typography.text_base.is_empty());
    assert!(!theme.spacing.space_4.is_empty());
    assert!(!theme.timing.duration_normal.is_empty());
    assert!(!theme.shadows.shadow_md.is_empty());
}

#[test]
fn to_css_properties_returns_expected_pairs() {
    let theme = Theme::default();
    let props = theme.to_css_properties();

    // Collect into a HashMap for easy lookup.
    let map: HashMap<String, String> = props.into_iter().collect();

    // Test specific color property
    assert_eq!(map.get("--moron-bg-primary").unwrap(), "#0f172a");

    // Test specific typography property
    assert_eq!(map.get("--moron-text-base").unwrap(), "1rem");

    // Test specific accent property
    assert_eq!(map.get("--moron-accent").unwrap(), "#3b82f6");

    // Test specific spacing property
    assert_eq!(map.get("--moron-space-8").unwrap(), "2rem");

    // Test specific timing property
    assert_eq!(map.get("--moron-duration-fast").unwrap(), "150ms");

    // Test specific shadow property
    assert_eq!(
        map.get("--moron-shadow-sm").unwrap(),
        "0 1px 2px rgba(0, 0, 0, 0.3)"
    );
}

#[test]
fn to_css_properties_covers_all_tokens() {
    let theme = Theme::default();
    let props = theme.to_css_properties();

    // Every property key must start with "--moron-"
    for (key, value) in &props {
        assert!(
            key.starts_with("--moron-"),
            "CSS property key '{key}' does not start with --moron-"
        );
        assert!(!value.is_empty(), "CSS property '{key}' has empty value");
    }

    // We expect at least 50 properties (12 colors + 17 typography + 14 spacing + 10 timing + 3 shadows = 56)
    assert!(
        props.len() >= 50,
        "Expected at least 50 CSS properties, got {}",
        props.len()
    );
}

// -- Light theme tests -------------------------------------------------

#[test]
fn light_theme_has_correct_name() {
    let theme = Theme::light();
    assert_eq!(theme.name, "moron-light");
}

#[test]
fn light_theme_has_non_empty_values() {
    let theme = Theme::light();
    assert!(!theme.name.is_empty());
    assert!(!theme.colors.bg_primary.is_empty());
    assert!(!theme.colors.accent.is_empty());
    assert!(!theme.typography.font_sans.is_empty());
    assert!(!theme.typography.text_base.is_empty());
    assert!(!theme.spacing.space_4.is_empty());
    assert!(!theme.timing.duration_normal.is_empty());
    assert!(!theme.shadows.shadow_md.is_empty());
}

#[test]
fn light_theme_differs_from_default() {
    let dark = Theme::default();
    let light = Theme::light();

    assert_ne!(dark.name, light.name);
    assert_ne!(dark.colors.bg_primary, light.colors.bg_primary);
    assert_ne!(dark.colors.fg_primary, light.colors.fg_primary);
    assert_ne!(dark.colors.accent, light.colors.accent);
    assert_ne!(dark.shadows.shadow_sm, light.shadows.shadow_sm);
}

#[test]
fn light_theme_to_css_properties_count() {
    let theme = Theme::light();
    let props = theme.to_css_properties();

    assert_eq!(
        props.len(),
        56,
        "Light theme must produce exactly 56 CSS properties, got {}",
        props.len()
    );

    for (key, value) in &props {
        assert!(
            key.starts_with("--moron-"),
            "CSS property key '{key}' does not start with --moron-"
        );
        assert!(!value.is_empty(), "CSS property '{key}' has empty value");
    }
}

// ---------------------------------------------------------------------------
// Helper of the stylesheet comparison
// ---------------------------------------------------------------------------

/// Parse `--moron-*: value;` declarations from a CSS file's `:root` block.
fn parse_css_custom_properties(css: &str) -> HashMap<String, String> {
    let mut props = HashMap::new();

    for line in css.lines() {
        let trimmed = line.trim();

        // Skip comments, empty lines, selectors, closing braces.
        if trimmed.is_empty()
            || trimmed.starts_with("/*")
            || trimmed.starts_with('*')
            || trimmed.starts_with(':')
            || trimmed.starts_with('}')
        {
            continue;
        }

        // Match lines like `--moron-bg-primary: #0f172a;`
        if let Some(colon_pos) = trimmed.find(": ") {
            let key = trimmed[..colon_pos].trim();
            if key.starts_with("--moron-") {
                let value = trimmed[colon_pos + 2..].trim();
                // Strip trailing semicolon.
                let value = value.strip_suffix(';').unwrap_or(value).trim();
                props.insert(key.to_string(), value.to_string());
            }
        }
    }

    props
}

#[test]
fn parser_handles_css_comments_and_blank_lines() {
    let css = r#"
/* A comment */
:root {
  /* Section header */
  --moron-test-a: value-a;
  --moron-test-b: value-b;

  /* Another comment */
  --moron-test-c: value c with spaces;
}
"#;
    let props = parse_css_custom_properties(css);
    assert_eq!(props.len(), 3);
    assert_eq!(props.get("--moron-test-a").unwrap(), "value-a");
    assert_eq!(props.get("--moron-test-b").unwrap(), "value-b");
    assert_eq!(props.get("--moron-test-c").unwrap(), "value c with spaces");
}

// ---------------------------------------------------------------------------
// Further cases
// ---------------------------------------------------------------------------

#[test]
fn css_properties_come_in_the_order_of_the_tokens() {
    let props = Theme::default().to_css_properties();
    assert_eq!(props.len(), moron::theme::CSS_PROPERTY_COUNT);
    assert_eq!(
        props[0],
        ("--moron-bg-primary".to_string(), "#0f172a".to_string())
    );
    assert_eq!(
        props[11],
        ("--moron-error".to_string(), "#ef4444".to_string())
    );
    assert_eq!(props[12].0, "--moron-font-sans");
    assert_eq!(
        props[12].1,
        "\"Inter\", ui-sans-serif, system-ui, sans-serif"
    );
    assert_eq!(props[29].0, "--moron-space-1");
    assert_eq!(props[43].0, "--moron-duration-instant");
    assert_eq!(
        props[55],
        (
            "--moron-shadow-lg".to_string(),
            "0 10px 15px rgba(0, 0, 0, 0.4)".to_string()
        )
    );
    // No key occurs twice.
    let keys: std::collections::HashSet<&String> = props.iter().map(|(k, _)| k).collect();
    assert_eq!(keys.len(), 56);
}

#[test]
fn css_properties_follow_the_tokens() {
    let mut theme = Theme::default();
    theme.colors.accent = "#123456".to_string();
    theme.spacing.radius_full = "50%".to_string();
    let map: HashMap<String, String> = theme.to_css_properties().into_iter().collect();
    assert_eq!(map.get("--moron-accent").unwrap(), "#123456");
    assert_eq!(map.get("--moron-radius-full").unwrap(), "50%");
    assert_eq!(map.get("--moron-accent-hover").unwrap(), "#60a5fa");
}
