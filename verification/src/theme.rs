//! Themes: the design tokens of a scene and their flat list of CSS custom
//! properties.
//!
//! Each token of a theme becomes one custom property of the page that draws the
//! frames. The key of every property starts with `--moron-`.
use crate::text::has_prefix;
use vstd::prelude::*;
use vstd::string::StringExecFns;

verus! {

/// A list of key and value pairs, each string taken by its characters.
pub open spec fn pair_views(pairs: Seq<(String, String)>) -> Seq<(Seq<char>, Seq<char>)> {
    pairs.map_values(|p: (String, String)| (p.0@, p.1@))
}

/// Appends the property `key` with a copy of `value`.
fn put(props: &mut Vec<(String, String)>, key: &str, value: &String)
    ensures
        pair_views(final(props)@) == pair_views(old(props)@).push((key@, value@)),
{
    props.push((String::from_str(key), value.clone()));
    assert(pair_views(props@) =~= pair_views(old(props)@).push((key@, value@)));
}

/// All colour tokens of a theme.
#[derive(Debug, Clone, PartialEq, Eq)]
pub struct ThemeColors {
    pub bg_primary: String,
    pub bg_secondary: String,
    pub bg_tertiary: String,
    pub fg_primary: String,
    pub fg_secondary: String,
    pub fg_muted: String,
    pub accent: String,
    pub accent_hover: String,
    pub accent_subtle: String,
    pub success: String,
    pub warning: String,
    pub error: String,
}

impl ThemeColors {
    /// The custom properties of these tokens, in the order of the fields.
    pub open spec fn css_pairs(&self) -> Seq<(Seq<char>, Seq<char>)> {
        seq![
            ("--moron-bg-primary"@, self.bg_primary@),
            ("--moron-bg-secondary"@, self.bg_secondary@),
            ("--moron-bg-tertiary"@, self.bg_tertiary@),
            ("--moron-fg-primary"@, self.fg_primary@),
            ("--moron-fg-secondary"@, self.fg_secondary@),
            ("--moron-fg-muted"@, self.fg_muted@),
            ("--moron-accent"@, self.accent@),
            ("--moron-accent-hover"@, self.accent_hover@),
            ("--moron-accent-subtle"@, self.accent_subtle@),
            ("--moron-success"@, self.success@),
            ("--moron-warning"@, self.warning@),
            ("--moron-error"@, self.error@),
        ]
    }

    /// The key of each of these properties starts with `--moron-`.
    pub proof fn lemma_keys_share_prefix(&self)
        ensures
            forall|i: int|
                0 <= i < self.css_pairs().len() ==> has_prefix(
                    (#[trigger] self.css_pairs()[i]).0,
                    "--moron-"@,
                ),
    {
        reveal_strlit("--moron-");
        reveal_strlit("--moron-bg-primary");
        reveal_strlit("--moron-bg-secondary");
        reveal_strlit("--moron-bg-tertiary");
        reveal_strlit("--moron-fg-primary");
        reveal_strlit("--moron-fg-secondary");
        reveal_strlit("--moron-fg-muted");
        reveal_strlit("--moron-accent");
        reveal_strlit("--moron-accent-hover");
        reveal_strlit("--moron-accent-subtle");
        reveal_strlit("--moron-success");
        reveal_strlit("--moron-warning");
        reveal_strlit("--moron-error");
        assert("--moron-bg-primary"@.subrange(0, 8) =~= "--moron-"@);
        assert("--moron-bg-secondary"@.subrange(0, 8) =~= "--moron-"@);
        assert("--moron-bg-tertiary"@.subrange(0, 8) =~= "--moron-"@);
        assert("--moron-fg-primary"@.subrange(0, 8) =~= "--moron-"@);
        assert("--moron-fg-secondary"@.subrange(0, 8) =~= "--moron-"@);
        assert("--moron-fg-muted"@.subrange(0, 8) =~= "--moron-"@);
        assert("--moron-accent"@.subrange(0, 8) =~= "--moron-"@);
        assert("--moron-accent-hover"@.subrange(0, 8) =~= "--moron-"@);
        assert("--moron-accent-subtle"@.subrange(0, 8) =~= "--moron-"@);
        assert("--moron-success"@.subrange(0, 8) =~= "--moron-"@);
        assert("--moron-warning"@.subrange(0, 8) =~= "--moron-"@);
        assert("--moron-error"@.subrange(0, 8) =~= "--moron-"@);
    }

    /// Appends the custom properties of these tokens to `props`.
    fn append_css(&self, props: &mut Vec<(String, String)>)
        ensures
            pair_views(final(props)@) == pair_views(old(props)@) + self.css_pairs(),
    {
        put(props, "--moron-bg-primary", &self.bg_primary);
        put(props, "--moron-bg-secondary", &self.bg_secondary);
        put(props, "--moron-bg-tertiary", &self.bg_tertiary);
        put(props, "--moron-fg-primary", &self.fg_primary);
        put(props, "--moron-fg-secondary", &self.fg_secondary);
        put(props, "--moron-fg-muted", &self.fg_muted);
        put(props, "--moron-accent", &self.accent);
        put(props, "--moron-accent-hover", &self.accent_hover);
        put(props, "--moron-accent-subtle", &self.accent_subtle);
        put(props, "--moron-success", &self.success);
        put(props, "--moron-warning", &self.warning);
        put(props, "--moron-error", &self.error);
        assert(pair_views(props@) =~= pair_views(old(props)@) + self.css_pairs());
    }

    /// The tokens of the light theme.
    pub fn light() -> (t: ThemeColors)
        ensures
            t.bg_primary@ == "#ffffff"@,
            t.bg_secondary@ == "#f1f5f9"@,
            t.bg_tertiary@ == "#e2e8f0"@,
            t.fg_primary@ == "#0f172a"@,
            t.fg_secondary@ == "#334155"@,
            t.fg_muted@ == "#94a3b8"@,
            t.accent@ == "#2563eb"@,
            t.accent_hover@ == "#1d4ed8"@,
            t.accent_subtle@ == "rgba(37, 99, 235, 0.1)"@,
            t.success@ == "#16a34a"@,
            t.warning@ == "#ca8a04"@,
            t.error@ == "#dc2626"@,
    {
        ThemeColors {
            bg_primary: String::from_str("#ffffff"),
            bg_secondary: String::from_str("#f1f5f9"),
            bg_tertiary: String::from_str("#e2e8f0"),
            fg_primary: String::from_str("#0f172a"),
            fg_secondary: String::from_str("#334155"),
            fg_muted: String::from_str("#94a3b8"),
            accent: String::from_str("#2563eb"),
            accent_hover: String::from_str("#1d4ed8"),
            accent_subtle: String::from_str("rgba(37, 99, 235, 0.1)"),
            success: String::from_str("#16a34a"),
            warning: String::from_str("#ca8a04"),
            error: String::from_str("#dc2626"),
        }
    }
}

impl Default for ThemeColors {
    /// The tokens of the dark theme.
    fn default() -> (t: ThemeColors)
        ensures
            t.bg_primary@ == "#0f172a"@,
            t.bg_secondary@ == "#1e293b"@,
            t.bg_tertiary@ == "#334155"@,
            t.fg_primary@ == "#f8fafc"@,
            t.fg_secondary@ == "#cbd5e1"@,
            t.fg_muted@ == "#64748b"@,
            t.accent@ == "#3b82f6"@,
            t.accent_hover@ == "#60a5fa"@,
            t.accent_subtle@ == "rgba(59, 130, 246, 0.15)"@,
            t.success@ == "#22c55e"@,
            t.warning@ == "#eab308"@,
            t.error@ == "#ef4444"@,
    {
        ThemeColors {
            bg_primary: String::from_str("#0f172a"),
            bg_secondary: String::from_str("#1e293b"),
            bg_tertiary: String::from_str("#334155"),
            fg_primary: String::from_str("#f8fafc"),
            fg_secondary: String::from_str("#cbd5e1"),
            fg_muted: String::from_str("#64748b"),
            accent: String::from_str("#3b82f6"),
            accent_hover: String::from_str("#60a5fa"),
            accent_subtle: String::from_str("rgba(59, 130, 246, 0.15)"),
            success: String::from_str("#22c55e"),
            warning: String::from_str("#eab308"),
            error: String::from_str("#ef4444"),
        }
    }
}

/// Font families, text sizes, line heights and font weights.
#[derive(Debug, Clone, PartialEq, Eq)]
pub struct ThemeTypography {
    pub font_sans: String,
    pub font_mono: String,
    pub text_xs: String,
    pub text_sm: String,
    pub text_base: String,
    pub text_lg: String,
    pub text_xl: String,
    pub text_2xl: String,
    pub text_3xl: String,
    pub text_4xl: String,
    pub leading_tight: String,
    pub leading_normal: String,
    pub leading_relaxed: String,
    pub font_weight_normal: String,
    pub font_weight_medium: String,
    pub font_weight_semibold: String,
    pub font_weight_bold: String,
}

impl ThemeTypography {
    /// The custom properties of these tokens, in the order of the fields.
    pub open spec fn css_pairs(&self) -> Seq<(Seq<char>, Seq<char>)> {
        seq![
            ("--moron-font-sans"@, self.font_sans@),
            ("--moron-font-mono"@, self.font_mono@),
            ("--moron-text-xs"@, self.text_xs@),
            ("--moron-text-sm"@, self.text_sm@),
            ("--moron-text-base"@, self.text_base@),
            ("--moron-text-lg"@, self.text_lg@),
            ("--moron-text-xl"@, self.text_xl@),
            ("--moron-text-2xl"@, self.text_2xl@),
            ("--moron-text-3xl"@, self.text_3xl@),
            ("--moron-text-4xl"@, self.text_4xl@),
            ("--moron-leading-tight"@, self.leading_tight@),
            ("--moron-leading-normal"@, self.leading_normal@),
            ("--moron-leading-relaxed"@, self.leading_relaxed@),
            ("--moron-font-weight-normal"@, self.font_weight_normal@),
            ("--moron-font-weight-medium"@, self.font_weight_medium@),
            ("--moron-font-weight-semibold"@, self.font_weight_semibold@),
            ("--moron-font-weight-bold"@, self.font_weight_bold@),
        ]
    }

    /// The key of each of these properties starts with `--moron-`.
    pub proof fn lemma_keys_share_prefix(&self)
        ensures
            forall|i: int|
                0 <= i < self.css_pairs().len() ==> has_prefix(
                    (#[trigger] self.css_pairs()[i]).0,
                    "--moron-"@,
                ),
    {
        reveal_strlit("--moron-");
        reveal_strlit("--moron-font-sans");
        reveal_strlit("--moron-font-mono");
        reveal_strlit("--moron-text-xs");
        reveal_strlit("--moron-text-sm");
        reveal_strlit("--moron-text-base");
        reveal_strlit("--moron-text-lg");
        reveal_strlit("--moron-text-xl");
        reveal_strlit("--moron-text-2xl");
        reveal_strlit("--moron-text-3xl");
        reveal_strlit("--moron-text-4xl");
        reveal_strlit("--moron-leading-tight");
        reveal_strlit("--moron-leading-normal");
        reveal_strlit("--moron-leading-relaxed");
        reveal_strlit("--moron-font-weight-normal");
        reveal_strlit("--moron-font-weight-medium");
        reveal_strlit("--moron-font-weight-semibold");
        reveal_strlit("--moron-font-weight-bold");
        assert("--moron-font-sans"@.subrange(0, 8) =~= "--moron-"@);
        assert("--moron-font-mono"@.subrange(0, 8) =~= "--moron-"@);
        assert("--moron-text-xs"@.subrange(0, 8) =~= "--moron-"@);
        assert("--moron-text-sm"@.subrange(0, 8) =~= "--moron-"@);
        assert("--moron-text-base"@.subrange(0, 8) =~= "--moron-"@);
        assert("--moron-text-lg"@.subrange(0, 8) =~= "--moron-"@);
        assert("--moron-text-xl"@.subrange(0, 8) =~= "--moron-"@);
        assert("--moron-text-2xl"@.subrange(0, 8) =~= "--moron-"@);
        assert("--moron-text-3xl"@.subrange(0, 8) =~= "--moron-"@);
        assert("--moron-text-4xl"@.subrange(0, 8) =~= "--moron-"@);
        assert("--moron-leading-tight"@.subrange(0, 8) =~= "--moron-"@);
        assert("--moron-leading-normal"@.subrange(0, 8) =~= "--moron-"@);
        assert("--moron-leading-relaxed"@.subrange(0, 8) =~= "--moron-"@);
        assert("--moron-font-weight-normal"@.subrange(0, 8) =~= "--moron-"@);
        assert("--moron-font-weight-medium"@.subrange(0, 8) =~= "--moron-"@);
        assert("--moron-font-weight-semibold"@.subrange(0, 8) =~= "--moron-"@);
        assert("--moron-font-weight-bold"@.subrange(0, 8) =~= "--moron-"@);
    }

    /// Appends the custom properties of these tokens to `props`.
    fn append_css(&self, props: &mut Vec<(String, String)>)
        ensures
            pair_views(final(props)@) == pair_views(old(props)@) + self.css_pairs(),
    {
        put(props, "--moron-font-sans", &self.font_sans);
        put(props, "--moron-font-mono", &self.font_mono);
        put(props, "--moron-text-xs", &self.text_xs);
        put(props, "--moron-text-sm", &self.text_sm);
        put(props, "--moron-text-base", &self.text_base);
        put(props, "--moron-text-lg", &self.text_lg);
        put(props, "--moron-text-xl", &self.text_xl);
        put(props, "--moron-text-2xl", &self.text_2xl);
        put(props, "--moron-text-3xl", &self.text_3xl);
        put(props, "--moron-text-4xl", &self.text_4xl);
        put(props, "--moron-leading-tight", &self.leading_tight);
        put(props, "--moron-leading-normal", &self.leading_normal);
        put(props, "--moron-leading-relaxed", &self.leading_relaxed);
        put(props, "--moron-font-weight-normal", &self.font_weight_normal);
        put(props, "--moron-font-weight-medium", &self.font_weight_medium);
        put(props, "--moron-font-weight-semibold", &self.font_weight_semibold);
        put(props, "--moron-font-weight-bold", &self.font_weight_bold);
        assert(pair_views(props@) =~= pair_views(old(props)@) + self.css_pairs());
    }
}

impl Default for ThemeTypography {
    /// The tokens of the dark theme.
    fn default() -> (t: ThemeTypography)
        ensures
            t.font_sans@ == "\"Inter\", ui-sans-serif, system-ui, sans-serif"@,
            t.font_mono@ == "\"JetBrains Mono\", ui-monospace, monospace"@,
            t.text_xs@ == "0.75rem"@,
            t.text_sm@ == "0.875rem"@,
            t.text_base@ == "1rem"@,
            t.text_lg@ == "1.25rem"@,
            t.text_xl@ == "1.5rem"@,
            t.text_2xl@ == "2rem"@,
            t.text_3xl@ == "2.5rem"@,
            t.text_4xl@ == "3.5rem"@,
            t.leading_tight@ == "1.15"@,
            t.leading_normal@ == "1.5"@,
            t.leading_relaxed@ == "1.75"@,
            t.font_weight_normal@ == "400"@,
            t.font_weight_medium@ == "500"@,
            t.font_weight_semibold@ == "600"@,
            t.font_weight_bold@ == "700"@,
    {
        ThemeTypography {
            font_sans: String::from_str("\"Inter\", ui-sans-serif, system-ui, sans-serif"),
            font_mono: String::from_str("\"JetBrains Mono\", ui-monospace, monospace"),
            text_xs: String::from_str("0.75rem"),
            text_sm: String::from_str("0.875rem"),
            text_base: String::from_str("1rem"),
            text_lg: String::from_str("1.25rem"),
            text_xl: String::from_str("1.5rem"),
            text_2xl: String::from_str("2rem"),
            text_3xl: String::from_str("2.5rem"),
            text_4xl: String::from_str("3.5rem"),
            leading_tight: String::from_str("1.15"),
            leading_normal: String::from_str("1.5"),
            leading_relaxed: String::from_str("1.75"),
            font_weight_normal: String::from_str("400"),
            font_weight_medium: String::from_str("500"),
            font_weight_semibold: String::from_str("600"),
            font_weight_bold: String::from_str("700"),
        }
    }
}

/// The spacing scale, the container padding and the corner radii.
#[derive(Debug, Clone, PartialEq, Eq)]
pub struct ThemeSpacing {
    pub space_1: String,
    pub space_2: String,
    pub space_3: String,
    pub space_4: String,
    pub space_6: String,
    pub space_8: String,
    pub space_12: String,
    pub space_16: String,
    pub space_24: String,
    pub container_padding: String,
    pub radius_sm: String,
    pub radius_md: String,
    pub radius_lg: String,
    pub radius_full: String,
}

impl ThemeSpacing {
    /// The custom properties of these tokens, in the order of the fields.
    pub open spec fn css_pairs(&self) -> Seq<(Seq<char>, Seq<char>)> {
        seq![
            ("--moron-space-1"@, self.space_1@),
            ("--moron-space-2"@, self.space_2@),
            ("--moron-space-3"@, self.space_3@),
            ("--moron-space-4"@, self.space_4@),
            ("--moron-space-6"@, self.space_6@),
            ("--moron-space-8"@, self.space_8@),
            ("--moron-space-12"@, self.space_12@),
            ("--moron-space-16"@, self.space_16@),
            ("--moron-space-24"@, self.space_24@),
            ("--moron-container-padding"@, self.container_padding@),
            ("--moron-radius-sm"@, self.radius_sm@),
            ("--moron-radius-md"@, self.radius_md@),
            ("--moron-radius-lg"@, self.radius_lg@),
            ("--moron-radius-full"@, self.radius_full@),
        ]
    }

    /// The key of each of these properties starts with `--moron-`.
    pub proof fn lemma_keys_share_prefix(&self)
        ensures
            forall|i: int|
                0 <= i < self.css_pairs().len() ==> has_prefix(
                    (#[trigger] self.css_pairs()[i]).0,
                    "--moron-"@,
                ),
    {
        reveal_strlit("--moron-");
        reveal_strlit("--moron-space-1");
        reveal_strlit("--moron-space-2");
        reveal_strlit("--moron-space-3");
        reveal_strlit("--moron-space-4");
        reveal_strlit("--moron-space-6");
        reveal_strlit("--moron-space-8");
        reveal_strlit("--moron-space-12");
        reveal_strlit("--moron-space-16");
        reveal_strlit("--moron-space-24");
        reveal_strlit("--moron-container-padding");
        reveal_strlit("--moron-radius-sm");
        reveal_strlit("--moron-radius-md");
        reveal_strlit("--moron-radius-lg");
        reveal_strlit("--moron-radius-full");
        assert("--moron-space-1"@.subrange(0, 8) =~= "--moron-"@);
        assert("--moron-space-2"@.subrange(0, 8) =~= "--moron-"@);
        assert("--moron-space-3"@.subrange(0, 8) =~= "--moron-"@);
        assert("--moron-space-4"@.subrange(0, 8) =~= "--moron-"@);
        assert("--moron-space-6"@.subrange(0, 8) =~= "--moron-"@);
        assert("--moron-space-8"@.subrange(0, 8) =~= "--moron-"@);
        assert("--moron-space-12"@.subrange(0, 8) =~= "--moron-"@);
        assert("--moron-space-16"@.subrange(0, 8) =~= "--moron-"@);
        assert("--moron-space-24"@.subrange(0, 8) =~= "--moron-"@);
        assert("--moron-container-padding"@.subrange(0, 8) =~= "--moron-"@);
        assert("--moron-radius-sm"@.subrange(0, 8) =~= "--moron-"@);
        assert("--moron-radius-md"@.subrange(0, 8) =~= "--moron-"@);
        assert("--moron-radius-lg"@.subrange(0, 8) =~= "--moron-"@);
        assert("--moron-radius-full"@.subrange(0, 8) =~= "--moron-"@);
    }

    /// Appends the custom properties of these tokens to `props`.
    fn append_css(&self, props: &mut Vec<(String, String)>)
        ensures
            pair_views(final(props)@) == pair_views(old(props)@) + self.css_pairs(),
    {
        put(props, "--moron-space-1", &self.space_1);
        put(props, "--moron-space-2", &self.space_2);
        put(props, "--moron-space-3", &self.space_3);
        put(props, "--moron-space-4", &self.space_4);
        put(props, "--moron-space-6", &self.space_6);
        put(props, "--moron-space-8", &self.space_8);
        put(props, "--moron-space-12", &self.space_12);
        put(props, "--moron-space-16", &self.space_16);
        put(props, "--moron-space-24", &self.space_24);
        put(props, "--moron-container-padding", &self.container_padding);
        put(props, "--moron-radius-sm", &self.radius_sm);
        put(props, "--moron-radius-md", &self.radius_md);
        put(props, "--moron-radius-lg", &self.radius_lg);
        put(props, "--moron-radius-full", &self.radius_full);
        assert(pair_views(props@) =~= pair_views(old(props)@) + self.css_pairs());
    }
}

impl Default for ThemeSpacing {
    /// The tokens of the dark theme.
    fn default() -> (t: ThemeSpacing)
        ensures
            t.space_1@ == "0.25rem"@,
            t.space_2@ == "0.5rem"@,
            t.space_3@ == "0.75rem"@,
            t.space_4@ == "1rem"@,
            t.space_6@ == "1.5rem"@,
            t.space_8@ == "2rem"@,
            t.space_12@ == "3rem"@,
            t.space_16@ == "4rem"@,
            t.space_24@ == "6rem"@,
            t.container_padding@ == "3rem"@,
            t.radius_sm@ == "0.25rem"@,
            t.radius_md@ == "0.5rem"@,
            t.radius_lg@ == "1rem"@,
            t.radius_full@ == "9999px"@,
    {
        ThemeSpacing {
            space_1: String::from_str("0.25rem"),
            space_2: String::from_str("0.5rem"),
            space_3: String::from_str("0.75rem"),
            space_4: String::from_str("1rem"),
            space_6: String::from_str("1.5rem"),
            space_8: String::from_str("2rem"),
            space_12: String::from_str("3rem"),
            space_16: String::from_str("4rem"),
            space_24: String::from_str("6rem"),
            container_padding: String::from_str("3rem"),
            radius_sm: String::from_str("0.25rem"),
            radius_md: String::from_str("0.5rem"),
            radius_lg: String::from_str("1rem"),
            radius_full: String::from_str("9999px"),
        }
    }
}

/// Durations and easing curves for animations in the page.
#[derive(Debug, Clone, PartialEq, Eq)]
pub struct ThemeTiming {
    pub duration_instant: String,
    pub duration_fast: String,
    pub duration_normal: String,
    pub duration_slow: String,
    pub duration_slower: String,
    pub ease_default: String,
    pub ease_in: String,
    pub ease_out: String,
    pub ease_in_out: String,
    pub ease_spring: String,
}

impl ThemeTiming {
    /// The custom properties of these tokens, in the order of the fields.
    pub open spec fn css_pairs(&self) -> Seq<(Seq<char>, Seq<char>)> {
        seq![
            ("--moron-duration-instant"@, self.duration_instant@),
            ("--moron-duration-fast"@, self.duration_fast@),
            ("--moron-duration-normal"@, self.duration_normal@),
            ("--moron-duration-slow"@, self.duration_slow@),
            ("--moron-duration-slower"@, self.duration_slower@),
            ("--moron-ease-default"@, self.ease_default@),
            ("--moron-ease-in"@, self.ease_in@),
            ("--moron-ease-out"@, self.ease_out@),
            ("--moron-ease-in-out"@, self.ease_in_out@),
            ("--moron-ease-spring"@, self.ease_spring@),
        ]
    }

    /// The key of each of these properties starts with `--moron-`.
    pub proof fn lemma_keys_share_prefix(&self)
        ensures
            forall|i: int|
                0 <= i < self.css_pairs().len() ==> has_prefix(
                    (#[trigger] self.css_pairs()[i]).0,
                    "--moron-"@,
                ),
    {
        reveal_strlit("--moron-");
        reveal_strlit("--moron-duration-instant");
        reveal_strlit("--moron-duration-fast");
        reveal_strlit("--moron-duration-normal");
        reveal_strlit("--moron-duration-slow");
        reveal_strlit("--moron-duration-slower");
        reveal_strlit("--moron-ease-default");
        reveal_strlit("--moron-ease-in");
        reveal_strlit("--moron-ease-out");
        reveal_strlit("--moron-ease-in-out");
        reveal_strlit("--moron-ease-spring");
        assert("--moron-duration-instant"@.subrange(0, 8) =~= "--moron-"@);
        assert("--moron-duration-fast"@.subrange(0, 8) =~= "--moron-"@);
        assert("--moron-duration-normal"@.subrange(0, 8) =~= "--moron-"@);
        assert("--moron-duration-slow"@.subrange(0, 8) =~= "--moron-"@);
        assert("--moron-duration-slower"@.subrange(0, 8) =~= "--moron-"@);
        assert("--moron-ease-default"@.subrange(0, 8) =~= "--moron-"@);
        assert("--moron-ease-in"@.subrange(0, 8) =~= "--moron-"@);
        assert("--moron-ease-out"@.subrange(0, 8) =~= "--moron-"@);
        assert("--moron-ease-in-out"@.subrange(0, 8) =~= "--moron-"@);
        assert("--moron-ease-spring"@.subrange(0, 8) =~= "--moron-"@);
    }

    /// Appends the custom properties of these tokens to `props`.
    fn append_css(&self, props: &mut Vec<(String, String)>)
        ensures
            pair_views(final(props)@) == pair_views(old(props)@) + self.css_pairs(),
    {
        put(props, "--moron-duration-instant", &self.duration_instant);
        put(props, "--moron-duration-fast", &self.duration_fast);
        put(props, "--moron-duration-normal", &self.duration_normal);
        put(props, "--moron-duration-slow", &self.duration_slow);
        put(props, "--moron-duration-slower", &self.duration_slower);
        put(props, "--moron-ease-default", &self.ease_default);
        put(props, "--moron-ease-in", &self.ease_in);
        put(props, "--moron-ease-out", &self.ease_out);
        put(props, "--moron-ease-in-out", &self.ease_in_out);
        put(props, "--moron-ease-spring", &self.ease_spring);
        assert(pair_views(props@) =~= pair_views(old(props)@) + self.css_pairs());
    }
}

impl Default for ThemeTiming {
    /// The tokens of the dark theme.
    fn default() -> (t: ThemeTiming)
        ensures
            t.duration_instant@ == "0ms"@,
            t.duration_fast@ == "150ms"@,
            t.duration_normal@ == "300ms"@,
            t.duration_slow@ == "500ms"@,
            t.duration_slower@ == "800ms"@,
            t.ease_default@ == "cubic-bezier(0.4, 0, 0.2, 1)"@,
            t.ease_in@ == "cubic-bezier(0.4, 0, 1, 1)"@,
            t.ease_out@ == "cubic-bezier(0, 0, 0.2, 1)"@,
            t.ease_in_out@ == "cubic-bezier(0.4, 0, 0.2, 1)"@,
            t.ease_spring@ == "cubic-bezier(0.34, 1.56, 0.64, 1)"@,
    {
        ThemeTiming {
            duration_instant: String::from_str("0ms"),
            duration_fast: String::from_str("150ms"),
            duration_normal: String::from_str("300ms"),
            duration_slow: String::from_str("500ms"),
            duration_slower: String::from_str("800ms"),
            ease_default: String::from_str("cubic-bezier(0.4, 0, 0.2, 1)"),
            ease_in: String::from_str("cubic-bezier(0.4, 0, 1, 1)"),
            ease_out: String::from_str("cubic-bezier(0, 0, 0.2, 1)"),
            ease_in_out: String::from_str("cubic-bezier(0.4, 0, 0.2, 1)"),
            ease_spring: String::from_str("cubic-bezier(0.34, 1.56, 0.64, 1)"),
        }
    }
}

/// Box-shadow tokens.
#[derive(Debug, Clone, PartialEq, Eq)]
pub struct ThemeShadows {
    pub shadow_sm: String,
    pub shadow_md: String,
    pub shadow_lg: String,
}

impl ThemeShadows {
    /// The custom properties of these tokens, in the order of the fields.
    pub open spec fn css_pairs(&self) -> Seq<(Seq<char>, Seq<char>)> {
        seq![
            ("--moron-shadow-sm"@, self.shadow_sm@),
            ("--moron-shadow-md"@, self.shadow_md@),
            ("--moron-shadow-lg"@, self.shadow_lg@),
        ]
    }

    /// The key of each of these properties starts with `--moron-`.
    pub proof fn lemma_keys_share_prefix(&self)
        ensures
            forall|i: int|
                0 <= i < self.css_pairs().len() ==> has_prefix(
                    (#[trigger] self.css_pairs()[i]).0,
                    "--moron-"@,
                ),
    {
        reveal_strlit("--moron-");
        reveal_strlit("--moron-shadow-sm");
        reveal_strlit("--moron-shadow-md");
        reveal_strlit("--moron-shadow-lg");
        assert("--moron-shadow-sm"@.subrange(0, 8) =~= "--moron-"@);
        assert("--moron-shadow-md"@.subrange(0, 8) =~= "--moron-"@);
        assert("--moron-shadow-lg"@.subrange(0, 8) =~= "--moron-"@);
    }

    /// Appends the custom properties of these tokens to `props`.
    fn append_css(&self, props: &mut Vec<(String, String)>)
        ensures
            pair_views(final(props)@) == pair_views(old(props)@) + self.css_pairs(),
    {
        put(props, "--moron-shadow-sm", &self.shadow_sm);
        put(props, "--moron-shadow-md", &self.shadow_md);
        put(props, "--moron-shadow-lg", &self.shadow_lg);
        assert(pair_views(props@) =~= pair_views(old(props)@) + self.css_pairs());
    }

    /// The tokens of the light theme.
    pub fn light() -> (t: ThemeShadows)
        ensures
            t.shadow_sm@ == "0 1px 2px rgba(0, 0, 0, 0.08)"@,
            t.shadow_md@ == "0 4px 6px rgba(0, 0, 0, 0.1)"@,
            t.shadow_lg@ == "0 10px 15px rgba(0, 0, 0, 0.12)"@,
    {
        ThemeShadows {
            shadow_sm: String::from_str("0 1px 2px rgba(0, 0, 0, 0.08)"),
            shadow_md: String::from_str("0 4px 6px rgba(0, 0, 0, 0.1)"),
            shadow_lg: String::from_str("0 10px 15px rgba(0, 0, 0, 0.12)"),
        }
    }
}

impl Default for ThemeShadows {
    /// The tokens of the dark theme.
    fn default() -> (t: ThemeShadows)
        ensures
            t.shadow_sm@ == "0 1px 2px rgba(0, 0, 0, 0.3)"@,
            t.shadow_md@ == "0 4px 6px rgba(0, 0, 0, 0.3)"@,
            t.shadow_lg@ == "0 10px 15px rgba(0, 0, 0, 0.4)"@,
    {
        ThemeShadows {
            shadow_sm: String::from_str("0 1px 2px rgba(0, 0, 0, 0.3)"),
            shadow_md: String::from_str("0 4px 6px rgba(0, 0, 0, 0.3)"),
            shadow_lg: String::from_str("0 10px 15px rgba(0, 0, 0, 0.4)"),
        }
    }
}

/// The custom properties of the dark theme.
pub open spec fn dark_css() -> Seq<(Seq<char>, Seq<char>)> {
    seq![
        ("--moron-bg-primary"@, "#0f172a"@),
        ("--moron-bg-secondary"@, "#1e293b"@),
        ("--moron-bg-tertiary"@, "#334155"@),
        ("--moron-fg-primary"@, "#f8fafc"@),
        ("--moron-fg-secondary"@, "#cbd5e1"@),
        ("--moron-fg-muted"@, "#64748b"@),
        ("--moron-accent"@, "#3b82f6"@),
        ("--moron-accent-hover"@, "#60a5fa"@),
        ("--moron-accent-subtle"@, "rgba(59, 130, 246, 0.15)"@),
        ("--moron-success"@, "#22c55e"@),
        ("--moron-warning"@, "#eab308"@),
        ("--moron-error"@, "#ef4444"@),
        ("--moron-font-sans"@, "\"Inter\", ui-sans-serif, system-ui, sans-serif"@),
        ("--moron-font-mono"@, "\"JetBrains Mono\", ui-monospace, monospace"@),
        ("--moron-text-xs"@, "0.75rem"@),
        ("--moron-text-sm"@, "0.875rem"@),
        ("--moron-text-base"@, "1rem"@),
        ("--moron-text-lg"@, "1.25rem"@),
        ("--moron-text-xl"@, "1.5rem"@),
        ("--moron-text-2xl"@, "2rem"@),
        ("--moron-text-3xl"@, "2.5rem"@),
        ("--moron-text-4xl"@, "3.5rem"@),
        ("--moron-leading-tight"@, "1.15"@),
        ("--moron-leading-normal"@, "1.5"@),
        ("--moron-leading-relaxed"@, "1.75"@),
        ("--moron-font-weight-normal"@, "400"@),
        ("--moron-font-weight-medium"@, "500"@),
        ("--moron-font-weight-semibold"@, "600"@),
        ("--moron-font-weight-bold"@, "700"@),
        ("--moron-space-1"@, "0.25rem"@),
        ("--moron-space-2"@, "0.5rem"@),
        ("--moron-space-3"@, "0.75rem"@),
        ("--moron-space-4"@, "1rem"@),
        ("--moron-space-6"@, "1.5rem"@),
        ("--moron-space-8"@, "2rem"@),
        ("--moron-space-12"@, "3rem"@),
        ("--moron-space-16"@, "4rem"@),
        ("--moron-space-24"@, "6rem"@),
        ("--moron-container-padding"@, "3rem"@),
        ("--moron-radius-sm"@, "0.25rem"@),
        ("--moron-radius-md"@, "0.5rem"@),
        ("--moron-radius-lg"@, "1rem"@),
        ("--moron-radius-full"@, "9999px"@),
        ("--moron-duration-instant"@, "0ms"@),
        ("--moron-duration-fast"@, "150ms"@),
        ("--moron-duration-normal"@, "300ms"@),
        ("--moron-duration-slow"@, "500ms"@),
        ("--moron-duration-slower"@, "800ms"@),
        ("--moron-ease-default"@, "cubic-bezier(0.4, 0, 0.2, 1)"@),
        ("--moron-ease-in"@, "cubic-bezier(0.4, 0, 1, 1)"@),
        ("--moron-ease-out"@, "cubic-bezier(0, 0, 0.2, 1)"@),
        ("--moron-ease-in-out"@, "cubic-bezier(0.4, 0, 0.2, 1)"@),
        ("--moron-ease-spring"@, "cubic-bezier(0.34, 1.56, 0.64, 1)"@),
        ("--moron-shadow-sm"@, "0 1px 2px rgba(0, 0, 0, 0.3)"@),
        ("--moron-shadow-md"@, "0 4px 6px rgba(0, 0, 0, 0.3)"@),
        ("--moron-shadow-lg"@, "0 10px 15px rgba(0, 0, 0, 0.4)"@),
    ]
}

/// The custom properties of the light theme: those of the dark theme with light
/// colours and softer shadows.
pub open spec fn light_css() -> Seq<(Seq<char>, Seq<char>)> {
    seq![
        ("--moron-bg-primary"@, "#ffffff"@),
        ("--moron-bg-secondary"@, "#f1f5f9"@),
        ("--moron-bg-tertiary"@, "#e2e8f0"@),
        ("--moron-fg-primary"@, "#0f172a"@),
        ("--moron-fg-secondary"@, "#334155"@),
        ("--moron-fg-muted"@, "#94a3b8"@),
        ("--moron-accent"@, "#2563eb"@),
        ("--moron-accent-hover"@, "#1d4ed8"@),
        ("--moron-accent-subtle"@, "rgba(37, 99, 235, 0.1)"@),
        ("--moron-success"@, "#16a34a"@),
        ("--moron-warning"@, "#ca8a04"@),
        ("--moron-error"@, "#dc2626"@),
        ("--moron-font-sans"@, "\"Inter\", ui-sans-serif, system-ui, sans-serif"@),
        ("--moron-font-mono"@, "\"JetBrains Mono\", ui-monospace, monospace"@),
        ("--moron-text-xs"@, "0.75rem"@),
        ("--moron-text-sm"@, "0.875rem"@),
        ("--moron-text-base"@, "1rem"@),
        ("--moron-text-lg"@, "1.25rem"@),
        ("--moron-text-xl"@, "1.5rem"@),
        ("--moron-text-2xl"@, "2rem"@),
        ("--moron-text-3xl"@, "2.5rem"@),
        ("--moron-text-4xl"@, "3.5rem"@),
        ("--moron-leading-tight"@, "1.15"@),
        ("--moron-leading-normal"@, "1.5"@),
        ("--moron-leading-relaxed"@, "1.75"@),
        ("--moron-font-weight-normal"@, "400"@),
        ("--moron-font-weight-medium"@, "500"@),
        ("--moron-font-weight-semibold"@, "600"@),
        ("--moron-font-weight-bold"@, "700"@),
        ("--moron-space-1"@, "0.25rem"@),
        ("--moron-space-2"@, "0.5rem"@),
        ("--moron-space-3"@, "0.75rem"@),
        ("--moron-space-4"@, "1rem"@),
        ("--moron-space-6"@, "1.5rem"@),
        ("--moron-space-8"@, "2rem"@),
        ("--moron-space-12"@, "3rem"@),
        ("--moron-space-16"@, "4rem"@),
        ("--moron-space-24"@, "6rem"@),
        ("--moron-container-padding"@, "3rem"@),
        ("--moron-radius-sm"@, "0.25rem"@),
        ("--moron-radius-md"@, "0.5rem"@),
        ("--moron-radius-lg"@, "1rem"@),
        ("--moron-radius-full"@, "9999px"@),
        ("--moron-duration-instant"@, "0ms"@),
        ("--moron-duration-fast"@, "150ms"@),
        ("--moron-duration-normal"@, "300ms"@),
        ("--moron-duration-slow"@, "500ms"@),
        ("--moron-duration-slower"@, "800ms"@),
        ("--moron-ease-default"@, "cubic-bezier(0.4, 0, 0.2, 1)"@),
        ("--moron-ease-in"@, "cubic-bezier(0.4, 0, 1, 1)"@),
        ("--moron-ease-out"@, "cubic-bezier(0, 0, 0.2, 1)"@),
        ("--moron-ease-in-out"@, "cubic-bezier(0.4, 0, 0.2, 1)"@),
        ("--moron-ease-spring"@, "cubic-bezier(0.34, 1.56, 0.64, 1)"@),
        ("--moron-shadow-sm"@, "0 1px 2px rgba(0, 0, 0, 0.08)"@),
        ("--moron-shadow-md"@, "0 4px 6px rgba(0, 0, 0, 0.1)"@),
        ("--moron-shadow-lg"@, "0 10px 15px rgba(0, 0, 0, 0.12)"@),
    ]
}

/// The keys of the custom properties of a theme, in the order of the tokens.
pub open spec fn css_keys() -> Seq<Seq<char>> {
    seq![
        "--moron-bg-primary"@,
        "--moron-bg-secondary"@,
        "--moron-bg-tertiary"@,
        "--moron-fg-primary"@,
        "--moron-fg-secondary"@,
        "--moron-fg-muted"@,
        "--moron-accent"@,
        "--moron-accent-hover"@,
        "--moron-accent-subtle"@,
        "--moron-success"@,
        "--moron-warning"@,
        "--moron-error"@,
        "--moron-font-sans"@,
        "--moron-font-mono"@,
        "--moron-text-xs"@,
        "--moron-text-sm"@,
        "--moron-text-base"@,
        "--moron-text-lg"@,
        "--moron-text-xl"@,
        "--moron-text-2xl"@,
        "--moron-text-3xl"@,
        "--moron-text-4xl"@,
        "--moron-leading-tight"@,
        "--moron-leading-normal"@,
        "--moron-leading-relaxed"@,
        "--moron-font-weight-normal"@,
        "--moron-font-weight-medium"@,
        "--moron-font-weight-semibold"@,
        "--moron-font-weight-bold"@,
        "--moron-space-1"@,
        "--moron-space-2"@,
        "--moron-space-3"@,
        "--moron-space-4"@,
        "--moron-space-6"@,
        "--moron-space-8"@,
        "--moron-space-12"@,
        "--moron-space-16"@,
        "--moron-space-24"@,
        "--moron-container-padding"@,
        "--moron-radius-sm"@,
        "--moron-radius-md"@,
        "--moron-radius-lg"@,
        "--moron-radius-full"@,
        "--moron-duration-instant"@,
        "--moron-duration-fast"@,
        "--moron-duration-normal"@,
        "--moron-duration-slow"@,
        "--moron-duration-slower"@,
        "--moron-ease-default"@,
        "--moron-ease-in"@,
        "--moron-ease-out"@,
        "--moron-ease-in-out"@,
        "--moron-ease-spring"@,
        "--moron-shadow-sm"@,
        "--moron-shadow-md"@,
        "--moron-shadow-lg"@,
    ]
}

/// The position of a key in the list of the keys: that of the first key that
/// it equals, and the last position for any other text.
pub open spec fn key_position(key: Seq<char>) -> int {
    if key == "--moron-bg-primary"@ {
        0
    } else if key == "--moron-bg-secondary"@ {
        1
    } else if key == "--moron-bg-tertiary"@ {
        2
    } else if key == "--moron-fg-primary"@ {
        3
    } else if key == "--moron-fg-secondary"@ {
        4
    } else if key == "--moron-fg-muted"@ {
        5
    } else if key == "--moron-accent"@ {
        6
    } else if key == "--moron-accent-hover"@ {
        7
    } else if key == "--moron-accent-subtle"@ {
        8
    } else if key == "--moron-success"@ {
        9
    } else if key == "--moron-warning"@ {
        10
    } else if key == "--moron-error"@ {
        11
    } else if key == "--moron-font-sans"@ {
        12
    } else if key == "--moron-font-mono"@ {
        13
    } else if key == "--moron-text-xs"@ {
        14
    } else if key == "--moron-text-sm"@ {
        15
    } else if key == "--moron-text-base"@ {
        16
    } else if key == "--moron-text-lg"@ {
        17
    } else if key == "--moron-text-xl"@ {
        18
    } else if key == "--moron-text-2xl"@ {
        19
    } else if key == "--moron-text-3xl"@ {
        20
    } else if key == "--moron-text-4xl"@ {
        21
    } else if key == "--moron-leading-tight"@ {
        22
    } else if key == "--moron-leading-normal"@ {
        23
    } else if key == "--moron-leading-relaxed"@ {
        24
    } else if key == "--moron-font-weight-normal"@ {
        25
    } else if key == "--moron-font-weight-medium"@ {
        26
    } else if key == "--moron-font-weight-semibold"@ {
        27
    } else if key == "--moron-font-weight-bold"@ {
        28
    } else if key == "--moron-space-1"@ {
        29
    } else if key == "--moron-space-2"@ {
        30
    } else if key == "--moron-space-3"@ {
        31
    } else if key == "--moron-space-4"@ {
        32
    } else if key == "--moron-space-6"@ {
        33
    } else if key == "--moron-space-8"@ {
        34
    } else if key == "--moron-space-12"@ {
        35
    } else if key == "--moron-space-16"@ {
        36
    } else if key == "--moron-space-24"@ {
        37
    } else if key == "--moron-container-padding"@ {
        38
    } else if key == "--moron-radius-sm"@ {
        39
    } else if key == "--moron-radius-md"@ {
        40
    } else if key == "--moron-radius-lg"@ {
        41
    } else if key == "--moron-radius-full"@ {
        42
    } else if key == "--moron-duration-instant"@ {
        43
    } else if key == "--moron-duration-fast"@ {
        44
    } else if key == "--moron-duration-normal"@ {
        45
    } else if key == "--moron-duration-slow"@ {
        46
    } else if key == "--moron-duration-slower"@ {
        47
    } else if key == "--moron-ease-default"@ {
        48
    } else if key == "--moron-ease-in"@ {
        49
    } else if key == "--moron-ease-out"@ {
        50
    } else if key == "--moron-ease-in-out"@ {
        51
    } else if key == "--moron-ease-spring"@ {
        52
    } else if key == "--moron-shadow-sm"@ {
        53
    } else if key == "--moron-shadow-md"@ {
        54
    } else {
        55
    }
}

/// No two custom properties share a key: each key stands at one position.
pub proof fn lemma_keys_are_distinct()
    ensures
        css_keys().len() == CSS_PROPERTY_COUNT,
        forall|i: int| 0 <= i < css_keys().len() ==> key_position(#[trigger] css_keys()[i]) == i,
        forall|i: int, j: int|
            0 <= i < j < css_keys().len() ==> #[trigger] css_keys()[i] != #[trigger] css_keys()[j],
{
    // Any two keys differ in their length or in one of five characters.
    reveal_strlit("--moron-bg-primary");
    assert("--moron-bg-primary"@.len() == 18 && "--moron-bg-primary"@[8] == 'b' && "--moron-bg-primary"@[13] == 'i' && "--moron-bg-primary"@[14] == 'm' && "--moron-bg-primary"@[15] == 'a');
    reveal_strlit("--moron-bg-secondary");
    assert("--moron-bg-secondary"@.len() == 20 && "--moron-bg-secondary"@[8] == 'b' && "--moron-bg-secondary"@[13] == 'c' && "--moron-bg-secondary"@[14] == 'o' && "--moron-bg-secondary"@[15] == 'n');
    reveal_strlit("--moron-bg-tertiary");
    assert("--moron-bg-tertiary"@.len() == 19 && "--moron-bg-tertiary"@[8] == 'b' && "--moron-bg-tertiary"@[13] == 'r' && "--moron-bg-tertiary"@[14] == 't' && "--moron-bg-tertiary"@[15] == 'i');
    reveal_strlit("--moron-fg-primary");
    assert("--moron-fg-primary"@.len() == 18 && "--moron-fg-primary"@[8] == 'f' && "--moron-fg-primary"@[13] == 'i' && "--moron-fg-primary"@[14] == 'm' && "--moron-fg-primary"@[15] == 'a');
    reveal_strlit("--moron-fg-secondary");
    assert("--moron-fg-secondary"@.len() == 20 && "--moron-fg-secondary"@[8] == 'f' && "--moron-fg-secondary"@[13] == 'c' && "--moron-fg-secondary"@[14] == 'o' && "--moron-fg-secondary"@[15] == 'n');
    reveal_strlit("--moron-fg-muted");
    assert("--moron-fg-muted"@.len() == 16 && "--moron-fg-muted"@[8] == 'f' && "--moron-fg-muted"@[13] == 't' && "--moron-fg-muted"@[14] == 'e' && "--moron-fg-muted"@[15] == 'd');
    reveal_strlit("--moron-accent");
    assert("--moron-accent"@.len() == 14 && "--moron-accent"@[8] == 'a' && "--moron-accent"@[13] == 't');
    reveal_strlit("--moron-accent-hover");
    assert("--moron-accent-hover"@.len() == 20 && "--moron-accent-hover"@[8] == 'a' && "--moron-accent-hover"@[13] == 't' && "--moron-accent-hover"@[14] == '-' && "--moron-accent-hover"@[15] == 'h');
    reveal_strlit("--moron-accent-subtle");
    assert("--moron-accent-subtle"@.len() == 21 && "--moron-accent-subtle"@[8] == 'a' && "--moron-accent-subtle"@[13] == 't' && "--moron-accent-subtle"@[14] == '-' && "--moron-accent-subtle"@[15] == 's' && "--moron-accent-subtle"@[20] == 'e');
    reveal_strlit("--moron-success");
    assert("--moron-success"@.len() == 15 && "--moron-success"@[8] == 's' && "--moron-success"@[13] == 's' && "--moron-success"@[14] == 's');
    reveal_strlit("--moron-warning");
    assert("--moron-warning"@.len() == 15 && "--moron-warning"@[8] == 'w' && "--moron-warning"@[13] == 'n' && "--moron-warning"@[14] == 'g');
    reveal_strlit("--moron-error");
    assert("--moron-error"@.len() == 13 && "--moron-error"@[8] == 'e');
    reveal_strlit("--moron-font-sans");
    assert("--moron-font-sans"@.len() == 17 && "--moron-font-sans"@[8] == 'f' && "--moron-font-sans"@[13] == 's' && "--moron-font-sans"@[14] == 'a' && "--moron-font-sans"@[15] == 'n');
    reveal_strlit("--moron-font-mono");
    assert("--moron-font-mono"@.len() == 17 && "--moron-font-mono"@[8] == 'f' && "--moron-font-mono"@[13] == 'm' && "--moron-font-mono"@[14] == 'o' && "--moron-font-mono"@[15] == 'n');
    reveal_strlit("--moron-text-xs");
    assert("--moron-text-xs"@.len() == 15 && "--moron-text-xs"@[8] == 't' && "--moron-text-xs"@[13] == 'x' && "--moron-text-xs"@[14] == 's');
    reveal_strlit("--moron-text-sm");
    assert("--moron-text-sm"@.len() == 15 && "--moron-text-sm"@[8] == 't' && "--moron-text-sm"@[13] == 's' && "--moron-text-sm"@[14] == 'm');
    reveal_strlit("--moron-text-base");
    assert("--moron-text-base"@.len() == 17 && "--moron-text-base"@[8] == 't' && "--moron-text-base"@[13] == 'b' && "--moron-text-base"@[14] == 'a' && "--moron-text-base"@[15] == 's');
    reveal_strlit("--moron-text-lg");
    assert("--moron-text-lg"@.len() == 15 && "--moron-text-lg"@[8] == 't' && "--moron-text-lg"@[13] == 'l' && "--moron-text-lg"@[14] == 'g');
    reveal_strlit("--moron-text-xl");
    assert("--moron-text-xl"@.len() == 15 && "--moron-text-xl"@[8] == 't' && "--moron-text-xl"@[13] == 'x' && "--moron-text-xl"@[14] == 'l');
    reveal_strlit("--moron-text-2xl");
    assert("--moron-text-2xl"@.len() == 16 && "--moron-text-2xl"@[8] == 't' && "--moron-text-2xl"@[13] == '2' && "--moron-text-2xl"@[14] == 'x' && "--moron-text-2xl"@[15] == 'l');
    reveal_strlit("--moron-text-3xl");
    assert("--moron-text-3xl"@.len() == 16 && "--moron-text-3xl"@[8] == 't' && "--moron-text-3xl"@[13] == '3' && "--moron-text-3xl"@[14] == 'x' && "--moron-text-3xl"@[15] == 'l');
    reveal_strlit("--moron-text-4xl");
    assert("--moron-text-4xl"@.len() == 16 && "--moron-text-4xl"@[8] == 't' && "--moron-text-4xl"@[13] == '4' && "--moron-text-4xl"@[14] == 'x' && "--moron-text-4xl"@[15] == 'l');
    reveal_strlit("--moron-leading-tight");
    assert("--moron-leading-tight"@.len() == 21 && "--moron-leading-tight"@[8] == 'l' && "--moron-leading-tight"@[13] == 'n' && "--moron-leading-tight"@[14] == 'g' && "--moron-leading-tight"@[15] == '-' && "--moron-leading-tight"@[20] == 't');
    reveal_strlit("--moron-leading-normal");
    assert("--moron-leading-normal"@.len() == 22 && "--moron-leading-normal"@[8] == 'l' && "--moron-leading-normal"@[13] == 'n' && "--moron-leading-normal"@[14] == 'g' && "--moron-leading-normal"@[15] == '-' && "--moron-leading-normal"@[20] == 'a');
    reveal_strlit("--moron-leading-relaxed");
    assert("--moron-leading-relaxed"@.len() == 23 && "--moron-leading-relaxed"@[8] == 'l' && "--moron-leading-relaxed"@[13] == 'n' && "--moron-leading-relaxed"@[14] == 'g' && "--moron-leading-relaxed"@[15] == '-' && "--moron-leading-relaxed"@[20] == 'x');
    reveal_strlit("--moron-font-weight-normal");
    assert("--moron-font-weight-normal"@.len() == 26 && "--moron-font-weight-normal"@[8] == 'f' && "--moron-font-weight-normal"@[13] == 'w' && "--moron-font-weight-normal"@[14] == 'e' && "--moron-font-weight-normal"@[15] == 'i' && "--moron-font-weight-normal"@[20] == 'n');
    reveal_strlit("--moron-font-weight-medium");
    assert("--moron-font-weight-medium"@.len() == 26 && "--moron-font-weight-medium"@[8] == 'f' && "--moron-font-weight-medium"@[13] == 'w' && "--moron-font-weight-medium"@[14] == 'e' && "--moron-font-weight-medium"@[15] == 'i' && "--moron-font-weight-medium"@[20] == 'm');
    reveal_strlit("--moron-font-weight-semibold");
    assert("--moron-font-weight-semibold"@.len() == 28 && "--moron-font-weight-semibold"@[8] == 'f' && "--moron-font-weight-semibold"@[13] == 'w' && "--moron-font-weight-semibold"@[14] == 'e' && "--moron-font-weight-semibold"@[15] == 'i' && "--moron-font-weight-semibold"@[20] == 's');
    reveal_strlit("--moron-font-weight-bold");
    assert("--moron-font-weight-bold"@.len() == 24 && "--moron-font-weight-bold"@[8] == 'f' && "--moron-font-weight-bold"@[13] == 'w' && "--moron-font-weight-bold"@[14] == 'e' && "--moron-font-weight-bold"@[15] == 'i' && "--moron-font-weight-bold"@[20] == 'b');
    reveal_strlit("--moron-space-1");
    assert("--moron-space-1"@.len() == 15 && "--moron-space-1"@[8] == 's' && "--moron-space-1"@[13] == '-' && "--moron-space-1"@[14] == '1');
    reveal_strlit("--moron-space-2");
    assert("--moron-space-2"@.len() == 15 && "--moron-space-2"@[8] == 's' && "--moron-space-2"@[13] == '-' && "--moron-space-2"@[14] == '2');
    reveal_strlit("--moron-space-3");
    assert("--moron-space-3"@.len() == 15 && "--moron-space-3"@[8] == 's' && "--moron-space-3"@[13] == '-' && "--moron-space-3"@[14] == '3');
    reveal_strlit("--moron-space-4");
    assert("--moron-space-4"@.len() == 15 && "--moron-space-4"@[8] == 's' && "--moron-space-4"@[13] == '-' && "--moron-space-4"@[14] == '4');
    reveal_strlit("--moron-space-6");
    assert("--moron-space-6"@.len() == 15 && "--moron-space-6"@[8] == 's' && "--moron-space-6"@[13] == '-' && "--moron-space-6"@[14] == '6');
    reveal_strlit("--moron-space-8");
    assert("--moron-space-8"@.len() == 15 && "--moron-space-8"@[8] == 's' && "--moron-space-8"@[13] == '-' && "--moron-space-8"@[14] == '8');
    reveal_strlit("--moron-space-12");
    assert("--moron-space-12"@.len() == 16 && "--moron-space-12"@[8] == 's' && "--moron-space-12"@[13] == '-' && "--moron-space-12"@[14] == '1' && "--moron-space-12"@[15] == '2');
    reveal_strlit("--moron-space-16");
    assert("--moron-space-16"@.len() == 16 && "--moron-space-16"@[8] == 's' && "--moron-space-16"@[13] == '-' && "--moron-space-16"@[14] == '1' && "--moron-space-16"@[15] == '6');
    reveal_strlit("--moron-space-24");
    assert("--moron-space-24"@.len() == 16 && "--moron-space-24"@[8] == 's' && "--moron-space-24"@[13] == '-' && "--moron-space-24"@[14] == '2' && "--moron-space-24"@[15] == '4');
    reveal_strlit("--moron-container-padding");
    assert("--moron-container-padding"@.len() == 25 && "--moron-container-padding"@[8] == 'c' && "--moron-container-padding"@[13] == 'i' && "--moron-container-padding"@[14] == 'n' && "--moron-container-padding"@[15] == 'e' && "--moron-container-padding"@[20] == 'd');
    reveal_strlit("--moron-radius-sm");
    assert("--moron-radius-sm"@.len() == 17 && "--moron-radius-sm"@[8] == 'r' && "--moron-radius-sm"@[13] == 's' && "--moron-radius-sm"@[14] == '-' && "--moron-radius-sm"@[15] == 's');
    reveal_strlit("--moron-radius-md");
    assert("--moron-radius-md"@.len() == 17 && "--moron-radius-md"@[8] == 'r' && "--moron-radius-md"@[13] == 's' && "--moron-radius-md"@[14] == '-' && "--moron-radius-md"@[15] == 'm');
    reveal_strlit("--moron-radius-lg");
    assert("--moron-radius-lg"@.len() == 17 && "--moron-radius-lg"@[8] == 'r' && "--moron-radius-lg"@[13] == 's' && "--moron-radius-lg"@[14] == '-' && "--moron-radius-lg"@[15] == 'l');
    reveal_strlit("--moron-radius-full");
    assert("--moron-radius-full"@.len() == 19 && "--moron-radius-full"@[8] == 'r' && "--moron-radius-full"@[13] == 's' && "--moron-radius-full"@[14] == '-' && "--moron-radius-full"@[15] == 'f');
    reveal_strlit("--moron-duration-instant");
    assert("--moron-duration-instant"@.len() == 24 && "--moron-duration-instant"@[8] == 'd' && "--moron-duration-instant"@[13] == 'i' && "--moron-duration-instant"@[14] == 'o' && "--moron-duration-instant"@[15] == 'n' && "--moron-duration-instant"@[20] == 't');
    reveal_strlit("--moron-duration-fast");
    assert("--moron-duration-fast"@.len() == 21 && "--moron-duration-fast"@[8] == 'd' && "--moron-duration-fast"@[13] == 'i' && "--moron-duration-fast"@[14] == 'o' && "--moron-duration-fast"@[15] == 'n' && "--moron-duration-fast"@[20] == 't');
    reveal_strlit("--moron-duration-normal");
    assert("--moron-duration-normal"@.len() == 23 && "--moron-duration-normal"@[8] == 'd' && "--moron-duration-normal"@[13] == 'i' && "--moron-duration-normal"@[14] == 'o' && "--moron-duration-normal"@[15] == 'n' && "--moron-duration-normal"@[20] == 'm');
    reveal_strlit("--moron-duration-slow");
    assert("--moron-duration-slow"@.len() == 21 && "--moron-duration-slow"@[8] == 'd' && "--moron-duration-slow"@[13] == 'i' && "--moron-duration-slow"@[14] == 'o' && "--moron-duration-slow"@[15] == 'n' && "--moron-duration-slow"@[20] == 'w');
    reveal_strlit("--moron-duration-slower");
    assert("--moron-duration-slower"@.len() == 23 && "--moron-duration-slower"@[8] == 'd' && "--moron-duration-slower"@[13] == 'i' && "--moron-duration-slower"@[14] == 'o' && "--moron-duration-slower"@[15] == 'n' && "--moron-duration-slower"@[20] == 'w');
    reveal_strlit("--moron-ease-default");
    assert("--moron-ease-default"@.len() == 20 && "--moron-ease-default"@[8] == 'e' && "--moron-ease-default"@[13] == 'd' && "--moron-ease-default"@[14] == 'e' && "--moron-ease-default"@[15] == 'f');
    reveal_strlit("--moron-ease-in");
    assert("--moron-ease-in"@.len() == 15 && "--moron-ease-in"@[8] == 'e' && "--moron-ease-in"@[13] == 'i' && "--moron-ease-in"@[14] == 'n');
    reveal_strlit("--moron-ease-out");
    assert("--moron-ease-out"@.len() == 16 && "--moron-ease-out"@[8] == 'e' && "--moron-ease-out"@[13] == 'o' && "--moron-ease-out"@[14] == 'u' && "--moron-ease-out"@[15] == 't');
    reveal_strlit("--moron-ease-in-out");
    assert("--moron-ease-in-out"@.len() == 19 && "--moron-ease-in-out"@[8] == 'e' && "--moron-ease-in-out"@[13] == 'i' && "--moron-ease-in-out"@[14] == 'n' && "--moron-ease-in-out"@[15] == '-');
    reveal_strlit("--moron-ease-spring");
    assert("--moron-ease-spring"@.len() == 19 && "--moron-ease-spring"@[8] == 'e' && "--moron-ease-spring"@[13] == 's' && "--moron-ease-spring"@[14] == 'p' && "--moron-ease-spring"@[15] == 'r');
    reveal_strlit("--moron-shadow-sm");
    assert("--moron-shadow-sm"@.len() == 17 && "--moron-shadow-sm"@[8] == 's' && "--moron-shadow-sm"@[13] == 'w' && "--moron-shadow-sm"@[14] == '-' && "--moron-shadow-sm"@[15] == 's');
    reveal_strlit("--moron-shadow-md");
    assert("--moron-shadow-md"@.len() == 17 && "--moron-shadow-md"@[8] == 's' && "--moron-shadow-md"@[13] == 'w' && "--moron-shadow-md"@[14] == '-' && "--moron-shadow-md"@[15] == 'm');
    reveal_strlit("--moron-shadow-lg");
    assert("--moron-shadow-lg"@.len() == 17 && "--moron-shadow-lg"@[8] == 's' && "--moron-shadow-lg"@[13] == 'w' && "--moron-shadow-lg"@[14] == '-' && "--moron-shadow-lg"@[15] == 'l');
    assert forall|i: int| 0 <= i < css_keys().len() implies key_position(
        #[trigger] css_keys()[i],
    ) == i by {
        if i == 0 {
            assert(css_keys()[0] == "--moron-bg-primary"@);
        } else if i == 1 {
            assert(css_keys()[1] == "--moron-bg-secondary"@);
        } else if i == 2 {
            assert(css_keys()[2] == "--moron-bg-tertiary"@);
        } else if i == 3 {
            assert(css_keys()[3] == "--moron-fg-primary"@);
        } else if i == 4 {
            assert(css_keys()[4] == "--moron-fg-secondary"@);
        } else if i == 5 {
            assert(css_keys()[5] == "--moron-fg-muted"@);
        } else if i == 6 {
            assert(css_keys()[6] == "--moron-accent"@);
        } else if i == 7 {
            assert(css_keys()[7] == "--moron-accent-hover"@);
        } else if i == 8 {
            assert(css_keys()[8] == "--moron-accent-subtle"@);
        } else if i == 9 {
            assert(css_keys()[9] == "--moron-success"@);
        } else if i == 10 {
            assert(css_keys()[10] == "--moron-warning"@);
        } else if i == 11 {
            assert(css_keys()[11] == "--moron-error"@);
        } else if i == 12 {
            assert(css_keys()[12] == "--moron-font-sans"@);
        } else if i == 13 {
            assert(css_keys()[13] == "--moron-font-mono"@);
        } else if i == 14 {
            assert(css_keys()[14] == "--moron-text-xs"@);
        } else if i == 15 {
            assert(css_keys()[15] == "--moron-text-sm"@);
        } else if i == 16 {
            assert(css_keys()[16] == "--moron-text-base"@);
        } else if i == 17 {
            assert(css_keys()[17] == "--moron-text-lg"@);
        } else if i == 18 {
            assert(css_keys()[18] == "--moron-text-xl"@);
        } else if i == 19 {
            assert(css_keys()[19] == "--moron-text-2xl"@);
        } else if i == 20 {
            assert(css_keys()[20] == "--moron-text-3xl"@);
        } else if i == 21 {
            assert(css_keys()[21] == "--moron-text-4xl"@);
        } else if i == 22 {
            assert(css_keys()[22] == "--moron-leading-tight"@);
        } else if i == 23 {
            assert(css_keys()[23] == "--moron-leading-normal"@);
        } else if i == 24 {
            assert(css_keys()[24] == "--moron-leading-relaxed"@);
        } else if i == 25 {
            assert(css_keys()[25] == "--moron-font-weight-normal"@);
        } else if i == 26 {
            assert(css_keys()[26] == "--moron-font-weight-medium"@);
        } else if i == 27 {
            assert(css_keys()[27] == "--moron-font-weight-semibold"@);
        } else if i == 28 {
            assert(css_keys()[28] == "--moron-font-weight-bold"@);
        } else if i == 29 {
            assert(css_keys()[29] == "--moron-space-1"@);
        } else if i == 30 {
            assert(css_keys()[30] == "--moron-space-2"@);
        } else if i == 31 {
            assert(css_keys()[31] == "--moron-space-3"@);
        } else if i == 32 {
            assert(css_keys()[32] == "--moron-space-4"@);
        } else if i == 33 {
            assert(css_keys()[33] == "--moron-space-6"@);
        } else if i == 34 {
            assert(css_keys()[34] == "--moron-space-8"@);
        } else if i == 35 {
            assert(css_keys()[35] == "--moron-space-12"@);
        } else if i == 36 {
            assert(css_keys()[36] == "--moron-space-16"@);
        } else if i == 37 {
            assert(css_keys()[37] == "--moron-space-24"@);
        } else if i == 38 {
            assert(css_keys()[38] == "--moron-container-padding"@);
        } else if i == 39 {
            assert(css_keys()[39] == "--moron-radius-sm"@);
        } else if i == 40 {
            assert(css_keys()[40] == "--moron-radius-md"@);
        } else if i == 41 {
            assert(css_keys()[41] == "--moron-radius-lg"@);
        } else if i == 42 {
            assert(css_keys()[42] == "--moron-radius-full"@);
        } else if i == 43 {
            assert(css_keys()[43] == "--moron-duration-instant"@);
        } else if i == 44 {
            assert(css_keys()[44] == "--moron-duration-fast"@);
        } else if i == 45 {
            assert(css_keys()[45] == "--moron-duration-normal"@);
        } else if i == 46 {
            assert(css_keys()[46] == "--moron-duration-slow"@);
        } else if i == 47 {
            assert(css_keys()[47] == "--moron-duration-slower"@);
        } else if i == 48 {
            assert(css_keys()[48] == "--moron-ease-default"@);
        } else if i == 49 {
            assert(css_keys()[49] == "--moron-ease-in"@);
        } else if i == 50 {
            assert(css_keys()[50] == "--moron-ease-out"@);
        } else if i == 51 {
            assert(css_keys()[51] == "--moron-ease-in-out"@);
        } else if i == 52 {
            assert(css_keys()[52] == "--moron-ease-spring"@);
        } else if i == 53 {
            assert(css_keys()[53] == "--moron-shadow-sm"@);
        } else if i == 54 {
            assert(css_keys()[54] == "--moron-shadow-md"@);
        } else if i == 55 {
            assert(css_keys()[55] == "--moron-shadow-lg"@);
        }
    }
}

/// A complete theme: a name and every design token that the page needs.
#[derive(Debug, Clone, PartialEq, Eq)]
pub struct Theme {
    pub name: String,
    pub colors: ThemeColors,
    pub typography: ThemeTypography,
    pub spacing: ThemeSpacing,
    pub timing: ThemeTiming,
    pub shadows: ThemeShadows,
}

/// The number of custom properties of a theme.
pub const CSS_PROPERTY_COUNT: usize = 56;

impl Theme {
    /// The custom properties of the theme: colours, typography, spacing,
    /// timing and shadows, in that order.
    pub open spec fn css_pairs(&self) -> Seq<(Seq<char>, Seq<char>)> {
        self.colors.css_pairs() + self.typography.css_pairs() + self.spacing.css_pairs()
            + self.timing.css_pairs() + self.shadows.css_pairs()
    }

    /// The key of every custom property of a theme starts with `--moron-`.
    pub proof fn lemma_keys_share_prefix(&self)
        ensures
            forall|i: int|
                0 <= i < self.css_pairs().len() ==> has_prefix(
                    (#[trigger] self.css_pairs()[i]).0,
                    "--moron-"@,
                ),
            self.css_pairs().len() == CSS_PROPERTY_COUNT,
    {
        self.colors.lemma_keys_share_prefix();
        self.typography.lemma_keys_share_prefix();
        self.spacing.lemma_keys_share_prefix();
        self.timing.lemma_keys_share_prefix();
        self.shadows.lemma_keys_share_prefix();
    }

    /// The custom properties of a theme carry the keys of `css_keys`, in their
    /// order, so no two of them share a key.
    pub proof fn lemma_pairs_have_distinct_keys(&self)
        ensures
            self.css_pairs().len() == CSS_PROPERTY_COUNT,
            self.css_pairs().map_values(|pair: (Seq<char>, Seq<char>)| pair.0) == css_keys(),
            forall|i: int, j: int|
                0 <= i < j < self.css_pairs().len() ==> (#[trigger] self.css_pairs()[i]).0 != (
                #[trigger] self.css_pairs()[j]).0,
    {
        lemma_keys_are_distinct();
        let keys = self.css_pairs().map_values(|pair: (Seq<char>, Seq<char>)| pair.0);
        assert(keys =~= css_keys());
        assert forall|i: int, j: int| 0 <= i < j < self.css_pairs().len() implies (
        #[trigger] self.css_pairs()[i]).0 != (#[trigger] self.css_pairs()[j]).0 by {
            assert(keys[i] == css_keys()[i] && keys[j] == css_keys()[j]);
        }
    }

    /// The theme as a list of CSS custom properties, one pair of key and value
    /// for each token.
    pub fn to_css_properties(&self) -> (props: Vec<(String, String)>)
        ensures
            pair_views(props@) == self.css_pairs(),
            props@.len() == CSS_PROPERTY_COUNT,
    {
        let mut props: Vec<(String, String)> = Vec::new();
        assert(pair_views(props@) =~= Seq::empty());
        self.colors.append_css(&mut props);
        self.typography.append_css(&mut props);
        self.spacing.append_css(&mut props);
        self.timing.append_css(&mut props);
        self.shadows.append_css(&mut props);
        assert(pair_views(props@) =~= self.css_pairs());
        assert(pair_views(props@).len() == props@.len());
        props
    }

    /// The light theme: the typography, spacing and timing of the dark theme
    /// with light colours and softer shadows.
    pub fn light() -> (t: Theme)
        ensures
            t.name@ == "moron-light"@,
            t.css_pairs() == light_css(),
    {
        let t = Theme {
            name: String::from_str("moron-light"),
            colors: ThemeColors::light(),
            typography: ThemeTypography::default(),
            spacing: ThemeSpacing::default(),
            timing: ThemeTiming::default(),
            shadows: ThemeShadows::light(),
        };
        assert(t.css_pairs() =~= light_css());
        t
    }
}

impl Default for Theme {
    /// The dark theme.
    fn default() -> (t: Theme)
        ensures
            t.name@ == "moron-dark"@,
            t.css_pairs() == dark_css(),
    {
        let t = Theme {
            name: String::from_str("moron-dark"),
            colors: ThemeColors::default(),
            typography: ThemeTypography::default(),
            spacing: ThemeSpacing::default(),
            timing: ThemeTiming::default(),
            shadows: ThemeShadows::default(),
        };
        assert(t.css_pairs() =~= dark_css());
        t
    }
}

} // verus!
