//! Timing and animation evaluation for scripted explainer videos.
//!
//! A scene is authored as an ordered run of commands against the scene registry
//! [`facade::M`]. The registry owns a [`timeline::Timeline`] of typed segments,
//! the elements that were put on screen and the techniques that animate them.
//! For any instant, [`frame::compute_frame_state`] gives the complete visual
//! snapshot: which elements are on screen, their transforms, their layout
//! positions and the narration that is spoken.
//!
//! All quantities are fixed-point integers that count millionths; see
//! [`units`].
pub mod any_technique;
pub mod audio;
pub mod chromium;
pub mod cli;
pub mod data;
pub mod demo;
pub mod facade;
pub mod ffmpeg;
pub mod frame;
pub mod kokoro;
pub mod motion;
pub mod piper;
pub mod pipeline;
pub mod positions;
pub mod renderer;
pub mod reveals;
pub mod staging;
pub mod technique;
pub mod text;
pub mod theme;
pub mod timeline;
pub mod units;
pub mod voice;
pub mod what_is_moron;

pub use any_technique::{AnyTechnique, Playable};
pub use audio::{AudioClip, AudioError, DEFAULT_SAMPLE_RATE};
pub use chromium::{BridgeConfig, BridgeError};
pub use data::CountUp;
pub use demo::DemoScene;
pub use facade::{
    Direction, Element, ElementRecord, ResolveDurationError, Scene, BEAT_DURATION,
    BREATH_DURATION, M,
};
pub use ffmpeg::{assemble_audio_track, EncodeConfig, FfmpegError};
pub use frame::{
    compute_frame_state, ElementKind, ElementState, FrameState, ItemState, ThemeState,
};
pub use kokoro::{KokoroConfig, KokoroError, KokoroVoice, KOKORO_SAMPLE_RATE};
pub use motion::{Scale, Slide};
pub use pipeline::{BuildError, BuildProgress, BuildResult};
pub use piper::PiperBackend;
pub use renderer::{RenderError, RenderProgress, RenderResult};
pub use reveals::{FadeIn, FadeUp};
pub use staging::Stagger;
pub use technique::{ease, Ease, Technique, TechniqueExt, TechniqueOutput, WithEase};
pub use theme::{Theme, ThemeColors, ThemeShadows, ThemeSpacing, ThemeTiming, ThemeTypography};
pub use timeline::{Segment, Timeline, TimelineBuilder};
pub use voice::{Voice, VoiceBackend, VoiceBackendType};
pub use what_is_moron::WhatIsMoronScene;
