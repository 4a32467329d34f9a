//! Voice configuration: which synthesis backend speaks the narration, and how.
use crate::audio::AudioClip;
use crate::units::ONE;
use vstd::prelude::*;

verus! {

/// What every backend for speech offers. A backend reaches outside the
/// crate, so nothing is promised of what it gives.
pub trait VoiceBackend {
    /// Speaks the text: gives the clip, or the cause of the failure.
    fn synthesize(&self, text: &str) -> Result<AudioClip, String>;

    /// The name of the backend.
    fn name(&self) -> &str;
}

/// The kinds of backend that can speak a narration.
#[derive(Debug, Clone, PartialEq, Eq)]
pub enum VoiceBackendType {
    /// The primary local engine.
    Kokoro,
    /// The fallback local engine.
    Piper,
    /// A remote provider, by name.
    ApiProvider(String),
    /// A recording on disk, by path.
    PreRecorded(String),
}

/// A voice: the backend and the parameters of the synthesis.
#[derive(Debug, Clone)]
pub struct Voice {
    /// The backend that speaks.
    pub backend_type: VoiceBackendType,
    /// The speed of speech as a ratio, `ONE` for the normal speed.
    pub speed: u64,
    /// The pitch as a ratio, `ONE` for the normal pitch.
    pub pitch: u64,
}

impl Voice {
    /// The primary local engine at normal speed and pitch.
    pub fn kokoro() -> (v: Voice)
        ensures
            v.backend_type == VoiceBackendType::Kokoro,
            v.speed == ONE,
            v.pitch == ONE,
    {
        Voice { backend_type: VoiceBackendType::Kokoro, speed: ONE, pitch: ONE }
    }

    /// The fallback local engine at normal speed and pitch.
    pub fn piper() -> (v: Voice)
        ensures
            v.backend_type == VoiceBackendType::Piper,
            v.speed == ONE,
            v.pitch == ONE,
    {
        Voice { backend_type: VoiceBackendType::Piper, speed: ONE, pitch: ONE }
    }

    /// The recording at `path`, at normal speed and pitch.
    pub fn file(path: &str) -> (v: Voice)
        ensures
            v.backend_type matches VoiceBackendType::PreRecorded(p) && p@ == path@,
            v.speed == ONE,
            v.pitch == ONE,
    {
        Voice {
            backend_type: VoiceBackendType::PreRecorded(path.to_owned()),
            speed: ONE,
            pitch: ONE,
        }
    }
}

} // verus!
