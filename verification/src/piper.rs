//! The fallback local engine.
use crate::audio::AudioClip;
use crate::voice::VoiceBackend;
use vstd::prelude::*;
use vstd::string::StringExecFns;

verus! {

/// The fallback local engine for speech. No engine stands behind it, so it
/// speaks nothing.
#[derive(Debug, Clone, Copy, PartialEq, Eq, Structural)]
pub struct PiperBackend;

/// The cause with which the fallback engine fails.
pub open spec fn piper_unavailable() -> Seq<char> {
    "piper synthesis is not available"@
}

impl VoiceBackend for PiperBackend {
    /// Fails, whatever the text.
    fn synthesize(&self, text: &str) -> (outcome: Result<AudioClip, String>)
        ensures
            outcome matches Err(cause) && cause@ == piper_unavailable(),
    {
        Err(String::from_str("piper synthesis is not available"))
    }

    /// The name of the backend.
    fn name(&self) -> (n: &str)
        ensures
            n@ == "piper"@,
    {
        "piper"
    }
}

} // verus!
