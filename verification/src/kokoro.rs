//! The primary local engine for speech: its voices, its settings and what can
//! go wrong with it.
//!
//! The engine itself, which loads a model and speaks, belongs to the caller.
use crate::units::ONE;
use vstd::prelude::*;
use vstd::string::StringExecFns;

verus! {

/// The sample rate of the speech that the engine gives: 24 kHz.
pub const KOKORO_SAMPLE_RATE: u32 = 24000;

/// What can go wrong with the engine.
#[derive(Debug, Clone, PartialEq, Eq)]
pub enum KokoroError {
    /// The model file was not found at the given path.
    ModelNotFound(String),
    /// The voices file was not found at the given path.
    VoicesNotFound(String),
    /// The model could not be loaded.
    ModelLoadFailed(String),
    /// The synthesis failed.
    SynthesisFailed(String),
    /// The text to speak was empty.
    EmptyText,
    /// The runtime for the engine could not be created.
    RuntimeCreationFailed(String),
}

impl KokoroError {
    /// The message of the error.
    pub open spec fn spec_message(&self) -> Seq<char> {
        match self {
            KokoroError::ModelNotFound(path) => "kokoro model not found: "@ + path@,
            KokoroError::VoicesNotFound(path) => "kokoro voices file not found: "@ + path@,
            KokoroError::ModelLoadFailed(cause) => "kokoro model load failed: "@ + cause@,
            KokoroError::SynthesisFailed(cause) => "kokoro synthesis failed: "@ + cause@,
            KokoroError::EmptyText => "cannot synthesize empty text"@,
            KokoroError::RuntimeCreationFailed(cause) => "failed to create tokio runtime: "@
                + cause@,
        }
    }

    /// The message of the error.
    pub fn message(&self) -> (s: String)
        ensures
            s@ == self.spec_message(),
    {
        match self {
            KokoroError::ModelNotFound(path) => String::from_str("kokoro model not found: ").concat(
                path.as_str(),
            ),
            KokoroError::VoicesNotFound(path) => String::from_str(
                "kokoro voices file not found: ",
            ).concat(path.as_str()),
            KokoroError::ModelLoadFailed(cause) => String::from_str(
                "kokoro model load failed: ",
            ).concat(cause.as_str()),
            KokoroError::SynthesisFailed(cause) => String::from_str(
                "kokoro synthesis failed: ",
            ).concat(cause.as_str()),
            KokoroError::EmptyText => String::from_str("cannot synthesize empty text"),
            KokoroError::RuntimeCreationFailed(cause) => String::from_str(
                "failed to create tokio runtime: ",
            ).concat(cause.as_str()),
        }
    }
}

/// The voices of the engine that this crate offers.
#[derive(Debug, Clone, Copy, PartialEq, Eq, Hash, Structural)]
pub enum KokoroVoice {
    /// American, female: warm and friendly.
    AfHeart,
    /// American, female: bright and clear.
    AfSky,
    /// American, female: calm and professional.
    AfBella,
    /// American, female: a smooth narrator.
    AfNova,
    /// American, female: natural and conversational.
    AfSarah,
    /// American, male: neutral and clear.
    AmAdam,
    /// American, male: energetic.
    AmPuck,
    /// American, male: deep and authoritative.
    AmEric,
    /// American, male: a warm narrator.
    AmMichael,
    /// British, female: elegant.
    BfEmma,
    /// British, male: a clear narrator.
    BmGeorge,
    /// British, male: a warm storyteller.
    BmLewis,
}

impl Default for KokoroVoice {
    /// The warm and friendly American female voice.
    fn default() -> (v: KokoroVoice)
        ensures
            v == KokoroVoice::AfHeart,
    {
        KokoroVoice::AfHeart
    }
}

/// The settings of the engine.
#[derive(Debug, Clone)]
pub struct KokoroConfig {
    /// The path of the model file.
    pub model_path: String,
    /// The path of the voices file.
    pub voices_path: String,
    /// The voice.
    pub voice: KokoroVoice,
    /// The speed of speech as a ratio, `ONE` for the normal speed.
    pub speed: u64,
}

impl KokoroConfig {
    /// Settings for the model and the voices at the given paths, with the
    /// default voice at normal speed.
    pub fn new(model_path: &str, voices_path: &str) -> (config: KokoroConfig)
        ensures
            config.model_path@ == model_path@,
            config.voices_path@ == voices_path@,
            config.voice == KokoroVoice::AfHeart,
            config.speed == ONE,
    {
        KokoroConfig {
            model_path: model_path.to_owned(),
            voices_path: voices_path.to_owned(),
            voice: KokoroVoice::AfHeart,
            speed: ONE,
        }
    }

    /// The same settings with another voice.
    pub fn with_voice(self, voice: KokoroVoice) -> (config: KokoroConfig)
        ensures
            config == (KokoroConfig { voice, ..self }),
    {
        let mut config = self;
        config.voice = voice;
        config
    }

    /// The same settings with another speed.
    pub fn with_speed(self, speed: u64) -> (config: KokoroConfig)
        ensures
            config == (KokoroConfig { speed, ..self }),
    {
        let mut config = self;
        config.speed = speed;
        config
    }

    /// Checks that both files were found. The model is checked first.
    pub fn validate(&self, model_found: bool, voices_found: bool) -> (outcome: Result<
        (),
        KokoroError,
    >)
        ensures
            match outcome {
                Ok(()) => model_found && voices_found,
                Err(KokoroError::ModelNotFound(path)) => !model_found && path == self.model_path,
                Err(KokoroError::VoicesNotFound(path)) => model_found && !voices_found && path
                    == self.voices_path,
                Err(_) => false,
            },
    {
        if !model_found {
            return Err(KokoroError::ModelNotFound(self.model_path.clone()));
        }
        if !voices_found {
            return Err(KokoroError::VoicesNotFound(self.voices_path.clone()));
        }
        Ok(())
    }
}

/// Whether a text can be spoken: whether it holds a character that is no
/// white space.
pub open spec fn speakable(text: Seq<char>) -> bool {
    crate::text::word_count(text) > 0
}

/// Checks that a text can be spoken. A text of nothing but white space gives
/// the error `EmptyText`.
pub fn check_text(text: &str) -> (outcome: Result<(), KokoroError>)
    ensures
        match outcome {
            Ok(()) => speakable(text@),
            Err(e) => !speakable(text@) && e == KokoroError::EmptyText,
        },
{
    if crate::text::count_words(text) == 0 {
        Err(KokoroError::EmptyText)
    } else {
        Ok(())
    }
}

} // verus!
