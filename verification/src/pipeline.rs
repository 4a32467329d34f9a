//! The build pipeline in plain values: its progress, its result, what can go
//! wrong, and the decisions between its stages.
//!
//! The pipeline speaks the narrations, resolves their durations, draws the
//! frames, encodes the video and joins it with the audio track. The stages
//! that reach outside belong to the caller; what is decided between them
//! stands here.
use crate::audio::{duration_of, samples_in, AudioClip, AudioError, DEFAULT_SAMPLE_RATE};
use crate::facade::{ResolveDurationError, M};
use crate::ffmpeg::{assemble_audio_track, track_data, track_piece, FfmpegError};
use crate::positions::positions_below;
use crate::renderer::RenderError;
use crate::text::{decimal, decimal_digits};
use crate::timeline::{
    lemma_resolved_total, narration_at, narration_positions, narration_rank, resolved,
    retimed_total, total_of, Segment, Timeline,
};
use crate::units::{lemma_mul_bound, MAX_TIME, SECOND};
use crate::voice::VoiceBackend;
use vstd::prelude::*;
use vstd::string::StringExecFns;

verus! {

/// What can go wrong in the pipeline. Causes from outside are held as text.
#[derive(Debug, Clone, PartialEq, Eq)]
pub enum BuildError {
    /// The frames could not be drawn.
    Render(RenderError),
    /// The video could not be encoded or joined with the audio.
    Ffmpeg(FfmpegError),
    /// A file could not be read or written.
    Io(String),
    /// The settings or the scene are not usable.
    Config(String),
    /// A narration could not be spoken.
    Tts { segment: usize, source: String },
    /// The audio track could not be assembled.
    Audio(AudioError),
}

impl BuildError {
    /// The message of the error.
    pub open spec fn spec_message(&self) -> Seq<char> {
        match self {
            BuildError::Render(e) => "render failed: "@ + e.spec_message(),
            BuildError::Ffmpeg(e) => "ffmpeg failed: "@ + e.spec_message(),
            BuildError::Io(cause) => "I/O error: "@ + cause@,
            BuildError::Config(text) => text@,
            BuildError::Tts { segment, source } => "TTS synthesis failed for segment "@
                + decimal_digits(*segment as nat) + ": "@ + source@,
            BuildError::Audio(e) => "audio assembly failed: "@ + e.spec_message(),
        }
    }

    /// The message of the error.
    pub fn message(&self) -> (s: String)
        ensures
            s@ == self.spec_message(),
    {
        match self {
            BuildError::Render(e) => String::from_str("render failed: ").concat(
                e.message().as_str(),
            ),
            BuildError::Ffmpeg(e) => String::from_str("ffmpeg failed: ").concat(
                e.message().as_str(),
            ),
            BuildError::Io(cause) => String::from_str("I/O error: ").concat(cause.as_str()),
            BuildError::Config(text) => text.clone(),
            BuildError::Tts { segment, source } => {
                let mut s = String::from_str("TTS synthesis failed for segment ");
                s.append(decimal(*segment as u64).as_str());
                s.append(": ");
                s.append(source.as_str());
                s
            },
            BuildError::Audio(e) => String::from_str("audio assembly failed: ").concat(
                e.message().as_str(),
            ),
        }
    }
}

/// A report of the progress of the pipeline.
#[derive(Debug, Clone, PartialEq, Eq)]
pub enum BuildProgress {
    /// A narration is being spoken.
    SynthesizingTts { current: usize, total: usize },
    /// The scene is measured; drawing begins.
    SceneBuilt { total_duration: u64, total_frames: u32 },
    /// A frame was drawn.
    RenderingFrame { current: u32, total: u32 },
    /// The video is being encoded.
    Encoding,
    /// The video is being joined with the audio.
    MuxingAudio,
    /// The pipeline is through.
    Complete { output_path: String, total_frames: u32, duration: u64 },
}

/// The settings of a build. `P` is the type of the callback that takes the
/// reports of progress and `V` the type of the backend that speaks.
pub struct BuildConfig<P, V> {
    /// The path of the video to write.
    pub output_path: String,
    /// The path of the host page.
    pub html_path: String,
    /// The width of the viewport and of the video, in pixels.
    pub width: u32,
    /// The height of the viewport and of the video, in pixels.
    pub height: u32,
    /// Whether the pictures are kept after the build.
    pub keep_frames: bool,
    /// The callback that takes the reports of progress, if there is one.
    pub progress: Option<P>,
    /// The backend that speaks the narrations, if there is one. Without one
    /// every narration is silent.
    pub voice_backend: Option<V>,
}

impl<P, V> BuildConfig<P, V> {
    /// Settings for a video of 1920 by 1080 pixels, without a callback and
    /// without a backend, that does not keep the pictures.
    pub fn new(output_path: &str, html_path: &str) -> (config: BuildConfig<P, V>)
        ensures
            config.output_path@ == output_path@,
            config.html_path@ == html_path@,
            config.width == 1920,
            config.height == 1080,
            !config.keep_frames,
            config.progress is None,
            config.voice_backend is None,
    {
        BuildConfig {
            output_path: output_path.to_owned(),
            html_path: html_path.to_owned(),
            width: 1920,
            height: 1080,
            keep_frames: false,
            progress: None,
            voice_backend: None,
        }
    }
}

/// Hands a report of progress to the callback, if there is one: the callback
/// is called once, with the event.
pub fn report<P: Fn(BuildProgress)>(progress: &Option<P>, event: BuildProgress)
    requires
        progress matches Some(f) ==> f.requires((event,)),
    ensures
        progress matches Some(f) ==> f.ensures((event,), ()),
{
    match progress {
        Some(f) => {
            f(event);
        },
        None => {},
    }
}

/// The summary of a build.
#[derive(Debug, Clone, PartialEq, Eq)]
pub struct BuildResult {
    /// The path of the video.
    pub output_path: String,
    /// The number of frames.
    pub total_frames: u32,
    /// The duration of the video in microseconds.
    pub duration: u64,
}

/// The text of a segment that is a narration.
pub open spec fn narration_text(segment: Segment) -> String {
    segment->Narration_text
}

/// The texts of the narrations of a scene, in the order of the timeline: what
/// is to be spoken.
pub fn narration_texts(m: &M) -> (texts: Vec<String>)
    ensures
        texts@.len() == narration_positions(m@.timeline@).len(),
        forall|j: int|
            0 <= j < texts@.len() ==> #[trigger] texts@[j] == narration_text(
                m@.timeline@[narration_positions(m@.timeline@)[j]],
            ),
{
    let segments = m.timeline().segments();
    let mut texts: Vec<String> = Vec::new();
    let mut i: usize = 0;
    let ghost pred = narration_at(m@.timeline@);
    while i < segments.len()
        invariant
            i <= segments@.len(),
            segments@ == m@.timeline@,
            pred == narration_at(m@.timeline@),
            texts@.len() == positions_below(i as int, pred).len(),
            forall|j: int|
                0 <= j < texts@.len() ==> #[trigger] texts@[j] == narration_text(
                    m@.timeline@[positions_below(i as int, pred)[j]],
                ),
        decreases segments@.len() - i,
    {
        match &segments[i] {
            Segment::Narration { text, .. } => {
                texts.push(text.clone());
            },
            _ => {},
        }
        i = i + 1;
    }
    texts
}

/// The durations of the clips, in their order.
pub open spec fn clip_durations(clips: Seq<AudioClip>) -> Seq<u64> {
    clips.map_values(|clip: AudioClip| clip.duration)
}

/// The cause with which durations that would make the timeline too long are
/// refused.
pub open spec fn too_long_message() -> Seq<char> {
    "failed to resolve narration durations: the timeline would exceed its longest duration"@
}

/// The cause with which clips are refused whose number is not that of the
/// narrations.
pub open spec fn mismatch_message(expected: nat, provided: nat) -> Seq<char> {
    "failed to resolve narration durations: "@ + (ResolveDurationError::LengthMismatch {
        expected: expected as usize,
        provided: provided as usize,
    }).spec_message()
}

/// Retimes the scene to the durations of the clips that were spoken, one clip
/// for each narration in the order of the timeline, and hands the clips back.
///
/// The clips are refused, and the scene stays as it is, in two cases and in
/// no other: where their number is not that of the narrations, and where
/// their durations would make the timeline longer than it may be. A scene
/// without narrations takes no clips and stays as it is.
pub fn resolve_clip_durations(m: &mut M, clips: Vec<AudioClip>) -> (outcome: Result<
    Vec<AudioClip>,
    BuildError,
>)
    requires
        old(m).wf(),
    ensures
        final(m).wf(),
        match outcome {
            Ok(given) => {
                &&& given == clips
                &&& clips@.len() == narration_positions(old(m)@.timeline@).len()
                &&& retimed_total(old(m)@.timeline@, clip_durations(clips@)) <= MAX_TIME
                &&& final(m).retimed_to(*old(m), clip_durations(clips@))
            },
            Err(e) => {
                &&& final(m)@ == old(m)@
                &&& e matches BuildError::Config(text) && text@ == (if clips@.len()
                    != narration_positions(old(m)@.timeline@).len() {
                    mismatch_message(
                        narration_positions(old(m)@.timeline@).len(),
                        clips@.len(),
                    )
                } else {
                    too_long_message()
                })
                &&& clips@.len() == narration_positions(old(m)@.timeline@).len()
                    ==> retimed_total(old(m)@.timeline@, clip_durations(clips@)) > MAX_TIME
            },
        },
{
    let mut durations: Vec<u64> = Vec::new();
    let mut i: usize = 0;
    while i < clips.len()
        invariant
            i <= clips@.len(),
            durations@ == clip_durations(clips@.take(i as int)),
        decreases clips@.len() - i,
    {
        durations.push(clips[i].duration());
        assert(durations@ =~= clip_durations(clips@.take(i as int + 1)));
        i = i + 1;
    }
    assert(clips@.take(clips@.len() as int) =~= clips@);
    match m.try_resolve_narration_durations(durations.as_slice()) {
        Some(Ok(())) => Ok(clips),
        Some(Err(mismatch)) => Err(resolve_failure(&mismatch)),
        None => Err(
            BuildError::Config(
                String::from_str(
                    "failed to resolve narration durations: the timeline would exceed its longest duration",
                ),
            ),
        ),
    }
}

/// A scene without narrations is retimed by no clips, whatever else it holds.
pub proof fn lemma_no_narrations_no_failure(segs: Seq<Segment>)
    requires
        total_of(segs) <= MAX_TIME,
        narration_positions(segs).len() == 0,
    ensures
        retimed_total(segs, Seq::<u64>::empty()) <= MAX_TIME,
        retimed_total(segs, Seq::<u64>::empty()) == total_of(segs),
        resolved(segs, Seq::<u64>::empty()) == segs,
{
    let none = Seq::<u64>::empty();
    lemma_resolved_total(segs, none);
    crate::positions::lemma_positions_below(segs.len() as int, narration_at(segs));
    assert forall|i: int| 0 <= i < segs.len() implies !(#[trigger] segs[i]).is_narration() by {
        if segs[i].is_narration() {
            assert(narration_at(segs)(i));
            assert(narration_positions(segs).contains(i));
        }
    }
    assert(resolved(segs, none) =~= segs);
}

/// Speaks every narration of the scene, in the order of the timeline, and
/// replaces the estimated durations by those of the clips.
///
/// Each narration is reported to the callback before it is spoken. Where the
/// backend fails, the error names the narration and the cause, and the scene
/// stays as it is. Once every narration is spoken, the clips retime the scene
/// as [`resolve_clip_durations`] says: they are refused only where their
/// durations would make the timeline longer than it may be. A scene without
/// narrations asks nothing of the backend and succeeds.
pub fn synthesize_narrations<B: VoiceBackend + ?Sized, P: Fn(BuildProgress)>(
    m: &mut M,
    backend: &B,
    progress: &Option<P>,
) -> (outcome: Result<Vec<AudioClip>, BuildError>)
    requires
        old(m).wf(),
        progress matches Some(f) ==> forall|event: BuildProgress| #[trigger] f.requires((event,)),
    ensures
        final(m).wf(),
        narration_positions(old(m)@.timeline@).len() == 0 ==> outcome is Ok,
        match outcome {
            Ok(clips) => {
                &&& clips@.len() == narration_positions(old(m)@.timeline@).len()
                &&& retimed_total(old(m)@.timeline@, clip_durations(clips@)) <= MAX_TIME
                &&& final(m).retimed_to(*old(m), clip_durations(clips@))
            },
            Err(e) => {
                &&& final(m)@ == old(m)@
                &&& match e {
                    BuildError::Tts { segment, .. } => segment < narration_positions(
                        old(m)@.timeline@,
                    ).len(),
                    BuildError::Config(text) => text@ == too_long_message(),
                    _ => false,
                }
            },
        },
{
    let texts = narration_texts(m);
    let total = texts.len();
    let mut clips: Vec<AudioClip> = Vec::new();
    let mut i: usize = 0;
    while i < total
        invariant
            i <= total == texts@.len(),
            total == narration_positions(old(m)@.timeline@).len(),
            *m == *old(m),
            m.wf(),
            clips@.len() == i,
            progress matches Some(f) ==> forall|event: BuildProgress| #[trigger] f.requires((event,)),
        decreases total - i,
    {
        report(progress, BuildProgress::SynthesizingTts { current: i, total });
        match backend.synthesize(texts[i].as_str()) {
            Ok(clip) => {
                clips.push(clip);
            },
            Err(source) => {
                return Err(BuildError::Tts { segment: i, source });
            },
        }
        i = i + 1;
    }
    proof {
        if total == 0 {
            assert(clip_durations(clips@) =~= Seq::<u64>::empty());
            lemma_no_narrations_no_failure(m@.timeline@);
        }
    }
    resolve_clip_durations(m, clips)
}

/// The error of a scene without frames.
pub open spec fn no_frames_message() -> Seq<char> {
    "scene has no timeline segments (0 frames to render)"@
}

/// Checks that there is something to draw. A scene without frames is refused.
pub fn ensure_frames(total_frames: u32) -> (outcome: Result<(), BuildError>)
    ensures
        match outcome {
            Ok(()) => total_frames > 0,
            Err(e) => total_frames == 0 && (e matches BuildError::Config(text) && text@
                == no_frames_message()),
        },
{
    if total_frames == 0 {
        Err(
            BuildError::Config(
                String::from_str("scene has no timeline segments (0 frames to render)"),
            ),
        )
    } else {
        Ok(())
    }
}

/// The sample rate of the audio track: that of the first clip of speech where
/// there is one, and the default rate otherwise.
pub fn track_sample_rate(narration_clips: Option<&[AudioClip]>) -> (rate: u32)
    ensures
        rate == match narration_clips {
            Some(clips) => if clips@.len() > 0 {
                clips@[0].sample_rate
            } else {
                DEFAULT_SAMPLE_RATE
            },
            None => DEFAULT_SAMPLE_RATE,
        },
{
    match narration_clips {
        Some(clips) => {
            if clips.len() > 0 {
                clips[0].sample_rate
            } else {
                DEFAULT_SAMPLE_RATE
            }
        },
        None => DEFAULT_SAMPLE_RATE,
    }
}

/// The error of the pipeline for durations that could not be resolved.
pub fn resolve_failure(error: &ResolveDurationError) -> (e: BuildError)
    ensures
        e matches BuildError::Config(text) && text@ == "failed to resolve narration durations: "@
            + error.spec_message(),
{
    BuildError::Config(
        String::from_str("failed to resolve narration durations: ").concat(
            error.message().as_str(),
        ),
    )
}

/// The first clip that cannot go on a track of one channel at `sample_rate`,
/// as the error that joining it gives; nothing where every clip can.
pub fn check_clips(clips: &[AudioClip], sample_rate: u32) -> (outcome: Result<(), AudioError>)
    ensures
        match outcome {
            Ok(()) => forall|j: int|
                0 <= j < clips@.len() ==> (#[trigger] clips@[j]).sample_rate == sample_rate
                    && clips@[j].channels == 1,
            Err(e) => {
                let at = AudioClip::first_mismatch(clips@, sample_rate, 1, 0);
                &&& at < clips@.len()
                &&& if clips@[at].sample_rate != sample_rate {
                    e == (AudioError::SampleRateMismatch {
                        expected: sample_rate,
                        got: clips@[at].sample_rate,
                    })
                } else {
                    e == (AudioError::ChannelCountMismatch {
                        expected: 1,
                        got: clips@[at].channels,
                    })
                }
            },
        },
{
    let mut i: usize = 0;
    while i < clips.len()
        invariant
            i <= clips@.len(),
            forall|j: int|
                0 <= j < i ==> (#[trigger] clips@[j]).sample_rate == sample_rate && clips@[j].channels
                    == 1,
            AudioClip::first_mismatch(clips@, sample_rate, 1, 0) == AudioClip::first_mismatch(
                clips@,
                sample_rate,
                1,
                i as int,
            ),
        decreases clips@.len() - i,
    {
        if clips[i].sample_rate != sample_rate {
            return Err(
                AudioError::SampleRateMismatch { expected: sample_rate, got: clips[i].sample_rate },
            );
        }
        if clips[i].channels != 1 {
            return Err(AudioError::ChannelCountMismatch { expected: 1, got: clips[i].channels });
        }
        i = i + 1;
    }
    Ok(())
}

/// Whether the audio track of the segments can be assembled at `sample_rate`:
/// whether there is a sample rate, every segment can be counted in samples,
/// and the whole track can be measured in microseconds.
pub open spec fn track_fits(
    segs: Seq<Segment>,
    sample_rate: u32,
    clips: Option<&[AudioClip]>,
) -> bool {
    &&& sample_rate > 0
    &&& forall|i: int|
        0 <= i < segs.len() ==> samples_in(
            (#[trigger] segs[i]).spec_duration() as int,
            sample_rate as int,
        ) <= usize::MAX
    &&& duration_of(
        track_data(segs, sample_rate, clips, segs.len() as int).len() as int,
        sample_rate as int,
        1,
    ) <= u64::MAX
}

/// The cause with which a track that does not fit is refused.
pub open spec fn track_too_long_message() -> Seq<char> {
    "the timeline is too long for an audio track"@
}

/// The error for a track that does not fit.
fn track_too_long() -> (e: BuildError)
    ensures
        e matches BuildError::Config(text) && text@ == track_too_long_message(),
{
    BuildError::Config(String::from_str("the timeline is too long for an audio track"))
}

/// Assembles the audio track of a timeline, where it can be assembled.
///
/// A clip that does not fit a track of one channel at `sample_rate` gives the
/// error of joining it. A track that cannot be counted or measured is refused.
/// Otherwise the track is that of [`assemble_audio_track`].
pub fn assemble_track(
    timeline: &Timeline,
    sample_rate: u32,
    narration_clips: Option<&[AudioClip]>,
) -> (outcome: Result<AudioClip, BuildError>)
    requires
        timeline.wf(),
    ensures
        match outcome {
            Ok(track) => {
                &&& track_fits(timeline@, sample_rate, narration_clips)
                &&& track.data@ == track_data(
                    timeline@,
                    sample_rate,
                    narration_clips,
                    timeline@.len() as int,
                )
                &&& track.sample_rate == sample_rate
                &&& track.channels == 1
                &&& track.duration == duration_of(track.data@.len() as int, sample_rate as int, 1)
            },
            Err(BuildError::Audio(e)) => narration_clips matches Some(clips) && ({
                let at = AudioClip::first_mismatch(clips@, sample_rate, 1, 0);
                &&& at < clips@.len()
                &&& if clips@[at].sample_rate != sample_rate {
                    e == (AudioError::SampleRateMismatch {
                        expected: sample_rate,
                        got: clips@[at].sample_rate,
                    })
                } else {
                    e == (AudioError::ChannelCountMismatch {
                        expected: 1,
                        got: clips@[at].channels,
                    })
                }
            }),
            Err(BuildError::Config(text)) => !track_fits(timeline@, sample_rate, narration_clips)
                && text@ == track_too_long_message(),
            Err(_) => false,
        },
{
    match narration_clips {
        Some(clips) => {
            match check_clips(clips, sample_rate) {
                Ok(()) => {},
                Err(e) => {
                    return Err(BuildError::Audio(e));
                },
            }
        },
        None => {},
    }
    if sample_rate == 0 {
        return Err(track_too_long());
    }
    let segments = timeline.segments();
    let mut samples: u128 = 0;
    let mut spoken: usize = 0;
    let mut i: usize = 0;
    while i < segments.len()
        invariant
            i <= segments@.len(),
            segments@ == timeline@,
            sample_rate > 0,
            spoken == narration_rank(timeline@, i as int),
            spoken <= i,
            samples == track_data(timeline@, sample_rate, narration_clips, i as int).len(),
            samples <= i * usize::MAX,
            forall|x: int|
                0 <= x < i ==> samples_in(
                    (#[trigger] timeline@[x]).spec_duration() as int,
                    sample_rate as int,
                ) <= usize::MAX,
        decreases segments@.len() - i,
    {
        let segment = &segments[i];
        proof {
            lemma_mul_bound(
                segment.spec_duration() as int,
                sample_rate as int,
                u64::MAX as int,
                u32::MAX as int,
            );
        }
        let quiet: u128 = (segment.duration() as u128) * (sample_rate as u128) / (SECOND as u128);
        if quiet > usize::MAX as u128 {
            return Err(track_too_long());
        }
        let narration = match segment {
            Segment::Narration { .. } => true,
            _ => false,
        };
        let mut piece: u128 = quiet;
        if narration {
            match narration_clips {
                Some(clips) => {
                    if spoken < clips.len() {
                        piece = clips[spoken].data.len() as u128;
                    }
                },
                None => {},
            }
            spoken = spoken + 1;
        }
        assert(piece == track_piece(timeline@, sample_rate, narration_clips, i as int).len());
        assert((i + 1) * usize::MAX == i * usize::MAX + usize::MAX) by (nonlinear_arith);
        assert(samples + piece <= u128::MAX) by (nonlinear_arith)
            requires
                samples <= i * usize::MAX,
                piece <= usize::MAX,
                0 <= i < usize::MAX,
                usize::MAX <= 0xffff_ffff_ffff_ffff,
                u128::MAX == 0xffff_ffff_ffff_ffff_ffff_ffff_ffff_ffff,
        ;
        samples = samples + piece;
        i = i + 1;
    }
    // A track of more samples than microseconds fit 64 bits is too long at
    // any sample rate of 32 bits.
    let limit: u128 = (u64::MAX as u128) * (sample_rate as u128);
    if samples > limit {
        proof {
            assert(samples * SECOND / (sample_rate * 1) > u64::MAX) by (nonlinear_arith)
                requires
                    samples > u64::MAX * sample_rate,
                    sample_rate > 0,
                    SECOND == 1_000_000,
            ;
        }
        return Err(track_too_long());
    }
    proof {
        lemma_mul_bound(
            samples as int,
            SECOND as int,
            (u64::MAX as int) * (u32::MAX as int),
            SECOND as int,
        );
        lemma_mul_bound(
            u64::MAX as int,
            sample_rate as int,
            u64::MAX as int,
            u32::MAX as int,
        );
    }
    let length: u128 = samples * (SECOND as u128) / (sample_rate as u128);
    assert(length == duration_of(samples as int, sample_rate as int, 1));
    if length > u64::MAX as u128 {
        return Err(track_too_long());
    }
    Ok(assemble_audio_track(timeline, sample_rate, narration_clips))
}

} // verus!
