//! The encoding stage: the settings of an encoding run, the arguments handed
//! to FFmpeg, and the audio track of a timeline.
//!
//! Running FFmpeg is left to the caller. This module checks the settings,
//! builds the argument lists and assembles the audio.
use crate::audio::{duration_of, samples_in, AudioClip};
use crate::text::{
    decimal, decimal_digits, ends_with, has_prefix, has_suffix, join_path, path_in, starts_with,
};
use crate::timeline::{narration_rank, Segment, Timeline};
use crate::units::{lemma_mul_bound, SECOND};
use vstd::prelude::*;
use vstd::string::StringExecFns;

verus! {

/// What can go wrong in the encoding stage.
#[derive(Debug, Clone, PartialEq, Eq)]
pub enum FfmpegError {
    /// FFmpeg was not found on the search path.
    NotFound,
    /// The settings of the run are not valid.
    InvalidInput { reason: String },
    /// FFmpeg ended with a failure.
    EncodeFailed { message: String, stderr: String },
}

impl FfmpegError {
    /// The message of the error.
    pub open spec fn spec_message(&self) -> Seq<char> {
        match self {
            FfmpegError::NotFound => "FFmpeg not found. Install FFmpeg and ensure it is on your PATH. (https://ffmpeg.org/download.html)"@,
            FfmpegError::InvalidInput { reason } => "invalid input: "@ + reason@,
            FfmpegError::EncodeFailed { message, .. } => "FFmpeg encoding failed: "@ + message@,
        }
    }

    /// The message of the error.
    pub fn message(&self) -> (s: String)
        ensures
            s@ == self.spec_message(),
    {
        match self {
            FfmpegError::NotFound => String::from_str(
                "FFmpeg not found. Install FFmpeg and ensure it is on your PATH. (https://ffmpeg.org/download.html)",
            ),
            FfmpegError::InvalidInput { reason } => String::from_str("invalid input: ").concat(
                reason.as_str(),
            ),
            FfmpegError::EncodeFailed { message, .. } => String::from_str(
                "FFmpeg encoding failed: ",
            ).concat(message.as_str()),
        }
    }
}

/// The quality setting that is used where none is given. The scale runs from
/// 0, lossless, to 51.
pub const DEFAULT_CRF: u8 = 23;

/// The width of the video that is used where none is given.
pub const DEFAULT_WIDTH: u32 = 1920;

/// The height of the video that is used where none is given.
pub const DEFAULT_HEIGHT: u32 = 1080;

/// The frame rate that is used where none is given.
pub const DEFAULT_FPS: u32 = 30;

/// The largest quality setting.
pub const MAX_CRF: u8 = 51;

/// The settings of an encoding run.
#[derive(Debug, Clone)]
pub struct EncodeConfig {
    /// The directory that holds the numbered frames.
    pub input_dir: String,
    /// The path of the video to write.
    pub output_path: String,
    /// The frame rate of the video.
    pub fps: u32,
    /// The width of the video in pixels.
    pub width: u32,
    /// The height of the video in pixels.
    pub height: u32,
    /// The quality setting, from 0 to 51; lower is better.
    pub crf: u8,
}

impl EncodeConfig {
    /// Settings with the default frame rate, size and quality.
    pub fn new(input_dir: &str, output_path: &str) -> (config: EncodeConfig)
        ensures
            config.input_dir@ == input_dir@,
            config.output_path@ == output_path@,
            config.fps == DEFAULT_FPS,
            config.width == DEFAULT_WIDTH,
            config.height == DEFAULT_HEIGHT,
            config.crf == DEFAULT_CRF,
    {
        EncodeConfig {
            input_dir: input_dir.to_owned(),
            output_path: output_path.to_owned(),
            fps: DEFAULT_FPS,
            width: DEFAULT_WIDTH,
            height: DEFAULT_HEIGHT,
            crf: DEFAULT_CRF,
        }
    }

    /// The same settings with another frame rate.
    pub fn fps(self, fps: u32) -> (config: EncodeConfig)
        ensures
            config == (EncodeConfig { fps, ..self }),
    {
        let mut config = self;
        config.fps = fps;
        config
    }

    /// The same settings with another size.
    pub fn resolution(self, width: u32, height: u32) -> (config: EncodeConfig)
        ensures
            config == (EncodeConfig { width, height, ..self }),
    {
        let mut config = self;
        config.width = width;
        config.height = height;
        config
    }

    /// The same settings with another quality.
    pub fn crf(self, crf: u8) -> (config: EncodeConfig)
        ensures
            config == (EncodeConfig { crf, ..self }),
    {
        let mut config = self;
        config.crf = crf;
        config
    }
}

/// What was found at the place of the input directory.
#[derive(Debug, Clone)]
pub struct InputDir {
    /// Whether anything exists at the path.
    pub exists: bool,
    /// Whether it is a directory.
    pub is_dir: bool,
    /// The names of the entries of the directory.
    pub entries: Vec<String>,
}

/// Whether `name` is the name of a frame: `frame_`, anything, `.png`.
pub open spec fn is_frame_name(name: Seq<char>) -> bool {
    has_prefix(name, "frame_"@) && has_suffix(name, ".png"@)
}

/// Whether one of the names is the name of a frame.
pub open spec fn holds_frames(names: Seq<String>) -> bool {
    exists|i: int| 0 <= i < names.len() && is_frame_name(#[trigger] names[i]@)
}

/// Whether one of the names is the name of a frame.
pub fn has_frame_files(names: &[String]) -> (found: bool)
    ensures
        found == holds_frames(names@),
{
    let mut i: usize = 0;
    while i < names.len()
        invariant
            i <= names@.len(),
            forall|k: int| 0 <= k < i ==> !is_frame_name(#[trigger] names@[k]@),
        decreases names@.len() - i,
    {
        let name = names[i].as_str();
        if starts_with(name, "frame_") && ends_with(name, ".png") {
            return true;
        }
        i = i + 1;
    }
    false
}

/// The reason for which the settings are refused, if they are. The checks
/// stand in this order: the directory exists, is a directory and holds
/// frames; the quality is at most 51; the frame rate and both sides of the
/// size are not zero.
pub open spec fn refusal(config: EncodeConfig, dir: InputDir) -> Option<Seq<char>> {
    if !dir.exists {
        Some("input directory does not exist: "@ + config.input_dir@)
    } else if !dir.is_dir {
        Some("input path is not a directory: "@ + config.input_dir@)
    } else if !holds_frames(dir.entries@) {
        Some("no frame_*.png files found in "@ + config.input_dir@)
    } else if config.crf > MAX_CRF {
        Some("CRF must be 0-51, got "@ + decimal_digits(config.crf as nat))
    } else if config.fps == 0 {
        Some("FPS must be greater than 0"@)
    } else if config.width == 0 || config.height == 0 {
        Some(
            "resolution must be non-zero, got "@ + decimal_digits(config.width as nat) + "x"@
                + decimal_digits(config.height as nat),
        )
    } else {
        None
    }
}

/// Checks the settings of an encoding run against what was found at the
/// input directory. The first check that fails gives the reason.
pub fn validate_input(config: &EncodeConfig, dir: &InputDir) -> (outcome: Result<(), FfmpegError>)
    ensures
        match outcome {
            Ok(()) => refusal(*config, *dir) is None,
            Err(e) => refusal(*config, *dir) matches Some(text) && e matches FfmpegError::InvalidInput {
                reason,
            } && reason@ == text,
        },
{
    let place = config.input_dir.as_str();
    if !dir.exists {
        return Err(
            FfmpegError::InvalidInput {
                reason: String::from_str("input directory does not exist: ").concat(place),
            },
        );
    }
    if !dir.is_dir {
        return Err(
            FfmpegError::InvalidInput {
                reason: String::from_str("input path is not a directory: ").concat(place),
            },
        );
    }
    if !has_frame_files(dir.entries.as_slice()) {
        return Err(
            FfmpegError::InvalidInput {
                reason: String::from_str("no frame_*.png files found in ").concat(place),
            },
        );
    }
    if config.crf > MAX_CRF {
        return Err(
            FfmpegError::InvalidInput {
                reason: String::from_str("CRF must be 0-51, got ").concat(
                    decimal(config.crf as u64).as_str(),
                ),
            },
        );
    }
    if config.fps == 0 {
        return Err(
            FfmpegError::InvalidInput { reason: String::from_str("FPS must be greater than 0") },
        );
    }
    if config.width == 0 || config.height == 0 {
        let mut reason = String::from_str("resolution must be non-zero, got ");
        reason.append(decimal(config.width as u64).as_str());
        reason.append("x");
        reason.append(decimal(config.height as u64).as_str());
        return Err(FfmpegError::InvalidInput { reason });
    }
    Ok(())
}

/// The reason for which the two files of a muxing run are refused, if they
/// are: the video is looked at first, then the audio.
pub open spec fn mux_refusal(
    video_path: Seq<char>,
    video_found: bool,
    audio_path: Seq<char>,
    audio_found: bool,
) -> Option<Seq<char>> {
    if !video_found {
        Some("video file does not exist: "@ + video_path)
    } else if !audio_found {
        Some("audio file does not exist: "@ + audio_path)
    } else {
        None
    }
}

/// Checks that both files of a muxing run were found. A missing video is
/// told before a missing audio file.
pub fn validate_mux_input(
    video_path: &str,
    video_found: bool,
    audio_path: &str,
    audio_found: bool,
) -> (outcome: Result<(), FfmpegError>)
    ensures
        match outcome {
            Ok(()) => video_found && audio_found,
            Err(e) => !(video_found && audio_found) && (e matches FfmpegError::InvalidInput {
                reason,
            } && Some(reason@) == mux_refusal(
                video_path@,
                video_found,
                audio_path@,
                audio_found,
            )),
        },
{
    if !video_found {
        return Err(
            FfmpegError::InvalidInput {
                reason: String::from_str("video file does not exist: ").concat(video_path),
            },
        );
    }
    if !audio_found {
        return Err(
            FfmpegError::InvalidInput {
                reason: String::from_str("audio file does not exist: ").concat(audio_path),
            },
        );
    }
    Ok(())
}

/// A list of strings, each taken by its characters.
pub open spec fn views(list: Seq<String>) -> Seq<Seq<char>> {
    list.map_values(|s: String| s@)
}

/// Appends a copy of `arg`.
fn push_arg(args: &mut Vec<String>, arg: &str)
    ensures
        views(final(args)@) == views(old(args)@).push(arg@),
{
    args.push(String::from_str(arg));
    assert(views(args@) =~= views(old(args)@).push(arg@));
}

/// The pattern of the names of the frames.
pub open spec fn frame_pattern() -> Seq<char> {
    "frame_%06d.png"@
}

/// The arguments of an encoding run: overwrite the output, read the numbered
/// frames at the frame rate, encode H.264 in the pixel format `yuv420p` at
/// the quality, scale to the size, and write the output.
pub open spec fn encode_args(config: EncodeConfig) -> Seq<Seq<char>> {
    seq![
        "-y"@,
        "-framerate"@,
        decimal_digits(config.fps as nat),
        "-i"@,
        path_in(config.input_dir@, frame_pattern()),
        "-c:v"@,
        "libx264"@,
        "-pix_fmt"@,
        "yuv420p"@,
        "-crf"@,
        decimal_digits(config.crf as nat),
        "-vf"@,
        "scale="@ + decimal_digits(config.width as nat) + ":"@ + decimal_digits(
            config.height as nat,
        ),
        config.output_path@,
    ]
}

/// Builds the arguments with which FFmpeg encodes the frames.
pub fn build_ffmpeg_args(config: &EncodeConfig) -> (args: Vec<String>)
    ensures
        views(args@) == encode_args(*config),
{
    let pattern = join_path(config.input_dir.as_str(), "frame_%06d.png");
    let mut scale = String::from_str("scale=");
    scale.append(decimal(config.width as u64).as_str());
    scale.append(":");
    scale.append(decimal(config.height as u64).as_str());
    let mut args: Vec<String> = Vec::new();
    assert(views(args@) =~= Seq::empty());
    push_arg(&mut args, "-y");
    push_arg(&mut args, "-framerate");
    push_arg(&mut args, decimal(config.fps as u64).as_str());
    push_arg(&mut args, "-i");
    push_arg(&mut args, pattern.as_str());
    push_arg(&mut args, "-c:v");
    push_arg(&mut args, "libx264");
    push_arg(&mut args, "-pix_fmt");
    push_arg(&mut args, "yuv420p");
    push_arg(&mut args, "-crf");
    push_arg(&mut args, decimal(config.crf as u64).as_str());
    push_arg(&mut args, "-vf");
    push_arg(&mut args, scale.as_str());
    push_arg(&mut args, config.output_path.as_str());
    assert(views(args@) =~= encode_args(*config));
    args
}

/// The arguments of a muxing run: overwrite the output, read the video and
/// the audio, copy the video stream, encode the audio as AAC, stop with the
/// shorter input, and write the output.
pub open spec fn mux_args(video: Seq<char>, audio: Seq<char>, output: Seq<char>) -> Seq<Seq<char>> {
    seq![
        "-y"@,
        "-i"@,
        video,
        "-i"@,
        audio,
        "-c:v"@,
        "copy"@,
        "-c:a"@,
        "aac"@,
        "-shortest"@,
        output,
    ]
}

/// Builds the arguments with which FFmpeg joins a video and an audio file.
pub fn build_mux_args(video_path: &str, audio_path: &str, output_path: &str) -> (args: Vec<String>)
    ensures
        views(args@) == mux_args(video_path@, audio_path@, output_path@),
{
    let mut args: Vec<String> = Vec::new();
    assert(views(args@) =~= Seq::empty());
    push_arg(&mut args, "-y");
    push_arg(&mut args, "-i");
    push_arg(&mut args, video_path);
    push_arg(&mut args, "-i");
    push_arg(&mut args, audio_path);
    push_arg(&mut args, "-c:v");
    push_arg(&mut args, "copy");
    push_arg(&mut args, "-c:a");
    push_arg(&mut args, "aac");
    push_arg(&mut args, "-shortest");
    push_arg(&mut args, output_path);
    assert(views(args@) =~= mux_args(video_path@, audio_path@, output_path@));
    args
}

/// The number of narration clips at hand.
pub open spec fn clips_at_hand(clips: Option<&[AudioClip]>) -> int {
    match clips {
        Some(c) => c@.len() as int,
        None => 0,
    }
}

/// The samples that segment `i` adds to the audio track: those of its clip
/// where the segment is a narration and a clip is at hand for it, and silence
/// of the duration of the segment otherwise.
pub open spec fn track_piece(
    segs: Seq<Segment>,
    sample_rate: u32,
    clips: Option<&[AudioClip]>,
    i: int,
) -> Seq<i32> {
    if segs[i].is_narration() && narration_rank(segs, i) < clips_at_hand(clips) {
        clips->0@[narration_rank(segs, i)].data@
    } else {
        Seq::new(
            samples_in(segs[i].spec_duration() as int, sample_rate as int) as nat,
            |x: int| 0i32,
        )
    }
}

/// The samples of the audio track up to segment `k`.
pub open spec fn track_data(
    segs: Seq<Segment>,
    sample_rate: u32,
    clips: Option<&[AudioClip]>,
    k: int,
) -> Seq<i32>
    decreases k,
{
    if k <= 0 {
        Seq::empty()
    } else {
        track_data(segs, sample_rate, clips, k - 1) + track_piece(segs, sample_rate, clips, k - 1)
    }
}

/// The audio track grows with every segment.
pub proof fn lemma_track_grows(
    segs: Seq<Segment>,
    sample_rate: u32,
    clips: Option<&[AudioClip]>,
    k: int,
    n: int,
)
    requires
        0 <= k <= n,
    ensures
        track_data(segs, sample_rate, clips, k).len() <= track_data(segs, sample_rate, clips, n).len(),
    decreases n,
{
    if k < n {
        lemma_track_grows(segs, sample_rate, clips, k, n - 1);
    }
}

/// Assembles the audio track of a timeline as one clip with one channel.
///
/// Each narration takes the clip that was synthesized for it, in the order of
/// the timeline; a narration without a clip, and every other segment, gives
/// silence of its duration.
pub fn assemble_audio_track(
    timeline: &Timeline,
    sample_rate: u32,
    narration_clips: Option<&[AudioClip]>,
) -> (track: AudioClip)
    requires
        timeline.wf(),
        sample_rate > 0,
        forall|i: int|
            0 <= i < timeline@.len() ==> samples_in(
                (#[trigger] timeline@[i]).spec_duration() as int,
                sample_rate as int,
            ) <= usize::MAX,
        forall|j: int|
            0 <= j < clips_at_hand(narration_clips) ==> (#[trigger] narration_clips->0@[j]).sample_rate
                == sample_rate && narration_clips->0@[j].channels == 1,
        duration_of(
            track_data(timeline@, sample_rate, narration_clips, timeline@.len() as int).len() as int,
            sample_rate as int,
            1,
        ) <= u64::MAX,
    ensures
        track.data@ == track_data(timeline@, sample_rate, narration_clips, timeline@.len() as int),
        track.sample_rate == sample_rate,
        track.channels == 1,
        track.duration == duration_of(track.data@.len() as int, sample_rate as int, 1),
{
    let segments = timeline.segments();
    let mut track = AudioClip { data: Vec::new(), duration: 0, sample_rate, channels: 1 };
    let mut spoken: usize = 0;
    let mut i: usize = 0;
    assert(duration_of(0, sample_rate as int, 1) == 0) by (nonlinear_arith)
        requires
            sample_rate > 0,
    ;
    while i < segments.len()
        invariant
            i <= segments@.len(),
            segments@ == timeline@,
            sample_rate > 0,
            track.sample_rate == sample_rate,
            track.channels == 1,
            spoken == narration_rank(timeline@, i as int),
            spoken <= i,
            track.data@ == track_data(timeline@, sample_rate, narration_clips, i as int),
            track.duration == duration_of(track.data@.len() as int, sample_rate as int, 1),
            forall|x: int|
                0 <= x < timeline@.len() ==> samples_in(
                    (#[trigger] timeline@[x]).spec_duration() as int,
                    sample_rate as int,
                ) <= usize::MAX,
            forall|j: int|
                0 <= j < clips_at_hand(narration_clips) ==> (
                #[trigger] narration_clips->0@[j]).sample_rate == sample_rate
                    && narration_clips->0@[j].channels == 1,
            duration_of(
                track_data(
                    timeline@,
                    sample_rate,
                    narration_clips,
                    timeline@.len() as int,
                ).len() as int,
                sample_rate as int,
                1,
            ) <= u64::MAX,
        decreases segments@.len() - i,
    {
        proof {
            lemma_track_grows(
                timeline@,
                sample_rate,
                narration_clips,
                i as int + 1,
                timeline@.len() as int,
            );
            let part = track_data(timeline@, sample_rate, narration_clips, i as int + 1).len() as int;
            let whole = track_data(
                timeline@,
                sample_rate,
                narration_clips,
                timeline@.len() as int,
            ).len() as int;
            lemma_mul_bound(part, SECOND as int, whole, SECOND as int);
            assert(part * SECOND / (sample_rate * 1) <= whole * SECOND / (sample_rate * 1))
                by (nonlinear_arith)
                requires
                    0 <= part * SECOND <= whole * SECOND,
                    sample_rate > 0,
            ;
            crate::positions::lemma_positions_grow(
                i as int,
                timeline@.len() as int,
                crate::timeline::narration_at(timeline@),
            );
        }
        let segment = &segments[i];
        let narration = match segment {
            Segment::Narration { .. } => true,
            _ => false,
        };
        let mut taken = false;
        if narration {
            match narration_clips {
                Some(clips) => {
                    if spoken < clips.len() {
                        let outcome = track.append(&clips[spoken]);
                        assert(outcome is Ok);
                        taken = true;
                    }
                },
                None => {},
            }
            spoken = spoken + 1;
        }
        if !taken {
            let quiet = AudioClip::silence(segment.duration(), sample_rate);
            let outcome = track.append(&quiet);
            assert(outcome is Ok);
        }
        i = i + 1;
    }
    track
}

} // verus!
