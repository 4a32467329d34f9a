//! The rendering loop in plain values: which instant each frame shows, where
//! each frame is written, and what can go wrong.
//!
//! The loop itself, which draws and writes, belongs to the caller. For frame
//! `k` it asks [`frame_time`] for the instant, computes the frame state at
//! that instant and writes the picture to [`frame_path`].
use crate::chromium::{BridgeConfig, BridgeError};
use crate::text::{
    decimal, decimal_digits, decimal_padded, join_path, path_in, zero_padded,
};
use crate::timeline::{lemma_total_frames, Timeline};
use crate::units::{ceil_div, lemma_ceil_div, lemma_mul_bound, SECOND};
use vstd::prelude::*;
use vstd::string::StringExecFns;

verus! {

/// What can go wrong in the rendering loop. Causes are held as text.
#[derive(Debug, Clone, PartialEq, Eq)]
pub enum RenderError {
    /// The bridge failed.
    Bridge(BridgeError),
    /// The output directory could not be created.
    OutputDir { path: String, source: String },
    /// The state of a frame could not be written as text.
    Serialize { frame: u32, source: String },
    /// The picture of a frame could not be written.
    WriteFrame { frame: u32, path: String, source: String },
}

impl RenderError {
    /// The message of the error.
    pub open spec fn spec_message(&self) -> Seq<char> {
        match self {
            RenderError::Bridge(e) => "bridge error: "@ + e.spec_message(),
            RenderError::OutputDir { path, source } => "failed to create output directory "@
                + path@ + ": "@ + source@,
            RenderError::Serialize { frame, source } => "failed to serialize frame "@
                + decimal_digits(*frame as nat) + ": "@ + source@,
            RenderError::WriteFrame { frame, path, source } => "failed to write frame "@
                + decimal_digits(*frame as nat) + " to "@ + path@ + ": "@ + source@,
        }
    }

    /// The message of the error.
    pub fn message(&self) -> (s: String)
        ensures
            s@ == self.spec_message(),
    {
        match self {
            RenderError::Bridge(e) => String::from_str("bridge error: ").concat(
                e.message().as_str(),
            ),
            RenderError::OutputDir { path, source } => {
                let mut s = String::from_str("failed to create output directory ");
                s.append(path.as_str());
                s.append(": ");
                s.append(source.as_str());
                s
            },
            RenderError::Serialize { frame, source } => {
                let mut s = String::from_str("failed to serialize frame ");
                s.append(decimal(*frame as u64).as_str());
                s.append(": ");
                s.append(source.as_str());
                s
            },
            RenderError::WriteFrame { frame, path, source } => {
                let mut s = String::from_str("failed to write frame ");
                s.append(decimal(*frame as u64).as_str());
                s.append(" to ");
                s.append(path.as_str());
                s.append(": ");
                s.append(source.as_str());
                s
            },
        }
    }
}

/// A report of progress, made once for each frame.
#[derive(Debug, Clone, Copy, PartialEq, Eq, Structural)]
pub struct RenderProgress {
    /// The frame that was just drawn, counted from 0.
    pub current_frame: u32,
    /// The number of frames to draw.
    pub total_frames: u32,
}

/// The settings of a rendering run. `F` is the type of the callback that
/// takes the reports of progress.
pub struct RenderConfig<F> {
    /// The directory into which the numbered pictures are written.
    pub output_dir: String,
    /// The settings of the bridge.
    pub bridge_config: BridgeConfig,
    /// The callback that is called after each frame, if there is one.
    pub progress: Option<F>,
}

impl<F> RenderConfig<F> {
    /// Settings without a callback.
    pub fn new(output_dir: &str, bridge_config: BridgeConfig) -> (config: RenderConfig<F>)
        ensures
            config.output_dir@ == output_dir@,
            config.bridge_config == bridge_config,
            config.progress is None,
    {
        RenderConfig { output_dir: output_dir.to_owned(), bridge_config, progress: None }
    }
}

/// Reports the progress after frame `current_frame` to the callback, if there
/// is one: the callback is called once, with the two numbers.
pub fn report_progress<F: Fn(RenderProgress)>(
    callback: &Option<F>,
    current_frame: u32,
    total_frames: u32,
)
    requires
        callback matches Some(f) ==> f.requires((RenderProgress { current_frame, total_frames },)),
    ensures
        callback matches Some(f) ==> f.ensures((RenderProgress { current_frame, total_frames },), ()),
{
    let progress = RenderProgress { current_frame, total_frames };
    match callback {
        Some(f) => {
            f(progress);
        },
        None => {},
    }
}

/// The summary of a rendering run.
#[derive(Debug, Clone, PartialEq, Eq)]
pub struct RenderResult {
    /// The number of frames that were drawn.
    pub total_frames: u32,
    /// The directory that holds the pictures.
    pub output_dir: String,
}

/// The name of the file of frame `frame`: `frame_`, the number in six digits
/// at least, `.png`.
pub open spec fn frame_name(frame: u32) -> Seq<char> {
    "frame_"@ + zero_padded(decimal_digits(frame as nat), 6) + ".png"@
}

/// The path at which frame `frame_num` is written.
pub fn frame_path(output_dir: &str, frame_num: u32) -> (path: String)
    ensures
        path@ == path_in(output_dir@, frame_name(frame_num)),
{
    let mut name = String::from_str("frame_");
    name.append(decimal_padded(frame_num as u64, 6).as_str());
    name.append(".png");
    join_path(output_dir, name.as_str())
}

/// The instant that frame `frame` shows: the first microsecond that maps to
/// the frame, which is the frame number over the frame rate, rounded up.
pub open spec fn spec_frame_time(frame: int, fps: int) -> int {
    ceil_div(frame * SECOND, fps)
}

/// The instant that frame `frame` shows at `fps` frames per second.
pub fn frame_time(frame: u32, fps: u32) -> (time: u64)
    requires
        fps > 0,
    ensures
        time == spec_frame_time(frame as int, fps as int),
{
    proof {
        lemma_mul_bound(frame as int, SECOND as int, u32::MAX as int, SECOND as int);
    }
    let scaled: u64 = (frame as u64) * SECOND;
    if scaled % (fps as u64) == 0 {
        scaled / (fps as u64)
    } else {
        scaled / (fps as u64) + 1
    }
}

/// The instant of a frame maps back to the frame: at the instant that
/// `frame_time` gives for one of its frames, a timeline shows that frame.
pub proof fn lemma_frame_time_round_trip(tl: Timeline, frame: int)
    requires
        0 <= frame < tl.spec_total_frames(),
        0 < tl.spec_fps() <= SECOND,
    ensures
        tl.spec_frame_at(spec_frame_time(frame, tl.spec_fps() as int)) == frame,
        0 <= spec_frame_time(frame, tl.spec_fps() as int),
{
    let fps = tl.spec_fps() as int;
    let time = spec_frame_time(frame, fps);
    lemma_total_frames(tl);
    assert(0 <= frame * SECOND) by (nonlinear_arith)
        requires
            0 <= frame,
    ;
    lemma_ceil_div(frame * SECOND, fps);
    if frame == 0 {
        assert(0 * SECOND == 0);
        assert(0int % fps == 0 && 0int / fps == 0) by (nonlinear_arith)
            requires
                fps > 0,
        ;
    } else {
        assert(time * fps / (SECOND as int) == frame) by (nonlinear_arith)
            requires
                time * fps >= frame * SECOND,
                (time - 1) * fps < frame * SECOND,
                0 < fps <= SECOND,
                SECOND == 1_000_000,
        ;
    }
}

} // verus!
