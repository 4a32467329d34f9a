//! The bridge to the browser that draws the frames: its settings and what can
//! go wrong with it.
//!
//! The bridge itself belongs to the caller; this module holds the plain values
//! that the rest of the crate reads.
use crate::text::{decimal, decimal_digits};
use vstd::prelude::*;
use vstd::string::StringExecFns;

verus! {

/// What can go wrong with the bridge. Causes are held as text.
#[derive(Debug, Clone, PartialEq, Eq)]
pub enum BridgeError {
    /// The browser did not start.
    LaunchFailed(String),
    /// No browser was found.
    ChromeNotFound,
    /// The host page could not be loaded.
    PageLoadFailed { path: String, source: String },
    /// A script failed in the page.
    JsEvalFailed(String),
    /// No screenshot could be taken.
    ScreenshotFailed(String),
    /// The page did not finish drawing in time.
    RenderTimeout { timeout_secs: u64 },
    /// The bridge was used after it was closed.
    AlreadyClosed,
}

impl BridgeError {
    /// The message of the error.
    pub open spec fn spec_message(&self) -> Seq<char> {
        match self {
            BridgeError::LaunchFailed(cause) => "failed to launch Chrome: "@ + cause@,
            BridgeError::ChromeNotFound => "Chrome executable not found"@,
            BridgeError::PageLoadFailed { path, .. } => "failed to load page: "@ + path@,
            BridgeError::JsEvalFailed(cause) => "JavaScript evaluation failed: "@ + cause@,
            BridgeError::ScreenshotFailed(cause) => "screenshot capture failed: "@ + cause@,
            BridgeError::RenderTimeout { timeout_secs } => "render timed out after "@
                + decimal_digits(*timeout_secs as nat) + "s"@,
            BridgeError::AlreadyClosed => "bridge already closed"@,
        }
    }

    /// The message of the error.
    pub fn message(&self) -> (s: String)
        ensures
            s@ == self.spec_message(),
    {
        match self {
            BridgeError::LaunchFailed(cause) => String::from_str("failed to launch Chrome: ").concat(
                cause.as_str(),
            ),
            BridgeError::ChromeNotFound => String::from_str("Chrome executable not found"),
            BridgeError::PageLoadFailed { path, .. } => String::from_str(
                "failed to load page: ",
            ).concat(path.as_str()),
            BridgeError::JsEvalFailed(cause) => String::from_str(
                "JavaScript evaluation failed: ",
            ).concat(cause.as_str()),
            BridgeError::ScreenshotFailed(cause) => String::from_str(
                "screenshot capture failed: ",
            ).concat(cause.as_str()),
            BridgeError::RenderTimeout { timeout_secs } => {
                let mut s = String::from_str("render timed out after ");
                s.append(decimal(*timeout_secs).as_str());
                s.append("s");
                s
            },
            BridgeError::AlreadyClosed => String::from_str("bridge already closed"),
        }
    }
}

/// The width of the viewport where none is given.
pub const DEFAULT_VIEWPORT_WIDTH: u32 = 1920;

/// The height of the viewport where none is given.
pub const DEFAULT_VIEWPORT_HEIGHT: u32 = 1080;

/// The time allowed for the browser to start where none is given: 20 seconds.
pub const DEFAULT_LAUNCH_TIMEOUT: u64 = 20_000_000;

/// The settings with which the bridge is launched.
#[derive(Debug, Clone)]
pub struct BridgeConfig {
    /// The width of the viewport and of the screenshots, in pixels.
    pub width: u32,
    /// The height of the viewport and of the screenshots, in pixels.
    pub height: u32,
    /// The path of the host page.
    pub html_path: String,
    /// The path of the browser, where it is not to be looked for.
    pub chrome_executable: Option<String>,
    /// Whether the browser runs without a window.
    pub headless: bool,
    /// The time allowed for the browser to start, in microseconds.
    pub launch_timeout: u64,
}

impl BridgeConfig {
    /// Settings for the host page at `html_path`: a viewport of 1920 by 1080
    /// pixels, no window, 20 seconds to start, and a browser that is looked
    /// for.
    pub fn new(html_path: &str) -> (config: BridgeConfig)
        ensures
            config.width == DEFAULT_VIEWPORT_WIDTH,
            config.height == DEFAULT_VIEWPORT_HEIGHT,
            config.html_path@ == html_path@,
            config.chrome_executable is None,
            config.headless,
            config.launch_timeout == DEFAULT_LAUNCH_TIMEOUT,
    {
        BridgeConfig {
            width: DEFAULT_VIEWPORT_WIDTH,
            height: DEFAULT_VIEWPORT_HEIGHT,
            html_path: html_path.to_owned(),
            chrome_executable: None,
            headless: true,
            launch_timeout: DEFAULT_LAUNCH_TIMEOUT,
        }
    }
}

} // verus!
