//! What the command line decides: where the host page is, and how an error of
//! the pipeline is told to the user.
use crate::pipeline::BuildError;
use crate::text::{contains, decimal, decimal_digits, has_part, join_path, path_in};
use vstd::prelude::*;
use vstd::string::StringExecFns;

verus! {

/// The place of the host page within a project, by convention.
pub open spec fn conventional_page() -> Seq<char> {
    "packages/ui/dist/index.html"@
}

/// The path at which the host page of the project at `project_path` lies by
/// convention.
pub fn convention_path(project_path: &str) -> (path: String)
    ensures
        path@ == path_in(project_path@, conventional_page()),
{
    join_path(project_path, "packages/ui/dist/index.html")
}

/// Decides where the host page is. A path that was given explicitly counts
/// first and must exist; otherwise the conventional path counts, if it exists.
///
/// `explicit_found` says whether the explicit path exists and
/// `convention_found` whether the conventional path does.
pub fn resolve_html_path(
    project_path: &str,
    explicit: Option<&str>,
    explicit_found: bool,
    convention_found: bool,
) -> (outcome: Result<String, String>)
    ensures
        match outcome {
            Ok(path) => match explicit {
                Some(given) => explicit_found && path@ == given@,
                None => convention_found && path@ == path_in(project_path@, conventional_page()),
            },
            Err(text) => match explicit {
                Some(given) => !explicit_found && text@ == "HTML path does not exist: "@ + given@
                    + "\nProvide a valid path to the built React app's index.html."@,
                None => !convention_found && text@ == "Could not locate React app index.html.\nTried: "@
                    + path_in(project_path@, conventional_page())
                    + "\nUse --html-path to specify the location explicitly."@,
            },
        },
{
    match explicit {
        Some(given) => {
            if !explicit_found {
                let mut text = String::from_str("HTML path does not exist: ");
                text.append(given);
                text.append("\nProvide a valid path to the built React app's index.html.");
                return Err(text);
            }
            Ok(String::from_str(given))
        },
        None => {
            let convention = convention_path(project_path);
            if convention_found {
                return Ok(convention);
            }
            let mut text = String::from_str("Could not locate React app index.html.\nTried: ");
            text.append(convention.as_str());
            text.append("\nUse --html-path to specify the location explicitly.");
            Err(text)
        },
    }
}

/// How an error of the pipeline is told to the user.
///
/// An error of the rendering that names the browser is told as a missing
/// browser, and an error of the encoding that speaks of something not found
/// as a missing FFmpeg; every other error is told with its details.
pub open spec fn user_message(error: BuildError) -> Seq<char> {
    match error {
        BuildError::Render(e) => {
            let details = e.spec_message();
            if has_part(details, "Chrome"@) || has_part(details, "chrome"@) {
                "Error: Chrome/Chromium not found or failed to launch.\nInstall Chrome or set CHROME_PATH environment variable.\nDetails: "@
                    + details
            } else {
                "Error: Rendering failed.\nDetails: "@ + details
            }
        },
        BuildError::Ffmpeg(e) => {
            let details = e.spec_message();
            if has_part(details, "not found"@) || has_part(details, "NotFound"@) {
                "Error: FFmpeg not found.\nInstall FFmpeg and ensure it is on your PATH.\nDownload: https://ffmpeg.org/download.html"@
            } else {
                "Error: Video encoding failed.\nDetails: "@ + details
            }
        },
        BuildError::Io(cause) => "Error: I/O failure.\nDetails: "@ + cause@,
        BuildError::Config(text) => "Error: "@ + text@,
        BuildError::Tts { segment, source } => "Error: TTS synthesis failed for narration segment "@
            + decimal_digits(segment as nat) + ".\nDetails: "@ + source@,
        BuildError::Audio(e) => "Error: Audio assembly failed.\nDetails: "@ + e.spec_message(),
    }
}

/// Words an error of the pipeline for the user.
pub fn format_build_error(err: &BuildError) -> (text: String)
    ensures
        text@ == user_message(*err),
{
    match err {
        BuildError::Render(e) => {
            let details = e.message();
            if contains(details.as_str(), "Chrome") || contains(details.as_str(), "chrome") {
                String::from_str(
                    "Error: Chrome/Chromium not found or failed to launch.\nInstall Chrome or set CHROME_PATH environment variable.\nDetails: ",
                ).concat(details.as_str())
            } else {
                String::from_str("Error: Rendering failed.\nDetails: ").concat(details.as_str())
            }
        },
        BuildError::Ffmpeg(e) => {
            let details = e.message();
            if contains(details.as_str(), "not found") || contains(details.as_str(), "NotFound") {
                String::from_str(
                    "Error: FFmpeg not found.\nInstall FFmpeg and ensure it is on your PATH.\nDownload: https://ffmpeg.org/download.html",
                )
            } else {
                String::from_str("Error: Video encoding failed.\nDetails: ").concat(
                    details.as_str(),
                )
            }
        },
        BuildError::Io(cause) => String::from_str("Error: I/O failure.\nDetails: ").concat(
            cause.as_str(),
        ),
        BuildError::Config(text) => String::from_str("Error: ").concat(text.as_str()),
        BuildError::Tts { segment, source } => {
            let mut s = String::from_str("Error: TTS synthesis failed for narration segment ");
            s.append(decimal(*segment as u64).as_str());
            s.append(".\nDetails: ");
            s.append(source.as_str());
            s
        },
        BuildError::Audio(e) => String::from_str("Error: Audio assembly failed.\nDetails: ").concat(
            e.message().as_str(),
        ),
    }
}

} // verus!
