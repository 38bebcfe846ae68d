//! Runs of the backend's helper scripts: the command lines they are run
//! with and what their output amounts to. The caller runs the commands.

use crate::launch::{augment_search_path, with_dirs};
use crate::process::Platform;
use crate::text::{texts, trim_text, trimmed};
use vstd::prelude::*;
use vstd::string::*;

verus! {

/// What separates the entries of a search path.
pub open spec fn path_separator_text(platform: Platform) -> Seq<char> {
    match platform {
        Platform::Windows => ";"@,
        _ => ":"@,
    }
}

/// What separates the entries of a search path.
pub fn path_separator(platform: Platform) -> (r: &'static str)
    ensures
        r@ == path_separator_text(platform),
{
    match platform {
        Platform::Windows => ";",
        _ => ":",
    }
}

/// The places where the media tools are usually installed.
pub open spec fn tool_dirs_text(platform: Platform) -> Seq<Seq<char>> {
    match platform {
        Platform::Windows => seq![
            "C:\\ffmpeg\\bin"@,
            "C:\\Program Files\\FFmpeg\\bin"@,
            "C:\\Program Files (x86)\\FFmpeg\\bin"@,
        ],
        _ => seq!["/opt/homebrew/bin"@, "/usr/local/bin"@, "/usr/bin"@],
    }
}

/// The places where the media tools are usually installed.
pub fn tool_dirs(platform: Platform) -> (r: Vec<String>)
    ensures
        texts(r@) == tool_dirs_text(platform),
{
    let mut dirs: Vec<String> = Vec::new();
    match platform {
        Platform::Windows => {
            dirs.push(String::from_str("C:\\ffmpeg\\bin"));
            dirs.push(String::from_str("C:\\Program Files\\FFmpeg\\bin"));
            dirs.push(String::from_str("C:\\Program Files (x86)\\FFmpeg\\bin"));
        },
        _ => {
            dirs.push(String::from_str("/opt/homebrew/bin"));
            dirs.push(String::from_str("/usr/local/bin"));
            dirs.push(String::from_str("/usr/bin"));
        },
    }
    assert(texts(dirs@) =~= tool_dirs_text(platform));
    dirs
}

/// The search path that a helper script is run with: the platform's tool
/// places, each put in front of `path` where it is missing.
pub fn script_search_path(platform: Platform, path: &str) -> (r: String)
    ensures
        r@ == with_dirs(path@, tool_dirs_text(platform), path_separator_text(platform)),
{
    let dirs = tool_dirs(platform);
    augment_search_path(path, &dirs, path_separator(platform))
}

/// The arguments with which the interpreter transcribes `file` by
/// `script`: language detected, plain text out.
pub open spec fn transcription_args_text(script: Seq<char>, file: Seq<char>) -> Seq<Seq<char>> {
    seq![script, file, "--language"@, "auto"@, "--format"@, "text"@]
}

/// The arguments with which the interpreter transcribes `file` by
/// `script`.
pub fn transcription_args(script: &str, file: &str) -> (r: Vec<String>)
    ensures
        texts(r@) == transcription_args_text(script@, file@),
{
    let mut args: Vec<String> = Vec::new();
    args.push(String::from_str(script));
    args.push(String::from_str(file));
    args.push(String::from_str("--language"));
    args.push(String::from_str("auto"));
    args.push(String::from_str("--format"));
    args.push(String::from_str("text"));
    assert(texts(args@) =~= transcription_args_text(script@, file@));
    args
}

/// The arguments with which the interpreter reports on the graphics
/// hardware.
pub open spec fn gpu_probe_args_text() -> Seq<Seq<char>> {
    seq!["-c"@, "from patch_gpu import get_gpu_info; print(get_gpu_info())"@]
}

/// The arguments with which the interpreter reports on the graphics
/// hardware.
pub fn gpu_probe_args() -> (r: Vec<String>)
    ensures
        texts(r@) == gpu_probe_args_text(),
{
    let mut args: Vec<String> = Vec::new();
    args.push(String::from_str("-c"));
    args.push(String::from_str("from patch_gpu import get_gpu_info; print(get_gpu_info())"));
    assert(texts(args@) =~= gpu_probe_args_text());
    args
}

/// What a finished run left behind.
#[derive(Debug)]
pub struct RunOutput {
    /// Whether the command exited with success.
    pub succeeded: bool,
    /// What it wrote to standard output.
    pub stdout: String,
    /// What it wrote to standard error.
    pub stderr: String,
}

/// A run's output as a mathematical value.
pub ghost struct RunOutputView {
    pub succeeded: bool,
    pub stdout: Seq<char>,
    pub stderr: Seq<char>,
}

impl View for RunOutput {
    type V = RunOutputView;

    open spec fn view(&self) -> RunOutputView {
        RunOutputView { succeeded: self.succeeded, stdout: self.stdout@, stderr: self.stderr@ }
    }
}

/// Why a transcription came to nothing.
#[derive(Debug)]
pub enum TranscribeError {
    /// The script is not where it was looked for; the place, as shown.
    ScriptMissing(String),
    /// The interpreter could not be run; the operating system's reason.
    NotRun(String),
    /// The script ran and failed; what it wrote to standard error.
    Failed(String),
}

/// A transcription error as a mathematical value.
pub ghost enum TranscribeErrorView {
    ScriptMissing(Seq<char>),
    NotRun(Seq<char>),
    Failed(Seq<char>),
}

impl View for TranscribeError {
    type V = TranscribeErrorView;

    open spec fn view(&self) -> TranscribeErrorView {
        match self {
            TranscribeError::ScriptMissing(place) => TranscribeErrorView::ScriptMissing(place@),
            TranscribeError::NotRun(reason) => TranscribeErrorView::NotRun(reason@),
            TranscribeError::Failed(written) => TranscribeErrorView::Failed(written@),
        }
    }
}

impl TranscribeErrorView {
    /// The message shown for this error.
    pub open spec fn message(self) -> Seq<char> {
        match self {
            TranscribeErrorView::ScriptMissing(place) => "Transcription script not found: "@
                + place,
            TranscribeErrorView::NotRun(reason) => "Failed to execute transcription: "@ + reason,
            TranscribeErrorView::Failed(written) => "Transcription failed: "@ + written,
        }
    }
}

impl TranscribeError {
    /// The message shown for this error.
    pub fn message(&self) -> (r: String)
        ensures
            r@ == self@.message(),
    {
        match self {
            TranscribeError::ScriptMissing(place) => {
                String::from_str("Transcription script not found: ").concat(place.as_str())
            },
            TranscribeError::NotRun(reason) => {
                String::from_str("Failed to execute transcription: ").concat(reason.as_str())
            },
            TranscribeError::Failed(written) => {
                String::from_str("Transcription failed: ").concat(written.as_str())
            },
        }
    }
}

/// What a run of the transcription script amounts to: on success the text
/// it wrote, without the white space around it; otherwise the failure with
/// what it wrote to standard error, as it stands.
pub fn transcription_result(output: RunOutput) -> (r: Result<String, TranscribeError>)
    ensures
        match r {
            Ok(text) => output@.succeeded && text@ == trimmed(output@.stdout),
            Err(e) => !output@.succeeded && e@ == TranscribeErrorView::Failed(output@.stderr),
        },
{
    if output.succeeded {
        Ok(trim_text(output.stdout.as_str()))
    } else {
        Err(TranscribeError::Failed(output.stderr))
    }
}

/// What a run of the hardware probe is shown as.
pub open spec fn gpu_report_text(output: RunOutputView) -> Seq<char> {
    if output.succeeded {
        trimmed(output.stdout)
    } else {
        "GPU detection unavailable: "@ + trimmed(output.stderr)
    }
}

/// What a run of the hardware probe is shown as: on success what it
/// wrote, otherwise a note that says why there is nothing, each without the
/// white space around the script's words.
pub fn gpu_report(output: &RunOutput) -> (r: String)
    ensures
        r@ == gpu_report_text(output@),
{
    if output.succeeded {
        trim_text(output.stdout.as_str())
    } else {
        let why = trim_text(output.stderr.as_str());
        String::from_str("GPU detection unavailable: ").concat(why.as_str())
    }
}

} // verus!
