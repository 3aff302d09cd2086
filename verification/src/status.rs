//! Answering whether a tool is installed and which version it is.

use crate::commands::{text_of, CommandExecutionResults};
use crate::errors::{status_for, status_of, ResponseStatus};
use crate::text::texts;
use crate::tools::Tool;
use crate::version::{
    banner_version, normalized, parse_ffmpeg_version, parse_fpcalc_version, parse_version,
    parse_yt_dlp_version, plain_version,
};
use vstd::prelude::*;

verus! {

/// The answer to a status check: where the tool is, and what its version
/// query gave.
#[derive(Debug, PartialEq, Eq)]
pub struct ToolStatusResponse {
    /// The path of the executable.
    pub path: String,
    /// The version it reported, where the query succeeded.
    pub executable_version: Option<String>,
    /// What the version query left behind.
    pub command_execution_results: CommandExecutionResults,
}

/// The answer to a status check of ffmpeg.
#[derive(Debug, PartialEq, Eq)]
pub struct FfmpegStatusResponse {
    pub path: String,
    pub executable_version: Option<String>,
    pub version_execution_results: CommandExecutionResults,
}

/// The answer to a status check of yt-dlp that tells apart a missing
/// executable, one that could not be run, and one that ran.
#[derive(Debug, PartialEq, Eq)]
pub struct YtDlpStatusResponse {
    pub executable_exists: bool,
    pub path: String,
    pub executable_version: Option<String>,
    pub version_execution_results: VersionExecutionResults,
}

/// What became of a version query.
#[derive(Debug, PartialEq, Eq)]
pub struct VersionExecutionResults {
    pub was_version_command_run: bool,
    pub command_completed_successfully: bool,
    /// Why the command could not be run.
    pub command_error: Option<String>,
    pub exit_status: Option<i32>,
    pub stdout: Option<String>,
    pub stderr: Option<String>,
}

/// What a look at the executable found.
#[derive(Debug, PartialEq, Eq)]
pub enum VersionProbe {
    /// There is no executable.
    Missing,
    /// It could not be run; the text is the cause.
    NotRun(String),
    /// It ran.
    Ran { exit_status: Option<i32>, stdout: String, stderr: String },
}

/// A release channel of yt-dlp.
#[derive(Clone, Copy, Debug, PartialEq, Eq, Structural)]
pub enum YtDlpUpdateChannels {
    Stable,
    Master,
    Nightly,
}

/// A request to update yt-dlp from a channel.
#[derive(Debug, PartialEq, Eq)]
pub struct YtDlpUpdateRequest {
    pub update_channel: YtDlpUpdateChannels,
}

/// The answer to an update request.
#[derive(Debug, PartialEq, Eq)]
pub struct YtDlpUpdateResponse {
    pub path: String,
    pub update_channel_and_tag: String,
    pub update_execution_results: CommandExecutionResults,
}

/// The version that a tool's version query reported in `stdout`.
pub open spec fn reported_version(tool: Tool, stdout: Option<Seq<char>>) -> Seq<char> {
    match tool {
        Tool::YtDlp => plain_version(stdout),
        Tool::Ffmpeg => banner_version(stdout),
        Tool::Chromaprint => plain_version(stdout),
    }
}

/// The version surfaced for a version query: the reported one where the
/// query succeeded, none otherwise.
pub open spec fn surfaced_version(
    tool: Tool,
    results: CommandExecutionResults,
) -> Option<Seq<char>> {
    if results.command_completed_successfully {
        Some(reported_version(tool, text_of(results.stdout)))
    } else {
        None
    }
}

/// The channel and tag that the updater is pointed at.
pub open spec fn channel_and_tag(channel: YtDlpUpdateChannels) -> Seq<char> {
    match channel {
        YtDlpUpdateChannels::Stable => "stable@latest"@,
        YtDlpUpdateChannels::Master => "master@latest"@,
        YtDlpUpdateChannels::Nightly => "nightly@latest"@,
    }
}

/// The arguments with which yt-dlp updates itself from a channel.
pub open spec fn updater_arguments(channel: YtDlpUpdateChannels) -> Seq<Seq<char>> {
    seq!["--update-to"@, channel_and_tag(channel)]
}

/// What the status check of yt-dlp answers for a probe.
pub open spec fn probed(
    path: String,
    probe: VersionProbe,
    status: ResponseStatus,
    response: YtDlpStatusResponse,
) -> bool {
    let run = response.version_execution_results;
    &&& response.path == path
    &&& match probe {
        VersionProbe::Missing => {
            &&& status == ResponseStatus::BadRequest
            &&& !response.executable_exists
            &&& response.executable_version is None
            &&& !run.was_version_command_run
            &&& !run.command_completed_successfully
            &&& run.command_error is None
            &&& run.exit_status is None
            &&& run.stdout is None
            &&& run.stderr is None
        },
        VersionProbe::NotRun(cause) => {
            &&& status == ResponseStatus::BadRequest
            &&& response.executable_exists
            &&& response.executable_version is None
            &&& run.was_version_command_run
            &&& !run.command_completed_successfully
            &&& run.command_error == Some(cause)
            &&& run.exit_status is None
            &&& run.stdout is None
            &&& run.stderr is None
        },
        VersionProbe::Ran { exit_status, stdout, stderr } => {
            &&& status == status_for(exit_status == Some(0i32))
            &&& response.executable_exists
            &&& text_of(response.executable_version) == if exit_status == Some(0i32) {
                Some(normalized(stdout@))
            } else {
                None
            }
            &&& run.was_version_command_run
            &&& run.command_completed_successfully == (exit_status == Some(0i32))
            &&& run.command_error is None
            &&& run.exit_status == exit_status
            &&& run.stdout == Some(stdout)
            &&& run.stderr == Some(stderr)
        },
    }
}

/// The version that `tool` reported in `stdout`.
pub fn parse_tool_version(tool: Tool, stdout: &Option<String>) -> (version: String)
    ensures
        version@ == reported_version(tool, text_of(*stdout)),
{
    match tool {
        Tool::YtDlp => parse_yt_dlp_version(stdout),
        Tool::Ffmpeg => parse_ffmpeg_version(stdout),
        Tool::Chromaprint => parse_fpcalc_version(stdout),
    }
}

/// The version to surface for a version query of `tool`.
pub fn version_from(tool: Tool, results: &CommandExecutionResults) -> (version: Option<String>)
    ensures
        text_of(version) == surfaced_version(tool, *results),
{
    if results.command_completed_successfully {
        Some(parse_tool_version(tool, &results.stdout))
    } else {
        None
    }
}

/// Answers a status check of yt-dlp from the result of its version query:
/// `Success` with the version where the query succeeded, `BadRequest`
/// without one where it did not; the results go along either way.
pub fn handle_yt_dlp_status(path: String, results: CommandExecutionResults) -> (r: (
    ResponseStatus,
    ToolStatusResponse,
))
    ensures
        r.0 == status_for(results.command_completed_successfully),
        r.1.path == path,
        text_of(r.1.executable_version) == surfaced_version(Tool::YtDlp, results),
        r.1.command_execution_results == results,
{
    let status = status_of(results.command_completed_successfully);
    let executable_version = version_from(Tool::YtDlp, &results);
    (status, ToolStatusResponse { path, executable_version, command_execution_results: results })
}

/// Answers a status check of fpcalc from the result of its version query.
pub fn handle_chromaprint_fpcalc_status(path: String, results: CommandExecutionResults) -> (r: (
    ResponseStatus,
    ToolStatusResponse,
))
    ensures
        r.0 == status_for(results.command_completed_successfully),
        r.1.path == path,
        text_of(r.1.executable_version) == surfaced_version(Tool::Chromaprint, results),
        r.1.command_execution_results == results,
{
    let status = status_of(results.command_completed_successfully);
    let executable_version = version_from(Tool::Chromaprint, &results);
    (status, ToolStatusResponse { path, executable_version, command_execution_results: results })
}

/// Answers a status check of ffmpeg from the result of its version query;
/// the version is the third word of the banner.
pub fn handle_ffmpeg_status(path: String, results: CommandExecutionResults) -> (r: (
    ResponseStatus,
    FfmpegStatusResponse,
))
    ensures
        r.0 == status_for(results.command_completed_successfully),
        r.1.path == path,
        text_of(r.1.executable_version) == surfaced_version(Tool::Ffmpeg, results),
        r.1.version_execution_results == results,
{
    let status = status_of(results.command_completed_successfully);
    let executable_version = version_from(Tool::Ffmpeg, &results);
    (status, FfmpegStatusResponse { path, executable_version, version_execution_results: results })
}

impl YtDlpStatusResponse {
    /// The answer for what a look at the executable at `path` found: a
    /// missing executable and one that could not be run are `BadRequest`; one
    /// that ran is `Success` with its normalized version where it exited with
    /// zero, and `BadRequest` otherwise. Both streams of a run are reported,
    /// empty or not.
    pub fn from_probe(path: String, probe: VersionProbe) -> (r: (
        ResponseStatus,
        YtDlpStatusResponse,
    ))
        ensures
            probed(path, probe, r.0, r.1),
    {
        match probe {
            VersionProbe::Missing => (
                ResponseStatus::BadRequest,
                YtDlpStatusResponse {
                    executable_exists: false,
                    path,
                    executable_version: None,
                    version_execution_results: VersionExecutionResults {
                        was_version_command_run: false,
                        command_completed_successfully: false,
                        command_error: None,
                        exit_status: None,
                        stdout: None,
                        stderr: None,
                    },
                },
            ),
            VersionProbe::NotRun(cause) => (
                ResponseStatus::BadRequest,
                YtDlpStatusResponse {
                    executable_exists: true,
                    path,
                    executable_version: None,
                    version_execution_results: VersionExecutionResults {
                        was_version_command_run: true,
                        command_completed_successfully: false,
                        command_error: Some(cause),
                        exit_status: None,
                        stdout: None,
                        stderr: None,
                    },
                },
            ),
            VersionProbe::Ran { exit_status, stdout, stderr } => {
                let succeeded = match exit_status {
                    Some(code) => code == 0,
                    None => false,
                };
                let executable_version = if succeeded {
                    Some(parse_version(stdout.as_str()))
                } else {
                    None
                };
                (
                    status_of(succeeded),
                    YtDlpStatusResponse {
                        executable_exists: true,
                        path,
                        executable_version,
                        version_execution_results: VersionExecutionResults {
                            was_version_command_run: true,
                            command_completed_successfully: succeeded,
                            command_error: None,
                            exit_status,
                            stdout: Some(stdout),
                            stderr: Some(stderr),
                        },
                    },
                )
            },
        }
    }
}

/// The channel and tag that the updater is pointed at: the channel's name in
/// lower case, then `@latest`.
pub fn prepare_update_channel_and_tag(update_channel: YtDlpUpdateChannels) -> (tag: String)
    ensures
        tag@ == channel_and_tag(update_channel),
{
    match update_channel {
        YtDlpUpdateChannels::Stable => "stable@latest".to_owned(),
        YtDlpUpdateChannels::Master => "master@latest".to_owned(),
        YtDlpUpdateChannels::Nightly => "nightly@latest".to_owned(),
    }
}

/// The arguments with which yt-dlp updates itself as `request` asks.
pub fn update_arguments(request: &YtDlpUpdateRequest) -> (arguments: Vec<String>)
    ensures
        texts(arguments@) == updater_arguments(request.update_channel),
{
    let mut arguments: Vec<String> = Vec::new();
    arguments.push("--update-to".to_owned());
    arguments.push(prepare_update_channel_and_tag(request.update_channel));
    assert(texts(arguments@) =~= updater_arguments(request.update_channel));
    arguments
}

/// Answers an update request from the result of the updater's run.
pub fn handle_yt_dlp_update(
    request: YtDlpUpdateRequest,
    path: String,
    results: CommandExecutionResults,
) -> (r: (ResponseStatus, YtDlpUpdateResponse))
    ensures
        r.0 == status_for(results.command_completed_successfully),
        r.1.path == path,
        r.1.update_channel_and_tag@ == channel_and_tag(request.update_channel),
        r.1.update_execution_results == results,
{
    let status = status_of(results.command_completed_successfully);
    let update_channel_and_tag = prepare_update_channel_and_tag(request.update_channel);
    (
        status,
        YtDlpUpdateResponse { path, update_channel_and_tag, update_execution_results: results },
    )
}

} // verus!
