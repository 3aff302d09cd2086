use ferrous_beats::commands::CommandExecutionResults;
use ferrous_beats::errors::{status_of, ResponseStatus};
use ferrous_beats::status::{
    handle_chromaprint_fpcalc_status, handle_ffmpeg_status, handle_yt_dlp_status, handle_yt_dlp_update,
    parse_tool_version, prepare_update_channel_and_tag, update_arguments, version_from,
    FfmpegStatusResponse, ToolStatusResponse, VersionExecutionResults, VersionProbe,
    YtDlpStatusResponse, YtDlpUpdateChannels, YtDlpUpdateRequest, YtDlpUpdateResponse,
};
use ferrous_beats::tools::Tool;

fn exited(code: Option<i32>, stdout: &str, stderr: &str) -> CommandExecutionResults {
    CommandExecutionResults::from_output(code, stdout.to_string(), stderr.to_string())
}

#[test]
fn status_follows_success() {
    assert_eq!(status_of(true), ResponseStatus::Success);
    assert_eq!(status_of(false), ResponseStatus::BadRequest);
}

#[test]
fn status_of_yt_dlp_that_answers() {
    let results = exited(Some(0), "2024.08.06\n", "");
    assert_eq!(
        handle_yt_dlp_status("/opt/tools/yt-dlp".to_string(), results.clone()),
        (
            ResponseStatus::Success,
            ToolStatusResponse {
                path: "/opt/tools/yt-dlp".to_string(),
                executable_version: Some("2024.08.06".to_string()),
                command_execution_results: results,
            }
        )
    );
}

#[test]
fn status_of_yt_dlp_that_fails() {
    let results = exited(Some(1), "", "error\n");
    assert_eq!(
        handle_yt_dlp_status("/opt/tools/yt-dlp".to_string(), results.clone()),
        (
            ResponseStatus::BadRequest,
            ToolStatusResponse {
                path: "/opt/tools/yt-dlp".to_string(),
                executable_version: None,
                command_execution_results: results,
            }
        )
    );
}

#[test]
fn status_of_a_tool_that_succeeds_without_output() {
    let results = exited(Some(0), "", "");
    let (status, response) = handle_chromaprint_fpcalc_status("fpcalc".to_string(), results);
    assert_eq!(status, ResponseStatus::Success);
    assert_eq!(response.executable_version, Some("could not parse version".to_string()));
}

#[test]
fn status_of_fpcalc() {
    let results = exited(Some(0), "fpcalc version 1.5.1 (FFmpeg Lavc58.134.100)\n", "");
    let (status, response) = handle_chromaprint_fpcalc_status("/t/fpcalc".to_string(), results.clone());
    assert_eq!(status, ResponseStatus::Success);
    assert_eq!(
        response,
        ToolStatusResponse {
            path: "/t/fpcalc".to_string(),
            executable_version: Some("fpcalc version 1.5.1 (FFmpeg Lavc58.134.100)".to_string()),
            command_execution_results: results,
        }
    );
}

#[test]
fn status_of_ffmpeg() {
    let results = exited(Some(0), "ffmpeg version 7.0.2 Copyright\nbuilt with gcc\n", "");
    assert_eq!(
        handle_ffmpeg_status("/t/ffmpeg".to_string(), results.clone()),
        (
            ResponseStatus::Success,
            FfmpegStatusResponse {
                path: "/t/ffmpeg".to_string(),
                executable_version: Some("7.0.2".to_string()),
                version_execution_results: results,
            }
        )
    );
    let killed = exited(None, "ffmpeg version 7.0.2", "");
    let (status, response) = handle_ffmpeg_status("/t/ffmpeg".to_string(), killed);
    assert_eq!(status, ResponseStatus::BadRequest);
    assert_eq!(response.executable_version, None);
}

#[test]
fn versions_by_tool() {
    let banner = Some("ffmpeg version 6.1 Copyright".to_string());
    assert_eq!(parse_tool_version(Tool::Ffmpeg, &banner), "6.1");
    assert_eq!(parse_tool_version(Tool::YtDlp, &banner), "ffmpeg version 6.1 Copyright");
    assert_eq!(parse_tool_version(Tool::Chromaprint, &banner), "ffmpeg version 6.1 Copyright");
    assert_eq!(version_from(Tool::Ffmpeg, &exited(Some(0), "a b c d", "")), Some("c".to_string()));
    assert_eq!(version_from(Tool::Ffmpeg, &exited(Some(9), "a b c d", "")), None);
}

#[test]
fn probe_of_a_missing_executable() {
    assert_eq!(
        YtDlpStatusResponse::from_probe("tools/yt-dlp".to_string(), VersionProbe::Missing),
        (
            ResponseStatus::BadRequest,
            YtDlpStatusResponse {
                executable_exists: false,
                path: "tools/yt-dlp".to_string(),
                executable_version: None,
                version_execution_results: VersionExecutionResults {
                    was_version_command_run: false,
                    command_completed_successfully: false,
                    command_error: None,
                    exit_status: None,
                    stdout: None,
                    stderr: None,
                },
            }
        )
    );
}

#[test]
fn probe_of_an_executable_that_cannot_be_run() {
    assert_eq!(
        YtDlpStatusResponse::from_probe(
            "tools/yt-dlp".to_string(),
            VersionProbe::NotRun("Exec format error (os error 8)".to_string())
        ),
        (
            ResponseStatus::BadRequest,
            YtDlpStatusResponse {
                executable_exists: true,
                path: "tools/yt-dlp".to_string(),
                executable_version: None,
                version_execution_results: VersionExecutionResults {
                    was_version_command_run: true,
                    command_completed_successfully: false,
                    command_error: Some("Exec format error (os error 8)".to_string()),
                    exit_status: None,
                    stdout: None,
                    stderr: None,
                },
            }
        )
    );
}

#[test]
fn probe_of_an_executable_that_ran() {
    let (status, response) = YtDlpStatusResponse::from_probe(
        "tools/yt-dlp".to_string(),
        VersionProbe::Ran { exit_status: Some(0), stdout: "2024.08.06\n".to_string(), stderr: String::new() },
    );
    assert_eq!(status, ResponseStatus::Success);
    assert_eq!(
        response,
        YtDlpStatusResponse {
            executable_exists: true,
            path: "tools/yt-dlp".to_string(),
            executable_version: Some("2024.08.06".to_string()),
            version_execution_results: VersionExecutionResults {
                was_version_command_run: true,
                command_completed_successfully: true,
                command_error: None,
                exit_status: Some(0),
                stdout: Some("2024.08.06\n".to_string()),
                stderr: Some(String::new()),
            },
        }
    );
    let (status, response) = YtDlpStatusResponse::from_probe(
        "tools/yt-dlp".to_string(),
        VersionProbe::Ran { exit_status: Some(2), stdout: String::new(), stderr: "usage".to_string() },
    );
    assert_eq!(status, ResponseStatus::BadRequest);
    assert_eq!(response.executable_version, None);
    assert!(!response.version_execution_results.command_completed_successfully);
    assert_eq!(response.version_execution_results.exit_status, Some(2));
    assert_eq!(response.version_execution_results.stdout, Some(String::new()));
    assert_eq!(response.version_execution_results.stderr, Some("usage".to_string()));
}

#[test]
fn update_channels_and_tags() {
    assert_eq!(prepare_update_channel_and_tag(YtDlpUpdateChannels::Stable), "stable@latest");
    assert_eq!(prepare_update_channel_and_tag(YtDlpUpdateChannels::Master), "master@latest");
    assert_eq!(prepare_update_channel_and_tag(YtDlpUpdateChannels::Nightly), "nightly@latest");
}

#[test]
fn updater_arguments() {
    let request = YtDlpUpdateRequest { update_channel: YtDlpUpdateChannels::Nightly };
    assert_eq!(update_arguments(&request), vec!["--update-to", "nightly@latest"]);
}

#[test]
fn an_update_is_answered_with_its_results() {
    let results = exited(Some(0), "Updated yt-dlp to stable@2024.08.06\n", "");
    assert_eq!(
        handle_yt_dlp_update(
            YtDlpUpdateRequest { update_channel: YtDlpUpdateChannels::Stable },
            "/t/yt-dlp".to_string(),
            results.clone()
        ),
        (
            ResponseStatus::Success,
            YtDlpUpdateResponse {
                path: "/t/yt-dlp".to_string(),
                update_channel_and_tag: "stable@latest".to_string(),
                update_execution_results: results,
            }
        )
    );
    let (status, _) = handle_yt_dlp_update(
        YtDlpUpdateRequest { update_channel: YtDlpUpdateChannels::Master },
        "/t/yt-dlp".to_string(),
        exited(Some(100), "", "ERROR"),
    );
    assert_eq!(status, ResponseStatus::BadRequest);
}
