use ferrous_beats::archive::ArchiveFormat;
use ferrous_beats::commands::CommandExecutionResults;
use ferrous_beats::errors::{Failure, ResponseStatus, ServerError, Stage};
use ferrous_beats::install::{DirectoryEntry, FileMove, SearchAction, SearchEvent};
use ferrous_beats::provision::{
    binary_statuses, handle_chromaprint_download, handle_ffmpeg_download, handle_yt_dlp_download,
    provision_tool, BinaryStatus, DownloadFailure, ProvisionAction, ProvisionEvent, ProvisionStage,
    Provisioning, ToolDownloadResponse,
};
use ferrous_beats::tools::{Platform, Tool};

fn failed(stage: Stage, error: ServerError) -> ProvisionAction {
    ProvisionAction::Fail(Failure { stage, error })
}

fn names(list: &[&str]) -> Vec<String> {
    list.iter().map(|s| s.to_string()).collect()
}

fn file(dir: &str, name: &str) -> DirectoryEntry {
    DirectoryEntry {
        file_name: Some(name.to_string()),
        path: format!("{}/{}", dir, name),
        is_directory: false,
    }
}

fn directory(dir: &str, name: &str) -> DirectoryEntry {
    DirectoryEntry {
        file_name: Some(name.to_string()),
        path: format!("{}/{}", dir, name),
        is_directory: true,
    }
}

fn status(name: &str, installed: bool) -> BinaryStatus {
    BinaryStatus { name: name.to_string(), installed }
}

fn exited(code: i32, stdout: &str) -> CommandExecutionResults {
    CommandExecutionResults::from_output(Some(code), stdout.to_string(), String::new())
}

#[test]
fn provisioning_begins_with_the_download() {
    let (state, action) = handle_ffmpeg_download("windows", "tools".to_string()).unwrap();
    assert_eq!(state.platform, Platform::Windows);
    assert_eq!(state.tools_dir, "tools");
    assert_eq!(state.stage, ProvisionStage::Downloading);
    assert_eq!(state.descriptor.tool, Tool::Ffmpeg);
    assert_eq!(
        action,
        ProvisionAction::Download {
            url: "https://github.com/BtbN/FFmpeg-Builds/releases/download/latest/ffmpeg-master-latest-win64-lgpl.zip"
                .to_string(),
            directory: "tools".to_string(),
            file_name: "ffmpeg.zip".to_string(),
        }
    );
}

#[test]
fn provisioning_on_an_unsupported_platform() {
    assert_eq!(
        handle_yt_dlp_download("haiku", "tools".to_string()),
        Err(ServerError::UnsupportedPlatform("haiku".to_string()))
    );
    assert_eq!(
        handle_ffmpeg_download("", "tools".to_string()),
        Err(ServerError::UnsupportedPlatform(String::new()))
    );
    assert_eq!(
        handle_chromaprint_download("WINDOWS", "tools".to_string()),
        Err(ServerError::UnsupportedPlatform("WINDOWS".to_string()))
    );
    assert_eq!(
        Provisioning::start(Tool::Ffmpeg, "beos", "tools".to_string()),
        Err(ServerError::UnsupportedPlatform("beos".to_string()))
    );
}

#[test]
fn a_download_that_fails_keeps_its_cause() {
    let (state, _) = handle_yt_dlp_download("linux", "tools".to_string()).unwrap();
    let (state, action) = provision_tool(
        state,
        ProvisionEvent::Downloaded(Err(DownloadFailure::Network("connection reset".to_string()))),
    );
    assert_eq!(state.stage, ProvisionStage::Finished);
    assert_eq!(action, failed(Stage::DownloadingTool, ServerError::NetworkFailure("connection reset".to_string())));

    let (state, _) = handle_yt_dlp_download("linux", "tools".to_string()).unwrap();
    let (_, action) = provision_tool(
        state,
        ProvisionEvent::Downloaded(Err(DownloadFailure::Disk("file exists".to_string()))),
    );
    assert_eq!(action, failed(Stage::DownloadingTool, ServerError::DiskFailure("file exists".to_string())));
}

#[test]
fn yt_dlp_on_linux_is_made_executable_and_asked_for_its_version() {
    let (state, action) = handle_yt_dlp_download("linux", "tools".to_string()).unwrap();
    assert_eq!(
        action,
        ProvisionAction::Download {
            url: "https://github.com/yt-dlp/yt-dlp/releases/latest/download/yt-dlp".to_string(),
            directory: "tools".to_string(),
            file_name: "yt-dlp".to_string(),
        }
    );
    let (state, action) = provision_tool(state, ProvisionEvent::Downloaded(Ok(())));
    assert_eq!(
        action,
        ProvisionAction::MakeExecutable { directory: "tools".to_string(), file_names: names(&["yt-dlp"]) }
    );
    let (state, action) = provision_tool(state, ProvisionEvent::MadeExecutable(Ok(())));
    assert_eq!(action, ProvisionAction::QueryVersion(Tool::YtDlp));
    let (state, action) =
        provision_tool(state, ProvisionEvent::ToolRun(Ok(exited(0, "2024.08.06\n"))));
    assert_eq!(state.stage, ProvisionStage::Finished);
    assert_eq!(
        action,
        ProvisionAction::Finish(
            ResponseStatus::Success,
            ToolDownloadResponse {
                download_url: "https://github.com/yt-dlp/yt-dlp/releases/latest/download/yt-dlp"
                    .to_string(),
                tools_dir_path: "tools".to_string(),
                binaries: vec![status("yt-dlp", true), status("yt-dlp.exe", false)],
                executable_version: Some("2024.08.06".to_string()),
                version_execution_results: exited(0, "2024.08.06\n"),
            }
        )
    );
}

#[test]
fn yt_dlp_on_windows_needs_no_permission() {
    let (state, _) = handle_yt_dlp_download("windows", "tools".to_string()).unwrap();
    let (state, action) = provision_tool(state, ProvisionEvent::Downloaded(Ok(())));
    assert_eq!(action, ProvisionAction::QueryVersion(Tool::YtDlp));
    assert_eq!(state.stage, ProvisionStage::Verifying { installed: names(&["yt-dlp.exe"]) });
}

#[test]
fn permissions_that_cannot_be_set_fail_the_provisioning() {
    let (state, _) = handle_yt_dlp_download("macos", "tools".to_string()).unwrap();
    let (state, _) = provision_tool(state, ProvisionEvent::Downloaded(Ok(())));
    let (_, action) =
        provision_tool(state, ProvisionEvent::MadeExecutable(Err("not permitted".to_string())));
    assert_eq!(action, failed(Stage::MarkingExecutable, ServerError::DiskFailure("not permitted".to_string())));
}

#[test]
fn ffmpeg_on_windows_is_unpacked_installed_and_asked_for_its_version() {
    let (state, _) = handle_ffmpeg_download("windows", "tools".to_string()).unwrap();
    let (state, action) = provision_tool(state, ProvisionEvent::Downloaded(Ok(())));
    assert_eq!(state.stage, ProvisionStage::Extracting);
    assert_eq!(
        action,
        ProvisionAction::Extract {
            format: ArchiveFormat::Zip,
            directory: "tools".to_string(),
            file_name: "ffmpeg.zip".to_string(),
        }
    );
    let (state, action) = provision_tool(state, ProvisionEvent::Extracted(Ok(())));
    assert_eq!(action, ProvisionAction::Search(SearchAction::ReadDirectory("tools".to_string())));
    let (state, action) = provision_tool(
        state,
        ProvisionEvent::Search(SearchEvent::DirectoryRead(Ok(vec![
            file("tools", "ffmpeg.zip"),
            directory("tools", "ffmpeg-master"),
        ]))),
    );
    assert_eq!(
        action,
        ProvisionAction::Search(SearchAction::ReadDirectory("tools/ffmpeg-master".to_string()))
    );
    let (state, action) = provision_tool(
        state,
        ProvisionEvent::Search(SearchEvent::DirectoryRead(Ok(vec![
            file("tools/ffmpeg-master", "ffmpeg.exe"),
            file("tools/ffmpeg-master", "ffprobe.exe"),
            file("tools/ffmpeg-master", "ffplay.exe"),
        ]))),
    );
    assert_eq!(
        action,
        ProvisionAction::Search(SearchAction::MoveFiles {
            moves: vec![
                FileMove {
                    source: "tools/ffmpeg-master/ffmpeg.exe".to_string(),
                    file_name: "ffmpeg.exe".to_string()
                },
                FileMove {
                    source: "tools/ffmpeg-master/ffprobe.exe".to_string(),
                    file_name: "ffprobe.exe".to_string()
                },
                FileMove {
                    source: "tools/ffmpeg-master/ffplay.exe".to_string(),
                    file_name: "ffplay.exe".to_string()
                },
            ],
            destination: "tools".to_string(),
        })
    );
    let (state, action) = provision_tool(state, ProvisionEvent::Search(SearchEvent::FilesMoved(Ok(()))));
    assert_eq!(action, ProvisionAction::QueryVersion(Tool::Ffmpeg));
    let banner = "ffmpeg version N-116445 Copyright (c) 2000-2024 the FFmpeg developers\n";
    let (state, action) = provision_tool(state, ProvisionEvent::ToolRun(Ok(exited(0, banner))));
    assert_eq!(state.stage, ProvisionStage::Finished);
    assert_eq!(
        action,
        ProvisionAction::Finish(
            ResponseStatus::Success,
            ToolDownloadResponse {
                download_url:
                    "https://github.com/BtbN/FFmpeg-Builds/releases/download/latest/ffmpeg-master-latest-win64-lgpl.zip"
                        .to_string(),
                tools_dir_path: "tools".to_string(),
                binaries: vec![
                    status("ffmpeg", false),
                    status("ffplay", false),
                    status("ffprobe", false),
                    status("ffmpeg.exe", true),
                    status("ffplay.exe", true),
                    status("ffprobe.exe", true),
                ],
                executable_version: Some("N-116445".to_string()),
                version_execution_results: exited(0, banner),
            }
        )
    );
}

#[test]
fn an_archive_that_no_extractor_handles_fails_after_the_download() {
    let (state, _) = handle_ffmpeg_download("linux", "tools".to_string()).unwrap();
    let (state, action) = provision_tool(state, ProvisionEvent::Downloaded(Ok(())));
    assert_eq!(state.stage, ProvisionStage::Finished);
    assert_eq!(action, failed(Stage::ExtractingArchive, ServerError::UnsupportedFormat("xz".to_string())));

    let (state, _) = handle_chromaprint_download("macos", "tools".to_string()).unwrap();
    let (_, action) = provision_tool(state, ProvisionEvent::Downloaded(Ok(())));
    assert_eq!(action, failed(Stage::ExtractingArchive, ServerError::UnsupportedFormat("gz".to_string())));

    let (state, _) = handle_ffmpeg_download("macos", "tools".to_string()).unwrap();
    let (_, action) = provision_tool(state, ProvisionEvent::Downloaded(Ok(())));
    assert_eq!(action, failed(Stage::ExtractingArchive, ServerError::UnsupportedFormat("7z".to_string())));
}

#[test]
fn an_archive_that_cannot_be_unpacked_fails_the_provisioning() {
    let (state, _) = handle_chromaprint_download("windows", "tools".to_string()).unwrap();
    let (state, _) = provision_tool(state, ProvisionEvent::Downloaded(Ok(())));
    let (state, action) =
        provision_tool(state, ProvisionEvent::Extracted(Err("invalid Zip archive".to_string())));
    assert_eq!(state.stage, ProvisionStage::Finished);
    assert_eq!(
        action,
        failed(Stage::ExtractingArchive, ServerError::ExtractionFailed("invalid Zip archive".to_string()))
    );
}

#[test]
fn an_archive_without_the_executables_fails_the_provisioning() {
    let (state, _) = handle_chromaprint_download("windows", "tools".to_string()).unwrap();
    let (state, _) = provision_tool(state, ProvisionEvent::Downloaded(Ok(())));
    let (state, _) = provision_tool(state, ProvisionEvent::Extracted(Ok(())));
    let (state, action) = provision_tool(
        state,
        ProvisionEvent::Search(SearchEvent::DirectoryRead(Ok(vec![file("tools", "chromaprint.zip")]))),
    );
    assert_eq!(state.stage, ProvisionStage::Finished);
    assert_eq!(action, failed(Stage::InstallingBinaries, ServerError::NoBinariesFound));
}

#[test]
fn an_archive_with_too_few_executables_fails_the_provisioning() {
    let (state, _) = handle_ffmpeg_download("windows", "tools".to_string()).unwrap();
    let (state, _) = provision_tool(state, ProvisionEvent::Downloaded(Ok(())));
    let (state, _) = provision_tool(state, ProvisionEvent::Extracted(Ok(())));
    let (state, _) = provision_tool(
        state,
        ProvisionEvent::Search(SearchEvent::DirectoryRead(Ok(vec![
            file("tools", "ffmpeg.exe"),
            file("tools", "ffplay.exe"),
        ]))),
    );
    let (state, action) = provision_tool(state, ProvisionEvent::Search(SearchEvent::FilesMoved(Ok(()))));
    assert_eq!(state.stage, ProvisionStage::Finished);
    assert_eq!(
        action,
        failed(Stage::InstallingBinaries, ServerError::PartialInstallation {
            found: names(&["ffmpeg.exe", "ffplay.exe"]),
            required: 3,
        })
    );
}

#[test]
fn a_search_that_fails_fails_the_provisioning() {
    let (state, _) = handle_chromaprint_download("windows", "tools".to_string()).unwrap();
    let (state, _) = provision_tool(state, ProvisionEvent::Downloaded(Ok(())));
    let (state, _) = provision_tool(state, ProvisionEvent::Extracted(Ok(())));
    let (_, action) = provision_tool(
        state,
        ProvisionEvent::Search(SearchEvent::DirectoryRead(Err("input/output error".to_string()))),
    );
    assert_eq!(action, failed(Stage::InstallingBinaries, ServerError::DiskFailure("input/output error".to_string())));
}

#[test]
fn a_version_query_that_fails_is_answered_with_its_results() {
    let (state, _) = handle_chromaprint_download("windows", "tools".to_string()).unwrap();
    let (state, _) = provision_tool(state, ProvisionEvent::Downloaded(Ok(())));
    let (state, _) = provision_tool(state, ProvisionEvent::Extracted(Ok(())));
    let (state, _) = provision_tool(
        state,
        ProvisionEvent::Search(SearchEvent::DirectoryRead(Ok(vec![file("tools", "fpcalc.exe")]))),
    );
    let (state, action) = provision_tool(state, ProvisionEvent::Search(SearchEvent::FilesMoved(Ok(()))));
    assert_eq!(action, ProvisionAction::QueryVersion(Tool::Chromaprint));
    let (_, action) = provision_tool(state, ProvisionEvent::ToolRun(Ok(exited(3, "broken"))));
    assert_eq!(
        action,
        ProvisionAction::Finish(
            ResponseStatus::BadRequest,
            ToolDownloadResponse {
                download_url: "https://github.com/acoustid/chromaprint/releases/download/v1.5.1/chromaprint-fpcalc-1.5.1-windows-x86_64.zip".to_string(),
                tools_dir_path: "tools".to_string(),
                binaries: vec![status("fpcalc", false), status("fpcalc.exe", true)],
                executable_version: None,
                version_execution_results: exited(3, "broken"),
            }
        )
    );
}

#[test]
fn a_version_query_that_cannot_be_run_fails_the_provisioning() {
    let (state, _) = handle_yt_dlp_download("windows", "tools".to_string()).unwrap();
    let (state, _) = provision_tool(state, ProvisionEvent::Downloaded(Ok(())));
    let (_, action) = provision_tool(
        state,
        ProvisionEvent::ToolRun(Err(ServerError::SpawnFailure("not executable".to_string()))),
    );
    assert_eq!(action, failed(Stage::QueryingVersion, ServerError::SpawnFailure("not executable".to_string())));
}

#[test]
fn an_event_that_was_not_waited_for_fails_the_provisioning() {
    let (state, _) = handle_yt_dlp_download("linux", "tools".to_string()).unwrap();
    let (state, action) = provision_tool(state, ProvisionEvent::Extracted(Ok(())));
    assert_eq!(state.stage, ProvisionStage::Finished);
    assert_eq!(action, failed(Stage::DownloadingTool, ServerError::UnexpectedEvent));
    let (_, action) = provision_tool(state, ProvisionEvent::Downloaded(Ok(())));
    assert_eq!(action, failed(Stage::Finished, ServerError::UnexpectedEvent));
}

#[test]
fn binary_statuses_tell_for_each_expected_name_whether_it_was_found() {
    assert_eq!(
        binary_statuses(&names(&["ffmpeg", "ffplay", "ffprobe"]), &names(&["ffprobe", "ffmpeg", "ffmpeg"])),
        vec![status("ffmpeg", true), status("ffplay", false), status("ffprobe", true)]
    );
    assert_eq!(binary_statuses(&Vec::new(), &names(&["x"])), Vec::new());
    assert_eq!(binary_statuses(&names(&["x"]), &Vec::new()), vec![status("x", false)]);
}
