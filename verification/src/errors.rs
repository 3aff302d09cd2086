//! The ways in which a request can fail for good.

use crate::text::{decimal, decimal_of, join, joined, texts};
use vstd::prelude::*;
use vstd::string::StringExecFns;

verus! {

/// A fatal failure of a request. A tool that ran and exited with a failure is
/// not one of these: its result travels in the response.
#[derive(Debug, PartialEq, Eq)]
pub enum ServerError {
    /// The program could not be started; the text is the cause.
    SpawnFailure(String),
    /// The archive has an extension that no extractor handles; the text is
    /// the extension.
    UnsupportedFormat(String),
    /// The archive's name has no extension.
    NoExtension,
    /// The extractor gave up; the text is the cause.
    ExtractionFailed(String),
    /// No expected executable was found anywhere below the searched directory.
    NoBinariesFound,
    /// Some expected executables were moved, fewer than required.
    PartialInstallation { found: Vec<String>, required: usize },
    /// No download is known for this platform; the text is the platform.
    UnsupportedPlatform(String),
    /// The downloader reported success and left no file whose name begins
    /// with the text.
    FileNotFoundAfterDownload(String),
    /// The file to identify does not exist; the text is its path.
    InputNotFound(String),
    /// The fingerprinting tool reported success and printed nothing usable.
    FingerprintOutputUnparseable,
    /// The acoustic lookup returned no candidate.
    NoAcousticMatch,
    /// The best candidate names no recording.
    NoRecordingAssociated,
    /// The tool is not installed; the text is the cause.
    ToolNotFound(String),
    /// A network exchange failed; the text is the cause.
    NetworkFailure(String),
    /// The file system refused an operation; the text is the cause.
    DiskFailure(String),
    /// An event arrived that the request was not waiting for.
    UnexpectedEvent,
}

/// The stage of a request at which a failure occurred.
#[derive(Clone, Copy, Debug, PartialEq, Eq, Structural)]
pub enum Stage {
    CreatingDownloadDirectory,
    RunningDownloader,
    CreatingLibraryDirectory,
    ListingDownloads,
    MovingToLibrary,
    CheckingInput,
    Fingerprinting,
    ReadingFingerprint,
    LookingUpFingerprint,
    LookingUpRecording,
    DownloadingTool,
    ExtractingArchive,
    InstallingBinaries,
    MarkingExecutable,
    QueryingVersion,
    /// The request had ended already.
    Finished,
}

/// A failure together with the stage at which it occurred.
#[derive(Debug, PartialEq, Eq)]
pub struct Failure {
    pub stage: Stage,
    pub error: ServerError,
}

/// How a request that did not fail for good is answered.
#[derive(Clone, Copy, Debug, PartialEq, Eq, Structural)]
pub enum ResponseStatus {
    /// The work was done.
    Success,
    /// The tool ran and reported a failure.
    BadRequest,
}

/// `Success` for a command that succeeded, `BadRequest` otherwise.
pub open spec fn status_for(succeeded: bool) -> ResponseStatus {
    if succeeded {
        ResponseStatus::Success
    } else {
        ResponseStatus::BadRequest
    }
}

/// `Success` for a command that succeeded, `BadRequest` otherwise.
pub fn status_of(succeeded: bool) -> (status: ResponseStatus)
    ensures
        status == status_for(succeeded),
{
    if succeeded {
        ResponseStatus::Success
    } else {
        ResponseStatus::BadRequest
    }
}

/// What is said of a failure at a stage.
pub open spec fn stage_context(stage: Stage) -> Seq<char> {
    match stage {
        Stage::CreatingDownloadDirectory => "Failed to create the download directory"@,
        Stage::RunningDownloader => "Failed to download audio using yt-dlp"@,
        Stage::CreatingLibraryDirectory => "Failed to create the library directory"@,
        Stage::ListingDownloads => "Failed to find the media file"@,
        Stage::MovingToLibrary => "Failed to move the media file"@,
        Stage::CheckingInput => "Failed to find the audio file"@,
        Stage::Fingerprinting => "Failed to fingerprint audio with chromaprint's fpcalc"@,
        Stage::ReadingFingerprint => "Failed to read the fingerprinting results"@,
        Stage::LookingUpFingerprint => "Failed to query the AcoustID API"@,
        Stage::LookingUpRecording => "Failed to query the MusicBrainz API"@,
        Stage::DownloadingTool => "Failed to download the tool"@,
        Stage::ExtractingArchive => "Failed to extract the archive"@,
        Stage::InstallingBinaries => "Failed to move the binaries to the correct location"@,
        Stage::MarkingExecutable => "Failed to set executable permissions"@,
        Stage::QueryingVersion => "Failed to run the version command"@,
        Stage::Finished => "The request has ended"@,
    }
}

/// What is said of an error.
pub open spec fn error_message(error: ServerError) -> Seq<char> {
    match error {
        ServerError::SpawnFailure(cause) => "Failed to run the command: "@ + cause@,
        ServerError::UnsupportedFormat(ext) => "Unsupported file extension: "@ + ext@,
        ServerError::NoExtension => "Unable to extract archive. File has no extension"@,
        ServerError::ExtractionFailed(cause) => "Failed to extract ZIP archive: "@ + cause@,
        ServerError::NoBinariesFound => {
            "No binaries found in the directory and its subdirectories"@
        },
        ServerError::PartialInstallation { found, required } => {
            "Moved some binaries but not all required: "@ + joined(texts(found@), ", "@)
                + ", required number of binaries moved: "@ + decimal(required as nat)
                + ", actual moved: "@ + decimal(found@.len())
        },
        ServerError::UnsupportedPlatform(os) => "Unsupported operating system: "@ + os@,
        ServerError::FileNotFoundAfterDownload(prefix) => {
            "No matching file found that starts with prefix: "@ + prefix@
        },
        ServerError::InputNotFound(path) => "The audio file does not exist: "@ + path@,
        ServerError::FingerprintOutputUnparseable => "The output of fpcalc is no fingerprint"@,
        ServerError::NoAcousticMatch => "No results found in AcoustID API response"@,
        ServerError::NoRecordingAssociated => {
            "No recording ID found in the best AcoustID API result"@
        },
        ServerError::ToolNotFound(cause) => "The executable was not found: "@ + cause@,
        ServerError::NetworkFailure(cause) => "The network request failed: "@ + cause@,
        ServerError::DiskFailure(cause) => "The file system operation failed: "@ + cause@,
        ServerError::UnexpectedEvent => "An event arrived that was not waited for"@,
    }
}

/// What is said of a failure: the stage, then the cause.
pub open spec fn failure_message(failure: Failure) -> Seq<char> {
    stage_context(failure.stage) + ": "@ + error_message(failure.error)
}

fn said(lead: &str, text: &String) -> (message: String)
    ensures
        message@ == lead@ + text@,
{
    let mut message = lead.to_owned();
    message.append(text.as_str());
    message
}

impl Stage {
    /// What is said of a failure at this stage.
    pub fn context(&self) -> (text: &'static str)
        ensures
            text@ == stage_context(*self),
    {
        match self {
            Stage::CreatingDownloadDirectory => "Failed to create the download directory",
            Stage::RunningDownloader => "Failed to download audio using yt-dlp",
            Stage::CreatingLibraryDirectory => "Failed to create the library directory",
            Stage::ListingDownloads => "Failed to find the media file",
            Stage::MovingToLibrary => "Failed to move the media file",
            Stage::CheckingInput => "Failed to find the audio file",
            Stage::Fingerprinting => "Failed to fingerprint audio with chromaprint's fpcalc",
            Stage::ReadingFingerprint => "Failed to read the fingerprinting results",
            Stage::LookingUpFingerprint => "Failed to query the AcoustID API",
            Stage::LookingUpRecording => "Failed to query the MusicBrainz API",
            Stage::DownloadingTool => "Failed to download the tool",
            Stage::ExtractingArchive => "Failed to extract the archive",
            Stage::InstallingBinaries => "Failed to move the binaries to the correct location",
            Stage::MarkingExecutable => "Failed to set executable permissions",
            Stage::QueryingVersion => "Failed to run the version command",
            Stage::Finished => "The request has ended",
        }
    }
}

impl ServerError {
    /// The error in words.
    pub fn message(&self) -> (text: String)
        ensures
            text@ == error_message(*self),
    {
        match self {
            ServerError::SpawnFailure(cause) => said("Failed to run the command: ", cause),
            ServerError::UnsupportedFormat(ext) => said("Unsupported file extension: ", ext),
            ServerError::NoExtension => {
                "Unable to extract archive. File has no extension".to_owned()
            },
            ServerError::ExtractionFailed(cause) => said("Failed to extract ZIP archive: ", cause),
            ServerError::NoBinariesFound => {
                "No binaries found in the directory and its subdirectories".to_owned()
            },
            ServerError::PartialInstallation { found, required } => {
                let mut text = "Moved some binaries but not all required: ".to_owned();
                text.append(join(found, ", ").as_str());
                text.append(", required number of binaries moved: ");
                text.append(decimal_of(*required as u64).as_str());
                text.append(", actual moved: ");
                text.append(decimal_of(found.len() as u64).as_str());
                text
            },
            ServerError::UnsupportedPlatform(os) => said("Unsupported operating system: ", os),
            ServerError::FileNotFoundAfterDownload(prefix) => said(
                "No matching file found that starts with prefix: ",
                prefix,
            ),
            ServerError::InputNotFound(path) => said("The audio file does not exist: ", path),
            ServerError::FingerprintOutputUnparseable => {
                "The output of fpcalc is no fingerprint".to_owned()
            },
            ServerError::NoAcousticMatch => "No results found in AcoustID API response".to_owned(),
            ServerError::NoRecordingAssociated => {
                "No recording ID found in the best AcoustID API result".to_owned()
            },
            ServerError::ToolNotFound(cause) => said("The executable was not found: ", cause),
            ServerError::NetworkFailure(cause) => said("The network request failed: ", cause),
            ServerError::DiskFailure(cause) => said("The file system operation failed: ", cause),
            ServerError::UnexpectedEvent => "An event arrived that was not waited for".to_owned(),
        }
    }
}

impl Failure {
    /// The failure in words: what was being done, then what went wrong.
    pub fn message(&self) -> (text: String)
        ensures
            text@ == failure_message(*self),
    {
        let mut text = self.stage.context().to_owned();
        text.append(": ");
        text.append(self.error.message().as_str());
        text
    }
}

} // verus!
