//! Making a tool runnable: download it, unpack it, move its executables into
//! place, and ask it for its version. The decisions, one stage at a time.

use crate::archive::{decompress_file, dispatched, ArchiveFormat};
use crate::commands::{text_of, CommandExecutionResults};
use crate::errors::{Failure, ResponseStatus, ServerError, Stage, status_for, status_of};
use crate::install::{
    result_is, search_and_move_binaries, search_stepped, BinaryLocator, SearchAction, SearchEvent,
    SearchPhase,
};
use crate::status::{surfaced_version, version_from};
use crate::text::texts;
use crate::tools::{
    download_url, expected_binaries, minimum_binaries, output_file_name, packaging_of,
    platform_named, Packaging, Platform, Tool, ToolDescriptor,
};
use vstd::prelude::*;

verus! {

/// Whether one expected executable was installed.
#[derive(Debug, PartialEq, Eq)]
pub struct BinaryStatus {
    pub name: String,
    pub installed: bool,
}

/// The answer to a request to provision a tool.
#[derive(Debug, PartialEq, Eq)]
pub struct ToolDownloadResponse {
    /// Where the tool was downloaded from.
    pub download_url: String,
    /// The directory that the tool was installed into.
    pub tools_dir_path: String,
    /// For each expected executable, whether it was installed.
    pub binaries: Vec<BinaryStatus>,
    /// The version that the tool reported, where its version query
    /// succeeded.
    pub executable_version: Option<String>,
    /// What the version query left behind.
    pub version_execution_results: CommandExecutionResults,
}

/// Why a download did not arrive on disk.
#[derive(Debug, PartialEq, Eq)]
pub enum DownloadFailure {
    /// The transfer failed.
    Network(String),
    /// The file could not be written.
    Disk(String),
}

/// How far a provisioning has come.
#[derive(Debug, PartialEq, Eq)]
pub enum ProvisionStage {
    /// Waiting for the download to be on disk.
    Downloading,
    /// Waiting for the archive to be unpacked.
    Extracting,
    /// Searching for the executables and moving them into place.
    Installing(BinaryLocator),
    /// Waiting for the installed files to be made executable.
    MarkingExecutable { installed: Vec<String> },
    /// Waiting for the version query to end.
    Verifying { installed: Vec<String> },
    /// Ended.
    Finished,
}

/// One provisioning, from the request to the answer.
#[derive(Debug, PartialEq, Eq)]
pub struct Provisioning {
    pub descriptor: ToolDescriptor,
    pub platform: Platform,
    /// The directory that tools are installed into.
    pub tools_dir: String,
    pub stage: ProvisionStage,
}

/// What the outside world reports back to a provisioning.
#[derive(Debug, PartialEq, Eq)]
pub enum ProvisionEvent {
    /// The download is on disk, or why it is not.
    Downloaded(Result<(), DownloadFailure>),
    /// The archive was unpacked, or why it was not.
    Extracted(Result<(), String>),
    /// A report to the search for executables.
    Search(SearchEvent),
    /// The files were made executable, or why they were not.
    MadeExecutable(Result<(), String>),
    /// The version query ran, or why it could not be run.
    ToolRun(Result<CommandExecutionResults, ServerError>),
}

/// What a provisioning asks of the outside world.
#[derive(Debug, PartialEq, Eq)]
pub enum ProvisionAction {
    /// Fetch the URL and store it in the directory under the file name.
    Download { url: String, directory: String, file_name: String },
    /// Unpack the archive of this name in the directory, into the directory.
    Extract { format: ArchiveFormat, directory: String, file_name: String },
    /// Read a directory or move files, for the search.
    Search(SearchAction),
    /// Set the executable permission of these files in the directory.
    MakeExecutable { directory: String, file_names: Vec<String> },
    /// Run the tool with the arguments of its version query.
    QueryVersion(Tool),
    /// Answer the request.
    Finish(ResponseStatus, ToolDownloadResponse),
    /// Fail the request.
    Fail(Failure),
}

/// Whether files must be given the executable permission on a platform: on
/// all that have one.
pub open spec fn needs_executable_permission(platform: Platform) -> bool {
    platform != Platform::Windows
}

/// The failure that a failed download stands for.
pub open spec fn download_error(failure: DownloadFailure) -> ServerError {
    match failure {
        DownloadFailure::Network(cause) => ServerError::NetworkFailure(cause),
        DownloadFailure::Disk(cause) => ServerError::DiskFailure(cause),
    }
}

/// For each expected executable, in order, whether it is among `found`.
pub open spec fn statuses_for(
    statuses: Seq<BinaryStatus>,
    expected: Seq<Seq<char>>,
    found: Seq<Seq<char>>,
) -> bool {
    &&& statuses.len() == expected.len()
    &&& forall|i: int|
        0 <= i < expected.len() ==> (#[trigger] statuses[i]).name@ == expected[i] && statuses[i].installed
            == found.contains(expected[i])
}

/// What a provisioning keeps from step to step.
pub open spec fn same_order(before: Provisioning, after: Provisioning) -> bool {
    &&& after.descriptor == before.descriptor
    &&& after.platform == before.platform
    &&& after.tools_dir == before.tools_dir
}

/// The name of a stage.
pub open spec fn stage_name(stage: ProvisionStage) -> Stage {
    match stage {
        ProvisionStage::Downloading => Stage::DownloadingTool,
        ProvisionStage::Extracting => Stage::ExtractingArchive,
        ProvisionStage::Installing(_) => Stage::InstallingBinaries,
        ProvisionStage::MarkingExecutable { .. } => Stage::MarkingExecutable,
        ProvisionStage::Verifying { .. } => Stage::QueryingVersion,
        ProvisionStage::Finished => Stage::Finished,
    }
}

/// The request has ended by failing at `stage` with `error`.
pub open spec fn failed_at(
    after: Provisioning,
    action: ProvisionAction,
    stage: Stage,
    error: ServerError,
) -> bool {
    after.stage is Finished && action == ProvisionAction::Fail(Failure { stage, error })
}

/// The request has ended by failing with `error` at the stage it was in.
pub open spec fn failed_with(
    before: Provisioning,
    after: Provisioning,
    action: ProvisionAction,
    error: ServerError,
) -> bool {
    failed_at(after, action, stage_name(before.stage), error)
}

/// With these files installed, a provisioning goes on to make them
/// executable where the platform asks for it, and to the version query
/// where it does not.
pub open spec fn installed_then(
    before: Provisioning,
    installed: Seq<String>,
    after: Provisioning,
    action: ProvisionAction,
) -> bool {
    &&& same_order(before, after)
    &&& if needs_executable_permission(before.platform) {
        &&& after.stage matches ProvisionStage::MarkingExecutable { installed: kept }
        &&& kept@ == installed
        &&& action matches ProvisionAction::MakeExecutable { directory, file_names }
        &&& directory == before.tools_dir
        &&& file_names@ == installed
    } else {
        &&& after.stage matches ProvisionStage::Verifying { installed: kept }
        &&& kept@ == installed
        &&& action == ProvisionAction::QueryVersion(before.descriptor.tool)
    }
}

/// The answer that a provisioning gives once the version query has run.
pub open spec fn answered(
    before: Provisioning,
    installed: Seq<String>,
    results: CommandExecutionResults,
    status: ResponseStatus,
    response: ToolDownloadResponse,
) -> bool {
    &&& status == status_for(results.command_completed_successfully)
    &&& response.download_url == before.descriptor.download_url
    &&& response.tools_dir_path == before.tools_dir
    &&& statuses_for(
        response.binaries@,
        texts(before.descriptor.expected_binaries@),
        texts(installed),
    )
    &&& text_of(response.executable_version) == surfaced_version(before.descriptor.tool, results)
    &&& response.version_execution_results == results
}

/// One step of a provisioning: what it becomes, and what it asks for, on an
/// event.
pub open spec fn provision_stepped(
    before: Provisioning,
    event: ProvisionEvent,
    after: Provisioning,
    action: ProvisionAction,
) -> bool {
    match (before.stage, event) {
        (ProvisionStage::Downloading, ProvisionEvent::Downloaded(Ok(()))) => {
            match packaging_of(before.descriptor.tool) {
                Packaging::Executable => exists|installed: Seq<String>|
                    {
                        &&& #[trigger] installed_then(before, installed, after, action)
                        &&& texts(installed) == seq![before.descriptor.output_file_name@]
                    },
                Packaging::Archive => {
                    if dispatched(
                        before.descriptor.output_file_name@,
                        Ok::<ArchiveFormat, ServerError>(ArchiveFormat::Zip),
                    ) {
                        &&& same_order(before, after)
                        &&& after.stage is Extracting
                        &&& action == ProvisionAction::Extract {
                            format: ArchiveFormat::Zip,
                            directory: before.tools_dir,
                            file_name: before.descriptor.output_file_name,
                        }
                    } else {
                        &&& after.stage is Finished
                        &&& action matches ProvisionAction::Fail(failure)
                        &&& failure.stage == Stage::ExtractingArchive
                        &&& dispatched(
                            before.descriptor.output_file_name@,
                            Err::<ArchiveFormat, ServerError>(failure.error),
                        )
                    }
                },
            }
        },
        (ProvisionStage::Downloading, ProvisionEvent::Downloaded(Err(failure))) => failed_with(
            before,
            after,
            action,
            download_error(failure),
        ),
        (ProvisionStage::Extracting, ProvisionEvent::Extracted(Ok(()))) => {
            &&& same_order(before, after)
            &&& after.stage matches ProvisionStage::Installing(search)
            &&& search.destination == before.tools_dir
            &&& search.targets@ == before.descriptor.expected_binaries@
            &&& search.minimum == before.descriptor.minimum_binaries
            &&& search.phase == SearchPhase::Reading
            &&& search.pending@ == Seq::<String>::empty()
            &&& search.moving@ == Seq::<String>::empty()
            &&& search.found@ == Seq::<String>::empty()
            &&& action == ProvisionAction::Search(SearchAction::ReadDirectory(before.tools_dir))
        },
        (ProvisionStage::Extracting, ProvisionEvent::Extracted(Err(cause))) => failed_with(
            before,
            after,
            action,
            ServerError::ExtractionFailed(cause),
        ),
        (ProvisionStage::Installing(search), ProvisionEvent::Search(report)) => {
            exists|next: BinaryLocator, asked: SearchAction|
                {
                    &&& #[trigger] search_stepped(search, report, next, asked)
                    &&& match asked {
                        SearchAction::Finish(outcome) => exists|
                            r: Result<Vec<String>, ServerError>,
                        |
                            {
                                &&& #[trigger] result_is(outcome, r)
                                &&& match r {
                                    Ok(found) => installed_then(before, found@, after, action),
                                    Err(error) => failed_with(before, after, action, error),
                                }
                            },
                        SearchAction::Fail(error) => failed_with(before, after, action, error),
                        _ => {
                            &&& same_order(before, after)
                            &&& after.stage == ProvisionStage::Installing(next)
                            &&& action == ProvisionAction::Search(asked)
                        },
                    }
                }
        },
        (
            ProvisionStage::MarkingExecutable { installed },
            ProvisionEvent::MadeExecutable(Ok(())),
        ) => {
            &&& same_order(before, after)
            &&& after.stage == ProvisionStage::Verifying { installed }
            &&& action == ProvisionAction::QueryVersion(before.descriptor.tool)
        },
        (
            ProvisionStage::MarkingExecutable { .. },
            ProvisionEvent::MadeExecutable(Err(cause)),
        ) => failed_with(before, after, action, ServerError::DiskFailure(cause)),
        (ProvisionStage::Verifying { installed }, ProvisionEvent::ToolRun(Ok(results))) => {
            &&& after.stage is Finished
            &&& action matches ProvisionAction::Finish(status, response)
            &&& answered(before, installed@, results, status, response)
        },
        (ProvisionStage::Verifying { .. }, ProvisionEvent::ToolRun(Err(error))) => failed_with(
            before,
            after,
            action,
            error,
        ),
        _ => failed_with(before, after, action, ServerError::UnexpectedEvent),
    }
}

/// What `Provisioning::start` answers.
pub open spec fn provision_started(
    tool: Tool,
    os: Seq<char>,
    tools_dir: String,
    r: Result<(Provisioning, ProvisionAction), ServerError>,
) -> bool {
    match platform_named(os) {
        None => r matches Err(ServerError::UnsupportedPlatform(name)) && name@ == os,
        Some(platform) => {
            &&& r matches Ok(begun)
            &&& begun.0.well_formed()
            &&& begun.0.descriptor.describes(tool, platform)
            &&& begun.0.platform == platform
            &&& begun.0.tools_dir == tools_dir
            &&& begun.0.stage is Downloading
            &&& begun.1 matches ProvisionAction::Download { url, directory, file_name }
            &&& url@ == download_url(tool, platform)
            &&& directory == tools_dir
            &&& file_name@ == output_file_name(tool, platform)
        },
    }
}

/// Whether `name` is among `found`.
fn is_among(found: &Vec<String>, name: &String) -> (r: bool)
    ensures
        r == texts(found@).contains(name@),
{
    crate::install::is_target(found, name)
}

/// For each of the `expected` executables, whether it is among `found`.
pub fn binary_statuses(expected: &Vec<String>, found: &Vec<String>) -> (statuses: Vec<
    BinaryStatus,
>)
    ensures
        statuses_for(statuses@, texts(expected@), texts(found@)),
{
    let mut statuses: Vec<BinaryStatus> = Vec::new();
    let mut i: usize = 0;
    while i < expected.len()
        invariant
            i <= expected.len(),
            statuses@.len() == i,
            forall|k: int|
                0 <= k < i ==> (#[trigger] statuses@[k]).name@ == texts(expected@)[k]
                    && statuses@[k].installed == texts(found@).contains(texts(expected@)[k]),
        decreases expected.len() - i,
    {
        let installed = is_among(found, &expected[i]);
        statuses.push(BinaryStatus { name: expected[i].clone(), installed });
        i = i + 1;
    }
    statuses
}

fn copy_of(names: &Vec<String>) -> (r: Vec<String>)
    ensures
        r@ == names@,
{
    let mut r: Vec<String> = Vec::new();
    let mut i: usize = 0;
    while i < names.len()
        invariant
            i <= names.len(),
            r@ == names@.take(i as int),
        decreases names.len() - i,
    {
        r.push(names[i].clone());
        i = i + 1;
        assert(names@.take(i as int) =~= names@.take(i - 1).push(names@[i - 1]));
    }
    assert(names@.take(names.len() as int) =~= names@);
    r
}

impl ProvisionStage {
    /// The name of the stage.
    pub fn name(&self) -> (name: Stage)
        ensures
            name == stage_name(*self),
    {
        match self {
            ProvisionStage::Downloading => Stage::DownloadingTool,
            ProvisionStage::Extracting => Stage::ExtractingArchive,
            ProvisionStage::Installing(_) => Stage::InstallingBinaries,
            ProvisionStage::MarkingExecutable { .. } => Stage::MarkingExecutable,
            ProvisionStage::Verifying { .. } => Stage::QueryingVersion,
            ProvisionStage::Finished => Stage::Finished,
        }
    }
}

impl Provisioning {
    /// The descriptor is well formed and is the one of its tool on the
    /// platform.
    pub open spec fn well_formed(&self) -> bool {
        &&& self.descriptor.well_formed()
        &&& self.descriptor.describes(self.descriptor.tool, self.platform)
    }

    /// Begins to provision `tool` for the operating system named `os` into
    /// `tools_dir`: the download comes first. An operating system for which
    /// no download is known is an `UnsupportedPlatform`.
    pub fn start(tool: Tool, os: &str, tools_dir: String) -> (r: Result<
        (Provisioning, ProvisionAction),
        ServerError,
    >)
        ensures
            provision_started(tool, os@, tools_dir, r),
    {
        let platform = match crate::tools::platform_of(os) {
            Ok(platform) => platform,
            Err(error) => {
                return Err(error);
            },
        };
        let descriptor = ToolDescriptor::new(tool, platform);
        let action = ProvisionAction::Download {
            url: descriptor.download_url.clone(),
            directory: tools_dir.clone(),
            file_name: descriptor.output_file_name.clone(),
        };
        Ok(
            (
                Provisioning { descriptor, platform, tools_dir, stage: ProvisionStage::Downloading },
                action,
            ),
        )
    }

    fn at(self, stage: ProvisionStage) -> (r: Provisioning)
        ensures
            same_order(self, r),
            r.stage == stage,
    {
        Provisioning {
            descriptor: self.descriptor,
            platform: self.platform,
            tools_dir: self.tools_dir,
            stage,
        }
    }

    fn fail(self, stage: Stage, error: ServerError) -> (r: (Provisioning, ProvisionAction))
        ensures
            failed_at(r.0, r.1, stage, error),
            same_order(self, r.0),
    {
        (self.at(ProvisionStage::Finished), ProvisionAction::Fail(Failure { stage, error }))
    }

    fn installed(self, installed: Vec<String>) -> (r: (Provisioning, ProvisionAction))
        ensures
            installed_then(self, installed@, r.0, r.1),
    {
        match self.platform {
            Platform::Windows => {
                let action = ProvisionAction::QueryVersion(self.descriptor.tool);
                (self.at(ProvisionStage::Verifying { installed }), action)
            },
            _ => {
                let action = ProvisionAction::MakeExecutable {
                    directory: self.tools_dir.clone(),
                    file_names: copy_of(&installed),
                };
                (self.at(ProvisionStage::MarkingExecutable { installed }), action)
            },
        }
    }
}

/// Begins to provision yt-dlp.
pub fn handle_yt_dlp_download(os: &str, tools_dir: String) -> (r: Result<
    (Provisioning, ProvisionAction),
    ServerError,
>)
    ensures
        provision_started(Tool::YtDlp, os@, tools_dir, r),
{
    Provisioning::start(Tool::YtDlp, os, tools_dir)
}

/// Begins to provision ffmpeg.
pub fn handle_ffmpeg_download(os: &str, tools_dir: String) -> (r: Result<
    (Provisioning, ProvisionAction),
    ServerError,
>)
    ensures
        provision_started(Tool::Ffmpeg, os@, tools_dir, r),
{
    Provisioning::start(Tool::Ffmpeg, os, tools_dir)
}

/// Begins to provision chromaprint.
pub fn handle_chromaprint_download(os: &str, tools_dir: String) -> (r: Result<
    (Provisioning, ProvisionAction),
    ServerError,
>)
    ensures
        provision_started(Tool::Chromaprint, os@, tools_dir, r),
{
    Provisioning::start(Tool::Chromaprint, os, tools_dir)
}

/// Takes a provisioning one step further on an event. The stages follow one
/// another: the download is stored; a tool shipped as an archive is unpacked
/// by the extractor that its file name calls for, and its executables are
/// searched for below the tools directory and moved into it, which fails
/// with `NoBinariesFound` or `PartialInstallation` where too few are there;
/// a tool shipped as an executable is installed by the download itself;
/// what was installed is made executable where the platform asks for it;
/// last the tool is asked for its version, and the answer tells for each
/// expected executable whether it was installed. Each failure reported from
/// outside fails the request with its own kind.
pub fn provision_tool(provisioning: Provisioning, event: ProvisionEvent) -> (r: (
    Provisioning,
    ProvisionAction,
))
    ensures
        provision_stepped(provisioning, event, r.0, r.1),
        provisioning.well_formed() ==> r.0.well_formed(),
{
    let Provisioning { descriptor, platform, tools_dir, stage } = provisioning;
    let rest = Provisioning { descriptor, platform, tools_dir, stage: ProvisionStage::Finished };
    let at = stage.name();
    match (stage, event) {
        (ProvisionStage::Downloading, ProvisionEvent::Downloaded(Ok(()))) => {
            match rest.descriptor.tool.packaging() {
                Packaging::Executable => {
                    let mut installed: Vec<String> = Vec::new();
                    installed.push(rest.descriptor.output_file_name.clone());
                    proof {
                        assert(texts(installed@) =~= seq![rest.descriptor.output_file_name@]);
                    }
                    let r = rest.installed(installed);
                    proof {
                        assert(installed_then(provisioning, installed@, r.0, r.1));
                    }
                    r
                },
                Packaging::Archive => {
                    match decompress_file(rest.descriptor.output_file_name.as_str()) {
                        Ok(format) => {
                            let action = ProvisionAction::Extract {
                                format,
                                directory: rest.tools_dir.clone(),
                                file_name: rest.descriptor.output_file_name.clone(),
                            };
                            (rest.at(ProvisionStage::Extracting), action)
                        },
                        Err(error) => rest.fail(Stage::ExtractingArchive, error),
                    }
                },
            }
        },
        (ProvisionStage::Downloading, ProvisionEvent::Downloaded(Err(failure))) => {
            match failure {
                DownloadFailure::Network(cause) => rest.fail(at, ServerError::NetworkFailure(cause)),
                DownloadFailure::Disk(cause) => rest.fail(at, ServerError::DiskFailure(cause)),
            }
        },
        (ProvisionStage::Extracting, ProvisionEvent::Extracted(Ok(()))) => {
            let (search, asked) = BinaryLocator::start(
                rest.tools_dir.clone(),
                rest.tools_dir.clone(),
                copy_of(&rest.descriptor.expected_binaries),
                rest.descriptor.minimum_binaries,
            );
            (rest.at(ProvisionStage::Installing(search)), ProvisionAction::Search(asked))
        },
        (ProvisionStage::Extracting, ProvisionEvent::Extracted(Err(cause))) => rest.fail(
            at,
            ServerError::ExtractionFailed(cause),
        ),
        (ProvisionStage::Installing(search), ProvisionEvent::Search(report)) => {
            let (next, asked) = search_and_move_binaries(search, report);
            match asked {
                SearchAction::Finish(outcome) => {
                    let r = outcome.into_result();
                    proof {
                        assert(result_is(outcome, r));
                    }
                    match r {
                        Ok(found) => rest.installed(found),
                        Err(error) => rest.fail(at, error),
                    }
                },
                SearchAction::Fail(error) => rest.fail(at, error),
                SearchAction::ReadDirectory(directory) => (
                    rest.at(ProvisionStage::Installing(next)),
                    ProvisionAction::Search(SearchAction::ReadDirectory(directory)),
                ),
                SearchAction::MoveFiles { moves, destination } => (
                    rest.at(ProvisionStage::Installing(next)),
                    ProvisionAction::Search(SearchAction::MoveFiles { moves, destination }),
                ),
            }
        },
        (
            ProvisionStage::MarkingExecutable { installed },
            ProvisionEvent::MadeExecutable(Ok(())),
        ) => {
            let action = ProvisionAction::QueryVersion(rest.descriptor.tool);
            (rest.at(ProvisionStage::Verifying { installed }), action)
        },
        (
            ProvisionStage::MarkingExecutable { .. },
            ProvisionEvent::MadeExecutable(Err(cause)),
        ) => rest.fail(at, ServerError::DiskFailure(cause)),
        (ProvisionStage::Verifying { installed }, ProvisionEvent::ToolRun(Ok(results))) => {
            let status = status_of(results.command_completed_successfully);
            let response = ToolDownloadResponse {
                download_url: rest.descriptor.download_url.clone(),
                tools_dir_path: rest.tools_dir.clone(),
                binaries: binary_statuses(&rest.descriptor.expected_binaries, &installed),
                executable_version: version_from(rest.descriptor.tool, &results),
                version_execution_results: results,
            };
            (rest.at(ProvisionStage::Finished), ProvisionAction::Finish(status, response))
        },
        (ProvisionStage::Verifying { .. }, ProvisionEvent::ToolRun(Err(error))) => rest.fail(at, error),
        _ => rest.fail(at, ServerError::UnexpectedEvent),
    }
}

/// The place of a stage in the course of a provisioning.
pub open spec fn stage_order(stage: ProvisionStage) -> nat {
    match stage {
        ProvisionStage::Downloading => 0,
        ProvisionStage::Extracting => 1,
        ProvisionStage::Installing(_) => 2,
        ProvisionStage::MarkingExecutable { .. } => 3,
        ProvisionStage::Verifying { .. } => 4,
        ProvisionStage::Finished => 5,
    }
}

/// A provisioning never goes back: a step takes it to a later stage or ends
/// it, but for the search for executables, which stays at its stage while it
/// goes on.
pub proof fn lemma_provisioning_never_goes_back(
    before: Provisioning,
    event: ProvisionEvent,
    after: Provisioning,
    action: ProvisionAction,
)
    requires
        provision_stepped(before, event, after, action),
    ensures
        stage_order(after.stage) >= stage_order(before.stage),
        stage_order(after.stage) == stage_order(before.stage) ==> after.stage is Finished
            || (after.stage is Installing && action is Search),
        after.stage is Finished <==> action is Finish || action is Fail,
{
}

} // verus!
