//! Downloading a media file and moving it into the library: the decisions.

use crate::commands::CommandExecutionResults;
use crate::errors::{Failure, ResponseStatus, ServerError, Stage, status_for};
use crate::text::{chars_of, has_prefix, starts_with, string_of, texts};
use vstd::prelude::*;
use vstd::string::StringExecFns;

verus! {

/// A request to download the audio found at a URL.
#[derive(Debug, PartialEq, Eq)]
pub struct DownloadAudioRequest {
    pub audio_url: String,
}

/// The answer to a download request.
#[derive(Debug, PartialEq, Eq)]
pub struct MediaDownloadResponse {
    /// The identifier that the downloaded file's name began with in the
    /// download directory.
    pub download_id: String,
    /// The URL that was asked for.
    pub requested_url: String,
    /// The library directory that a downloaded file is moved to.
    pub library_dir: String,
    /// What the downloader left behind.
    pub command_execution_results: CommandExecutionResults,
}

/// The file to move out of the download directory, and its name in the
/// library.
#[derive(Debug, PartialEq, Eq)]
pub struct MediaMove {
    /// The file's place in the listing.
    pub index: usize,
    pub source_name: String,
    pub destination_name: String,
}

/// How far a download has come.
#[derive(Debug, PartialEq, Eq)]
pub enum DownloadStage {
    /// Waiting for the download directory to exist.
    PreparingStaging,
    /// Waiting for the downloader to end.
    Downloading,
    /// Waiting for the library directory to exist.
    PreparingLibrary(CommandExecutionResults),
    /// Waiting for the listing of the download directory.
    Listing(CommandExecutionResults),
    /// Waiting for the file to be moved.
    Moving(CommandExecutionResults),
    /// Ended.
    Finished,
}

/// One download, from the request to the file in the library.
#[derive(Debug, PartialEq, Eq)]
pub struct DownloadJob {
    /// The identifier that the output file's name begins with.
    pub download_id: String,
    pub requested_url: String,
    /// The directory that the downloader writes into.
    pub download_dir: String,
    /// The directory that the finished file is moved to.
    pub library_dir: String,
    /// Whether the file loses the identifier on its way into the library.
    pub strip_prefix: bool,
    pub stage: DownloadStage,
}

/// What the outside world reports back to a download.
#[derive(Debug, PartialEq, Eq)]
pub enum DownloadEvent {
    /// The directory exists now, or why it could not be made.
    DirectoryReady(Result<(), String>),
    /// The downloader ran, or why it could not be run.
    ToolRun(Result<CommandExecutionResults, ServerError>),
    /// The names in the download directory, or why it could not be read.
    DirectoryListed(Result<Vec<String>, String>),
    /// The file was moved, or why it was not.
    FileMoved(Result<(), String>),
}

/// What a download asks of the outside world.
#[derive(Debug, PartialEq, Eq)]
pub enum DownloadAction {
    /// Make this directory, with its parents, unless it exists.
    CreateDirectory(String),
    /// Run the downloader on the URL, writing into the directory under a
    /// name made from the template.
    RunDownloader { audio_url: String, output_directory: String, output_file_template: String },
    /// List this directory.
    ListDirectory(String),
    /// Move a file from one directory to another, under a new name.
    MoveFile {
        source_directory: String,
        source_name: String,
        destination_directory: String,
        destination_name: String,
    },
    /// Answer the request.
    Finish(ResponseStatus, MediaDownloadResponse),
    /// Fail the request.
    Fail(Failure),
}

/// A lower-case hexadecimal digit.
pub open spec fn is_hex_digit(c: char) -> bool {
    ('0' <= c && c <= '9') || ('a' <= c && c <= 'f')
}

/// The shape of a download identifier: 36 characters, hyphens at the four
/// usual places, lower-case hexadecimal digits elsewhere.
pub open spec fn is_download_id(id: Seq<char>) -> bool {
    &&& id.len() == 36
    &&& forall|i: int|
        0 <= i < 36 ==> if i == 8 || i == 13 || i == 18 || i == 23 {
            #[trigger] id[i] == '-'
        } else {
            is_hex_digit(id[i])
        }
}

/// The template of the output file's name: the identifier, then the
/// downloader's placeholders for title and extension.
pub open spec fn output_template(id: Seq<char>) -> Seq<char> {
    id + "%(title)s.%(ext)s"@
}

/// The arguments with which the downloader is run.
pub open spec fn downloader_arguments(url: Seq<char>, output_path: Seq<char>) -> Seq<Seq<char>> {
    seq!["-x"@, url, "-o"@, output_path, "--no-progress"@]
}

/// `i` is the place of the first name that begins with `prefix`.
pub open spec fn is_first_match(names: Seq<Seq<char>>, prefix: Seq<char>, i: int) -> bool {
    &&& 0 <= i < names.len()
    &&& starts_with(names[i], prefix)
    &&& forall|j: int| 0 <= j < i ==> !starts_with(#[trigger] names[j], prefix)
}

/// Some name begins with `prefix`.
pub open spec fn has_match(names: Seq<Seq<char>>, prefix: Seq<char>) -> bool {
    exists|i: int| 0 <= i < names.len() && starts_with(#[trigger] names[i], prefix)
}

/// The name under which a file arrives in the library.
pub open spec fn library_name(name: Seq<char>, prefix: Seq<char>, strip_prefix: bool) -> Seq<char> {
    if strip_prefix {
        name.skip(prefix.len() as int)
    } else {
        name
    }
}

/// What `search_and_move_media_file` answers.
pub open spec fn media_selected(
    names: Seq<Seq<char>>,
    prefix: Seq<char>,
    strip_prefix: bool,
    r: Result<MediaMove, ServerError>,
) -> bool {
    if has_match(names, prefix) {
        &&& r matches Ok(m)
        &&& is_first_match(names, prefix, m.index as int)
        &&& m.source_name@ == names[m.index as int]
        &&& m.destination_name@ == library_name(names[m.index as int], prefix, strip_prefix)
    } else {
        r matches Err(ServerError::FileNotFoundAfterDownload(missing)) && missing@ == prefix
    }
}

/// The answer that a job gives with these results.
pub open spec fn answers(
    job: DownloadJob,
    results: CommandExecutionResults,
    response: MediaDownloadResponse,
) -> bool {
    &&& response.download_id == job.download_id
    &&& response.requested_url == job.requested_url
    &&& response.library_dir == job.library_dir
    &&& response.command_execution_results == results
}

/// What a job keeps from step to step.
pub open spec fn same_job(before: DownloadJob, after: DownloadJob) -> bool {
    &&& after.download_id == before.download_id
    &&& after.requested_url == before.requested_url
    &&& after.download_dir == before.download_dir
    &&& after.library_dir == before.library_dir
    &&& after.strip_prefix == before.strip_prefix
}

/// The name of a stage.
pub open spec fn stage_name(stage: DownloadStage) -> Stage {
    match stage {
        DownloadStage::PreparingStaging => Stage::CreatingDownloadDirectory,
        DownloadStage::Downloading => Stage::RunningDownloader,
        DownloadStage::PreparingLibrary(_) => Stage::CreatingLibraryDirectory,
        DownloadStage::Listing(_) => Stage::ListingDownloads,
        DownloadStage::Moving(_) => Stage::MovingToLibrary,
        DownloadStage::Finished => Stage::Finished,
    }
}

/// The request has ended by failing at `stage` with `error`.
pub open spec fn failed_at(
    after: DownloadJob,
    action: DownloadAction,
    stage: Stage,
    error: ServerError,
) -> bool {
    after.stage is Finished && action == DownloadAction::Fail(Failure { stage, error })
}

/// The request has ended by failing with `error` at the stage it was in.
pub open spec fn failed_with(
    before: DownloadJob,
    after: DownloadJob,
    action: DownloadAction,
    error: ServerError,
) -> bool {
    failed_at(after, action, stage_name(before.stage), error)
}

/// One step of a download: what the job becomes, and what it asks for, on
/// an event.
pub open spec fn download_stepped(
    before: DownloadJob,
    event: DownloadEvent,
    after: DownloadJob,
    action: DownloadAction,
) -> bool {
    match (before.stage, event) {
        (DownloadStage::PreparingStaging, DownloadEvent::DirectoryReady(Ok(()))) => {
            &&& same_job(before, after)
            &&& after.stage is Downloading
            &&& action matches DownloadAction::RunDownloader {
                audio_url,
                output_directory,
                output_file_template,
            }
            &&& audio_url == before.requested_url
            &&& output_directory == before.download_dir
            &&& output_file_template@ == output_template(before.download_id@)
        },
        (DownloadStage::Downloading, DownloadEvent::ToolRun(Ok(results))) => {
            &&& same_job(before, after)
            &&& after.stage == DownloadStage::PreparingLibrary(results)
            &&& action == DownloadAction::CreateDirectory(before.library_dir)
        },
        (DownloadStage::Downloading, DownloadEvent::ToolRun(Err(error))) => failed_with(
            before,
            after,
            action,
            error,
        ),
        (DownloadStage::PreparingLibrary(results), DownloadEvent::DirectoryReady(Ok(()))) => {
            if results.command_completed_successfully {
                &&& same_job(before, after)
                &&& after.stage == DownloadStage::Listing(results)
                &&& action == DownloadAction::ListDirectory(before.download_dir)
            } else {
                &&& after.stage is Finished
                &&& action matches DownloadAction::Finish(status, response)
                &&& status == ResponseStatus::BadRequest
                &&& answers(before, results, response)
            }
        },
        (DownloadStage::Listing(results), DownloadEvent::DirectoryListed(Ok(names))) => {
            if has_match(texts(names@), before.download_id@) {
                &&& same_job(before, after)
                &&& after.stage == DownloadStage::Moving(results)
                &&& action matches DownloadAction::MoveFile {
                    source_directory,
                    source_name,
                    destination_directory,
                    destination_name,
                }
                &&& source_directory == before.download_dir
                &&& destination_directory == before.library_dir
                &&& exists|i: int|
                    {
                        &&& is_first_match(texts(names@), before.download_id@, i)
                        &&& source_name@ == texts(names@)[i]
                        &&& destination_name@ == library_name(
                            texts(names@)[i],
                            before.download_id@,
                            before.strip_prefix,
                        )
                    }
            } else {
                &&& after.stage is Finished
                &&& action matches DownloadAction::Fail(failure)
                &&& failure.stage == Stage::ListingDownloads
                &&& failure.error matches ServerError::FileNotFoundAfterDownload(missing)
                &&& missing@ == before.download_id@
            }
        },
        (DownloadStage::Moving(results), DownloadEvent::FileMoved(Ok(()))) => {
            &&& after.stage is Finished
            &&& action matches DownloadAction::Finish(status, response)
            &&& status == ResponseStatus::Success
            &&& answers(before, results, response)
        },
        (DownloadStage::PreparingStaging, DownloadEvent::DirectoryReady(Err(cause))) => failed_with(
            before,
            after,
            action,
            ServerError::DiskFailure(cause),
        ),
        (DownloadStage::PreparingLibrary(_), DownloadEvent::DirectoryReady(Err(cause))) => failed_with(
            before,
            after,
            action,
            ServerError::DiskFailure(cause),
        ),
        (DownloadStage::Listing(_), DownloadEvent::DirectoryListed(Err(cause))) => failed_with(
            before,
            after,
            action,
            ServerError::DiskFailure(cause),
        ),
        (DownloadStage::Moving(_), DownloadEvent::FileMoved(Err(cause))) => failed_with(
            before,
            after,
            action,
            ServerError::DiskFailure(cause),
        ),
        _ => failed_with(before, after, action, ServerError::UnexpectedEvent),
    }
}

/// `Uuid::new_v4().to_string()`: a random identifier in its hyphenated
/// lower-case form, which has the shape of a download identifier. Nothing is
/// said of which one comes back. It aborts where the operating system cannot
/// supply random bytes.
#[verifier::external_body]
fn new_download_id() -> (id: String)
    ensures
        is_download_id(id@),
{
    uuid::Uuid::new_v4().to_string()
}

/// Finds the file to move into the library: the first of `entries`, the
/// names in the download directory in the order of its listing, that begins
/// with `search_prefix`. In the library it keeps its name, or loses the
/// prefix where `strip_prefix` is set. Where no name begins with the prefix
/// the answer is `FileNotFoundAfterDownload` with the prefix.
pub fn search_and_move_media_file(
    entries: &Vec<String>,
    search_prefix: &str,
    strip_prefix: bool,
) -> (r: Result<MediaMove, ServerError>)
    ensures
        media_selected(texts(entries@), search_prefix@, strip_prefix, r),
{
    let prefix = chars_of(search_prefix);
    let mut i: usize = 0;
    while i < entries.len()
        invariant
            i <= entries.len(),
            prefix@ == search_prefix@,
            forall|j: int| 0 <= j < i ==> !starts_with(#[trigger] texts(entries@)[j], prefix@),
        decreases entries.len() - i,
    {
        let name = chars_of(entries[i].as_str());
        if has_prefix(&name, &prefix) {
            assert(texts(entries@)[i as int] == name@);
            let destination_name = if strip_prefix {
                string_of(&name, prefix.len(), name.len())
            } else {
                entries[i].clone()
            };
            return Ok(MediaMove { index: i, source_name: entries[i].clone(), destination_name });
        }
        i = i + 1;
    }
    Err(ServerError::FileNotFoundAfterDownload(search_prefix.to_owned()))
}

/// The arguments with which the downloader fetches `audio_url` as audio into
/// the file that `output_path` describes.
pub fn download_arguments(audio_url: &str, output_path: &str) -> (arguments: Vec<String>)
    ensures
        texts(arguments@) == downloader_arguments(audio_url@, output_path@),
{
    let mut arguments: Vec<String> = Vec::new();
    arguments.push("-x".to_owned());
    arguments.push(audio_url.to_owned());
    arguments.push("-o".to_owned());
    arguments.push(output_path.to_owned());
    arguments.push("--no-progress".to_owned());
    assert(texts(arguments@) =~= downloader_arguments(audio_url@, output_path@));
    arguments
}

impl DownloadStage {
    /// The name of the stage.
    pub fn name(&self) -> (name: Stage)
        ensures
            name == stage_name(*self),
    {
        match self {
            DownloadStage::PreparingStaging => Stage::CreatingDownloadDirectory,
            DownloadStage::Downloading => Stage::RunningDownloader,
            DownloadStage::PreparingLibrary(_) => Stage::CreatingLibraryDirectory,
            DownloadStage::Listing(_) => Stage::ListingDownloads,
            DownloadStage::Moving(_) => Stage::MovingToLibrary,
            DownloadStage::Finished => Stage::Finished,
        }
    }
}

impl DownloadJob {
    /// A job whose files go through `download_dir` into `library_dir` is well
    /// formed where it moves a file only after the downloader succeeded.
    pub open spec fn well_formed(&self) -> bool {
        match self.stage {
            DownloadStage::Listing(results) => results.command_completed_successfully,
            DownloadStage::Moving(results) => results.command_completed_successfully,
            _ => true,
        }
    }

    /// Begins a download under a fresh identifier: the download directory is
    /// made first. With `strip_prefix` the file loses the identifier on its
    /// way into the library.
    pub fn start(
        request: DownloadAudioRequest,
        download_dir: String,
        library_dir: String,
        strip_prefix: bool,
    ) -> (r: (DownloadJob, DownloadAction))
        ensures
            is_download_id(r.0.download_id@),
            r.0.requested_url == request.audio_url,
            r.0.download_dir == download_dir,
            r.0.library_dir == library_dir,
            r.0.strip_prefix == strip_prefix,
            r.0.stage is PreparingStaging,
            r.0.well_formed(),
            r.1 == DownloadAction::CreateDirectory(download_dir),
    {
        let id = new_download_id();
        DownloadJob::with_id(id, request, download_dir, library_dir, strip_prefix)
    }

    /// Begins a download under the identifier `download_id`.
    pub fn with_id(
        download_id: String,
        request: DownloadAudioRequest,
        download_dir: String,
        library_dir: String,
        strip_prefix: bool,
    ) -> (r: (DownloadJob, DownloadAction))
        ensures
            r.0.download_id == download_id,
            r.0.requested_url == request.audio_url,
            r.0.download_dir == download_dir,
            r.0.library_dir == library_dir,
            r.0.strip_prefix == strip_prefix,
            r.0.stage is PreparingStaging,
            r.0.well_formed(),
            r.1 == DownloadAction::CreateDirectory(download_dir),
    {
        let action = DownloadAction::CreateDirectory(download_dir.clone());
        (
            DownloadJob {
                download_id,
                requested_url: request.audio_url,
                download_dir,
                library_dir,
                strip_prefix,
                stage: DownloadStage::PreparingStaging,
            },
            action,
        )
    }

    fn at(self, stage: DownloadStage) -> (r: DownloadJob)
        ensures
            same_job(self, r),
            r.stage == stage,
    {
        DownloadJob {
            download_id: self.download_id,
            requested_url: self.requested_url,
            download_dir: self.download_dir,
            library_dir: self.library_dir,
            strip_prefix: self.strip_prefix,
            stage,
        }
    }

    fn fail(self, stage: Stage, error: ServerError) -> (r: (DownloadJob, DownloadAction))
        ensures
            failed_at(r.0, r.1, stage, error),
    {
        (self.at(DownloadStage::Finished), DownloadAction::Fail(Failure { stage, error }))
    }

    fn answer(self, succeeded: bool, results: CommandExecutionResults) -> (r: (
        DownloadJob,
        DownloadAction,
    ))
        ensures
            r.0.stage is Finished,
            r.1 matches DownloadAction::Finish(status, response) && status == status_for(succeeded)
                && answers(self, results, response),
    {
        let response = MediaDownloadResponse {
            download_id: self.download_id.clone(),
            requested_url: self.requested_url.clone(),
            library_dir: self.library_dir.clone(),
            command_execution_results: results,
        };
        let status = if succeeded {
            ResponseStatus::Success
        } else {
            ResponseStatus::BadRequest
        };
        (self.at(DownloadStage::Finished), DownloadAction::Finish(status, response))
    }
}

/// Takes a download one step further on an event. The stages follow one
/// another: the download directory is made, the downloader runs with an
/// output name that begins with the job's identifier, the library directory
/// is made; then a downloader that failed is answered with `BadRequest` and
/// its results, and one that succeeded has its file looked up by the
/// identifier, moved into the library, without the identifier where the job
/// strips it, and is answered with `Success`. A file that is not there after a successful run
/// is a `FileNotFoundAfterDownload`. The answer of a well-formed job is
/// `Success` exactly when its downloader succeeded.
pub fn handle_audio_download(job: DownloadJob, event: DownloadEvent) -> (r: (
    DownloadJob,
    DownloadAction,
))
    ensures
        download_stepped(job, event, r.0, r.1),
        job.well_formed() ==> r.0.well_formed(),
        job.well_formed() ==> (r.1 matches DownloadAction::Finish(status, response) ==> status
            == status_for(response.command_execution_results.command_completed_successfully)),
{
    let DownloadJob { download_id, requested_url, download_dir, library_dir, strip_prefix, stage } =
        job;
    let rest = DownloadJob {
        download_id,
        requested_url,
        download_dir,
        library_dir,
        strip_prefix,
        stage: DownloadStage::Finished,
    };
    let at = stage.name();
    match (stage, event) {
        (DownloadStage::PreparingStaging, DownloadEvent::DirectoryReady(Ok(()))) => {
            let mut template = rest.download_id.clone();
            template.append("%(title)s.%(ext)s");
            let action = DownloadAction::RunDownloader {
                audio_url: rest.requested_url.clone(),
                output_directory: rest.download_dir.clone(),
                output_file_template: template,
            };
            (rest.at(DownloadStage::Downloading), action)
        },
        (DownloadStage::Downloading, DownloadEvent::ToolRun(Ok(results))) => {
            let action = DownloadAction::CreateDirectory(rest.library_dir.clone());
            (rest.at(DownloadStage::PreparingLibrary(results)), action)
        },
        (DownloadStage::Downloading, DownloadEvent::ToolRun(Err(error))) => rest.fail(at, error),
        (DownloadStage::PreparingLibrary(results), DownloadEvent::DirectoryReady(Ok(()))) => {
            if results.command_completed_successfully {
                let action = DownloadAction::ListDirectory(rest.download_dir.clone());
                (rest.at(DownloadStage::Listing(results)), action)
            } else {
                rest.answer(false, results)
            }
        },
        (DownloadStage::Listing(results), DownloadEvent::DirectoryListed(Ok(names))) => {
            match search_and_move_media_file(
                &names,
                rest.download_id.as_str(),
                rest.strip_prefix,
            ) {
                Ok(found) => {
                    let action = DownloadAction::MoveFile {
                        source_directory: rest.download_dir.clone(),
                        source_name: found.source_name,
                        destination_directory: rest.library_dir.clone(),
                        destination_name: found.destination_name,
                    };
                    (rest.at(DownloadStage::Moving(results)), action)
                },
                Err(error) => rest.fail(at, error),
            }
        },
        (DownloadStage::Moving(results), DownloadEvent::FileMoved(Ok(()))) => rest.answer(
            true,
            results,
        ),
        (DownloadStage::PreparingStaging, DownloadEvent::DirectoryReady(Err(cause))) => rest.fail(
            at,
            ServerError::DiskFailure(cause),
        ),
        (DownloadStage::PreparingLibrary(_), DownloadEvent::DirectoryReady(Err(cause))) => rest.fail(
            at,
            ServerError::DiskFailure(cause),
        ),
        (DownloadStage::Listing(_), DownloadEvent::DirectoryListed(Err(cause))) => rest.fail(
            at,
            ServerError::DiskFailure(cause),
        ),
        (DownloadStage::Moving(_), DownloadEvent::FileMoved(Err(cause))) => rest.fail(
            at,
            ServerError::DiskFailure(cause),
        ),
        _ => rest.fail(at, ServerError::UnexpectedEvent),
    }
}

/// The place of a stage in the course of a download.
pub open spec fn stage_order(stage: DownloadStage) -> nat {
    match stage {
        DownloadStage::PreparingStaging => 0,
        DownloadStage::Downloading => 1,
        DownloadStage::PreparingLibrary(_) => 2,
        DownloadStage::Listing(_) => 3,
        DownloadStage::Moving(_) => 4,
        DownloadStage::Finished => 5,
    }
}

/// The stages of a download follow one another strictly: a step takes the
/// job to the next stage, or ends it.
pub proof fn lemma_download_stages_follow_in_order(
    before: DownloadJob,
    event: DownloadEvent,
    after: DownloadJob,
    action: DownloadAction,
)
    requires
        download_stepped(before, event, after, action),
    ensures
        after.stage is Finished || stage_order(after.stage) == stage_order(before.stage) + 1,
        after.stage is Finished <==> action is Finish || action is Fail,
{
}

/// Two names that begin with different identifiers of one length differ, and
/// neither begins with the other's identifier: jobs with different
/// identifiers never write, find or move one another's file in the download
/// directory, and files that keep their identifier stay apart in the library
/// too.
pub proof fn lemma_distinct_ids_keep_files_apart(
    id1: Seq<char>,
    id2: Seq<char>,
    rest1: Seq<char>,
    rest2: Seq<char>,
)
    requires
        id1.len() == id2.len(),
        id1 != id2,
    ensures
        id1 + rest1 != id2 + rest2,
        !starts_with(id2 + rest2, id1),
        !starts_with(id1 + rest1, id2),
        library_name(id1 + rest1, id1, false) != library_name(id2 + rest2, id2, false),
{
    assert((id2 + rest2).take(id1.len() as int) =~= id2);
    assert((id1 + rest1).take(id2.len() as int) =~= id1);
    if id1 + rest1 == id2 + rest2 {
        assert((id1 + rest1).take(id1.len() as int) =~= id1);
    }
}

/// Two jobs with different identifiers never move one file: whatever the
/// download directory holds when each of them lists it, the files they move
/// out of it differ, and where both keep the identifier the names under
/// which the files arrive in the library differ too.
pub proof fn lemma_jobs_move_different_files(
    first: DownloadJob,
    first_names: Vec<String>,
    first_after: DownloadJob,
    first_action: DownloadAction,
    second: DownloadJob,
    second_names: Vec<String>,
    second_after: DownloadJob,
    second_action: DownloadAction,
)
    requires
        is_download_id(first.download_id@),
        is_download_id(second.download_id@),
        first.download_id@ != second.download_id@,
        first.stage is Listing,
        second.stage is Listing,
        download_stepped(
            first,
            DownloadEvent::DirectoryListed(Ok(first_names)),
            first_after,
            first_action,
        ),
        download_stepped(
            second,
            DownloadEvent::DirectoryListed(Ok(second_names)),
            second_after,
            second_action,
        ),
        first_action is MoveFile,
        second_action is MoveFile,
    ensures
        first_action->source_name@ != second_action->source_name@,
        !first.strip_prefix && !second.strip_prefix ==> first_action->destination_name@
            != second_action->destination_name@,
{
    let a = first_action->source_name@;
    let b = second_action->source_name@;
    assert(starts_with(a, first.download_id@));
    assert(starts_with(b, second.download_id@));
    if a == b {
        assert(a.take(36) == first.download_id@);
        assert(b.take(36) == second.download_id@);
    }
}

/// A name made by the output template begins with the identifier, and loses
/// exactly the identifier on its way into the library.
pub proof fn lemma_templated_name_is_found(id: Seq<char>, rest: Seq<char>)
    ensures
        starts_with(id + rest, id),
        library_name(id + rest, id, true) == rest,
        library_name(id + rest, id, false) == id + rest,
{
    assert((id + rest).take(id.len() as int) =~= id);
    assert((id + rest).skip(id.len() as int) =~= rest);
}

} // verus!
