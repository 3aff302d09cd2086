//! Identifying an audio file: fingerprint it, look the fingerprint up, resolve
//! the best candidate's recording. The decisions, one stage at a time.

use crate::acoustid::{
    best_match_of, is_best_match, lemma_best_match_exists, lemma_best_match_is_first_maximum,
    scores, select_best_match, AcoustIDApiLookupResponse,
};
use crate::commands::CommandExecutionResults;
use crate::errors::{Failure, ResponseStatus, ServerError, Stage};
use crate::musicbrainz::MusicbrainzAPIRecordingResponse;
use crate::text::{signed_decimal, signed_decimal_of, texts};
use vstd::prelude::*;
use vstd::string::StringExecFns;

verus! {

/// A request to identify the audio file at a path.
#[derive(Debug, PartialEq, Eq)]
pub struct IdentifyAudioRequest {
    pub audio_file_path: String,
}

/// What the fingerprinting tool found.
#[derive(Debug, PartialEq, Eq)]
pub struct FpcalcFingerprintingResult {
    /// The length of the audio in whole seconds, the fraction cut off.
    pub duration: i64,
    /// The fingerprint, an opaque token.
    pub fingerprint: String,
}

/// The answer to an identification request. The later a field's stage, the
/// more has to be there for it to be there.
#[derive(Debug, PartialEq, Eq)]
pub struct IdentifyAudioResponse {
    /// The recording's metadata.
    pub musicbrainz_response: Option<MusicbrainzAPIRecordingResponse>,
    /// The candidates of the acoustic lookup.
    pub acoustid_response: Option<AcoustIDApiLookupResponse>,
    /// The place of the best candidate among them.
    pub best_match: Option<usize>,
    /// The fingerprint.
    pub fpcalc_fingerprint: Option<FpcalcFingerprintingResult>,
    /// What the fingerprinting tool left behind.
    pub fingerprinting_command_result: CommandExecutionResults,
}

/// How far an identification has come.
#[derive(Debug, PartialEq, Eq)]
pub enum IdentifyStage {
    /// Waiting to learn whether the file exists.
    VerifyingInput,
    /// Waiting for the fingerprinting tool to end.
    Fingerprinting,
    /// Waiting for the tool's output to be read as a fingerprint.
    ParsingFingerprint { results: CommandExecutionResults },
    /// Waiting for the acoustic lookup.
    AcousticLookup { results: CommandExecutionResults, fingerprint: FpcalcFingerprintingResult },
    /// Waiting for the recording's metadata.
    RecordingLookup {
        results: CommandExecutionResults,
        fingerprint: FpcalcFingerprintingResult,
        lookup: AcoustIDApiLookupResponse,
        best_match: usize,
    },
    /// Ended.
    Finished,
}

/// One identification, from the request to the answer.
#[derive(Debug, PartialEq, Eq)]
pub struct Identification {
    pub audio_file_path: String,
    pub stage: IdentifyStage,
}

/// What the outside world reports back to an identification.
#[derive(Debug, PartialEq, Eq)]
pub enum IdentifyEvent {
    /// Whether the file exists.
    InputChecked(bool),
    /// The fingerprinting tool ran, or why it could not be run.
    ToolRun(Result<CommandExecutionResults, ServerError>),
    /// The fingerprint read from the tool's output, if it could be read.
    FingerprintParsed(Option<FpcalcFingerprintingResult>),
    /// The answer of the acoustic lookup, or why there is none.
    AcousticLookupDone(Result<AcoustIDApiLookupResponse, String>),
    /// The recording's metadata, or why there is none.
    RecordingLookupDone(Result<MusicbrainzAPIRecordingResponse, String>),
}

/// What an identification asks of the outside world.
#[derive(Debug, PartialEq, Eq)]
pub enum IdentifyAction {
    /// Find out whether this file exists.
    CheckInput(String),
    /// Run the fingerprinting tool on this file.
    RunFingerprinter(String),
    /// Read this text, the tool's output, as a fingerprint.
    ParseFingerprint(String),
    /// Look this fingerprint up.
    LookUpFingerprint { duration: i64, fingerprint: String },
    /// Fetch the metadata of the recording with this identifier.
    LookUpRecording(String),
    /// Answer the request.
    Finish(ResponseStatus, IdentifyAudioResponse),
    /// Fail the request.
    Fail(Failure),
}

/// The arguments with which the fingerprinting tool is run on a file.
pub open spec fn fingerprinter_arguments(audio_file_path: Seq<char>) -> Seq<Seq<char>> {
    seq!["-json"@, audio_file_path]
}

/// A parameter of a query, as name and value.
pub open spec fn parameter(pair: (String, String)) -> (Seq<char>, Seq<char>) {
    (pair.0@, pair.1@)
}

/// The parameters of a query, as names and values.
pub open spec fn parameters(query: Seq<(String, String)>) -> Seq<(Seq<char>, Seq<char>)> {
    query.map_values(|pair: (String, String)| parameter(pair))
}

/// The parameters with which a fingerprint is looked up: who asks, what is
/// asked for, and the fingerprint with the length of its audio in whole
/// seconds.
pub open spec fn lookup_parameters(
    client: Seq<char>,
    duration: int,
    fingerprint: Seq<char>,
) -> Seq<(Seq<char>, Seq<char>)> {
    seq![
        ("client"@, client),
        ("meta"@, "recordingids"@),
        ("duration"@, signed_decimal(duration)),
        ("fingerprint"@, fingerprint),
    ]
}

/// The parameters with which a recording's metadata is asked for.
pub open spec fn recording_parameters() -> Seq<(Seq<char>, Seq<char>)> {
    seq![("fmt"@, "json"@), ("inc"@, "artists"@)]
}

/// Where the metadata of a recording is found.
pub open spec fn recording_address(recording_id: Seq<char>) -> Seq<char> {
    "https://musicbrainz.org/ws/2/recording/"@ + recording_id
}

/// The identity under which the metadata service is asked.
pub open spec fn client_identity(version: Seq<char>, repository: Seq<char>) -> Seq<char> {
    "Ferrous Beats/"@ + version + " ( "@ + repository + " )"@
}

/// `i` is the place of the best candidate of `lookup`, and that candidate
/// names a recording.
pub open spec fn resolves(lookup: AcoustIDApiLookupResponse, i: int) -> bool {
    &&& is_best_match(scores(lookup.results@), i)
    &&& lookup.results@[i].recordings@.len() > 0
}

/// The answer to a request whose file could not be fingerprinted: the
/// tool's results and nothing else.
pub open spec fn is_partial(
    response: IdentifyAudioResponse,
    results: CommandExecutionResults,
) -> bool {
    &&& response.musicbrainz_response is None
    &&& response.acoustid_response is None
    &&& response.best_match is None
    &&& response.fpcalc_fingerprint is None
    &&& response.fingerprinting_command_result == results
}

/// The name of a stage.
pub open spec fn stage_name(stage: IdentifyStage) -> Stage {
    match stage {
        IdentifyStage::VerifyingInput => Stage::CheckingInput,
        IdentifyStage::Fingerprinting => Stage::Fingerprinting,
        IdentifyStage::ParsingFingerprint { .. } => Stage::ReadingFingerprint,
        IdentifyStage::AcousticLookup { .. } => Stage::LookingUpFingerprint,
        IdentifyStage::RecordingLookup { .. } => Stage::LookingUpRecording,
        IdentifyStage::Finished => Stage::Finished,
    }
}

/// The request has ended by failing at `stage` with `error`.
pub open spec fn failed_at(
    after: Identification,
    action: IdentifyAction,
    stage: Stage,
    error: ServerError,
) -> bool {
    after.stage is Finished && action == IdentifyAction::Fail(Failure { stage, error })
}

/// The request has ended by failing with `error` at the stage it was in.
pub open spec fn failed_with(
    before: Identification,
    after: Identification,
    action: IdentifyAction,
    error: ServerError,
) -> bool {
    failed_at(after, action, stage_name(before.stage), error)
}

/// One step of an identification: what it becomes, and what it asks for, on
/// an event.
pub open spec fn identify_stepped(
    before: Identification,
    event: IdentifyEvent,
    after: Identification,
    action: IdentifyAction,
) -> bool {
    match (before.stage, event) {
        (IdentifyStage::VerifyingInput, IdentifyEvent::InputChecked(exists)) => {
            if exists {
                &&& after.audio_file_path == before.audio_file_path
                &&& after.stage is Fingerprinting
                &&& action == IdentifyAction::RunFingerprinter(before.audio_file_path)
            } else {
                failed_with(
                    before,
                    after,
                    action,
                    ServerError::InputNotFound(before.audio_file_path),
                )
            }
        },
        (IdentifyStage::Fingerprinting, IdentifyEvent::ToolRun(Ok(results))) => {
            if !results.command_completed_successfully {
                &&& after.stage is Finished
                &&& action matches IdentifyAction::Finish(status, response)
                &&& status == ResponseStatus::BadRequest
                &&& is_partial(response, results)
            } else {
                match results.stdout {
                    Some(text) => {
                        &&& after.audio_file_path == before.audio_file_path
                        &&& after.stage == IdentifyStage::ParsingFingerprint { results }
                        &&& action == IdentifyAction::ParseFingerprint(text)
                    },
                    None => failed_at(
                        after,
                        action,
                        Stage::ReadingFingerprint,
                        ServerError::FingerprintOutputUnparseable,
                    ),
                }
            }
        },
        (IdentifyStage::Fingerprinting, IdentifyEvent::ToolRun(Err(error))) => failed_with(
            before,
            after,
            action,
            error,
        ),
        (
            IdentifyStage::ParsingFingerprint { results },
            IdentifyEvent::FingerprintParsed(Some(fingerprint)),
        ) => {
            &&& after.audio_file_path == before.audio_file_path
            &&& after.stage == IdentifyStage::AcousticLookup { results, fingerprint }
            &&& action == IdentifyAction::LookUpFingerprint {
                duration: fingerprint.duration,
                fingerprint: fingerprint.fingerprint,
            }
        },
        (IdentifyStage::ParsingFingerprint { .. }, IdentifyEvent::FingerprintParsed(None)) => {
            failed_with(before, after, action, ServerError::FingerprintOutputUnparseable)
        },
        (
            IdentifyStage::AcousticLookup { results, fingerprint },
            IdentifyEvent::AcousticLookupDone(Ok(lookup)),
        ) => {
            let best = best_match_of(scores(lookup.results@));
            if lookup.results@.len() == 0 {
                failed_with(before, after, action, ServerError::NoAcousticMatch)
            } else if lookup.results@[best].recordings@.len() == 0 {
                failed_with(before, after, action, ServerError::NoRecordingAssociated)
            } else {
                &&& after.audio_file_path == before.audio_file_path
                &&& after.stage matches IdentifyStage::RecordingLookup {
                    results: kept_results,
                    fingerprint: kept_fingerprint,
                    lookup: kept_lookup,
                    best_match,
                }
                &&& kept_results == results
                &&& kept_fingerprint == fingerprint
                &&& kept_lookup == lookup
                &&& best_match == best
                &&& action == IdentifyAction::LookUpRecording(
                    lookup.results@[best].recordings@[0].id,
                )
            }
        },
        (IdentifyStage::AcousticLookup { .. }, IdentifyEvent::AcousticLookupDone(Err(cause))) => {
            failed_with(before, after, action, ServerError::NetworkFailure(cause))
        },
        (
            IdentifyStage::RecordingLookup { results, fingerprint, lookup, best_match },
            IdentifyEvent::RecordingLookupDone(Ok(recording)),
        ) => {
            &&& after.stage is Finished
            &&& action == IdentifyAction::Finish(
                ResponseStatus::Success,
                IdentifyAudioResponse {
                    musicbrainz_response: Some(recording),
                    acoustid_response: Some(lookup),
                    best_match: Some(best_match),
                    fpcalc_fingerprint: Some(fingerprint),
                    fingerprinting_command_result: results,
                },
            )
        },
        (IdentifyStage::RecordingLookup { .. }, IdentifyEvent::RecordingLookupDone(Err(cause))) => {
            failed_with(before, after, action, ServerError::NetworkFailure(cause))
        },
        _ => failed_with(before, after, action, ServerError::UnexpectedEvent),
    }
}

impl IdentifyAudioResponse {
    /// No stage's result is there without the results of the stages before
    /// it, and the best match is the best candidate of the lookup.
    pub open spec fn well_formed(&self) -> bool {
        &&& self.musicbrainz_response is Some ==> self.best_match is Some
        &&& self.best_match is Some ==> self.acoustid_response is Some
        &&& self.acoustid_response is Some ==> self.fpcalc_fingerprint is Some
        &&& self.fpcalc_fingerprint is Some
            ==> self.fingerprinting_command_result.command_completed_successfully
        &&& self.best_match matches Some(i) ==> resolves(self.acoustid_response->0, i as int)
    }
}

impl IdentifyStage {
    /// The name of the stage.
    pub fn name(&self) -> (name: Stage)
        ensures
            name == stage_name(*self),
    {
        match self {
            IdentifyStage::VerifyingInput => Stage::CheckingInput,
            IdentifyStage::Fingerprinting => Stage::Fingerprinting,
            IdentifyStage::ParsingFingerprint { .. } => Stage::ReadingFingerprint,
            IdentifyStage::AcousticLookup { .. } => Stage::LookingUpFingerprint,
            IdentifyStage::RecordingLookup { .. } => Stage::LookingUpRecording,
            IdentifyStage::Finished => Stage::Finished,
        }
    }
}

impl Identification {
    /// A stage holds what the stages before it brought: a fingerprint is
    /// there only after the tool succeeded, and the best match is the best
    /// candidate of the lookup and names a recording.
    pub open spec fn well_formed(&self) -> bool {
        match self.stage {
            IdentifyStage::ParsingFingerprint { results } => results.command_completed_successfully,
            IdentifyStage::AcousticLookup { results, .. } => results.command_completed_successfully,
            IdentifyStage::RecordingLookup { results, lookup, best_match, .. } => {
                &&& results.command_completed_successfully
                &&& resolves(lookup, best_match as int)
            },
            _ => true,
        }
    }

    /// Begins an identification: the file is checked first.
    pub fn start(request: IdentifyAudioRequest) -> (r: (Identification, IdentifyAction))
        ensures
            r.0.audio_file_path == request.audio_file_path,
            r.0.stage is VerifyingInput,
            r.0.well_formed(),
            r.1 == IdentifyAction::CheckInput(request.audio_file_path),
    {
        let action = IdentifyAction::CheckInput(request.audio_file_path.clone());
        (
            Identification {
                audio_file_path: request.audio_file_path,
                stage: IdentifyStage::VerifyingInput,
            },
            action,
        )
    }

    fn fail(self, stage: Stage, error: ServerError) -> (r: (Identification, IdentifyAction))
        ensures
            failed_at(r.0, r.1, stage, error),
            r.0.well_formed(),
    {
        (
            Identification {
                audio_file_path: self.audio_file_path,
                stage: IdentifyStage::Finished,
            },
            IdentifyAction::Fail(Failure { stage, error }),
        )
    }
}

/// The arguments with which the fingerprinting tool is run on the file at
/// `audio_file_path`.
pub fn fingerprint_arguments(audio_file_path: &str) -> (arguments: Vec<String>)
    ensures
        texts(arguments@) == fingerprinter_arguments(audio_file_path@),
{
    let mut arguments: Vec<String> = Vec::new();
    arguments.push("-json".to_owned());
    arguments.push(audio_file_path.to_owned());
    assert(texts(arguments@) =~= fingerprinter_arguments(audio_file_path@));
    arguments
}

/// Where fingerprints are looked up.
pub fn acoustid_url() -> (url: &'static str)
    ensures
        url@ == "https://api.acoustid.org/v2/lookup"@,
{
    "https://api.acoustid.org/v2/lookup"
}

/// The parameters of the query that looks a fingerprint up on behalf of
/// `client`.
pub fn acoustid_query(client: &str, duration: i64, fingerprint: &str) -> (query: Vec<
    (String, String),
>)
    ensures
        parameters(query@) == lookup_parameters(client@, duration as int, fingerprint@),
{
    let mut query: Vec<(String, String)> = Vec::new();
    query.push(("client".to_owned(), client.to_owned()));
    query.push(("meta".to_owned(), "recordingids".to_owned()));
    query.push(("duration".to_owned(), signed_decimal_of(duration)));
    query.push(("fingerprint".to_owned(), fingerprint.to_owned()));
    assert(parameters(query@) =~= lookup_parameters(client@, duration as int, fingerprint@));
    query
}

/// The address at which the metadata of the recording `recording_id` is
/// found.
pub fn musicbrainz_recording_url(recording_id: &str) -> (url: String)
    ensures
        url@ == recording_address(recording_id@),
{
    let mut url = "https://musicbrainz.org/ws/2/recording/".to_owned();
    url.append(recording_id);
    url
}

/// The parameters of the query that asks for a recording's metadata.
pub fn musicbrainz_query() -> (query: Vec<(String, String)>)
    ensures
        parameters(query@) == recording_parameters(),
{
    let mut query: Vec<(String, String)> = Vec::new();
    query.push(("fmt".to_owned(), "json".to_owned()));
    query.push(("inc".to_owned(), "artists".to_owned()));
    assert(parameters(query@) =~= recording_parameters());
    query
}

/// The identity under which the metadata service is asked: the service's
/// name with its version, and where its source is kept.
pub fn musicbrainz_user_agent(version: &str, repository: &str) -> (agent: String)
    ensures
        agent@ == client_identity(version@, repository@),
{
    let mut agent = "Ferrous Beats/".to_owned();
    agent.append(version);
    agent.append(" ( ");
    agent.append(repository);
    agent.append(" )");
    agent
}

/// Takes an identification one step further on an event. The stages follow
/// one another, each only after the one before it succeeded: the file is
/// checked, fingerprinted, the output is read, the fingerprint is looked up,
/// the first recording of the best candidate is resolved. A tool that ran
/// and failed is answered with `BadRequest`, its results and nothing else;
/// every other shortfall fails the request. Every answer is well formed
/// where the identification was.
pub fn handle_identify_audio(identification: Identification, event: IdentifyEvent) -> (r: (
    Identification,
    IdentifyAction,
))
    ensures
        identify_stepped(identification, event, r.0, r.1),
        identification.well_formed() ==> r.0.well_formed(),
        identification.well_formed() ==> (r.1 matches IdentifyAction::Finish(_, response)
            ==> response.well_formed()),
{
    let Identification { audio_file_path, stage } = identification;
    let rest = Identification { audio_file_path, stage: IdentifyStage::Finished };
    let at = stage.name();
    match (stage, event) {
        (IdentifyStage::VerifyingInput, IdentifyEvent::InputChecked(exists)) => {
            if exists {
                let action = IdentifyAction::RunFingerprinter(rest.audio_file_path.clone());
                (
                    Identification {
                        audio_file_path: rest.audio_file_path,
                        stage: IdentifyStage::Fingerprinting,
                    },
                    action,
                )
            } else {
                let path = rest.audio_file_path.clone();
                rest.fail(at, ServerError::InputNotFound(path))
            }
        },
        (IdentifyStage::Fingerprinting, IdentifyEvent::ToolRun(Ok(results))) => {
            if !results.command_completed_successfully {
                let response = IdentifyAudioResponse {
                    musicbrainz_response: None,
                    acoustid_response: None,
                    best_match: None,
                    fpcalc_fingerprint: None,
                    fingerprinting_command_result: results,
                };
                (rest, IdentifyAction::Finish(ResponseStatus::BadRequest, response))
            } else {
                match &results.stdout {
                    Some(text) => {
                        let action = IdentifyAction::ParseFingerprint(text.clone());
                        (
                            Identification {
                                audio_file_path: rest.audio_file_path,
                                stage: IdentifyStage::ParsingFingerprint { results },
                            },
                            action,
                        )
                    },
                    None => rest.fail(
                        Stage::ReadingFingerprint,
                        ServerError::FingerprintOutputUnparseable,
                    ),
                }
            }
        },
        (IdentifyStage::Fingerprinting, IdentifyEvent::ToolRun(Err(error))) => rest.fail(at, error),
        (
            IdentifyStage::ParsingFingerprint { results },
            IdentifyEvent::FingerprintParsed(Some(fingerprint)),
        ) => {
            let action = IdentifyAction::LookUpFingerprint {
                duration: fingerprint.duration,
                fingerprint: fingerprint.fingerprint.clone(),
            };
            (
                Identification {
                    audio_file_path: rest.audio_file_path,
                    stage: IdentifyStage::AcousticLookup { results, fingerprint },
                },
                action,
            )
        },
        (IdentifyStage::ParsingFingerprint { .. }, IdentifyEvent::FingerprintParsed(None)) => {
            rest.fail(at, ServerError::FingerprintOutputUnparseable)
        },
        (
            IdentifyStage::AcousticLookup { results, fingerprint },
            IdentifyEvent::AcousticLookupDone(Ok(lookup)),
        ) => {
            match select_best_match(&lookup.results) {
                None => rest.fail(at, ServerError::NoAcousticMatch),
                Some(best) => {
                    if lookup.results[best].recordings.len() == 0 {
                        rest.fail(at, ServerError::NoRecordingAssociated)
                    } else {
                        let action = IdentifyAction::LookUpRecording(
                            lookup.results[best].recordings[0].id.clone(),
                        );
                        (
                            Identification {
                                audio_file_path: rest.audio_file_path,
                                stage: IdentifyStage::RecordingLookup {
                                    results,
                                    fingerprint,
                                    lookup,
                                    best_match: best,
                                },
                            },
                            action,
                        )
                    }
                },
            }
        },
        (IdentifyStage::AcousticLookup { .. }, IdentifyEvent::AcousticLookupDone(Err(cause))) => {
            rest.fail(at, ServerError::NetworkFailure(cause))
        },
        (
            IdentifyStage::RecordingLookup { results, fingerprint, lookup, best_match },
            IdentifyEvent::RecordingLookupDone(Ok(recording)),
        ) => {
            let response = IdentifyAudioResponse {
                musicbrainz_response: Some(recording),
                acoustid_response: Some(lookup),
                best_match: Some(best_match),
                fpcalc_fingerprint: Some(fingerprint),
                fingerprinting_command_result: results,
            };
            (rest, IdentifyAction::Finish(ResponseStatus::Success, response))
        },
        (IdentifyStage::RecordingLookup { .. }, IdentifyEvent::RecordingLookupDone(Err(cause))) => {
            rest.fail(at, ServerError::NetworkFailure(cause))
        },
        _ => rest.fail(at, ServerError::UnexpectedEvent),
    }
}

/// The place of a stage in the course of an identification.
pub open spec fn stage_order(stage: IdentifyStage) -> nat {
    match stage {
        IdentifyStage::VerifyingInput => 0,
        IdentifyStage::Fingerprinting => 1,
        IdentifyStage::ParsingFingerprint { .. } => 2,
        IdentifyStage::AcousticLookup { .. } => 3,
        IdentifyStage::RecordingLookup { .. } => 4,
        IdentifyStage::Finished => 5,
    }
}

/// The stages of an identification follow one another strictly: a step takes
/// it to the next stage, or ends it.
pub proof fn lemma_identification_stages_follow_in_order(
    before: Identification,
    event: IdentifyEvent,
    after: Identification,
    action: IdentifyAction,
)
    requires
        identify_stepped(before, event, after, action),
    ensures
        after.stage is Finished || stage_order(after.stage) == stage_order(before.stage) + 1,
        after.stage is Finished <==> action is Finish || action is Fail,
{
}

/// A fingerprinting tool that ran and did not succeed never fails the
/// request: the request is answered, with the tool's results and nothing
/// else.
pub proof fn lemma_failed_fingerprinting_is_answered(
    before: Identification,
    results: CommandExecutionResults,
    after: Identification,
    action: IdentifyAction,
)
    requires
        before.stage is Fingerprinting,
        !results.command_completed_successfully,
        identify_stepped(before, IdentifyEvent::ToolRun(Ok(results)), after, action),
    ensures
        !(action is Fail),
        action matches IdentifyAction::Finish(status, response) && status
            == ResponseStatus::BadRequest && is_partial(response, results),
{
}

/// The candidate whose recording is resolved has the highest score of all,
/// and is the first to have it.
pub proof fn lemma_resolved_candidate_is_best(
    before: Identification,
    lookup: AcoustIDApiLookupResponse,
    after: Identification,
    action: IdentifyAction,
    j: int,
)
    requires
        before.stage is AcousticLookup,
        identify_stepped(before, IdentifyEvent::AcousticLookupDone(Ok(lookup)), after, action),
        after.stage is RecordingLookup,
        0 <= j < lookup.results@.len(),
    ensures
        ({
            let best = after.stage->RecordingLookup_best_match as int;
            &&& 0 <= best < lookup.results@.len()
            &&& lookup.results@[j].score <= lookup.results@[best].score
            &&& lookup.results@[j].score == lookup.results@[best].score ==> best <= j
        }),
{
    let best = after.stage->RecordingLookup_best_match as int;
    lemma_best_match_exists(scores(lookup.results@));
    lemma_best_match_is_first_maximum(scores(lookup.results@), best, j);
}

} // verus!
