use ferrous_beats::acoustid::{AcoustIDApiLookupResponse, LookupResult, Recording};
use ferrous_beats::commands::CommandExecutionResults;
use ferrous_beats::errors::{Failure, ResponseStatus, ServerError, Stage};
use ferrous_beats::identify::{
    acoustid_query, acoustid_url, fingerprint_arguments, handle_identify_audio, musicbrainz_query,
    musicbrainz_recording_url, musicbrainz_user_agent, FpcalcFingerprintingResult, Identification,
    IdentifyAction, IdentifyAudioRequest, IdentifyAudioResponse, IdentifyEvent, IdentifyStage,
};
use ferrous_beats::musicbrainz::MusicbrainzAPIRecordingResponse;

const OUTPUT: &str = "{\"duration\": 215.73, \"fingerprint\": \"AQADtEmS\"}";

fn failed(stage: Stage, error: ServerError) -> IdentifyAction {
    IdentifyAction::Fail(Failure { stage, error })
}

fn begin() -> (Identification, IdentifyAction) {
    Identification::start(IdentifyAudioRequest { audio_file_path: "library/track.mp3".to_string() })
}

fn exited(code: Option<i32>, stdout: &str) -> CommandExecutionResults {
    CommandExecutionResults::from_output(code, stdout.to_string(), String::new())
}

fn fingerprint() -> FpcalcFingerprintingResult {
    FpcalcFingerprintingResult { duration: 215, fingerprint: "AQADtEmS".to_string() }
}

fn candidate(id: &str, score: u64, recordings: &[&str]) -> LookupResult {
    LookupResult {
        id: id.to_string(),
        score,
        recordings: recordings.iter().map(|r| Recording { id: r.to_string() }).collect(),
    }
}

fn lookup(results: Vec<LookupResult>) -> AcoustIDApiLookupResponse {
    AcoustIDApiLookupResponse { status: "ok".to_string(), results }
}

fn recording() -> MusicbrainzAPIRecordingResponse {
    MusicbrainzAPIRecordingResponse {
        id: "rec-b".to_string(),
        video: false,
        first_release_date: "1999-01-01".to_string(),
        length: 215_000,
        isrcs: vec!["USRC17607839".to_string()],
        disambiguation: String::new(),
        artist_credit: Vec::new(),
        title: "Track".to_string(),
        releases: Vec::new(),
    }
}

/// Takes an identification to the acoustic lookup.
fn until_lookup() -> Identification {
    let (state, _) = begin();
    let (state, _) = handle_identify_audio(state, IdentifyEvent::InputChecked(true));
    let (state, _) = handle_identify_audio(state, IdentifyEvent::ToolRun(Ok(exited(Some(0), OUTPUT))));
    let (state, action) =
        handle_identify_audio(state, IdentifyEvent::FingerprintParsed(Some(fingerprint())));
    assert_eq!(
        action,
        IdentifyAction::LookUpFingerprint { duration: 215, fingerprint: "AQADtEmS".to_string() }
    );
    state
}

#[test]
fn an_identification_begins_by_checking_the_file() {
    let (state, action) = begin();
    assert_eq!(state.stage, IdentifyStage::VerifyingInput);
    assert_eq!(action, IdentifyAction::CheckInput("library/track.mp3".to_string()));
}

#[test]
fn a_file_that_is_not_there_fails_the_identification() {
    let (state, _) = begin();
    let (state, action) = handle_identify_audio(state, IdentifyEvent::InputChecked(false));
    assert_eq!(state.stage, IdentifyStage::Finished);
    assert_eq!(
        action,
        failed(Stage::CheckingInput, ServerError::InputNotFound("library/track.mp3".to_string()))
    );
}

#[test]
fn a_file_that_is_there_is_fingerprinted() {
    let (state, _) = begin();
    let (state, action) = handle_identify_audio(state, IdentifyEvent::InputChecked(true));
    assert_eq!(state.stage, IdentifyStage::Fingerprinting);
    assert_eq!(action, IdentifyAction::RunFingerprinter("library/track.mp3".to_string()));
    assert_eq!(fingerprint_arguments("library/track.mp3"), vec!["-json", "library/track.mp3"]);
}

#[test]
fn a_fingerprinter_that_exits_nonzero_is_answered_not_failed() {
    for code in [Some(1), Some(2), Some(-1), None] {
        let (state, _) = begin();
        let (state, _) = handle_identify_audio(state, IdentifyEvent::InputChecked(true));
        let results = CommandExecutionResults::from_output(
            code,
            String::new(),
            "ERROR: could not open the input file\n".to_string(),
        );
        let (state, action) = handle_identify_audio(state, IdentifyEvent::ToolRun(Ok(results.clone())));
        assert_eq!(state.stage, IdentifyStage::Finished);
        assert_eq!(
            action,
            IdentifyAction::Finish(
                ResponseStatus::BadRequest,
                IdentifyAudioResponse {
                    musicbrainz_response: None,
                    acoustid_response: None,
                    best_match: None,
                    fpcalc_fingerprint: None,
                    fingerprinting_command_result: results,
                }
            )
        );
    }
}

#[test]
fn a_fingerprinter_that_cannot_be_started_fails_the_identification() {
    let (state, _) = begin();
    let (state, _) = handle_identify_audio(state, IdentifyEvent::InputChecked(true));
    let (_, action) = handle_identify_audio(
        state,
        IdentifyEvent::ToolRun(Err(ServerError::SpawnFailure("no such file".to_string()))),
    );
    assert_eq!(action, failed(Stage::Fingerprinting, ServerError::SpawnFailure("no such file".to_string())));
}

#[test]
fn the_output_of_a_successful_fingerprinter_is_parsed() {
    let (state, _) = begin();
    let (state, _) = handle_identify_audio(state, IdentifyEvent::InputChecked(true));
    let (state, action) =
        handle_identify_audio(state, IdentifyEvent::ToolRun(Ok(exited(Some(0), OUTPUT))));
    assert_eq!(state.stage, IdentifyStage::ParsingFingerprint { results: exited(Some(0), OUTPUT) });
    assert_eq!(action, IdentifyAction::ParseFingerprint(OUTPUT.to_string()));
}

#[test]
fn a_successful_fingerprinter_without_output_is_unparseable() {
    let (state, _) = begin();
    let (state, _) = handle_identify_audio(state, IdentifyEvent::InputChecked(true));
    let (_, action) = handle_identify_audio(state, IdentifyEvent::ToolRun(Ok(exited(Some(0), ""))));
    assert_eq!(action, failed(Stage::ReadingFingerprint, ServerError::FingerprintOutputUnparseable));
}

#[test]
fn output_that_is_no_fingerprint_is_unparseable() {
    let (state, _) = begin();
    let (state, _) = handle_identify_audio(state, IdentifyEvent::InputChecked(true));
    let (state, _) =
        handle_identify_audio(state, IdentifyEvent::ToolRun(Ok(exited(Some(0), "not json"))));
    let (state, action) = handle_identify_audio(state, IdentifyEvent::FingerprintParsed(None));
    assert_eq!(state.stage, IdentifyStage::Finished);
    assert_eq!(action, failed(Stage::ReadingFingerprint, ServerError::FingerprintOutputUnparseable));
}

#[test]
fn the_first_recording_of_the_best_candidate_is_resolved() {
    let state = until_lookup();
    let found = lookup(vec![
        candidate("a", 40, &["rec-a"]),
        candidate("b", 91, &["rec-b", "rec-b2"]),
        candidate("c", 91, &["rec-c"]),
        candidate("d", 20, &[]),
    ]);
    let (state, action) = handle_identify_audio(state, IdentifyEvent::AcousticLookupDone(Ok(found.clone())));
    assert_eq!(action, IdentifyAction::LookUpRecording("rec-b".to_string()));
    assert_eq!(
        state.stage,
        IdentifyStage::RecordingLookup {
            results: exited(Some(0), OUTPUT),
            fingerprint: fingerprint(),
            lookup: found,
            best_match: 1,
        }
    );
}

#[test]
fn a_lookup_without_candidates_fails_the_identification() {
    let state = until_lookup();
    let (state, action) =
        handle_identify_audio(state, IdentifyEvent::AcousticLookupDone(Ok(lookup(Vec::new()))));
    assert_eq!(state.stage, IdentifyStage::Finished);
    assert_eq!(action, failed(Stage::LookingUpFingerprint, ServerError::NoAcousticMatch));
}

#[test]
fn a_best_candidate_without_recording_fails_the_identification() {
    let state = until_lookup();
    let found = lookup(vec![candidate("a", 10, &["rec-a"]), candidate("b", 90, &[])]);
    let (_, action) = handle_identify_audio(state, IdentifyEvent::AcousticLookupDone(Ok(found)));
    assert_eq!(action, failed(Stage::LookingUpFingerprint, ServerError::NoRecordingAssociated));
}

#[test]
fn a_lookup_that_fails_fails_the_identification() {
    let state = until_lookup();
    let (_, action) =
        handle_identify_audio(state, IdentifyEvent::AcousticLookupDone(Err("timed out".to_string())));
    assert_eq!(action, failed(Stage::LookingUpFingerprint, ServerError::NetworkFailure("timed out".to_string())));
}

#[test]
fn an_identification_that_succeeds_answers_with_everything() {
    let state = until_lookup();
    let found = lookup(vec![candidate("a", 40, &["rec-a"]), candidate("b", 91, &["rec-b"])]);
    let (state, _) = handle_identify_audio(state, IdentifyEvent::AcousticLookupDone(Ok(found.clone())));
    let (state, action) =
        handle_identify_audio(state, IdentifyEvent::RecordingLookupDone(Ok(recording())));
    assert_eq!(state.stage, IdentifyStage::Finished);
    assert_eq!(
        action,
        IdentifyAction::Finish(
            ResponseStatus::Success,
            IdentifyAudioResponse {
                musicbrainz_response: Some(recording()),
                acoustid_response: Some(found),
                best_match: Some(1),
                fpcalc_fingerprint: Some(fingerprint()),
                fingerprinting_command_result: exited(Some(0), OUTPUT),
            }
        )
    );
}

#[test]
fn metadata_that_cannot_be_fetched_fails_the_identification() {
    let state = until_lookup();
    let found = lookup(vec![candidate("b", 91, &["rec-b"])]);
    let (state, _) = handle_identify_audio(state, IdentifyEvent::AcousticLookupDone(Ok(found)));
    let (_, action) = handle_identify_audio(
        state,
        IdentifyEvent::RecordingLookupDone(Err("503 Service Unavailable".to_string())),
    );
    assert_eq!(
        action,
        failed(Stage::LookingUpRecording, ServerError::NetworkFailure("503 Service Unavailable".to_string()))
    );
}

#[test]
fn an_event_that_was_not_waited_for_fails_the_identification() {
    let (state, _) = begin();
    let (state, action) =
        handle_identify_audio(state, IdentifyEvent::FingerprintParsed(Some(fingerprint())));
    assert_eq!(state.stage, IdentifyStage::Finished);
    assert_eq!(action, failed(Stage::CheckingInput, ServerError::UnexpectedEvent));
    let (_, action) = handle_identify_audio(state, IdentifyEvent::InputChecked(true));
    assert_eq!(action, failed(Stage::Finished, ServerError::UnexpectedEvent));
}

#[test]
fn the_client_identity_names_version_and_repository() {
    assert_eq!(
        musicbrainz_user_agent("0.3.1", "https://example.org/ferrous-beats"),
        "Ferrous Beats/0.3.1 ( https://example.org/ferrous-beats )"
    );
}

fn pairs(list: &[(&str, &str)]) -> Vec<(String, String)> {
    list.iter().map(|(name, value)| (name.to_string(), value.to_string())).collect()
}

#[test]
fn the_lookup_is_asked_with_the_whole_seconds() {
    assert_eq!(acoustid_url(), "https://api.acoustid.org/v2/lookup");
    assert_eq!(
        acoustid_query("client-key", 215, "AQADtEmS"),
        pairs(&[
            ("client", "client-key"),
            ("meta", "recordingids"),
            ("duration", "215"),
            ("fingerprint", "AQADtEmS"),
        ])
    );
    assert_eq!(acoustid_query("", 0, "")[2], ("duration".to_string(), "0".to_string()));
    assert_eq!(acoustid_query("", -3, "")[2], ("duration".to_string(), "-3".to_string()));
}

#[test]
fn the_metadata_is_asked_for_by_recording() {
    assert_eq!(
        musicbrainz_recording_url("b9ad642e-b012-41c7-b72a-42cf4911f9ff"),
        "https://musicbrainz.org/ws/2/recording/b9ad642e-b012-41c7-b72a-42cf4911f9ff"
    );
    assert_eq!(musicbrainz_query(), pairs(&[("fmt", "json"), ("inc", "artists")]));
}

#[test]
fn a_fingerprinter_that_is_not_installed_fails_the_identification() {
    let (state, _) = begin();
    let (state, _) = handle_identify_audio(state, IdentifyEvent::InputChecked(true));
    let (state, action) = handle_identify_audio(
        state,
        IdentifyEvent::ToolRun(Err(ServerError::ToolNotFound("tools/fpcalc".to_string()))),
    );
    assert_eq!(state.stage, IdentifyStage::Finished);
    assert_eq!(
        action,
        failed(Stage::Fingerprinting, ServerError::ToolNotFound("tools/fpcalc".to_string()))
    );
}
