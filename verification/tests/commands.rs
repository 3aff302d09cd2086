use ferrous_beats::commands::{run_command, CommandExecutionResults, ProcessOutput};
use ferrous_beats::errors::ServerError;

#[test]
fn success_is_exit_code_zero() {
    let r = CommandExecutionResults::from_output(Some(0), String::new(), String::new());
    assert!(r.command_completed_successfully);
    assert_eq!(r.exit_code, Some(0));
}

#[test]
fn any_other_exit_code_is_no_success() {
    for code in [1, -1, 2, 127, 255, i32::MAX, i32::MIN] {
        let r = CommandExecutionResults::from_output(Some(code), String::new(), String::new());
        assert!(!r.command_completed_successfully, "{}", code);
        assert_eq!(r.exit_code, Some(code));
    }
}

#[test]
fn a_missing_exit_code_is_no_success() {
    let r = CommandExecutionResults::from_output(None, "out".to_string(), String::new());
    assert!(!r.command_completed_successfully);
    assert_eq!(r.exit_code, None);
}

#[test]
fn empty_streams_are_absent() {
    let r = CommandExecutionResults::from_output(Some(0), String::new(), String::new());
    assert_eq!(r.stdout, None);
    assert_eq!(r.stderr, None);
}

#[test]
fn written_streams_are_kept_whole() {
    let r = CommandExecutionResults::from_output(Some(3), " out\n".to_string(), "err".to_string());
    assert_eq!(r.stdout, Some(" out\n".to_string()));
    assert_eq!(r.stderr, Some("err".to_string()));
}

#[test]
fn run_command_of_a_program_that_could_not_be_started() {
    let r = run_command(Err("No such file or directory (os error 2)".to_string()));
    assert_eq!(
        r,
        Err(ServerError::SpawnFailure("No such file or directory (os error 2)".to_string()))
    );
}

#[test]
fn run_command_of_a_program_that_failed_is_not_an_error() {
    let r = run_command(Ok(ProcessOutput {
        exit_code: Some(2),
        stdout: Vec::new(),
        stderr: b"ERROR: unsupported URL\n".to_vec(),
    }));
    assert_eq!(
        r,
        Ok(CommandExecutionResults {
            command_completed_successfully: false,
            exit_code: Some(2),
            stdout: None,
            stderr: Some("ERROR: unsupported URL\n".to_string()),
        })
    );
}

#[test]
fn run_command_decodes_the_streams() {
    let r = run_command(Ok(ProcessOutput {
        exit_code: Some(0),
        stdout: "2024.08.06 ✓".as_bytes().to_vec(),
        stderr: Vec::new(),
    }))
    .unwrap();
    assert!(r.command_completed_successfully);
    assert_eq!(r.stdout, Some("2024.08.06 ✓".to_string()));
    assert_eq!(r.stderr, None);
}

#[test]
fn run_command_replaces_what_is_no_text() {
    let r = run_command(Ok(ProcessOutput {
        exit_code: None,
        stdout: vec![b'a', 0xff, b'b'],
        stderr: vec![0xc3],
    }))
    .unwrap();
    assert!(!r.command_completed_successfully);
    assert_eq!(r.stdout, Some("a\u{fffd}b".to_string()));
    assert_eq!(r.stderr, Some("\u{fffd}".to_string()));
}
