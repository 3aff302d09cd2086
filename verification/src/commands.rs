//! What a finished external program left behind, as data.

use crate::errors::ServerError;
use vstd::prelude::*;
use vstd::utf8::{decode_utf8, valid_utf8};

verus! {

/// The result of running an external program to completion. A failing exit
/// code and captured error output are data here, not errors.
#[derive(Clone, Debug, PartialEq, Eq)]
pub struct CommandExecutionResults {
    /// Whether the program exited with code zero.
    pub command_completed_successfully: bool,
    /// The exit code; none where a signal ended the program.
    pub exit_code: Option<i32>,
    /// What the program wrote to its standard output, if anything.
    pub stdout: Option<String>,
    /// What the program wrote to its standard error, if anything.
    pub stderr: Option<String>,
}

/// What the operating system hands back for a program that ran.
#[derive(Debug, PartialEq, Eq)]
pub struct ProcessOutput {
    pub exit_code: Option<i32>,
    pub stdout: Vec<u8>,
    pub stderr: Vec<u8>,
}

/// An exit code that means success.
pub open spec fn is_success(exit_code: Option<i32>) -> bool {
    exit_code == Some(0i32)
}

/// A captured stream: absent where nothing was written.
pub open spec fn captured(text: Seq<char>) -> Option<Seq<char>> {
    if text.len() == 0 {
        None
    } else {
        Some(text)
    }
}

/// The contents of an optional string.
pub open spec fn text_of(s: Option<String>) -> Option<Seq<char>> {
    match s {
        Some(s) => Some(s@),
        None => None,
    }
}

impl CommandExecutionResults {
    /// Success means exit code zero, and a stream that is present is not
    /// empty.
    pub open spec fn well_formed(&self) -> bool {
        &&& self.command_completed_successfully == is_success(self.exit_code)
        &&& self.stdout matches Some(s) ==> s@.len() > 0
        &&& self.stderr matches Some(s) ==> s@.len() > 0
    }

    /// The result for an exit code and the two captured streams as text.
    pub fn from_output(exit_code: Option<i32>, stdout: String, stderr: String) -> (r: Self)
        ensures
            r.well_formed(),
            r.command_completed_successfully <==> exit_code == Some(0i32),
            r.exit_code == exit_code,
            text_of(r.stdout) == captured(stdout@),
            text_of(r.stderr) == captured(stderr@),
    {
        let succeeded = match exit_code {
            Some(code) => code == 0,
            None => false,
        };
        CommandExecutionResults {
            command_completed_successfully: succeeded,
            exit_code,
            stdout: if stdout.as_str().is_empty() {
                None
            } else {
                Some(stdout)
            },
            stderr: if stderr.as_str().is_empty() {
                None
            } else {
                Some(stderr)
            },
        }
    }
}

/// The text that `String::from_utf8_lossy` makes of `bytes`: the decoded
/// characters, with U+FFFD in place of each invalid stretch.
pub uninterp spec fn lossy_text(bytes: Seq<u8>) -> Seq<char>;

/// `String::from_utf8_lossy`, as an owned string. The result is a function of
/// the bytes; bytes that are valid UTF-8 decode to the characters they
/// encode.
#[verifier::external_body]
fn decode_lossy(bytes: &Vec<u8>) -> (text: String)
    ensures
        text@ == lossy_text(bytes@),
        valid_utf8(bytes@) ==> text@ == decode_utf8(bytes@),
{
    String::from_utf8_lossy(bytes).into_owned()
}

/// What `run_command` returns for an attempt to run a program.
pub open spec fn command_outcome(
    spawned: Result<ProcessOutput, String>,
    r: Result<CommandExecutionResults, ServerError>,
) -> bool {
    match spawned {
        Err(cause) => r == Err::<CommandExecutionResults, ServerError>(
            ServerError::SpawnFailure(cause),
        ),
        Ok(output) => r matches Ok(results) && {
            &&& results.well_formed()
            &&& results.command_completed_successfully == is_success(output.exit_code)
            &&& results.exit_code == output.exit_code
            &&& text_of(results.stdout) == captured(lossy_text(output.stdout@))
            &&& text_of(results.stderr) == captured(lossy_text(output.stderr@))
            &&& output.stdout@.len() == 0 ==> results.stdout is None
            &&& output.stderr@.len() == 0 ==> results.stderr is None
        },
    }
}

/// Turns the outcome of starting a program and waiting for it into a result.
/// A program that could not be started is a `SpawnFailure`; one that ran
/// always gives `Ok`, whatever its exit code. Its streams are read as text,
/// and a stream into which nothing was written is absent.
pub fn run_command(spawned: Result<ProcessOutput, String>) -> (r: Result<
    CommandExecutionResults,
    ServerError,
>)
    ensures
        command_outcome(spawned, r),
{
    match spawned {
        Err(cause) => Err(ServerError::SpawnFailure(cause)),
        Ok(output) => {
            let stdout = decode_lossy(&output.stdout);
            let stderr = decode_lossy(&output.stderr);
            Ok(CommandExecutionResults::from_output(output.exit_code, stdout, stderr))
        },
    }
}

} // verus!
