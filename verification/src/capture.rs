//! What a finished payload means: the text of a captured run, or the
//! failure it stands for.

use vstd::prelude::*;
use vstd::string::*;
use vstd::utf8::{valid_utf8, decode_utf8};
use crate::launch::{AttemptFailure, LaunchError, plain, failure_of};

verus! {

/// What a payload left behind: whether it exited with success, its exit
/// code, and what it wrote to its standard output and standard error.
#[derive(Clone, Debug, PartialEq, Eq)]
pub struct ChildOutput {
    pub success: bool,
    pub code: i32,
    pub stdout: Vec<u8>,
    pub stderr: Vec<u8>,
}

/// The text that bytes decode to when every malformed sequence is replaced
/// by the replacement character.
pub uninterp spec fn utf8_lossy(bytes: Seq<u8>) -> Seq<char>;

/// The text that the bytes encode, where they are UTF-8.
///
/// Trusted: `String::from_utf8` of the standard library, which is
/// documented to return the string with exactly these bytes where they are
/// valid UTF-8, and an error where they are not.
#[verifier::external_body]
fn text_from_utf8(bytes: Vec<u8>) -> (text: Option<String>)
    ensures
        text is Some <==> valid_utf8(bytes@),
        text matches Some(s) ==> s@ == decode_utf8(bytes@),
{
    match String::from_utf8(bytes) {
        Ok(text) => Some(text),
        Err(_) => None,
    }
}

/// The text that the bytes encode, with the replacement character in place
/// of what is not UTF-8.
///
/// Trusted: `String::from_utf8_lossy` of the standard library. Its result
/// depends on the bytes alone and is named [`utf8_lossy`]; it is documented
/// to be the encoded text itself where the bytes are valid UTF-8.
#[verifier::external_body]
fn text_from_utf8_lossy(bytes: &Vec<u8>) -> (text: String)
    ensures
        text@ == utf8_lossy(bytes@),
        valid_utf8(bytes@) ==> text@ == decode_utf8(bytes@),
{
    String::from_utf8_lossy(bytes).into_owned()
}

/// The text shown for a payload that failed, given what it wrote to its
/// standard error.
pub open spec fn exit_failure_text(stderr_text: Seq<char>) -> Seq<char> {
    "Go binary failed: "@ + stderr_text
}

/// The failure of a payload that exited with `code` and left
/// `stderr_text` on its standard error: its own diagnostic is that text
/// behind a fixed opening.
pub fn exit_failure(code: i32, stderr_text: &str) -> (failure: AttemptFailure)
    ensures
        failure.error == LaunchError::ChildExitedNonZero(code),
        failure.own matches Some(text) && text@ == exit_failure_text(stderr_text@),
{
    let mut diagnostic = String::from_str("Go binary failed: ");
    diagnostic.append(stderr_text);
    AttemptFailure { error: LaunchError::ChildExitedNonZero(code), own: Some(diagnostic) }
}

/// The result of a captured run. A payload that exited with success gives
/// its standard output as text, or `OutputDecodeFailed` where that is not
/// UTF-8; one that did not gives `ChildExitedNonZero` with its exit code
/// and a diagnostic of its own that carries its standard error.
pub fn interpret_output(output: ChildOutput) -> (result: Result<String, AttemptFailure>)
    ensures
        result is Ok <==> output.success && valid_utf8(output.stdout@),
        result matches Ok(text) ==> text@ == decode_utf8(output.stdout@),
        result matches Err(failure) ==> if output.success {
            failure == plain(LaunchError::OutputDecodeFailed)
        } else {
            &&& failure.error == LaunchError::ChildExitedNonZero(output.code)
            &&& failure.own matches Some(text) && text@ == exit_failure_text(
                utf8_lossy(output.stderr@),
            ) && (valid_utf8(output.stderr@) ==> text@ == exit_failure_text(
                decode_utf8(output.stderr@),
            ))
        },
{
    if output.success {
        match text_from_utf8(output.stdout) {
            Some(text) => Ok(text),
            None => Err(failure_of(LaunchError::OutputDecodeFailed)),
        }
    } else {
        let stderr_text = text_from_utf8_lossy(&output.stderr);
        Err(exit_failure(output.code, stderr_text.as_str()))
    }
}

/// The result of a run that had the terminal: success, with no text, where
/// the payload exited with success, else `ChildExitedNonZero` with its exit
/// code and no diagnostic of its own.
pub fn interpret_status(success: bool, code: i32) -> (result: Result<String, AttemptFailure>)
    ensures
        result is Ok <==> success,
        result matches Ok(text) ==> text@ == Seq::<char>::empty(),
        result matches Err(failure) ==> failure == plain(LaunchError::ChildExitedNonZero(code)),
{
    if success {
        Ok(String::new())
    } else {
        Err(failure_of(LaunchError::ChildExitedNonZero(code)))
    }
}

} // verus!
