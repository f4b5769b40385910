//! The texts that tell the user why a launch failed.

use vstd::prelude::*;
use vstd::string::*;
use crate::launch::{AttemptFailure, LaunchError, LaunchFailure};
use crate::text::{signed_decimal, push_signed_decimal};

verus! {

/// The text for one error.
pub open spec fn description(error: LaunchError) -> Seq<char> {
    match error {
        LaunchError::AnonymousExecUnavailable => "Failed to create memfd"@,
        LaunchError::AnonymousExecWriteFailed => "Failed to write binary data to memfd"@,
        LaunchError::TempFileCreateFailed(number) => "Failed to create temporary file: errno "@
            + signed_decimal(number as int),
        LaunchError::TempFileWriteFailed(number) => "Failed to write to temporary file: errno "@
            + signed_decimal(number as int),
        LaunchError::TempFilePermissionFailed(number) => "Failed to make file executable: errno "@
            + signed_decimal(number as int),
        LaunchError::ChildSpawnFailed(number) => "Failed to start Go binary: errno "@
            + signed_decimal(number as int),
        LaunchError::ChildExitedNonZero(code) => "Go binary exited with error: code "@
            + signed_decimal(code as int),
        LaunchError::OutputDecodeFailed => "Go binary output is not valid UTF-8"@,
    }
}

/// The text for one attempt: the payload's own diagnostic where it left
/// one, else the text for the attempt's error.
pub open spec fn attempt_text(failure: AttemptFailure) -> Seq<char> {
    match failure.own {
        Some(text) => text@,
        None => description(failure.error),
    }
}

/// The text for a launch that failed. Where the transient file was tried:
/// why it failed, then why the anonymous execution before it did. Where it
/// was not: why the anonymous execution failed.
pub open spec fn failure_description(failure: LaunchFailure) -> Seq<char> {
    match failure.fallback {
        Some(fallback) => attempt_text(fallback) + " (memory execution failed: "@ + attempt_text(
            failure.anonymous,
        ) + ")"@,
        None => attempt_text(failure.anonymous),
    }
}

/// The text recorded in a panel for a launch that failed.
pub open spec fn handoff_description(failure: LaunchFailure) -> Seq<char> {
    "Failed to execute Go binary: "@ + failure_description(failure)
}

/// Appends the text for `error` to `out`.
pub fn push_description(out: &mut String, error: LaunchError)
    ensures
        final(out)@ == old(out)@ + description(error),
{
    match error {
        LaunchError::AnonymousExecUnavailable => {
            out.append("Failed to create memfd");
        },
        LaunchError::AnonymousExecWriteFailed => {
            out.append("Failed to write binary data to memfd");
        },
        LaunchError::TempFileCreateFailed(number) => {
            out.append("Failed to create temporary file: errno ");
            push_signed_decimal(out, number);
        },
        LaunchError::TempFileWriteFailed(number) => {
            out.append("Failed to write to temporary file: errno ");
            push_signed_decimal(out, number);
        },
        LaunchError::TempFilePermissionFailed(number) => {
            out.append("Failed to make file executable: errno ");
            push_signed_decimal(out, number);
        },
        LaunchError::ChildSpawnFailed(number) => {
            out.append("Failed to start Go binary: errno ");
            push_signed_decimal(out, number);
        },
        LaunchError::ChildExitedNonZero(code) => {
            out.append("Go binary exited with error: code ");
            push_signed_decimal(out, code);
        },
        LaunchError::OutputDecodeFailed => {
            out.append("Go binary output is not valid UTF-8");
        },
    }
    proof {
        assert(final(out)@ =~= old(out)@ + description(error));
    }
}

/// The text for one error.
pub fn describe(error: LaunchError) -> (text: String)
    ensures
        text@ == description(error),
{
    let mut text = String::new();
    push_description(&mut text, error);
    proof {
        assert(text@ =~= description(error));
    }
    text
}

/// Appends the text for one attempt to `out`.
pub fn push_attempt(out: &mut String, failure: &AttemptFailure)
    ensures
        final(out)@ == old(out)@ + attempt_text(*failure),
{
    match &failure.own {
        Some(text) => {
            out.append(text.as_str());
        },
        None => {
            push_description(out, failure.error);
        },
    }
}

/// The text for one attempt.
pub fn describe_attempt(failure: &AttemptFailure) -> (text: String)
    ensures
        text@ == attempt_text(*failure),
{
    let mut text = String::new();
    push_attempt(&mut text, failure);
    proof {
        assert(text@ =~= attempt_text(*failure));
    }
    text
}

/// The text for a launch that failed: from both attempts where the
/// transient file was tried, else from the anonymous attempt alone.
pub fn describe_failure(failure: &LaunchFailure) -> (text: String)
    ensures
        text@ == failure_description(*failure),
{
    let mut text = String::new();
    match &failure.fallback {
        Some(fallback) => {
            push_attempt(&mut text, fallback);
            text.append(" (memory execution failed: ");
            push_attempt(&mut text, &failure.anonymous);
            text.append(")");
        },
        None => {
            push_attempt(&mut text, &failure.anonymous);
        },
    }
    proof {
        assert(text@ =~= failure_description(*failure));
    }
    text
}

/// The text recorded in a panel for a launch that failed.
pub fn describe_handoff_failure(failure: &LaunchFailure) -> (text: String)
    ensures
        text@ == handoff_description(*failure),
{
    let mut text = String::from_str("Failed to execute Go binary: ");
    text.append(describe_failure(failure).as_str());
    text
}

} // verus!
