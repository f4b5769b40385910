//! Handing the terminal to the payload and taking it back.
//!
//! Around a launch in handoff mode the multiplexer leaves the raw terminal
//! mode, clears the screen, lets the payload run, and enters the raw mode
//! again. [`Handoff`] orders these operations; the caller performs them.

use vstd::prelude::*;
use vstd::string::*;
use crate::diagnostic::{handoff_description, describe_handoff_failure};
use crate::launch::{LaunchFailure, Launched};

verus! {

/// Why a handoff failed.
#[derive(Clone, Debug, PartialEq, Eq)]
pub enum HandoffError {
    /// The terminal could not be switched or cleared; the text says why.
    Terminal(String),
    /// A report came that does not answer the operation that was due.
    OutOfTurn,
    /// The payload could not be run, or failed.
    Launch(LaunchFailure),
}

/// What the caller reports of the operation that was due.
#[derive(Debug, PartialEq, Eq)]
pub enum HandoffReport {
    /// The terminal operation succeeded.
    Done,
    /// The terminal operation failed; the text says why.
    Failed(String),
    /// The launch ended with this result.
    Launched(Result<Launched, LaunchFailure>),
}

/// The operation that is due.
#[derive(Clone, Copy, Debug, PartialEq, Eq, Structural)]
pub enum HandoffAction {
    /// Leave the raw terminal mode.
    SuspendTerminal,
    /// Clear the screen, put the cursor in its corner and flush.
    ClearScreen,
    /// Launch the payload in handoff mode and wait for it.
    LaunchPayload,
    /// Enter the raw terminal mode again.
    ResumeTerminal,
    /// Nothing more: the handoff has ended.
    Finish,
}

/// Where a handoff stands.
#[derive(Debug, PartialEq, Eq)]
pub enum HandoffPhase {
    Suspending,
    Clearing,
    Launching,
    Resuming { result: Result<(), HandoffError> },
    Finished(Result<(), HandoffError>),
}

/// One handoff. `resume_owed` records that the raw mode was left and that
/// entering it again was not yet asked for.
#[derive(Debug, PartialEq, Eq)]
pub struct Handoff {
    pub phase: HandoffPhase,
    pub resume_owed: bool,
}

/// A handoff as it starts.
pub open spec fn handoff_started() -> Handoff {
    Handoff { phase: HandoffPhase::Suspending, resume_owed: false }
}

/// The failure that a report other than the awaited one stands for: the
/// terminal's own failure with its text, or a report out of turn.
pub open spec fn report_failure(report: HandoffReport) -> HandoffError {
    match report {
        HandoffReport::Failed(text) => HandoffError::Terminal(text),
        _ => HandoffError::OutOfTurn,
    }
}

/// What the report on the launch means for the handoff.
pub open spec fn launch_result(report: HandoffReport) -> Result<(), HandoffError> {
    match report {
        HandoffReport::Launched(Ok(_)) => Ok(()),
        HandoffReport::Launched(Err(failure)) => Err(HandoffError::Launch(failure)),
        _ => Err(report_failure(report)),
    }
}

/// The phase that follows on `report`.
///
/// Where the raw mode could not be left, the handoff ends at once and the
/// raw mode is not entered again. Once it was left, every path leads
/// through entering it again, also where clearing the screen or the launch
/// failed. Where entering it again fails, that is the handoff's result.
pub open spec fn next_handoff_phase(phase: HandoffPhase, report: HandoffReport) -> HandoffPhase {
    match phase {
        HandoffPhase::Suspending => if report == HandoffReport::Done {
            HandoffPhase::Clearing
        } else {
            HandoffPhase::Finished(Err(report_failure(report)))
        },
        HandoffPhase::Clearing => if report == HandoffReport::Done {
            HandoffPhase::Launching
        } else {
            HandoffPhase::Resuming { result: Err(report_failure(report)) }
        },
        HandoffPhase::Launching => HandoffPhase::Resuming { result: launch_result(report) },
        HandoffPhase::Resuming { result } => if report == HandoffReport::Done {
            HandoffPhase::Finished(result)
        } else {
            HandoffPhase::Finished(Err(report_failure(report)))
        },
        HandoffPhase::Finished(result) => HandoffPhase::Finished(result),
    }
}

/// The handoff after `report`.
pub open spec fn handoff_advanced(handoff: Handoff, report: HandoffReport) -> Handoff {
    Handoff {
        phase: next_handoff_phase(handoff.phase, report),
        resume_owed: match handoff.phase {
            HandoffPhase::Suspending => report == HandoffReport::Done,
            HandoffPhase::Resuming { .. } => false,
            _ => handoff.resume_owed,
        },
    }
}

/// The handoff after each of `reports` in turn.
pub open spec fn handoff_advanced_all(handoff: Handoff, reports: Seq<HandoffReport>) -> Handoff
    decreases reports.len(),
{
    if reports.len() == 0 {
        handoff
    } else {
        handoff_advanced(handoff_advanced_all(handoff, reports.drop_last()), reports.last())
    }
}

/// The operation that is due in a phase.
pub open spec fn handoff_action_in(phase: HandoffPhase) -> HandoffAction {
    match phase {
        HandoffPhase::Suspending => HandoffAction::SuspendTerminal,
        HandoffPhase::Clearing => HandoffAction::ClearScreen,
        HandoffPhase::Launching => HandoffAction::LaunchPayload,
        HandoffPhase::Resuming { .. } => HandoffAction::ResumeTerminal,
        HandoffPhase::Finished(_) => HandoffAction::Finish,
    }
}

/// The invariant of a handoff: resuming is owed exactly between leaving
/// the raw mode and entering it again.
pub open spec fn handoff_consistent(handoff: Handoff) -> bool {
    handoff.resume_owed == (handoff.phase is Clearing || handoff.phase is Launching
        || handoff.phase is Resuming)
}

/// Whatever is reported, a handoff that is finished owes no resume: once
/// the raw mode was left, entering it again was asked for before the
/// handoff ended.
pub proof fn finished_owes_no_resume(reports: Seq<HandoffReport>)
    ensures
        handoff_consistent(handoff_advanced_all(handoff_started(), reports)),
        handoff_advanced_all(handoff_started(), reports).phase is Finished
            ==> !handoff_advanced_all(handoff_started(), reports).resume_owed,
    decreases reports.len(),
{
    if reports.len() > 0 {
        finished_owes_no_resume(reports.drop_last());
    }
}

/// The operations come in order: leave the raw mode, clear the screen, run
/// the payload, enter the raw mode again; and with every terminal operation
/// succeeding the handoff's result is that of the launch.
pub proof fn handoff_order(launched: Result<Launched, LaunchFailure>)
    ensures
        ({
            let suspended = handoff_advanced(handoff_started(), HandoffReport::Done);
            let cleared = handoff_advanced(suspended, HandoffReport::Done);
            let ran = handoff_advanced(cleared, HandoffReport::Launched(launched));
            let resumed = handoff_advanced(ran, HandoffReport::Done);
            &&& handoff_action_in(handoff_started().phase) == HandoffAction::SuspendTerminal
            &&& handoff_action_in(suspended.phase) == HandoffAction::ClearScreen
            &&& handoff_action_in(cleared.phase) == HandoffAction::LaunchPayload
            &&& handoff_action_in(ran.phase) == HandoffAction::ResumeTerminal
            &&& handoff_action_in(resumed.phase) == HandoffAction::Finish
            &&& resumed.phase == HandoffPhase::Finished(
                launch_result(HandoffReport::Launched(launched)),
            )
        }),
{
}

impl Handoff {
    /// Begins a handoff.
    pub fn start() -> (handoff: Handoff)
        ensures
            handoff == handoff_started(),
    {
        Handoff { phase: HandoffPhase::Suspending, resume_owed: false }
    }

    /// The operation that is due.
    pub fn action(&self) -> (action: HandoffAction)
        ensures
            action == handoff_action_in(self.phase),
    {
        match &self.phase {
            HandoffPhase::Suspending => HandoffAction::SuspendTerminal,
            HandoffPhase::Clearing => HandoffAction::ClearScreen,
            HandoffPhase::Launching => HandoffAction::LaunchPayload,
            HandoffPhase::Resuming { .. } => HandoffAction::ResumeTerminal,
            HandoffPhase::Finished(_) => HandoffAction::Finish,
        }
    }

    /// Takes the report of the operation that was due and gives the handoff
    /// as it stands after it.
    pub fn step(self, report: HandoffReport) -> (next: Handoff)
        ensures
            next == handoff_advanced(self, report),
            handoff_consistent(self) ==> handoff_consistent(next),
    {
        let done = match &report {
            HandoffReport::Done => true,
            _ => false,
        };
        let was_owed = self.resume_owed;
        match self.phase {
            HandoffPhase::Suspending => Handoff {
                phase: if done {
                    HandoffPhase::Clearing
                } else {
                    HandoffPhase::Finished(Err(failure_from(report)))
                },
                resume_owed: done,
            },
            HandoffPhase::Clearing => Handoff {
                phase: if done {
                    HandoffPhase::Launching
                } else {
                    HandoffPhase::Resuming { result: Err(failure_from(report)) }
                },
                resume_owed: was_owed,
            },
            HandoffPhase::Launching => {
                let result = match report {
                    HandoffReport::Launched(Ok(_)) => Ok(()),
                    HandoffReport::Launched(Err(failure)) => Err(HandoffError::Launch(failure)),
                    other => Err(failure_from(other)),
                };
                Handoff { phase: HandoffPhase::Resuming { result }, resume_owed: was_owed }
            },
            HandoffPhase::Resuming { result } => Handoff {
                phase: if done {
                    HandoffPhase::Finished(result)
                } else {
                    HandoffPhase::Finished(Err(failure_from(report)))
                },
                resume_owed: false,
            },
            HandoffPhase::Finished(result) => Handoff {
                phase: HandoffPhase::Finished(result),
                resume_owed: was_owed,
            },
        }
    }

    /// The result of the handoff, once it is finished.
    pub fn outcome(self) -> (outcome: Option<Result<(), HandoffError>>)
        ensures
            outcome == (match self.phase {
                HandoffPhase::Finished(result) => Some(result),
                _ => None,
            }),
    {
        match self.phase {
            HandoffPhase::Finished(result) => Some(result),
            _ => None,
        }
    }
}

/// The failure that a report other than the awaited one stands for.
fn failure_from(report: HandoffReport) -> (error: HandoffError)
    ensures
        error == report_failure(report),
{
    match report {
        HandoffReport::Failed(text) => HandoffError::Terminal(text),
        _ => HandoffError::OutOfTurn,
    }
}

/// The text recorded in a panel for a handoff that failed: the terminal's
/// own text for its failure, a fixed text for a report out of turn, and for
/// a failed launch its description.
pub open spec fn handoff_error_text(error: HandoffError) -> Seq<char> {
    match error {
        HandoffError::Terminal(text) => text@,
        HandoffError::OutOfTurn => "Handoff report out of turn"@,
        HandoffError::Launch(failure) => handoff_description(failure),
    }
}

/// What is recorded in a panel for a handoff: its success, or the text of
/// its failure.
pub fn handoff_outcome(result: Result<(), HandoffError>) -> (outcome: Result<(), String>)
    ensures
        result is Ok <==> outcome is Ok,
        result matches Err(error) ==> outcome matches Err(text) && text@ == handoff_error_text(
            error,
        ),
{
    match result {
        Ok(_) => Ok(()),
        Err(HandoffError::Terminal(text)) => Err(text),
        Err(HandoffError::OutOfTurn) => Err(String::from_str("Handoff report out of turn")),
        Err(HandoffError::Launch(failure)) => Err(describe_handoff_failure(&failure)),
    }
}

} // verus!
