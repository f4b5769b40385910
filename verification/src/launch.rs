//! The decisions of a payload launch.
//!
//! A launch first tries to execute the payload from an anonymous in-memory
//! region and, where that is unavailable or cannot be set up, from a
//! transient executable file that is removed again whatever happens. A
//! payload that ran and failed is not run again. The operations
//! themselves (system calls, file and process handling) belong to the
//! caller: [`Launch`] says which operation is due, takes the report of how
//! it went, and says which one is due next, until the launch is finished.

use vstd::prelude::*;

verus! {

/// How the payload is run.
#[derive(Clone, Copy, Debug, PartialEq, Eq, Structural)]
pub enum LaunchMode {
    /// Output is piped and decoded as text.
    Captured,
    /// The payload gets the terminal; only its exit status counts.
    Handoff,
}

/// The two ways of executing the payload.
#[derive(Clone, Copy, Debug, PartialEq, Eq, Structural)]
pub enum Strategy {
    /// From an anonymous in-memory region.
    Anonymous,
    /// From a transient executable file.
    TempFile,
}

/// Why an attempt to run the payload failed. The numbers of the file and
/// spawn errors are the operating system's error numbers; that of
/// `ChildExitedNonZero` is the payload's exit code.
#[derive(Clone, Copy, Debug, PartialEq, Eq, Structural)]
pub enum LaunchError {
    AnonymousExecUnavailable,
    AnonymousExecWriteFailed,
    TempFileCreateFailed(i32),
    TempFileWriteFailed(i32),
    TempFilePermissionFailed(i32),
    ChildSpawnFailed(i32),
    ChildExitedNonZero(i32),
    OutputDecodeFailed,
}

/// One attempt that failed: the kind of failure and, where the payload ran
/// and left one, its own diagnostic.
#[derive(Clone, Debug, PartialEq, Eq)]
pub struct AttemptFailure {
    pub error: LaunchError,
    pub own: Option<String>,
}

/// A launch that failed: why the anonymous attempt failed and, where the
/// transient file was tried after it, why that attempt failed. `fallback`
/// is `None` where the transient file was not tried: the payload ran from
/// the anonymous region and failed, or no fallback was allowed.
#[derive(Clone, Debug, PartialEq, Eq)]
pub struct LaunchFailure {
    pub anonymous: AttemptFailure,
    pub fallback: Option<AttemptFailure>,
}

/// A launch that succeeded: the strategy that ran the payload, and the text
/// it printed where output was captured (empty where it was not).
#[derive(Clone, Debug, PartialEq, Eq)]
pub struct Launched {
    pub strategy: Strategy,
    pub text: String,
}

/// What the caller reports of the operation that was due.
#[derive(Debug, PartialEq, Eq)]
pub enum Report {
    /// The operation succeeded.
    Done,
    /// The platform does not offer the operation.
    Unsupported,
    /// The operation failed with this error number.
    Failed(i32),
    /// The write transferred this many bytes.
    Wrote(usize),
    /// The payload ran to its end, with this result: the text it printed,
    /// or its failure.
    Child(Result<String, AttemptFailure>),
}

/// The operation that is due.
#[derive(Clone, Copy, Debug, PartialEq, Eq, Structural)]
pub enum Action {
    /// Create the anonymous region, closed on exec.
    OpenAnonymous,
    /// Write the whole payload into the anonymous region, in one write.
    WriteAnonymous,
    /// Run the payload from the anonymous region and wait for it.
    RunAnonymous(LaunchMode),
    /// Close the anonymous region.
    CloseAnonymous,
    /// Create the transient file.
    CreateTemp,
    /// Write the payload from this offset on to the transient file.
    WriteTemp(usize),
    /// Flush the transient file to disk.
    SyncTemp,
    /// Make the transient file executable.
    PermitTemp,
    /// Run the transient file and wait for it.
    RunTemp(LaunchMode),
    /// Remove the transient file.
    RemoveTemp,
    /// Nothing more: the launch has ended.
    Finish,
}

/// Where a launch stands. `cause` is why the anonymous attempt failed;
/// `ran` tells that the payload itself ran from the anonymous region.
#[derive(Debug, PartialEq, Eq)]
pub enum Phase {
    OpeningAnonymous,
    WritingAnonymous,
    RunningAnonymous,
    ClosingAnonymous { result: Result<String, AttemptFailure>, ran: bool },
    CreatingTemp { cause: AttemptFailure },
    WritingTemp { cause: AttemptFailure, written: usize },
    SyncingTemp { cause: AttemptFailure },
    PermittingTemp { cause: AttemptFailure },
    RunningTemp { cause: AttemptFailure },
    RemovingTemp { cause: AttemptFailure, result: Result<String, AttemptFailure> },
    Finished(Result<Launched, LaunchFailure>),
}

/// One launch of a payload of `payload_len` bytes. `fallback` tells whether
/// the transient file may be tried where the anonymous strategy cannot be
/// set up. `removal_owed` records that a transient file was created and its
/// removal was not yet asked for.
#[derive(Debug, PartialEq, Eq)]
pub struct Launch {
    pub mode: LaunchMode,
    pub payload_len: usize,
    pub fallback: bool,
    pub phase: Phase,
    pub removal_owed: bool,
}

/// The error number that a report carries; zero for a report that carries
/// none.
pub open spec fn error_number(report: Report) -> i32 {
    match report {
        Report::Failed(number) => number,
        _ => 0,
    }
}

/// A failure of the given kind on which the payload had no say.
pub open spec fn plain(error: LaunchError) -> AttemptFailure {
    AttemptFailure { error, own: None }
}

/// A launch that failed on the anonymous strategy with no attempt on the
/// transient file.
pub open spec fn without_fallback(cause: AttemptFailure) -> LaunchFailure {
    LaunchFailure { anonymous: cause, fallback: None }
}

/// Where a launch goes once the anonymous strategy could not be set up for
/// the given cause: to the transient file where the fallback is allowed,
/// else to its end.
pub open spec fn recovered(fallback: bool, cause: AttemptFailure) -> Phase {
    if fallback {
        Phase::CreatingTemp { cause }
    } else {
        Phase::Finished(Err(without_fallback(cause)))
    }
}

/// The launch as it starts: with the anonymous strategy where it is to be
/// tried; else with the transient file at once where that is allowed; and
/// where neither is, the launch is over, for want of anonymous execution.
pub open spec fn started_with(
    mode: LaunchMode,
    payload_len: usize,
    anonymous: bool,
    fallback: bool,
) -> Launch {
    Launch {
        mode,
        payload_len,
        fallback,
        phase: if anonymous {
            Phase::OpeningAnonymous
        } else {
            recovered(fallback, plain(LaunchError::AnonymousExecUnavailable))
        },
        removal_owed: false,
    }
}

/// The launch as it starts with the fallback allowed: with the anonymous
/// strategy where the platform has it, else with the transient file at
/// once.
pub open spec fn started(mode: LaunchMode, payload_len: usize, anonymous_supported: bool) -> Launch {
    started_with(mode, payload_len, anonymous_supported, true)
}

/// How a launch ends once the transient-file attempt has the given result.
pub open spec fn fallback_outcome(
    cause: AttemptFailure,
    result: Result<String, AttemptFailure>,
) -> Result<Launched, LaunchFailure> {
    match result {
        Ok(text) => Ok(Launched { strategy: Strategy::TempFile, text }),
        Err(failure) => Err(LaunchFailure { anonymous: cause, fallback: Some(failure) }),
    }
}

/// How a launch goes on once the anonymous region is closed. A payload that
/// ran ends the launch, with its text or with its failure alone: it is not
/// run again. Where it did not run, the launch recovers.
pub open spec fn after_close(
    fallback: bool,
    result: Result<String, AttemptFailure>,
    ran: bool,
) -> Phase {
    match result {
        Ok(text) => Phase::Finished(Ok(Launched { strategy: Strategy::Anonymous, text })),
        Err(cause) => if ran {
            Phase::Finished(Err(without_fallback(cause)))
        } else {
            recovered(fallback, cause)
        },
    }
}

/// The phase after a write to the transient file that brought the number of
/// bytes written to `written`.
pub open spec fn after_temp_write(
    cause: AttemptFailure,
    written: usize,
    payload_len: usize,
) -> Phase {
    if written >= payload_len {
        Phase::SyncingTemp { cause }
    } else {
        Phase::WritingTemp { cause, written }
    }
}

/// The phase that follows `launch.phase` on `report`.
///
/// Where the anonymous strategy cannot be set up (the region cannot be
/// opened or written in full, or the payload cannot be started from it),
/// the launch goes on, after the region is closed where it was open, to the
/// transient file if the fallback is allowed. A payload that ran from the
/// region and failed ends the launch once the region is closed. A short
/// write into the region counts as a failure; a short write to the file is
/// continued from where
/// it stopped, and one that transfers nothing, or more than was left,
/// counts as a failure. After the file was created every path leads through
/// its removal, and what the removal reports changes nothing.
pub open spec fn next_phase(launch: Launch, report: Report) -> Phase {
    let number = error_number(report);
    match launch.phase {
        Phase::OpeningAnonymous => match report {
            Report::Done => Phase::WritingAnonymous,
            _ => recovered(launch.fallback, plain(LaunchError::AnonymousExecUnavailable)),
        },
        Phase::WritingAnonymous => if report == Report::Wrote(launch.payload_len) {
            Phase::RunningAnonymous
        } else {
            Phase::ClosingAnonymous {
                result: Err(plain(LaunchError::AnonymousExecWriteFailed)),
                ran: false,
            }
        },
        Phase::RunningAnonymous => match report {
            Report::Child(result) => Phase::ClosingAnonymous { result, ran: true },
            _ => Phase::ClosingAnonymous {
                result: Err(plain(LaunchError::ChildSpawnFailed(number))),
                ran: false,
            },
        },
        Phase::ClosingAnonymous { result, ran } => after_close(launch.fallback, result, ran),
        Phase::CreatingTemp { cause } => match report {
            Report::Done => after_temp_write(cause, 0, launch.payload_len),
            _ => Phase::Finished(
                Err(
                    LaunchFailure {
                        anonymous: cause,
                        fallback: Some(plain(LaunchError::TempFileCreateFailed(number))),
                    },
                ),
            ),
        },
        Phase::WritingTemp { cause, written } => match report {
            Report::Wrote(count) => if 0 < count && count <= launch.payload_len - written {
                after_temp_write(cause, (written + count) as usize, launch.payload_len)
            } else {
                Phase::RemovingTemp {
                    cause,
                    result: Err(plain(LaunchError::TempFileWriteFailed(0))),
                }
            },
            _ => Phase::RemovingTemp {
                cause,
                result: Err(plain(LaunchError::TempFileWriteFailed(number))),
            },
        },
        Phase::SyncingTemp { cause } => match report {
            Report::Done => Phase::PermittingTemp { cause },
            _ => Phase::RemovingTemp {
                cause,
                result: Err(plain(LaunchError::TempFileWriteFailed(number))),
            },
        },
        Phase::PermittingTemp { cause } => match report {
            Report::Done => Phase::RunningTemp { cause },
            _ => Phase::RemovingTemp {
                cause,
                result: Err(plain(LaunchError::TempFilePermissionFailed(number))),
            },
        },
        Phase::RunningTemp { cause } => match report {
            Report::Child(result) => Phase::RemovingTemp { cause, result },
            _ => Phase::RemovingTemp {
                cause,
                result: Err(plain(LaunchError::ChildSpawnFailed(number))),
            },
        },
        Phase::RemovingTemp { cause, result } => Phase::Finished(fallback_outcome(cause, result)),
        Phase::Finished(outcome) => Phase::Finished(outcome),
    }
}

/// Whether removal is owed after `report`: it becomes owed when the file
/// was created, and stops being owed when the removal was asked for.
pub open spec fn next_removal_owed(launch: Launch, report: Report) -> bool {
    match launch.phase {
        Phase::CreatingTemp { .. } => report == Report::Done,
        Phase::RemovingTemp { .. } => false,
        _ => launch.removal_owed,
    }
}

/// The launch after `report`.
pub open spec fn advanced(launch: Launch, report: Report) -> Launch {
    Launch {
        phase: next_phase(launch, report),
        removal_owed: next_removal_owed(launch, report),
        ..launch
    }
}

/// The launch after each of `reports` in turn.
pub open spec fn advanced_all(launch: Launch, reports: Seq<Report>) -> Launch
    decreases reports.len(),
{
    if reports.len() == 0 {
        launch
    } else {
        advanced(advanced_all(launch, reports.drop_last()), reports.last())
    }
}

/// The operation that is due in a phase.
pub open spec fn action_in(launch: Launch) -> Action {
    match launch.phase {
        Phase::OpeningAnonymous => Action::OpenAnonymous,
        Phase::WritingAnonymous => Action::WriteAnonymous,
        Phase::RunningAnonymous => Action::RunAnonymous(launch.mode),
        Phase::ClosingAnonymous { .. } => Action::CloseAnonymous,
        Phase::CreatingTemp { .. } => Action::CreateTemp,
        Phase::WritingTemp { written, .. } => Action::WriteTemp(written),
        Phase::SyncingTemp { .. } => Action::SyncTemp,
        Phase::PermittingTemp { .. } => Action::PermitTemp,
        Phase::RunningTemp { .. } => Action::RunTemp(launch.mode),
        Phase::RemovingTemp { .. } => Action::RemoveTemp,
        Phase::Finished(_) => Action::Finish,
    }
}

/// Whether the launch is in a phase of the anonymous strategy, or at its
/// end without the transient file having been tried.
pub open spec fn in_anonymous(phase: Phase) -> bool {
    ||| phase is OpeningAnonymous
    ||| phase is WritingAnonymous
    ||| phase is RunningAnonymous
    ||| phase is ClosingAnonymous
    ||| phase matches Phase::Finished(Ok(launched)) && launched.strategy == Strategy::Anonymous
    ||| phase matches Phase::Finished(Err(failure)) && failure.fallback is None
}

/// Whether the transient file exists in this phase.
pub open spec fn holds_file(phase: Phase) -> bool {
    phase is WritingTemp || phase is SyncingTemp || phase is PermittingTemp || phase is RunningTemp
        || phase is RemovingTemp
}

/// The invariant of a launch: removal is owed exactly in the phases between
/// the creation of the transient file and its removal, and the offset of a
/// write that is due lies inside the payload.
pub open spec fn consistent(launch: Launch) -> bool {
    &&& launch.removal_owed == holds_file(launch.phase)
    &&& launch.phase matches Phase::WritingTemp { written, .. } ==> written < launch.payload_len
}

/// How many reports a launch can still take before it is finished, at
/// most.
pub open spec fn steps_left(launch: Launch) -> nat {
    match launch.phase {
        Phase::OpeningAnonymous => (launch.payload_len + 10) as nat,
        Phase::WritingAnonymous => (launch.payload_len + 9) as nat,
        Phase::RunningAnonymous => (launch.payload_len + 8) as nat,
        Phase::ClosingAnonymous { .. } => (launch.payload_len + 7) as nat,
        Phase::CreatingTemp { .. } => (launch.payload_len + 6) as nat,
        Phase::WritingTemp { written, .. } => (launch.payload_len - written + 5) as nat,
        Phase::SyncingTemp { .. } => 4,
        Phase::PermittingTemp { .. } => 3,
        Phase::RunningTemp { .. } => 2,
        Phase::RemovingTemp { .. } => 1,
        Phase::Finished(_) => 0,
    }
}

/// Every report keeps the invariant of a launch.
pub proof fn step_keeps_consistent(launch: Launch, report: Report)
    requires
        consistent(launch),
    ensures
        consistent(advanced(launch, report)),
{
}

/// Every run of reports from the start keeps the invariant. So a launch
/// that is finished owes no removal: where a transient file was created,
/// its removal was asked for before the launch ended, on success and on
/// every failure.
pub proof fn finished_owes_no_removal(
    mode: LaunchMode,
    payload_len: usize,
    anonymous: bool,
    fallback: bool,
    reports: Seq<Report>,
)
    ensures
        consistent(advanced_all(started_with(mode, payload_len, anonymous, fallback), reports)),
        advanced_all(started_with(mode, payload_len, anonymous, fallback), reports).phase
            is Finished ==> !advanced_all(
            started_with(mode, payload_len, anonymous, fallback),
            reports,
        ).removal_owed,
    decreases reports.len(),
{
    let first = started_with(mode, payload_len, anonymous, fallback);
    if reports.len() > 0 {
        finished_owes_no_removal(mode, payload_len, anonymous, fallback, reports.drop_last());
        step_keeps_consistent(advanced_all(first, reports.drop_last()), reports.last());
    }
}

/// While the transient file exists, the launch does not finish on any
/// report but the one of its removal.
pub proof fn file_is_removed_before_finish(launch: Launch, report: Report)
    requires
        holds_file(launch.phase),
        advanced(launch, report).phase is Finished,
    ensures
        launch.phase is RemovingTemp,
        action_in(launch) == Action::RemoveTemp,
{
}

/// Where the anonymous strategy cannot be set up and the fallback is
/// allowed, the transient file is tried next: a failed or unsupported
/// opening leads there at once; a short or failed write, and a payload that
/// could not be started, lead there once the region is closed; and the
/// failure is kept as the cause.
pub proof fn anonymous_failure_falls_back(launch: Launch, report: Report, closed: Report)
    requires
        launch.fallback,
    ensures
        launch.phase is OpeningAnonymous && report != Report::Done ==> advanced(
            launch,
            report,
        ).phase == (Phase::CreatingTemp { cause: plain(LaunchError::AnonymousExecUnavailable) }),
        launch.phase is WritingAnonymous && report != Report::Wrote(launch.payload_len) ==> advanced(
            advanced(launch, report),
            closed,
        ).phase == (Phase::CreatingTemp { cause: plain(LaunchError::AnonymousExecWriteFailed) }),
        launch.phase is RunningAnonymous && !(report is Child) ==> advanced(
            advanced(launch, report),
            closed,
        ).phase == (Phase::CreatingTemp {
            cause: plain(LaunchError::ChildSpawnFailed(error_number(report))),
        }),
        advanced(launch, report).phase is CreatingTemp ==> action_in(advanced(launch, report))
            == Action::CreateTemp,
{
}

/// A payload that ran from the anonymous region and failed ends the launch
/// once the region is closed, whether or not the fallback is allowed: the
/// launch fails with the payload's failure alone, and the transient file is
/// not created.
pub proof fn anonymous_child_failure_is_fatal(
    launch: Launch,
    failure: AttemptFailure,
    closed: Report,
)
    requires
        launch.phase is RunningAnonymous,
    ensures
        action_in(advanced(launch, Report::Child(Err(failure)))) == Action::CloseAnonymous,
        advanced(advanced(launch, Report::Child(Err(failure))), closed).phase == Phase::Finished(
            Err(without_fallback(failure)),
        ),
        action_in(advanced(advanced(launch, Report::Child(Err(failure))), closed))
            == Action::Finish,
{
}

/// Whether the payload has run to its end in this launch, or the launch is
/// past the point of running it.
pub open spec fn past_run(phase: Phase) -> bool {
    ||| phase matches Phase::ClosingAnonymous { ran: true, .. }
    ||| phase is RemovingTemp
    ||| phase is Finished
}

/// The payload runs at most once: after a report that it ran to its end,
/// with whatever result, no further report brings a run of it up again.
pub proof fn payload_runs_once(
    launch: Launch,
    result: Result<String, AttemptFailure>,
    reports: Seq<Report>,
)
    requires
        launch.phase is RunningAnonymous || launch.phase is RunningTemp,
    ensures
        past_run(advanced_all(advanced(launch, Report::Child(result)), reports).phase),
        !(action_in(advanced_all(advanced(launch, Report::Child(result)), reports))
            is RunAnonymous),
        !(action_in(advanced_all(advanced(launch, Report::Child(result)), reports)) is RunTemp),
    decreases reports.len(),
{
    if reports.len() > 0 {
        payload_runs_once(launch, result, reports.drop_last());
    }
}

/// Where no fallback is allowed, the transient file is never created:
/// whatever is reported, from the start on, its creation never comes due.
pub proof fn no_fallback_creates_no_file(
    mode: LaunchMode,
    payload_len: usize,
    anonymous: bool,
    reports: Seq<Report>,
)
    ensures
        in_anonymous(advanced_all(started_with(mode, payload_len, anonymous, false), reports).phase),
        action_in(advanced_all(started_with(mode, payload_len, anonymous, false), reports))
            != Action::CreateTemp,
        !advanced_all(started_with(mode, payload_len, anonymous, false), reports).fallback,
    decreases reports.len(),
{
    if reports.len() > 0 {
        no_fallback_creates_no_file(mode, payload_len, anonymous, reports.drop_last());
    }
}

/// Once the payload ran from the transient file, the launch ends with that
/// attempt's result, unchanged: the text it printed as the text of the
/// launch, a failure as the fallback's failure beside the cause of the
/// fallback. No report of the removal changes it.
pub proof fn fallback_result_is_returned(
    launch: Launch,
    result: Result<String, AttemptFailure>,
    removal: Report,
)
    requires
        launch.phase is RunningTemp,
    ensures
        advanced(advanced(launch, Report::Child(result)), removal).phase == Phase::Finished(
            fallback_outcome(launch.phase->RunningTemp_cause, result),
        ),
        action_in(advanced(launch, Report::Child(result))) == Action::RemoveTemp,
{
}

/// A launch whose anonymous strategy is unavailable, and whose transient
/// file is created, written in one piece (where there is anything to
/// write), flushed and made executable, ends with the result of running
/// that file.
pub proof fn forced_fallback_run(
    mode: LaunchMode,
    payload_len: usize,
    unavailable: Report,
    result: Result<String, AttemptFailure>,
    removal: Report,
)
    requires
        unavailable != Report::Done,
    ensures
        ({
            let opened = advanced(started(mode, payload_len, true), unavailable);
            let created = advanced(opened, Report::Done);
            let written = if payload_len > 0 {
                advanced(created, Report::Wrote(payload_len))
            } else {
                created
            };
            let synced = advanced(written, Report::Done);
            let permitted = advanced(synced, Report::Done);
            let ran = advanced(permitted, Report::Child(result));
            let removed = advanced(ran, removal);
            &&& action_in(opened) == Action::CreateTemp
            &&& payload_len > 0 ==> action_in(created) == Action::WriteTemp(0)
            &&& action_in(written) == Action::SyncTemp
            &&& action_in(permitted) == Action::RunTemp(mode)
            &&& action_in(ran) == Action::RemoveTemp
            &&& action_in(removed) == Action::Finish
            &&& removed.phase == Phase::Finished(
                fallback_outcome(plain(LaunchError::AnonymousExecUnavailable), result),
            )
        }),
{
}

/// Every report brings an unfinished launch closer to its end, so a launch
/// takes at most `payload_len + 10` reports.
pub proof fn step_makes_progress(launch: Launch, report: Report)
    requires
        consistent(launch),
        !(launch.phase is Finished),
    ensures
        steps_left(advanced(launch, report)) < steps_left(launch),
{
}

impl Launch {
    /// Begins a launch with the fallback allowed.
    pub fn start(mode: LaunchMode, payload_len: usize, anonymous_supported: bool) -> (launch:
        Launch)
        ensures
            launch == started(mode, payload_len, anonymous_supported),
            consistent(launch),
    {
        Launch::start_with(mode, payload_len, anonymous_supported, true)
    }

    /// Begins a launch that tries the anonymous strategy where `anonymous`
    /// says so, and the transient file after it where `fallback` allows it.
    pub fn start_with(mode: LaunchMode, payload_len: usize, anonymous: bool, fallback: bool) -> (launch:
        Launch)
        ensures
            launch == started_with(mode, payload_len, anonymous, fallback),
            consistent(launch),
    {
        Launch {
            mode,
            payload_len,
            fallback,
            phase: if anonymous {
                Phase::OpeningAnonymous
            } else {
                recover(fallback, failure_of(LaunchError::AnonymousExecUnavailable))
            },
            removal_owed: false,
        }
    }

    /// The operation that is due.
    pub fn action(&self) -> (action: Action)
        ensures
            action == action_in(*self),
    {
        match &self.phase {
            Phase::OpeningAnonymous => Action::OpenAnonymous,
            Phase::WritingAnonymous => Action::WriteAnonymous,
            Phase::RunningAnonymous => Action::RunAnonymous(self.mode),
            Phase::ClosingAnonymous { .. } => Action::CloseAnonymous,
            Phase::CreatingTemp { .. } => Action::CreateTemp,
            Phase::WritingTemp { written, .. } => Action::WriteTemp(*written),
            Phase::SyncingTemp { .. } => Action::SyncTemp,
            Phase::PermittingTemp { .. } => Action::PermitTemp,
            Phase::RunningTemp { .. } => Action::RunTemp(self.mode),
            Phase::RemovingTemp { .. } => Action::RemoveTemp,
            Phase::Finished(_) => Action::Finish,
        }
    }

    /// Takes the report of the operation that was due and gives the launch
    /// as it stands after it.
    pub fn step(self, report: Report) -> (next: Launch)
        ensures
            next == advanced(self, report),
            consistent(self) ==> consistent(next),
    {
        let number: i32 = match &report {
            Report::Failed(number) => *number,
            _ => 0,
        };
        let mode = self.mode;
        let payload_len = self.payload_len;
        let fallback = self.fallback;
        let was_owed = self.removal_owed;
        let (phase, owed): (Phase, bool) = match self.phase {
            Phase::OpeningAnonymous => match report {
                Report::Done => (Phase::WritingAnonymous, was_owed),
                _ => (
                    recover(fallback, failure_of(LaunchError::AnonymousExecUnavailable)),
                    was_owed,
                ),
            },
            Phase::WritingAnonymous => {
                let complete = match report {
                    Report::Wrote(count) => count == payload_len,
                    _ => false,
                };
                if complete {
                    (Phase::RunningAnonymous, was_owed)
                } else {
                    (
                        Phase::ClosingAnonymous {
                            result: Err(failure_of(LaunchError::AnonymousExecWriteFailed)),
                            ran: false,
                        },
                        was_owed,
                    )
                }
            },
            Phase::RunningAnonymous => match report {
                Report::Child(result) => (
                    Phase::ClosingAnonymous { result, ran: true },
                    was_owed,
                ),
                _ => (
                    Phase::ClosingAnonymous {
                        result: Err(failure_of(LaunchError::ChildSpawnFailed(number))),
                        ran: false,
                    },
                    was_owed,
                ),
            },
            Phase::ClosingAnonymous { result, ran } => match result {
                Ok(text) => (
                    Phase::Finished(Ok(Launched { strategy: Strategy::Anonymous, text })),
                    was_owed,
                ),
                Err(cause) => if ran {
                    (
                        Phase::Finished(Err(LaunchFailure { anonymous: cause, fallback: None })),
                        was_owed,
                    )
                } else {
                    (recover(fallback, cause), was_owed)
                },
            },
            Phase::CreatingTemp { cause } => match report {
                Report::Done => (write_target(cause, 0, payload_len), true),
                _ => (
                    Phase::Finished(
                        Err(
                            LaunchFailure {
                                anonymous: cause,
                                fallback: Some(
                                    failure_of(LaunchError::TempFileCreateFailed(number)),
                                ),
                            },
                        ),
                    ),
                    false,
                ),
            },
            Phase::WritingTemp { cause, written } => match report {
                Report::Wrote(count) => {
                    if written <= payload_len && 0 < count && count <= payload_len - written {
                        (write_target(cause, written + count, payload_len), was_owed)
                    } else {
                        (
                            Phase::RemovingTemp {
                                cause,
                                result: Err(failure_of(LaunchError::TempFileWriteFailed(0))),
                            },
                            was_owed,
                        )
                    }
                },
                _ => (
                    Phase::RemovingTemp {
                        cause,
                        result: Err(failure_of(LaunchError::TempFileWriteFailed(number))),
                    },
                    was_owed,
                ),
            },
            Phase::SyncingTemp { cause } => match report {
                Report::Done => (Phase::PermittingTemp { cause }, was_owed),
                _ => (
                    Phase::RemovingTemp {
                        cause,
                        result: Err(failure_of(LaunchError::TempFileWriteFailed(number))),
                    },
                    was_owed,
                ),
            },
            Phase::PermittingTemp { cause } => match report {
                Report::Done => (Phase::RunningTemp { cause }, was_owed),
                _ => (
                    Phase::RemovingTemp {
                        cause,
                        result: Err(failure_of(LaunchError::TempFilePermissionFailed(number))),
                    },
                    was_owed,
                ),
            },
            Phase::RunningTemp { cause } => match report {
                Report::Child(result) => (Phase::RemovingTemp { cause, result }, was_owed),
                _ => (
                    Phase::RemovingTemp {
                        cause,
                        result: Err(failure_of(LaunchError::ChildSpawnFailed(number))),
                    },
                    was_owed,
                ),
            },
            Phase::RemovingTemp { cause, result } => (
                Phase::Finished(
                    match result {
                        Ok(text) => Ok(Launched { strategy: Strategy::TempFile, text }),
                        Err(failure) => Err(
                            LaunchFailure { anonymous: cause, fallback: Some(failure) },
                        ),
                    },
                ),
                false,
            ),
            Phase::Finished(outcome) => (Phase::Finished(outcome), was_owed),
        };
        Launch { mode, payload_len, fallback, phase, removal_owed: owed }
    }

    /// The result of the launch, once it is finished.
    pub fn outcome(self) -> (outcome: Option<Result<Launched, LaunchFailure>>)
        ensures
            outcome == (match self.phase {
                Phase::Finished(result) => Some(result),
                _ => None,
            }),
    {
        match self.phase {
            Phase::Finished(result) => Some(result),
            _ => None,
        }
    }
}

/// A failure of the given kind on which the payload had no say.
pub fn failure_of(error: LaunchError) -> (failure: AttemptFailure)
    ensures
        failure == plain(error),
{
    AttemptFailure { error, own: None }
}

/// Where a launch goes once the anonymous strategy could not be set up.
fn recover(fallback: bool, cause: AttemptFailure) -> (phase: Phase)
    ensures
        phase == recovered(fallback, cause),
{
    if fallback {
        Phase::CreatingTemp { cause }
    } else {
        Phase::Finished(Err(LaunchFailure { anonymous: cause, fallback: None }))
    }
}

/// The phase after a write to the transient file that brought the number of
/// bytes written to `written`.
fn write_target(cause: AttemptFailure, written: usize, payload_len: usize) -> (phase: Phase)
    ensures
        phase == after_temp_write(cause, written, payload_len),
{
    if written >= payload_len {
        Phase::SyncingTemp { cause }
    } else {
        Phase::WritingTemp { cause, written }
    }
}

} // verus!
