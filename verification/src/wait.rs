//! The submit-and-wait lifecycle as a state machine.
//!
//! The machine never acts. It is told what happened and answers with what
//! to do next; whoever drives it submits, reads the clock, polls, sleeps
//! and fetches. One action is outstanding at a time.

use vstd::prelude::*;
use vstd::string::*;
use crate::error::DuneError;
use crate::span::TimeSpan;
use crate::types::{ExecuteResponse, ExecutionResultsResponse, ExecutionState, ExecutionStatusResponse};

verus! {

/// The seconds to sleep between two polls.
pub const POLL_INTERVAL_SECS: u64 = 1;

/// What a run submits.
#[derive(Clone, Debug, PartialEq, Eq)]
pub enum Submission {
    Sql(String),
    Query(u64),
}

/// What the machine is waiting to be told.
#[derive(Clone, Copy, Debug, PartialEq, Eq, Structural)]
pub enum WaitPhase {
    /// The submission is under way.
    Submitting,
    /// The clock is being started.
    StartingClock,
    /// The clock is being read.
    CheckingClock,
    /// A status poll is under way.
    AwaitingStatus,
    /// The pause between two polls.
    Sleeping,
    /// The results are being fetched.
    AwaitingResults,
    /// The outcome has been given.
    Finished,
}

/// What the driver reports.
#[derive(Debug, PartialEq)]
pub enum WaitEvent {
    /// The submission was answered.
    Submitted(Result<ExecuteResponse, DuneError>),
    /// The clock runs from now.
    ClockStarted,
    /// The time that has passed since the clock was started.
    Elapsed(TimeSpan),
    /// The status poll was answered.
    Status(Result<ExecutionStatusResponse, DuneError>),
    /// The pause is over.
    Woke,
    /// The fetch of the results was answered.
    Results(Result<ExecutionResultsResponse, DuneError>),
}

/// What the driver is to do next.
#[derive(Debug, PartialEq)]
pub enum WaitAction {
    /// Submit, and report `Submitted`.
    Submit(Submission),
    /// Start the clock, and report `ClockStarted`.
    StartClock,
    /// Read the clock, and report `Elapsed`.
    ReadClock,
    /// Ask for the status of this execution, and report `Status`.
    PollStatus(String),
    /// Pause for this long, and report `Woke`.
    Sleep(TimeSpan),
    /// Fetch the results of this execution, and report `Results`.
    FetchResults(String),
    /// Stop: this is the outcome.
    Finish(Result<ExecutionResultsResponse, DuneError>),
}

/// The state of one wait.
#[derive(Clone, Debug, PartialEq, Eq)]
pub struct WaitMachine {
    pub phase: WaitPhase,
    pub execution_id: String,
    pub timeout: TimeSpan,
}

/// The machine in another phase.
pub open spec fn in_phase(m: WaitMachine, phase: WaitPhase) -> WaitMachine {
    WaitMachine { phase, execution_id: m.execution_id, timeout: m.timeout }
}

/// What a status that was observed asks for: fetch on completion, stop on
/// failure or cancellation, and pause otherwise.
pub open spec fn spec_on_status(m: WaitMachine, status: ExecutionStatusResponse) -> (
    WaitMachine,
    Option<WaitAction>,
) {
    match status.state {
        ExecutionState::Completed => (
            in_phase(m, WaitPhase::AwaitingResults),
            Some(WaitAction::FetchResults(m.execution_id)),
        ),
        ExecutionState::Failed => (
            in_phase(m, WaitPhase::Finished),
            Some(
                WaitAction::Finish(
                    Err(DuneError::ExecutionFailed { execution_id: m.execution_id, status }),
                ),
            ),
        ),
        ExecutionState::Cancelled => (
            in_phase(m, WaitPhase::Finished),
            Some(WaitAction::Finish(Err(DuneError::Cancelled))),
        ),
        ExecutionState::Pending | ExecutionState::Executing => (
            in_phase(m, WaitPhase::Sleeping),
            Some(WaitAction::Sleep(TimeSpan::spec_from_secs(POLL_INTERVAL_SECS))),
        ),
    }
}

/// The machine's one rule: from a state and a report to the next state and
/// the next action. A report that does not answer the outstanding action
/// changes nothing and asks for nothing.
pub open spec fn spec_step(m: WaitMachine, event: WaitEvent) -> (WaitMachine, Option<WaitAction>) {
    match (m.phase, event) {
        (WaitPhase::Submitting, WaitEvent::Submitted(Ok(response))) => (
            WaitMachine {
                phase: WaitPhase::StartingClock,
                execution_id: response.execution_id,
                timeout: m.timeout,
            },
            Some(WaitAction::StartClock),
        ),
        (WaitPhase::Submitting, WaitEvent::Submitted(Err(error))) => (
            in_phase(m, WaitPhase::Finished),
            Some(WaitAction::Finish(Err(error))),
        ),
        (WaitPhase::StartingClock, WaitEvent::ClockStarted) => (
            in_phase(m, WaitPhase::CheckingClock),
            Some(WaitAction::ReadClock),
        ),
        (WaitPhase::CheckingClock, WaitEvent::Elapsed(elapsed)) => if elapsed.total_nanos()
            > m.timeout.total_nanos() {
            (
                in_phase(m, WaitPhase::Finished),
                Some(
                    WaitAction::Finish(Err(DuneError::Timeout { seconds: m.timeout.spec_secs() })),
                ),
            )
        } else {
            (in_phase(m, WaitPhase::AwaitingStatus), Some(WaitAction::PollStatus(m.execution_id)))
        },
        (WaitPhase::AwaitingStatus, WaitEvent::Status(Ok(status))) => spec_on_status(m, status),
        (WaitPhase::AwaitingStatus, WaitEvent::Status(Err(error))) => (
            in_phase(m, WaitPhase::Finished),
            Some(WaitAction::Finish(Err(error))),
        ),
        (WaitPhase::Sleeping, WaitEvent::Woke) => (
            in_phase(m, WaitPhase::CheckingClock),
            Some(WaitAction::ReadClock),
        ),
        (WaitPhase::AwaitingResults, WaitEvent::Results(outcome)) => (
            in_phase(m, WaitPhase::Finished),
            Some(WaitAction::Finish(outcome)),
        ),
        _ => (m, None),
    }
}

impl WaitMachine {
    fn to_phase(self, phase: WaitPhase) -> (r: WaitMachine)
        ensures
            r == in_phase(self, phase),
    {
        WaitMachine { phase, execution_id: self.execution_id, timeout: self.timeout }
    }

    /// Whether the outcome has been given.
    pub fn is_finished(&self) -> (r: bool)
        ensures
            r == (self.phase == WaitPhase::Finished),
    {
        self.phase == WaitPhase::Finished
    }

    /// Decides what a status that was observed asks for.
    pub fn on_status(self, status: ExecutionStatusResponse) -> (r: (WaitMachine, Option<WaitAction>))
        ensures
            r == spec_on_status(self, status),
    {
        match status.state {
            ExecutionState::Completed => {
                let id = self.execution_id.clone();
                (self.to_phase(WaitPhase::AwaitingResults), Some(WaitAction::FetchResults(id)))
            },
            ExecutionState::Failed => {
                let id = self.execution_id.clone();
                (
                    self.to_phase(WaitPhase::Finished),
                    Some(
                        WaitAction::Finish(
                            Err(DuneError::ExecutionFailed { execution_id: id, status }),
                        ),
                    ),
                )
            },
            ExecutionState::Cancelled => (
                self.to_phase(WaitPhase::Finished),
                Some(WaitAction::Finish(Err(DuneError::Cancelled))),
            ),
            ExecutionState::Pending | ExecutionState::Executing => (
                self.to_phase(WaitPhase::Sleeping),
                Some(WaitAction::Sleep(TimeSpan::from_secs(POLL_INTERVAL_SECS))),
            ),
        }
    }

    /// Takes one report and gives the next state and the next action.
    pub fn step(self, event: WaitEvent) -> (r: (WaitMachine, Option<WaitAction>))
        ensures
            r == spec_step(self, event),
    {
        match self.phase {
            WaitPhase::Submitting => match event {
                WaitEvent::Submitted(Ok(response)) => (
                    WaitMachine {
                        phase: WaitPhase::StartingClock,
                        execution_id: response.execution_id,
                        timeout: self.timeout,
                    },
                    Some(WaitAction::StartClock),
                ),
                WaitEvent::Submitted(Err(error)) => (
                    self.to_phase(WaitPhase::Finished),
                    Some(WaitAction::Finish(Err(error))),
                ),
                _ => (self, None),
            },
            WaitPhase::StartingClock => match event {
                WaitEvent::ClockStarted => (
                    self.to_phase(WaitPhase::CheckingClock),
                    Some(WaitAction::ReadClock),
                ),
                _ => (self, None),
            },
            WaitPhase::CheckingClock => match event {
                WaitEvent::Elapsed(elapsed) => {
                    if elapsed.exceeds(&self.timeout) {
                        let seconds = self.timeout.as_secs();
                        (
                            self.to_phase(WaitPhase::Finished),
                            Some(WaitAction::Finish(Err(DuneError::Timeout { seconds }))),
                        )
                    } else {
                        let id = self.execution_id.clone();
                        (
                            self.to_phase(WaitPhase::AwaitingStatus),
                            Some(WaitAction::PollStatus(id)),
                        )
                    }
                },
                _ => (self, None),
            },
            WaitPhase::AwaitingStatus => match event {
                WaitEvent::Status(Ok(status)) => self.on_status(status),
                WaitEvent::Status(Err(error)) => (
                    self.to_phase(WaitPhase::Finished),
                    Some(WaitAction::Finish(Err(error))),
                ),
                _ => (self, None),
            },
            WaitPhase::Sleeping => match event {
                WaitEvent::Woke => (
                    self.to_phase(WaitPhase::CheckingClock),
                    Some(WaitAction::ReadClock),
                ),
                _ => (self, None),
            },
            WaitPhase::AwaitingResults => match event {
                WaitEvent::Results(outcome) => (
                    self.to_phase(WaitPhase::Finished),
                    Some(WaitAction::Finish(outcome)),
                ),
                _ => (self, None),
            },
            WaitPhase::Finished => (self, None),
        }
    }
}

} // verus!
