//! The course of one run of the clipping command, as a state machine: the
//! caller does what the current phase requests, reports what came of it, and
//! the form decides what happens next.

use vstd::prelude::*;
use crate::form::App;
use crate::model::FormModel;

verus! {

/// Why a run of the clipping command ended without an exit status.
#[derive(Clone, Copy, Debug, PartialEq, Eq, Structural)]
pub enum ClipError {
    /// The command could not be started.
    Spawn,
    /// Asking whether the command still runs failed.
    StatusCheck,
    /// Waiting for the command's exit status failed.
    Wait,
}

impl ClipError {
    /// The text that describes the error.
    pub open spec fn spec_message(self) -> Seq<char> {
        match self {
            ClipError::Spawn => "Failed to spawn ffmpeg command"@,
            ClipError::StatusCheck => "Failed to check process status"@,
            ClipError::Wait => "Failed to wait for ffmpeg"@,
        }
    }

    /// The text that describes the error.
    pub fn message(self) -> (text: &'static str)
        ensures
            text@ == self.spec_message(),
    {
        match self {
            ClipError::Spawn => "Failed to spawn ffmpeg command",
            ClipError::StatusCheck => "Failed to check process status",
            ClipError::Wait => "Failed to wait for ffmpeg",
        }
    }
}

/// How a run ended.
#[derive(Clone, Copy, Debug, PartialEq, Eq, Structural)]
pub enum RunEnd {
    /// The command exited with success.
    Success,
    /// The command exited with a failure status.
    Failure,
    /// The run was cut short.
    Aborted(ClipError),
}

/// Where a run stands.
#[derive(Clone, Copy, Debug, PartialEq, Eq, Structural)]
pub enum RunPhase {
    /// The command is to be started.
    Starting,
    /// The command was running when last asked; it is to be asked again.
    Polling,
    /// The command runs; its pending lines are taken over one by one.
    Draining,
    /// The pending lines are exhausted; the caller pauses before it asks again.
    Pausing,
    /// The command has exited; the lines it left behind are taken over.
    Flushing,
    /// All lines are in; the exit status is to be collected.
    Waiting,
    /// The run is over.
    Done(RunEnd),
}

/// What the caller is to do next.
#[derive(Clone, Copy, Debug, PartialEq, Eq, Structural)]
pub enum RunAction {
    /// Start the command with its error stream captured.
    Spawn,
    /// Ask, without blocking, whether the command has exited.
    CheckStatus,
    /// Take the next pending line of the error stream, without blocking.
    ReceiveLine,
    /// Sleep for the polling interval.
    Pause,
    /// Wait for the exit status.
    Wait,
    /// Nothing more: the run is over.
    Finish,
}

/// What the caller reports back.
#[derive(Clone, Debug)]
pub enum RunEvent {
    /// The command was started.
    Spawned,
    /// The command could not be started.
    SpawnFailed,
    /// The command has not exited yet.
    StillRunning,
    /// The command has exited.
    Exited,
    /// Asking for the command's state failed.
    StatusCheckFailed,
    /// A line of the error stream.
    Line(String),
    /// No line is pending.
    NoLine,
    /// The pause is over.
    Paused,
    /// The exit status: whether it says success.
    Status(bool),
    /// Waiting for the exit status failed.
    WaitFailed,
}

impl RunEnd {
    /// The end that an exit status stands for.
    pub open spec fn of_status(success: bool) -> RunEnd {
        if success {
            RunEnd::Success
        } else {
            RunEnd::Failure
        }
    }
}

impl RunPhase {
    /// What each phase asks of the caller.
    pub open spec fn spec_request(self) -> RunAction {
        match self {
            RunPhase::Starting => RunAction::Spawn,
            RunPhase::Polling => RunAction::CheckStatus,
            RunPhase::Draining => RunAction::ReceiveLine,
            RunPhase::Pausing => RunAction::Pause,
            RunPhase::Flushing => RunAction::ReceiveLine,
            RunPhase::Waiting => RunAction::Wait,
            RunPhase::Done(_) => RunAction::Finish,
        }
    }

    /// What the caller is to do in this phase.
    #[verifier::when_used_as_spec(spec_request)]
    pub fn request(self) -> (action: RunAction)
        ensures
            action == self.spec_request(),
    {
        match self {
            RunPhase::Starting => RunAction::Spawn,
            RunPhase::Polling => RunAction::CheckStatus,
            RunPhase::Draining => RunAction::ReceiveLine,
            RunPhase::Pausing => RunAction::Pause,
            RunPhase::Flushing => RunAction::ReceiveLine,
            RunPhase::Waiting => RunAction::Wait,
            RunPhase::Done(_) => RunAction::Finish,
        }
    }

    /// The phase that follows when `event` is reported in this phase. An
    /// event that answers no request of the phase leaves the phase as it is.
    pub open spec fn after(self, event: RunEvent) -> RunPhase {
        match (self, event) {
            (RunPhase::Starting, RunEvent::Spawned) => RunPhase::Polling,
            (RunPhase::Starting, RunEvent::SpawnFailed) => RunPhase::Done(
                RunEnd::Aborted(ClipError::Spawn),
            ),
            (RunPhase::Polling, RunEvent::StillRunning) => RunPhase::Draining,
            (RunPhase::Polling, RunEvent::Exited) => RunPhase::Flushing,
            (RunPhase::Polling, RunEvent::StatusCheckFailed) => RunPhase::Done(
                RunEnd::Aborted(ClipError::StatusCheck),
            ),
            (RunPhase::Draining, RunEvent::NoLine) => RunPhase::Pausing,
            (RunPhase::Pausing, RunEvent::Paused) => RunPhase::Polling,
            (RunPhase::Flushing, RunEvent::NoLine) => RunPhase::Waiting,
            (RunPhase::Waiting, RunEvent::Status(success)) => RunPhase::Done(
                RunEnd::of_status(success),
            ),
            (RunPhase::Waiting, RunEvent::WaitFailed) => RunPhase::Done(
                RunEnd::Aborted(ClipError::Wait),
            ),
            _ => self,
        }
    }

    /// Whether lines are taken over in this phase.
    pub open spec fn takes_lines(self) -> bool {
        self == RunPhase::Draining || self == RunPhase::Flushing
    }
}

impl FormModel {
    /// The run is closed with the given end: an exit status gets its verdict
    /// and the completion line, an error gets its error line.
    pub open spec fn ended(self, end: RunEnd) -> FormModel {
        match end {
            RunEnd::Success => self.exited(true).finished(Ok(())),
            RunEnd::Failure => self.exited(false).finished(Ok(())),
            RunEnd::Aborted(e) => self.finished(Err(e)),
        }
    }

    /// The form after `event` is reported in `phase`: a line taken over is
    /// appended to the log, the step that ends the run closes the log, and
    /// nothing else touches the form.
    pub open spec fn after_event(self, phase: RunPhase, event: RunEvent) -> FormModel {
        match event {
            RunEvent::Line(line) => if phase.takes_lines() {
                self.with_line(line@)
            } else {
                self
            },
            _ => match (phase, phase.after(event)) {
                (RunPhase::Done(_), _) => self,
                (_, RunPhase::Done(end)) => self.ended(end),
                _ => self,
            },
        }
    }
}

impl App {
    /// Takes the report of what the caller did in `phase` and returns the
    /// phase that follows. A report that does not answer the phase's request
    /// changes nothing.
    pub fn run_step(&mut self, phase: RunPhase, event: RunEvent) -> (next: RunPhase)
        ensures
            next == phase.after(event),
            final(self)@ == old(self)@.after_event(phase, event),
            final(self).scrollbar() == old(self).scrollbar(),
    {
        match phase {
            RunPhase::Starting => match event {
                RunEvent::Spawned => RunPhase::Polling,
                RunEvent::SpawnFailed => self.abort(ClipError::Spawn),
                _ => phase,
            },
            RunPhase::Polling => match event {
                RunEvent::StillRunning => RunPhase::Draining,
                RunEvent::Exited => RunPhase::Flushing,
                RunEvent::StatusCheckFailed => self.abort(ClipError::StatusCheck),
                _ => phase,
            },
            RunPhase::Draining => match event {
                RunEvent::Line(line) => {
                    self.append_line(line.as_str());
                    phase
                },
                RunEvent::NoLine => RunPhase::Pausing,
                _ => phase,
            },
            RunPhase::Pausing => match event {
                RunEvent::Paused => RunPhase::Polling,
                _ => phase,
            },
            RunPhase::Flushing => match event {
                RunEvent::Line(line) => {
                    self.append_line(line.as_str());
                    phase
                },
                RunEvent::NoLine => RunPhase::Waiting,
                _ => phase,
            },
            RunPhase::Waiting => match event {
                RunEvent::Status(success) => {
                    self.record_exit(success);
                    self.finish_run(Ok(()));
                    if success {
                        RunPhase::Done(RunEnd::Success)
                    } else {
                        RunPhase::Done(RunEnd::Failure)
                    }
                },
                RunEvent::WaitFailed => self.abort(ClipError::Wait),
                _ => phase,
            },
            RunPhase::Done(_) => phase,
        }
    }

    /// Ends the run with an error.
    fn abort(&mut self, error: ClipError) -> (next: RunPhase)
        ensures
            next == RunPhase::Done(RunEnd::Aborted(error)),
            final(self)@ == old(self)@.finished(Err(error)),
            final(self).scrollbar() == old(self).scrollbar(),
    {
        self.finish_run(Err(error));
        RunPhase::Done(RunEnd::Aborted(error))
    }
}

} // verus!
