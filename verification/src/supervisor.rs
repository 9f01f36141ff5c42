//! Watching the started backend until it ends.

use crate::journal::{error_line, info_line, Journal, LogLine, LogRecord};
use vstd::prelude::*;
use vstd::string::*;

verus! {

/// Where the supervision of a process stands.
#[derive(Clone, Copy, Debug, PartialEq, Eq, Structural)]
pub enum SupervisorState {
    /// The process was started and nothing has been observed of it yet.
    Spawned,
    /// The process was seen alive; its end is being waited for.
    Running,
    /// The process has ended. Final.
    Exited,
    /// Waiting for the process failed. Final.
    WaitError,
}

/// What can be observed of a supervised process, as plain data.
pub enum SupervisorEvent {
    /// The process is alive.
    Alive,
    /// The process ended; `success` tells whether it ended normally with
    /// status zero, `status` describes how it ended.
    Exited { success: bool, status: Seq<char> },
    /// Waiting for the process failed for the reason given.
    WaitFailed { error: Seq<char> },
}

/// The record of a process's end. An abnormal end is a failure record.
pub open spec fn exit_line(success: bool, status: Seq<char>) -> LogLine {
    if success {
        info_line("Python server exited with status: "@ + status)
    } else {
        error_line("Python server exited with status: "@ + status)
    }
}

/// The record of a wait that failed.
pub open spec fn wait_error_line(error: Seq<char>) -> LogLine {
    error_line("Error waiting for Python server: "@ + error)
}

/// The supervisor as plain data.
pub struct SupervisorModel {
    pub state: SupervisorState,
    pub journal: Seq<LogLine>,
}

impl SupervisorModel {
    /// The supervisor of a process that has just been started.
    pub open spec fn start() -> SupervisorModel {
        SupervisorModel { state: SupervisorState::Spawned, journal: Seq::<LogLine>::empty() }
    }

    /// Whether the supervision has ended.
    pub open spec fn terminal(self) -> bool {
        self.state is Exited || self.state is WaitError
    }

    /// The supervisor after an observation. A live process that is seen alive
    /// is running; its end or a failed wait ends the supervision and writes
    /// one record. After that nothing changes any more.
    pub open spec fn apply(self, event: SupervisorEvent) -> SupervisorModel {
        if self.terminal() {
            self
        } else {
            match event {
                SupervisorEvent::Alive => SupervisorModel {
                    state: SupervisorState::Running,
                    ..self
                },
                SupervisorEvent::Exited { success, status } => SupervisorModel {
                    state: SupervisorState::Exited,
                    journal: self.journal.push(exit_line(success, status)),
                },
                SupervisorEvent::WaitFailed { error } => SupervisorModel {
                    state: SupervisorState::WaitError,
                    journal: self.journal.push(wait_error_line(error)),
                },
            }
        }
    }

    /// The supervisor after a series of observations, oldest first.
    pub open spec fn apply_all(self, events: Seq<SupervisorEvent>) -> SupervisorModel
        decreases events.len(),
    {
        if events.len() == 0 {
            self
        } else {
            self.apply_all(events.drop_last()).apply(events.last())
        }
    }
}

/// Follows one process from its start to its end and records how it ended.
/// It never restarts the process.
pub struct ProcessSupervisor {
    state: SupervisorState,
    journal: Journal,
}

impl View for ProcessSupervisor {
    type V = SupervisorModel;

    closed spec fn view(&self) -> SupervisorModel {
        SupervisorModel { state: self.state, journal: self.journal@ }
    }
}

impl ProcessSupervisor {
    /// The supervisor of a process that has just been started.
    pub fn new() -> (supervisor: ProcessSupervisor)
        ensures
            supervisor@ == SupervisorModel::start(),
    {
        ProcessSupervisor { state: SupervisorState::Spawned, journal: Journal::new() }
    }

    /// Where the supervision stands.
    pub fn state(&self) -> (state: SupervisorState)
        ensures
            state == self@.state,
    {
        self.state
    }

    /// Whether the supervision has ended.
    pub fn is_terminal(&self) -> (ended: bool)
        ensures
            ended == self@.terminal(),
    {
        match self.state {
            SupervisorState::Exited => true,
            SupervisorState::WaitError => true,
            _ => false,
        }
    }

    /// Notes that the process was seen alive.
    pub fn alive(&mut self)
        ensures
            final(self)@ == old(self)@.apply(SupervisorEvent::Alive),
    {
        if !self.is_terminal() {
            self.state = SupervisorState::Running;
        }
    }

    /// Notes that the process ended. `success` tells whether it ended
    /// normally with status zero; `status` describes how it ended.
    pub fn exited(&mut self, success: bool, status: String)
        ensures
            final(self)@ == old(self)@.apply(
                SupervisorEvent::Exited { success, status: status@ },
            ),
    {
        if !self.is_terminal() {
            let mut text = String::from_str("Python server exited with status: ");
            text.append(status.as_str());
            if success {
                self.journal.info(text);
            } else {
                self.journal.error(text);
            }
            self.state = SupervisorState::Exited;
        }
    }

    /// Notes that waiting for the process failed.
    pub fn wait_failed(&mut self, error: String)
        ensures
            final(self)@ == old(self)@.apply(SupervisorEvent::WaitFailed { error: error@ }),
    {
        if !self.is_terminal() {
            let mut text = String::from_str("Error waiting for Python server: ");
            text.append(error.as_str());
            self.journal.error(text);
            self.state = SupervisorState::WaitError;
        }
    }

    /// Hands out the records written since the last call.
    pub fn drain_journal(&mut self) -> (records: Vec<LogRecord>)
        ensures
            records.deep_view() == old(self)@.journal,
            final(self)@ == (SupervisorModel { journal: Seq::<LogLine>::empty(), ..old(self)@ }),
    {
        self.journal.drain()
    }
}

/// No observation brings a supervisor back to its first state, and a
/// supervisor that has ended is changed by none.
pub proof fn law_supervision_only_advances(m: SupervisorModel, event: SupervisorEvent)
    ensures
        !(m.apply(event).state is Spawned),
        m.terminal() ==> m.apply(event) == m,
{
}

/// Whatever is observed, and in whatever order, the journal of a supervisor
/// holds exactly one record once the supervision has ended and none before.
pub proof fn law_supervision_records_once(events: Seq<SupervisorEvent>)
    ensures
        ({
            let end = SupervisorModel::start().apply_all(events);
            end.journal.len() == (if end.terminal() {
                1nat
            } else {
                0nat
            })
        }),
    decreases events.len(),
{
    if events.len() > 0 {
        law_supervision_records_once(events.drop_last());
    }
}

/// A running process that ends brings the supervisor to `Exited` with exactly
/// one record, which carries the status and is a failure record unless the
/// process ended normally with status zero.
pub proof fn law_exit_is_recorded(success: bool, status: Seq<char>)
    ensures
        SupervisorModel::start().apply(SupervisorEvent::Alive).state is Running,
        SupervisorModel::start().apply(SupervisorEvent::Alive).apply(
            SupervisorEvent::Exited { success, status },
        ) == (SupervisorModel {
            state: SupervisorState::Exited,
            journal: seq![exit_line(success, status)],
        }),
        !success ==> exit_line(success, status) == error_line(
            "Python server exited with status: "@ + status,
        ),
{
}

/// A wait that fails before the process was seen alive brings the supervisor
/// to `WaitError` with exactly one record, which carries the error.
pub proof fn law_wait_error_is_recorded(error: Seq<char>)
    ensures
        SupervisorModel::start().apply(SupervisorEvent::WaitFailed { error }) == (SupervisorModel {
            state: SupervisorState::WaitError,
            journal: seq![wait_error_line(error)],
        }),
{
}

} // verus!
