//! Diagnostic records and the journal in which a state machine collects them.

use vstd::prelude::*;
use vstd::string::*;

verus! {

/// How a record is to be treated by the operator: as routine information or
/// as a failure.
#[derive(Clone, Copy, Debug, PartialEq, Eq, Structural)]
pub enum Severity {
    Info,
    Error,
}

/// A record as plain data: its severity and its text.
pub struct LogLine {
    pub severity: Severity,
    pub message: Seq<char>,
}

/// One diagnostic record.
#[derive(Debug)]
pub struct LogRecord {
    pub severity: Severity,
    pub message: String,
}

impl View for LogRecord {
    type V = LogLine;

    open spec fn view(&self) -> LogLine {
        LogLine { severity: self.severity, message: self.message@ }
    }
}

impl DeepView for LogRecord {
    type V = LogLine;

    open spec fn deep_view(&self) -> LogLine {
        self@
    }
}

/// An informational record with the given text.
pub open spec fn info_line(message: Seq<char>) -> LogLine {
    LogLine { severity: Severity::Info, message }
}

/// A failure record with the given text.
pub open spec fn error_line(message: Seq<char>) -> LogLine {
    LogLine { severity: Severity::Error, message }
}

/// Records waiting to be handed to the operator, oldest first.
pub struct Journal {
    pending: Vec<LogRecord>,
}

impl View for Journal {
    type V = Seq<LogLine>;

    closed spec fn view(&self) -> Seq<LogLine> {
        self.pending.deep_view()
    }
}

impl Journal {
    /// A journal with nothing in it.
    pub fn new() -> (journal: Journal)
        ensures
            journal@ == Seq::<LogLine>::empty(),
    {
        let journal = Journal { pending: Vec::new() };
        journal
    }

    /// Adds an informational record.
    pub fn info(&mut self, message: String)
        ensures
            final(self)@ == old(self)@.push(info_line(message@)),
    {
        self.pending.push(LogRecord { severity: Severity::Info, message });
    }

    /// Adds a failure record.
    pub fn error(&mut self, message: String)
        ensures
            final(self)@ == old(self)@.push(error_line(message@)),
    {
        self.pending.push(LogRecord { severity: Severity::Error, message });
    }

    /// Hands out every pending record, oldest first, and leaves the journal
    /// empty.
    pub fn drain(&mut self) -> (records: Vec<LogRecord>)
        ensures
            records.deep_view() == old(self)@,
            final(self)@ == Seq::<LogLine>::empty(),
    {
        let mut records: Vec<LogRecord> = Vec::new();
        core::mem::swap(&mut self.pending, &mut records);
        records
    }
}

} // verus!
