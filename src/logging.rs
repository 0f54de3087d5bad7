use vstd::prelude::*;

use crate::messages::{LogMessage, LogSeverity};

verus! {

/// A destination for log records. `log` gives whether the destination is
/// still usable.
pub trait Logger {
    fn log(&mut self, message: &LogMessage) -> bool;
}

/// A logger that drops every record.
#[derive(Debug, Default)]
pub struct NullLogger {}

impl NullLogger {
    pub fn new() -> (r: Self) {
        NullLogger {  }
    }
}

impl Logger for NullLogger {
    fn log(&mut self, message: &LogMessage) -> (r: bool) {
        true
    }
}

/// A logger that writes each record as one line on the console.
#[derive(Debug, Default)]
pub struct ConsoleLogger {}

impl ConsoleLogger {
    pub fn new() -> (r: Self) {
        ConsoleLogger {  }
    }

    /// The line written for `message`, whose time reads `time`:
    /// `(time) label : content`.
    pub fn line(&self, time: &str, message: &LogMessage) -> (r: String)
        ensures
            r@ == seq!['('] + time@ + ") "@ + message.severity.spec_label() + " : "@
                + message.content@,
    {
        let mut r = String::from_str("(");
        r.append(time);
        r.append(") ");
        r.append(message.severity.label());
        r.append(" : ");
        r.append(message.content.as_str());
        proof {
            reveal_strlit("(");
            assert(r@ =~= seq!['('] + time@ + ") "@ + message.severity.spec_label() + " : "@
                + message.content@);
        }
        r
    }
}

/// Passes on the records at or above a level of seriousness to another
/// logger, and drops the rest.
pub struct LogFilter<L> {
    next_logger: L,
    log_level: LogSeverity,
}

impl<L: Logger> LogFilter<L> {
    pub closed spec fn level(&self) -> LogSeverity {
        self.log_level
    }

    pub fn new(sev: LogSeverity, logger: L) -> (r: Self)
        ensures
            r.level() == sev,
    {
        LogFilter { next_logger: logger, log_level: sev }
    }

    /// Whether `message` passes this filter.
    pub fn passes(&self, message: &LogMessage) -> (r: bool)
        ensures
            r == (message.severity.rank() <= self.level().rank()),
    {
        message.severity.within(&self.log_level)
    }
}

impl<L: Logger> Logger for LogFilter<L> {
    fn log(&mut self, message: &LogMessage) -> (r: bool) {
        if message.severity.within(&self.log_level) {
            self.next_logger.log(message)
        } else {
            true
        }
    }
}

/// What a file logger does when its file already exists.
#[derive(Debug, Clone, Copy, PartialEq, Eq, Structural)]
pub enum FileConflictBehavior {
    AppendNumber,
    Append,
    Error,
    Overwrite,
    RenameOld,
}

} // verus!
