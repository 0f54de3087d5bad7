use command_channel::logging::{ConsoleLogger, FileConflictBehavior, LogFilter, Logger, NullLogger};
use command_channel::messages::{LogMessage, LogSeverity};

struct Counting {
    seen: usize,
}

impl Logger for Counting {
    fn log(&mut self, _message: &LogMessage) -> bool {
        self.seen += 1;
        false
    }
}

#[test]
fn console_line_layout() {
    let c = ConsoleLogger::new();
    let m = LogMessage::new(0, LogSeverity::Warning, String::from("disk low"));
    assert_eq!(c.line("10:15:00AM", &m), "(10:15:00AM) Warn : disk low");
}

#[test]
fn null_logger_accepts_everything() {
    let mut n = NullLogger::new();
    assert!(n.log(&LogMessage::new(1, LogSeverity::Error, String::new())));
}

#[test]
fn filter_passes_only_serious_enough_records() {
    let mut f = LogFilter::new(LogSeverity::Info, Counting { seen: 0 });
    let verbose = LogMessage::new(1, LogSeverity::Verbose, String::from("v"));
    let error = LogMessage::new(2, LogSeverity::Error, String::from("e"));
    assert!(!f.passes(&verbose));
    assert!(f.passes(&error));
    assert!(f.log(&verbose));
    assert!(!f.log(&error));
}

#[test]
fn conflict_behaviors_are_distinct() {
    assert_ne!(FileConflictBehavior::Append, FileConflictBehavior::AppendNumber);
    assert_eq!(FileConflictBehavior::RenameOld, FileConflictBehavior::RenameOld);
}
