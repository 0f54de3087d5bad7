use vstd::prelude::*;

verus! {

/// The identifier of an issued command: unique and increasing within a session.
pub type CommandID = usize;

/// A request the worker can be asked to perform.
#[derive(Debug, Clone, Copy, PartialEq, Eq, Structural)]
pub enum Command {
    FindJSON,
    GetProcessId,
    GetThreadId,
    Quit,
}

impl Command {
    pub open spec fn spec_name(&self) -> Seq<char> {
        match self {
            Command::FindJSON => "FindJSON"@,
            Command::GetProcessId => "GetProcessId"@,
            Command::GetThreadId => "GetThreadId"@,
            Command::Quit => "Quit"@,
        }
    }

    /// The variant's name, as written in log lines.
    pub fn name(&self) -> (r: &'static str)
        ensures
            r@ == self.spec_name(),
    {
        match self {
            Command::FindJSON => "FindJSON",
            Command::GetProcessId => "GetProcessId",
            Command::GetThreadId => "GetThreadId",
            Command::Quit => "Quit",
        }
    }
}

/// An id-tagged command, the unit sent from controller to worker.
#[derive(Debug, Clone, Copy, PartialEq, Eq, Structural)]
pub struct Instruction {
    pub id: CommandID,
    pub command: Command,
}

/// A result payload sent back by the worker.
#[derive(Debug, Clone, PartialEq, Eq)]
pub enum DataMessage {
    Json(Vec<String>),
    ProcessId(u32),
    ThreadId(u32),
}

/// How serious a log record is; earlier variants are more serious.
#[derive(Debug, Clone, Copy, PartialEq, Eq, Structural)]
pub enum LogSeverity {
    Error,
    Warning,
    Info,
    Debug,
    Verbose,
}

impl LogSeverity {
    /// The rank of the variant: `Error` is 0, `Verbose` is 4.
    pub open spec fn rank(&self) -> nat {
        match self {
            LogSeverity::Error => 0,
            LogSeverity::Warning => 1,
            LogSeverity::Info => 2,
            LogSeverity::Debug => 3,
            LogSeverity::Verbose => 4,
        }
    }

    pub open spec fn spec_label(&self) -> Seq<char> {
        match self {
            LogSeverity::Error => "Error"@,
            LogSeverity::Warning => "Warn"@,
            LogSeverity::Info => "Info"@,
            LogSeverity::Debug => "Debug"@,
            LogSeverity::Verbose => "Verbose"@,
        }
    }

    /// The short label written in log lines.
    pub fn label(&self) -> (r: &'static str)
        ensures
            r@ == self.spec_label(),
    {
        match self {
            LogSeverity::Error => "Error",
            LogSeverity::Warning => "Warn",
            LogSeverity::Info => "Info",
            LogSeverity::Debug => "Debug",
            LogSeverity::Verbose => "Verbose",
        }
    }

    /// Whether a record of this severity passes a filter set at `level`.
    pub fn within(&self, level: &LogSeverity) -> (r: bool)
        ensures
            r == (self.rank() <= level.rank()),
    {
        let a: u8 = match self {
            LogSeverity::Error => 0,
            LogSeverity::Warning => 1,
            LogSeverity::Info => 2,
            LogSeverity::Debug => 3,
            LogSeverity::Verbose => 4,
        };
        let b: u8 = match level {
            LogSeverity::Error => 0,
            LogSeverity::Warning => 1,
            LogSeverity::Info => 2,
            LogSeverity::Debug => 3,
            LogSeverity::Verbose => 4,
        };
        a <= b
    }
}

/// A log record: when (milliseconds since the Unix epoch), how serious, what.
#[derive(Debug, Clone, PartialEq, Eq)]
pub struct LogMessage {
    pub time: i64,
    pub severity: LogSeverity,
    pub content: String,
}

impl LogMessage {
    pub fn new(time: i64, severity: LogSeverity, content: String) -> (r: Self)
        ensures
            r.time == time,
            r.severity == severity,
            r.content == content,
    {
        LogMessage { time, severity, content }
    }
}

/// What the worker sends back to the controller.
#[derive(Debug, Clone, PartialEq, Eq)]
pub enum Message {
    Ready,
    Ack(CommandID),
    Exiting,
    Log(LogMessage),
    DataMessage(DataMessage),
}

} // verus!
