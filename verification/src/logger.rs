//! The application log: what a log line looks like and which file it goes
//! to. Writing the files is left to the caller.

use vstd::prelude::*;

use crate::clock::{is_log_stamp, log_timestamp};
use crate::text::{align_left, padded_right};

verus! {

/// Severity of a log entry.
#[derive(Clone, Copy, Debug, PartialEq, Eq, Structural)]
pub enum LogLevel {
    Info,
    Error,
}

impl LogLevel {
    /// The name of the level.
    pub open spec fn name(self) -> Seq<char> {
        match self {
            LogLevel::Info => "Info"@,
            LogLevel::Error => "Error"@,
        }
    }

    /// The name of the level in a field of five characters.
    pub open spec fn label_text(self) -> Seq<char> {
        padded_right(self.name(), 5, ' ')
    }

    /// The name of the level in a field of five characters.
    pub fn label(&self) -> (label: String)
        ensures
            label@ == self.label_text(),
    {
        match self {
            LogLevel::Info => align_left("Info", 5),
            LogLevel::Error => align_left("Error", 5),
        }
    }
}

/// A log entry: where it goes, if not to the default file, how severe it is,
/// who wrote it and what it says.
#[derive(Debug, PartialEq, Eq)]
pub struct Log {
    pub to: Option<String>,
    pub level: Option<LogLevel>,
    pub from: String,
    pub body: String,
}

impl Log {
    /// An entry of the given level for the default file.
    pub fn entry(level: LogLevel, from: String, body: String) -> (log: Log)
        ensures
            log.to is None,
            log.level == Some(level),
            log.from == from,
            log.body == body,
    {
        Log { to: None, level: Some(level), from, body }
    }

    /// An entry without a level for the file named `to`.
    pub fn external(to: String, from: String, body: String) -> (log: Log)
        ensures
            log.to == Some(to),
            log.level is None,
            log.from == from,
            log.body == body,
    {
        Log { to: Some(to), level: None, from, body }
    }

    /// The name of the log that the entry goes to.
    pub open spec fn target(&self, default_file: Seq<char>) -> Seq<char> {
        match self.to {
            Some(name) => name@,
            None => default_file,
        }
    }
}

/// A log line: the time, the level if there is one, the writer in a field of
/// fifteen characters, and the message.
pub open spec fn log_line(
    timestamp: Seq<char>,
    level: Option<LogLevel>,
    from: Seq<char>,
    body: Seq<char>,
) -> Seq<char> {
    timestamp + " | "@ + (match level {
        Some(l) => l.label_text() + " | "@,
        None => Seq::<char>::empty(),
    }) + padded_right(from, 15, ' ') + " : "@ + body
}

/// The file that holds the log named `name`.
pub open spec fn log_file_name(name: Seq<char>) -> Seq<char> {
    name + ".log"@
}

/// The name of the file that holds the log named `name`.
pub fn log_file(name: &str) -> (file: String)
    ensures
        file@ == log_file_name(name@),
{
    let mut file = String::from_str(name);
    file.append(".log");
    file
}

/// The line that records `log` at the time `timestamp`.
pub fn format_log(timestamp: &str, log: &Log) -> (line: String)
    ensures
        line@ == log_line(timestamp@, log.level, log.from@, log.body@),
{
    let mut line = String::from_str(timestamp);
    line.append(" | ");
    match log.level {
        Some(level) => {
            let label = level.label();
            line.append(label.as_str());
            line.append(" | ");
        },
        None => {},
    }
    let from = align_left(log.from.as_str(), 15);
    line.append(from.as_str());
    line.append(" : ");
    line.append(log.body.as_str());
    line
}

/// What the logging loop does with one message.
#[derive(Debug, PartialEq, Eq)]
pub enum LoggerAction {
    /// The end of the log: leave the loop.
    Stop,
    /// Append `line` and a line break to `file`, creating it if needed.
    Append { file: String, line: String },
}

/// One round of the logging loop. `None` ends the log. An entry is stamped
/// with the local time, date and time to the millisecond, and goes to the
/// file of the log it names, or to that of `default_file`.
pub fn logger_main(default_file: &str, message: Option<Log>) -> (action: LoggerAction)
    ensures
        message is None <==> action is Stop,
        message matches Some(log) ==> action matches LoggerAction::Append { file, line } && file@
            == log_file_name(log.target(default_file@)) && exists|timestamp: Seq<char>|
            is_log_stamp(timestamp) && line@ == log_line(
                timestamp,
                log.level,
                log.from@,
                log.body@,
            ),
{
    match message {
        None => LoggerAction::Stop,
        Some(log) => {
            let file = match &log.to {
                Some(name) => log_file(name.as_str()),
                None => log_file(default_file),
            };
            let timestamp = log_timestamp();
            let line = format_log(timestamp.as_str(), &log);
            LoggerAction::Append { file, line }
        },
    }
}

} // verus!
