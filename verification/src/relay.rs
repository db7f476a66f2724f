//! Relaying of the child process's output into log records.
//!
//! The application drains the child's standard output and standard error
//! line by line in background threads; every line becomes one log record.
//! This module fixes what each record holds: lines from standard output
//! are informational, lines from standard error are errors, and each is
//! prefixed so a reader can tell child output from the host's own log.

use vstd::prelude::*;

verus! {

/// Which of the child's streams a line came from.
#[derive(Clone, Copy, Debug, PartialEq, Eq, Structural)]
pub enum StreamKind {
    Stdout,
    Stderr,
}

/// The severity a relayed line is logged at.
#[derive(Clone, Copy, Debug, PartialEq, Eq, Structural)]
pub enum LogLevel {
    Info,
    Error,
}

/// Standard output is relayed as information, standard error as errors.
pub open spec fn relay_level(kind: StreamKind) -> LogLevel {
    match kind {
        StreamKind::Stdout => LogLevel::Info,
        StreamKind::Stderr => LogLevel::Error,
    }
}

/// The prefix that marks a relayed line as child output.
pub open spec fn relay_prefix(kind: StreamKind) -> Seq<char> {
    match kind {
        StreamKind::Stdout => "[Server] "@,
        StreamKind::Stderr => "[Server Error] "@,
    }
}

/// One line of child output, ready for the host log.
pub struct LogRecord {
    pub level: LogLevel,
    pub message: String,
}

/// Turns one line read from the child's stream `kind` into its log
/// record.
pub fn relay_line(kind: StreamKind, line: &str) -> (r: LogRecord)
    ensures
        r.level == relay_level(kind),
        r.message@ == relay_prefix(kind) + line@,
{
    let mut message = match kind {
        StreamKind::Stdout => String::from_str("[Server] "),
        StreamKind::Stderr => String::from_str("[Server Error] "),
    };
    message.append(line);
    let level = match kind {
        StreamKind::Stdout => LogLevel::Info,
        StreamKind::Stderr => LogLevel::Error,
    };
    LogRecord { level, message }
}

/// Relays a whole sequence of lines from stream `kind`: the records come
/// out one per line, in the order the lines came in, each at the level
/// and with the prefix of its stream.
pub fn relay_lines(kind: StreamKind, lines: &Vec<String>) -> (r: Vec<LogRecord>)
    ensures
        r@.len() == lines@.len(),
        forall|i: int|
            0 <= i < lines@.len() ==> #[trigger] r@[i].level == relay_level(kind) && r@[i].message@
                == relay_prefix(kind) + lines@[i]@,
{
    let mut out: Vec<LogRecord> = Vec::new();
    let mut i: usize = 0;
    while i < lines.len()
        invariant
            i <= lines@.len(),
            out@.len() == i,
            forall|j: int|
                0 <= j < i ==> #[trigger] out@[j].level == relay_level(kind) && out@[j].message@
                    == relay_prefix(kind) + lines@[j]@,
        decreases lines@.len() - i,
    {
        let record = relay_line(kind, lines[i].as_str());
        out.push(record);
        i = i + 1;
    }
    out
}

} // verus!
