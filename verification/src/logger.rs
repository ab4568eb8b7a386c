//! The shape of one log line. Writing log files happens outside the
//! library; building an entry from its parts is exact.

use vstd::prelude::*;

verus! {

/// One structured log entry.
#[derive(Debug, Clone)]
pub struct LogEntry {
    pub timestamp: String,
    pub level: String,
    pub target: String,
    pub message: String,
    pub file: Option<String>,
    pub line: Option<u32>,
}

impl LogEntry {
    /// An entry from its parts.
    pub fn new(
        timestamp: String,
        level: String,
        target: String,
        message: String,
        file: Option<String>,
        line: Option<u32>,
    ) -> (r: LogEntry)
        ensures
            r.timestamp == timestamp,
            r.level == level,
            r.target == target,
            r.message == message,
            r.file == file,
            r.line == line,
    {
        LogEntry { timestamp, level, target, message, file, line }
    }
}

} // verus!
