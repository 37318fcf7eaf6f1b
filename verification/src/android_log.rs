//! Log lines for the Android log: which priority a line gets, and whether
//! its text can be handed over as it is.

use vstd::prelude::*;
use vstd::string::StringSliceAdditionalSpecFns;

verus! {

/// Tag under which every line is logged.
pub const LOG_TAG: &'static str = "jonect_rust";

/// Severity of a log record.
#[derive(Clone, Copy, Debug, PartialEq, Eq, Structural)]
pub enum Level {
    Error,
    Warn,
    Info,
    Debug,
    Trace,
}

/// Where a line comes from: a log record of some severity, or a panic.
#[derive(Clone, Copy, Debug, PartialEq, Eq, Structural)]
pub enum LogLevel {
    Level(Level),
    Panic,
}

/// Priority of a line in the Android log.
#[derive(Clone, Copy, Debug, PartialEq, Eq, Structural)]
pub enum AndroidPriority {
    Verbose,
    Debug,
    Info,
    Warn,
    Error,
    Fatal,
}

/// Whether a text can be logged as it is.
#[derive(Clone, Copy, Debug, PartialEq, Eq, Structural)]
pub enum LogText {
    /// The text holds no zero byte and is logged as it is.
    Plain,
    /// The text holds a zero byte, the first at this position, and cannot be
    /// handed over; a notice of that is logged in its place.
    NulAt(usize),
}

/// A line prepared for the Android log.
#[derive(Clone, Copy, Debug, PartialEq, Eq, Structural)]
pub struct LogLine {
    pub priority: AndroidPriority,
    pub text: LogText,
}

/// The Android priority of a line: a panic is fatal, a trace is verbose, the
/// other severities keep their names.
pub open spec fn spec_android_priority(level: LogLevel) -> AndroidPriority {
    match level {
        LogLevel::Level(Level::Error) => AndroidPriority::Error,
        LogLevel::Level(Level::Warn) => AndroidPriority::Warn,
        LogLevel::Level(Level::Info) => AndroidPriority::Info,
        LogLevel::Level(Level::Debug) => AndroidPriority::Debug,
        LogLevel::Level(Level::Trace) => AndroidPriority::Verbose,
        LogLevel::Panic => AndroidPriority::Fatal,
    }
}

/// Whether `at` is the position of the first zero byte of `bytes`.
pub open spec fn spec_is_first_nul(bytes: Seq<u8>, at: int) -> bool {
    &&& 0 <= at < bytes.len()
    &&& bytes[at] == 0
    &&& forall|j: int| 0 <= j < at ==> bytes[j] != 0
}

/// Whether a text can be logged as it is, told from its bytes.
pub open spec fn spec_log_text(bytes: Seq<u8>, text: LogText) -> bool {
    match text {
        LogText::Plain => forall|j: int| 0 <= j < bytes.len() ==> bytes[j] != 0,
        LogText::NulAt(at) => spec_is_first_nul(bytes, at as int),
    }
}

/// The Android priority of a line.
pub fn android_priority(level: LogLevel) -> (priority: AndroidPriority)
    ensures
        priority == spec_android_priority(level),
{
    match level {
        LogLevel::Level(Level::Error) => AndroidPriority::Error,
        LogLevel::Level(Level::Warn) => AndroidPriority::Warn,
        LogLevel::Level(Level::Info) => AndroidPriority::Info,
        LogLevel::Level(Level::Debug) => AndroidPriority::Debug,
        LogLevel::Level(Level::Trace) => AndroidPriority::Verbose,
        LogLevel::Panic => AndroidPriority::Fatal,
    }
}

/// The position of the first zero byte, if there is one.
pub fn first_nul(bytes: &[u8]) -> (r: Option<usize>)
    ensures
        match r {
            Some(at) => spec_is_first_nul(bytes@, at as int),
            None => forall|j: int| 0 <= j < bytes@.len() ==> bytes@[j] != 0,
        },
{
    let mut i: usize = 0;
    while i < bytes.len()
        invariant
            i <= bytes@.len(),
            forall|j: int| 0 <= j < i ==> bytes@[j] != 0,
        decreases bytes@.len() - i,
    {
        if bytes[i] == 0 {
            return Some(i);
        }
        i = i + 1;
    }
    None
}

/// Prepares a line for the Android log: its priority, and whether its text
/// can be handed over as it is.
pub fn log_line(text: &str, level: LogLevel) -> (line: LogLine)
    ensures
        line.priority == spec_android_priority(level),
        spec_log_text(text.spec_bytes(), line.text),
{
    let text = match first_nul(text.as_bytes()) {
        Some(at) => LogText::NulAt(at),
        None => LogText::Plain,
    };
    LogLine { priority: android_priority(level), text }
}

/// Logger that sends every record to the Android log.
#[derive(Clone, Copy, Debug)]
pub struct AndroidLogger;

impl AndroidLogger {
    /// Whether records of this severity are logged: all are.
    pub fn enabled(&self, level: Level) -> (enabled: bool)
        ensures
            enabled,
    {
        true
    }

    /// The line for a record, if records of its severity are logged.
    pub fn log(&self, level: Level, message: &str) -> (line: Option<LogLine>)
        ensures
            line matches Some(l) && l.priority == spec_android_priority(LogLevel::Level(level))
                && spec_log_text(message.spec_bytes(), l.text),
    {
        if self.enabled(level) {
            Some(log_line(message, LogLevel::Level(level)))
        } else {
            None
        }
    }
}

/// What a text's bytes allow is decided by the bytes alone: two verdicts on
/// the same bytes are the same verdict.
pub proof fn lemma_log_text_is_unique(bytes: Seq<u8>, a: LogText, b: LogText)
    requires
        spec_log_text(bytes, a),
        spec_log_text(bytes, b),
    ensures
        a == b,
{
}

/// No two severities share an Android priority, and only a panic is fatal.
pub proof fn lemma_priority_tells_levels_apart(a: LogLevel, b: LogLevel)
    ensures
        spec_android_priority(a) == spec_android_priority(b) <==> a == b,
        spec_android_priority(a) is Fatal <==> a is Panic,
{
}

} // verus!
