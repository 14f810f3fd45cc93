//! Loggers of the platform. A logger builds the record of an event; the
//! runtime hands the record to the tracing subscriber.
use vstd::prelude::*;

verus! {

/// Severity of a log record.
#[derive(Debug, Clone, Copy, PartialEq, Eq, Structural)]
pub enum LogLevel {
    Trace,
    Debug,
    Info,
    Warn,
    Error,
}

/// One log event: its level, the class of its emitter, the three names that
/// identify the emitter and the text.
pub struct LogRecord {
    pub level: LogLevel,
    pub class: String,
    pub i1: String,
    pub i2: String,
    pub i3: String,
    pub text: String,
}

/// Generic way to build logs on the platform.
#[derive(Clone)]
pub struct GenericLogger {
    class: String,
    i1: String,
    i2: String,
    i3: String,
}

impl GenericLogger {
    pub closed spec fn class_view(&self) -> Seq<char> {
        self.class@
    }

    pub closed spec fn names_view(&self) -> (Seq<char>, Seq<char>, Seq<char>) {
        (self.i1@, self.i2@, self.i3@)
    }

    /// A logger for the emitter `class` named by `i1`, `i2`, `i3`.
    pub fn new(class: &str, i1: &str, i2: &str, i3: &str) -> (l: GenericLogger)
        ensures
            l.class_view() == class@,
            l.names_view() == (i1@, i2@, i3@),
    {
        GenericLogger {
            class: String::from_str(class),
            i1: String::from_str(i1),
            i2: String::from_str(i2),
            i3: String::from_str(i3),
        }
    }

    /// The record of `text` at `level` from this emitter.
    pub fn record(&self, level: LogLevel, text: &str) -> (r: LogRecord)
        ensures
            r.level == level,
            r.class@ == self.class_view(),
            (r.i1@, r.i2@, r.i3@) == self.names_view(),
            r.text@ == text@,
    {
        LogRecord {
            level,
            class: self.class.clone(),
            i1: self.i1.clone(),
            i2: self.i2.clone(),
            i3: self.i3.clone(),
            text: String::from_str(text),
        }
    }

    /// The record of an information message.
    pub fn info(&self, text: &str) -> (r: LogRecord)
        ensures
            r.level == LogLevel::Info,
            r.class@ == self.class_view(),
            (r.i1@, r.i2@, r.i3@) == self.names_view(),
            r.text@ == text@,
    {
        self.record(LogLevel::Info, text)
    }
}

/// Whether `r` is the record of `text` at `level` emitted by `base`.
pub open spec fn is_record_of(r: LogRecord, base: GenericLogger, level: LogLevel, text: Seq<char>) -> bool {
    &&& r.level == level
    &&& r.class@ == base.class_view()
    &&& (r.i1@, r.i2@, r.i3@) == base.names_view()
    &&& r.text@ == text
}

/// Logger of the platform itself.
#[derive(Clone)]
pub struct PlatformLogger {
    base: GenericLogger,
}

impl PlatformLogger {
    pub closed spec fn base_view(&self) -> GenericLogger {
        self.base
    }

    /// The logger of class `Platform`, with empty names.
    pub fn new() -> (l: PlatformLogger)
        ensures
            l.base_view().class_view() == "Platform"@,
            l.base_view().names_view() == (""@, ""@, ""@),
    {
        PlatformLogger { base: GenericLogger::new("Platform", "", "", "") }
    }

    /// The record of an information message.
    pub fn info(&self, text: &str) -> (r: LogRecord)
        ensures
            is_record_of(r, self.base_view(), LogLevel::Info, text@),
    {
        self.base.record(LogLevel::Info, text)
    }

    /// The record of a warning.
    pub fn warn(&self, text: &str) -> (r: LogRecord)
        ensures
            is_record_of(r, self.base_view(), LogLevel::Warn, text@),
    {
        self.base.record(LogLevel::Warn, text)
    }

    /// The record of a debug message.
    pub fn debug(&self, text: &str) -> (r: LogRecord)
        ensures
            is_record_of(r, self.base_view(), LogLevel::Debug, text@),
    {
        self.base.record(LogLevel::Debug, text)
    }

    /// The record of an error.
    pub fn error(&self, text: &str) -> (r: LogRecord)
        ensures
            is_record_of(r, self.base_view(), LogLevel::Error, text@),
    {
        self.base.record(LogLevel::Error, text)
    }
}

/// Logger of the device factory.
#[derive(Clone)]
pub struct FactoryLogger {
    base: GenericLogger,
}

impl FactoryLogger {
    pub closed spec fn base_view(&self) -> GenericLogger {
        self.base
    }

    /// The logger of class `Factory`, with empty names.
    pub fn new() -> (l: FactoryLogger)
        ensures
            l.base_view().class_view() == "Factory"@,
            l.base_view().names_view() == (""@, ""@, ""@),
    {
        FactoryLogger { base: GenericLogger::new("Factory", "", "", "") }
    }

    /// The record of an information message.
    pub fn info(&self, text: &str) -> (r: LogRecord)
        ensures
            is_record_of(r, self.base_view(), LogLevel::Info, text@),
    {
        self.base.record(LogLevel::Info, text)
    }
}

} // verus!
