//! Logger of an interface, named by its bench, device and interface.
use vstd::prelude::*;
use crate::logger::{LogLevel, LogRecord};

verus! {

/// Logger for interfaces.
#[derive(Clone)]
pub struct Logger {
    bname: String,
    dname: String,
    iname: String,
}

/// Whether `r` is the record of `text` at `level` from the interface named
/// `names` (bench, device, interface).
pub open spec fn is_interface_record(
    r: LogRecord,
    names: (Seq<char>, Seq<char>, Seq<char>),
    level: LogLevel,
    text: Seq<char>,
) -> bool {
    &&& r.level == level
    &&& r.class@ == "Interface"@
    &&& (r.i1@, r.i2@, r.i3@) == names
    &&& r.text@ == text
}

impl Logger {
    /// Bench, device and interface names.
    pub closed spec fn names_view(&self) -> (Seq<char>, Seq<char>, Seq<char>) {
        (self.bname@, self.dname@, self.iname@)
    }

    /// A logger for the interface `iname` of device `dname` on bench `bname`.
    pub fn new(bname: &str, dname: &str, iname: &str) -> (l: Logger)
        ensures
            l.names_view() == (bname@, dname@, iname@),
    {
        Logger { bname: String::from_str(bname), dname: String::from_str(dname), iname: String::from_str(iname) }
    }

    /// A logger with the same names.
    pub fn duplicate(&self) -> (l: Logger)
        ensures
            l.names_view() == self.names_view(),
    {
        Logger { bname: self.bname.clone(), dname: self.dname.clone(), iname: self.iname.clone() }
    }

    fn record(&self, level: LogLevel, text: &str) -> (r: LogRecord)
        ensures
            is_interface_record(r, self.names_view(), level, text@),
    {
        LogRecord {
            level,
            class: String::from_str("Interface"),
            i1: self.bname.clone(),
            i2: self.dname.clone(),
            i3: self.iname.clone(),
            text: String::from_str(text),
        }
    }

    /// The record of a warning.
    pub fn log_warn(&self, text: &str) -> (r: LogRecord)
        ensures
            is_interface_record(r, self.names_view(), LogLevel::Warn, text@),
    {
        self.record(LogLevel::Warn, text)
    }

    /// The record of an information message.
    pub fn log_info(&self, text: &str) -> (r: LogRecord)
        ensures
            is_interface_record(r, self.names_view(), LogLevel::Info, text@),
    {
        self.record(LogLevel::Info, text)
    }

    /// The record of a trace message.
    pub fn log_trace(&self, text: &str) -> (r: LogRecord)
        ensures
            is_interface_record(r, self.names_view(), LogLevel::Trace, text@),
    {
        self.record(LogLevel::Trace, text)
    }
}

} // verus!
