//! The logging facade: four operations, one for each severity.
//!
//! Each call stands alone. It reads the policy; where the policy lets the
//! record through, it stamps the record with the time, picks the backend that
//! the profile asks for, and says what is to happen with the record's line:
//! whether and where it is saved, and on which channel it is shown. Carrying
//! that out is left to the caller.

use crate::config::{Configs, ConfigsView, Profile, Severity};
use crate::logger::debug::{DebugLogger, DebugLoggerView, FILE_LAYOUT};
use crate::logger::production::ProductionLogger;
use crate::path::{Path, SysPath};
use vstd::prelude::*;

pub mod debug;
pub mod production;

verus! {

/// The layout of the time in a record's line.
pub const RECORD_LAYOUT: &'static str = "%Y-%m-%d %H:%M:%S";

/// Whether `text` is a moment as the clock writes it: the year, of four
/// digits or more, with a sign before them where four digits do not hold it;
/// then month, day, hour, minute and second, of two digits each. A `-` stands
/// before the month and before the day, `gap` before the hour, and `colon`
/// before the minute and before the second.
pub open spec fn written_moment(text: Seq<char>, gap: char, colon: char) -> bool {
    let year = text.len() - 15;
    &&& year >= 4
    &&& is_digit(text[0]) || (year >= 5 && (text[0] == '+' || text[0] == '-'))
    &&& forall|at: int| 1 <= at < year ==> is_digit(#[trigger] text[at])
    &&& text[year] == '-' && is_digit(text[year + 1]) && is_digit(text[year + 2])
    &&& text[year + 3] == '-' && is_digit(text[year + 4]) && is_digit(text[year + 5])
    &&& text[year + 6] == gap && is_digit(text[year + 7]) && is_digit(text[year + 8])
    &&& text[year + 9] == colon && is_digit(text[year + 10]) && is_digit(text[year + 11])
    &&& text[year + 12] == colon && is_digit(text[year + 13]) && is_digit(text[year + 14])
}

/// Whether `c` is a decimal digit.
pub open spec fn is_digit(c: char) -> bool {
    '0' <= c <= '9'
}

/// The local time of the call, written in the layout `layout`.
///
/// This calls `chrono::Local::now`, and writes the moment it returns with
/// `DateTime::format` and `to_string`. The two layouts that are let in hold
/// nothing but year, month, day, hour, minute and second, which chrono can
/// write of every moment; with a layout that it cannot read, `to_string`
/// would panic. Which moment is written depends on the clock and on the time
/// zone of the machine, and nothing is claimed of it. What is claimed is how
/// it is written, as chrono's table of specifiers has it: `%Y` gives the year
/// padded with zeros to four digits, with a sign before it outside 0 to 9999;
/// `%m`, `%d`, `%H`, `%M` and `%S` give two digits each; all else in the
/// layout is written as it stands. Whatever the layout, chrono panics where
/// the system clock stands before 1970 or the machine's time zone data cannot
/// be used.
#[verifier::external_body]
pub(crate) fn local_time(layout: &str) -> (stamp: String)
    requires
        layout@ == RECORD_LAYOUT@ || layout@ == FILE_LAYOUT@,
    ensures
        layout@ == RECORD_LAYOUT@ ==> written_moment(stamp@, ' ', ':'),
        layout@ == FILE_LAYOUT@ ==> written_moment(stamp@, '_', '-'),
{
    chrono::Local::now().format(layout).to_string()
}

impl Severity {
    /// The tag that stands for the severity in a record's line.
    pub open spec fn tag(self) -> Seq<char> {
        match self {
            Severity::Trace => "TRACE"@,
            Severity::Info => "INFO"@,
            Severity::Warn => "WARN"@,
            Severity::Error => "ERROR"@,
        }
    }

    /// The tag that stands for the severity in a record's line.
    pub fn as_str(&self) -> (text: &'static str)
        ensures
            text@ == self.tag(),
    {
        match self {
            Severity::Trace => "TRACE",
            Severity::Info => "INFO",
            Severity::Warn => "WARN",
            Severity::Error => "ERROR",
        }
    }
}

/// What a record is made of.
pub struct LogRecordView {
    pub severity: Severity,
    pub timestamp: Seq<char>,
    pub message: Seq<char>,
}

/// One record. It lives for the call that logs it.
#[derive(Debug, PartialEq, Eq)]
pub struct LogRecord {
    pub severity: Severity,
    pub timestamp: String,
    pub message: String,
}

impl View for LogRecord {
    type V = LogRecordView;

    open spec fn view(&self) -> LogRecordView {
        LogRecordView {
            severity: self.severity,
            timestamp: self.timestamp@,
            message: self.message@,
        }
    }
}

impl LogRecord {
    /// The line of a record: the tag in square brackets, the time, a dash
    /// between spaces, and the message.
    pub open spec fn line_of(record: LogRecordView) -> Seq<char> {
        "["@ + record.severity.tag() + "] "@ + record.timestamp + " - "@ + record.message
    }

    /// The record of a message logged at the given time.
    pub fn new(severity: Severity, timestamp: &str, message: &str) -> (record: LogRecord)
        ensures
            record@ == (LogRecordView { severity, timestamp: timestamp@, message: message@ }),
    {
        LogRecord {
            severity,
            timestamp: String::from_str(timestamp),
            message: String::from_str(message),
        }
    }

    /// The line of the record.
    pub fn line(&self) -> (line: String)
        ensures
            line@ == LogRecord::line_of(self@),
    {
        let mut line = String::from_str("[");
        line.append(self.severity.as_str());
        line.append("] ");
        line.append(self.timestamp.as_str());
        line.append(" - ");
        line.append(self.message.as_str());
        line
    }
}

/// What saving a line asks for, by its content.
pub enum PersistView {
    Append { path: Seq<char>, data: Seq<char> },
    Forward { data: Seq<char> },
}

/// What saving a line asks for.
#[derive(Debug, PartialEq, Eq)]
pub enum Persist {
    /// Append `data` to the file at `path`, which is made if it is not there.
    Append { path: SysPath, data: String },
    /// Hand `data` to the sink outside the process.
    Forward { data: String },
}

impl View for Persist {
    type V = PersistView;

    open spec fn view(&self) -> PersistView {
        match *self {
            Persist::Append { path, data } => PersistView::Append { path: path@, data: data@ },
            Persist::Forward { data } => PersistView::Forward { data: data@ },
        }
    }
}

/// The channel on which a line is shown at once.
#[derive(Clone, Copy, Debug, PartialEq, Eq, Structural)]
pub enum Channel {
    /// Standard output.
    Stdout,
    /// The debug view.
    Inspect,
}

/// What is to happen with a record, by its content.
pub struct EmissionView {
    pub line: Seq<char>,
    pub persist: Option<PersistView>,
    pub channel: Option<Channel>,
}

/// What is to happen with a record that the policy let through. The line is
/// saved first and shown after; where saving fails the call ends there, and
/// the line is not shown.
#[derive(Debug, PartialEq, Eq)]
pub struct Emission {
    /// The record's line.
    pub line: String,
    /// How the line is saved, where it is.
    pub persist: Option<Persist>,
    /// Where the line is shown, where it is.
    pub channel: Option<Channel>,
}

impl View for Emission {
    type V = EmissionView;

    open spec fn view(&self) -> EmissionView {
        EmissionView {
            line: self.line@,
            persist: match self.persist {
                Some(persist) => Some(persist@),
                None => None,
            },
            channel: self.channel,
        }
    }
}

/// A backend, by its content.
pub enum BackendView {
    Debug(DebugLoggerView),
    Production,
}

/// The backend that saves records: one for each profile.
#[derive(Debug, PartialEq, Eq)]
pub enum Backend {
    Debug(DebugLogger),
    Production(ProductionLogger),
}

impl View for Backend {
    type V = BackendView;

    open spec fn view(&self) -> BackendView {
        match *self {
            Backend::Debug(logger) => BackendView::Debug(logger@),
            Backend::Production(_) => BackendView::Production,
        }
    }
}

impl Backend {
    /// The backend of a profile, as it is opened at the moment that `stamp`
    /// spells.
    pub open spec fn at(profile: Profile, root: Seq<char>, stamp: Seq<char>) -> BackendView {
        match profile {
            Profile::Debug => BackendView::Debug(DebugLogger::at(root, stamp)),
            Profile::Production => BackendView::Production,
        }
    }

    /// What saving `line` through a backend asks for.
    pub open spec fn saved(backend: BackendView, line: Seq<char>) -> PersistView {
        match backend {
            BackendView::Debug(logger) => PersistView::Append {
                path: DebugLogger::target(logger),
                data: line + "\n"@,
            },
            BackendView::Production => PersistView::Forward { data: line },
        }
    }

    /// Opens the backend of a profile now.
    pub fn open(profile: Profile, paths: &Path) -> (backend: Backend)
        ensures
            exists|stamp: Seq<char>|
                {
                    &&& profile == Profile::Debug ==> written_moment(stamp, '_', '-')
                    &&& backend@ == #[trigger] Backend::at(profile, paths@, stamp)
                },
    {
        match profile {
            Profile::Debug => {
                let logger = DebugLogger::open(paths);
                proof {
                    let stamp = choose|stamp: Seq<char>|
                        written_moment(stamp, '_', '-') && logger@ == #[trigger] DebugLogger::at(
                            paths@,
                            stamp,
                        );
                    assert(Backend::Debug(logger)@ == Backend::at(profile, paths@, stamp));
                }
                Backend::Debug(logger)
            },
            Profile::Production => {
                proof {
                    assert(Backend::Production(ProductionLogger)@ == Backend::at(
                        profile,
                        paths@,
                        Seq::<char>::empty(),
                    ));
                }
                Backend::Production(ProductionLogger::open())
            },
        }
    }

    /// Opens the backend of a profile at a given moment.
    pub fn opened_at(profile: Profile, paths: &Path, timestamp: &str) -> (backend: Backend)
        ensures
            backend@ == Backend::at(profile, paths@, timestamp@),
    {
        match profile {
            Profile::Debug => Backend::Debug(DebugLogger::opened_at(paths, timestamp)),
            Profile::Production => Backend::Production(ProductionLogger::open()),
        }
    }

    /// What saving `line` asks for.
    pub fn save(&self, line: &String) -> (persist: Persist)
        ensures
            persist@ == Backend::saved(self@, line@),
    {
        match self {
            Backend::Debug(logger) => logger.save(line),
            Backend::Production(logger) => logger.save(line),
        }
    }
}

/// The facade.
pub struct Logger;

impl Logger {
    /// What is to happen with a record. Nothing, where logging is off or the
    /// record's severity is. Otherwise the record's line is saved through the
    /// backend where the configuration asks for saving, and shown where the
    /// caller asks for it: on the debug view where the configuration says so,
    /// on standard output where it does not.
    pub open spec fn emission(
        configs: ConfigsView,
        backend: BackendView,
        record: LogRecordView,
        show: bool,
    ) -> Option<EmissionView> {
        if configs.log.allows(record.severity) {
            let line = LogRecord::line_of(record);
            Some(
                EmissionView {
                    line,
                    persist: if configs.save {
                        Some(Backend::saved(backend, line))
                    } else {
                        None
                    },
                    channel: if !show {
                        None
                    } else if configs.debug {
                        Some(Channel::Inspect)
                    } else {
                        Some(Channel::Stdout)
                    },
                },
            )
        } else {
            None
        }
    }

    /// Decides what is to happen with a record.
    pub fn emit(configs: &Configs, backend: &Backend, record: &LogRecord, show: bool) -> (emitted:
        Option<Emission>)
        ensures
            match emitted {
                Some(emission) => Logger::emission(configs@, backend@, record@, show) == Some(
                    emission@,
                ),
                None => Logger::emission(configs@, backend@, record@, show) is None,
            },
    {
        if !configs.log().enabled(record.severity) {
            return None;
        }
        let line = record.line();
        let persist = if configs.save() {
            Some(backend.save(&line))
        } else {
            None
        };
        let channel = if !show {
            None
        } else if configs.debug() {
            Some(Channel::Inspect)
        } else {
            Some(Channel::Stdout)
        };
        Some(Emission { line, persist, channel })
    }

    /// What a call that logs now answers. Where the policy holds the record
    /// back: that nothing is to happen. Where it lets the record through:
    /// what is to happen with the record, stamped with a moment as the clock
    /// writes it, through the profile's backend; the debug backend is named
    /// after a moment as the clock writes it for file names.
    pub open spec fn logged_now(
        configs: ConfigsView,
        root: Seq<char>,
        severity: Severity,
        message: Seq<char>,
        show: bool,
        logged: Option<Emission>,
    ) -> bool {
        if configs.log.allows(severity) {
            logged matches Some(emission) && exists|opened: Seq<char>, timestamp: Seq<char>|
                {
                    &&& configs.profile == Profile::Debug ==> written_moment(opened, '_', '-')
                    &&& written_moment(timestamp, ' ', ':')
                    &&& Some(emission@) == #[trigger] Logger::emission(
                        configs,
                        Backend::at(configs.profile, root, opened),
                        LogRecordView { severity, timestamp, message },
                        show,
                    )
                }
        } else {
            logged is None
        }
    }

    /// Logs a message now, at the given severity. Where the policy holds the
    /// record back, nothing is asked of the clock and nothing is to happen.
    /// Where it lets the record through, the clock gives the moment at which
    /// the backend is opened and the time of the record.
    pub fn log(
        configs: &Configs,
        paths: &Path,
        severity: Severity,
        message: &str,
        show: bool,
    ) -> (logged: Option<Emission>)
        ensures
            Logger::logged_now(configs@, paths@, severity, message@, show, logged),
    {
        if !configs.log().enabled(severity) {
            return None;
        }
        let backend = Backend::open(configs.profile(), paths);
        let timestamp = local_time(RECORD_LAYOUT);
        let record = LogRecord::new(severity, timestamp.as_str(), message);
        let emitted = Logger::emit(configs, &backend, &record, show);
        proof {
            let opened = choose|opened: Seq<char>|
                {
                    &&& configs@.profile == Profile::Debug ==> written_moment(opened, '_', '-')
                    &&& backend@ == #[trigger] Backend::at(configs@.profile, paths@, opened)
                };
            assert(Logger::emission(configs@, backend@, record@, show) == Logger::emission(
                configs@,
                Backend::at(configs@.profile, paths@, opened),
                LogRecordView { severity, timestamp: timestamp@, message: message@ },
                show,
            ));
        }
        emitted
    }

    /// Logs a message at severity `Info`.
    pub fn info(configs: &Configs, paths: &Path, message: &str, show: bool) -> (logged: Option<
        Emission,
    >)
        ensures
            Logger::logged_now(configs@, paths@, Severity::Info, message@, show, logged),
    {
        Logger::log(configs, paths, Severity::Info, message, show)
    }

    /// Logs a message at severity `Trace`.
    pub fn trace(configs: &Configs, paths: &Path, message: &str, show: bool) -> (logged: Option<
        Emission,
    >)
        ensures
            Logger::logged_now(configs@, paths@, Severity::Trace, message@, show, logged),
    {
        Logger::log(configs, paths, Severity::Trace, message, show)
    }

    /// Logs a message at severity `Warn`.
    pub fn warn(configs: &Configs, paths: &Path, message: &str, show: bool) -> (logged: Option<
        Emission,
    >)
        ensures
            Logger::logged_now(configs@, paths@, Severity::Warn, message@, show, logged),
    {
        Logger::log(configs, paths, Severity::Warn, message, show)
    }

    /// Logs a message at severity `Error`.
    pub fn error(configs: &Configs, paths: &Path, message: &str, show: bool) -> (logged: Option<
        Emission,
    >)
        ensures
            Logger::logged_now(configs@, paths@, Severity::Error, message@, show, logged),
    {
        Logger::log(configs, paths, Severity::Error, message, show)
    }

    /// With logging switched off nothing happens with any record: nothing is
    /// saved and nothing is shown, whatever the severity, the backend and the
    /// other settings.
    pub proof fn lemma_switched_off_is_silent(
        configs: ConfigsView,
        backend: BackendView,
        record: LogRecordView,
        show: bool,
    )
        requires
            !configs.log.on,
        ensures
            Logger::emission(configs, backend, record, show) is None,
    {
    }

    /// With logging switched on, a record passes exactly where its own
    /// severity is switched on; the switches of the other severities do not
    /// count. A record that passes is saved exactly where the configuration
    /// asks for saving, and shown exactly where the caller asks for it.
    pub proof fn lemma_severity_gates(
        configs: ConfigsView,
        backend: BackendView,
        record: LogRecordView,
        show: bool,
    )
        requires
            configs.log.on,
        ensures
            Logger::emission(configs, backend, record, show) is Some <==> configs.log.kinds.allows(
                record.severity,
            ),
            Logger::emission(configs, backend, record, show) matches Some(emission) ==> {
                &&& emission.line == LogRecord::line_of(record)
                &&& emission.persist is Some <==> configs.save
                &&& emission.channel is Some <==> show
            },
    {
    }
}

} // verus!
