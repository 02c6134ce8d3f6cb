//! The backend of the debug profile: records go to a file of their own.
//!
//! The file lies in the directory `logs` below the root and is named after
//! the moment at which the backend was opened.

use crate::logger::{local_time, written_moment, Persist, PersistView};
use crate::path::{pushed, Path, SysPath};
use vstd::prelude::*;

verus! {

/// The layout of the moment in the name of a log file.
pub const FILE_LAYOUT: &'static str = "%Y-%m-%d_%H-%M-%S";

/// The name of the log file of a backend opened at `stamp`.
pub open spec fn log_file_name(stamp: Seq<char>) -> Seq<char> {
    "log_"@ + stamp + ".txt"@
}

/// What a debug backend is made of.
pub struct DebugLoggerView {
    pub folder: Seq<char>,
    pub file_name: Seq<char>,
}

/// The backend that appends records to a file.
#[derive(Debug, PartialEq, Eq)]
pub struct DebugLogger {
    folder: SysPath,
    file_name: String,
}

impl View for DebugLogger {
    type V = DebugLoggerView;

    closed spec fn view(&self) -> DebugLoggerView {
        DebugLoggerView { folder: self.folder@, file_name: self.file_name@ }
    }
}

impl DebugLogger {
    /// The backend as it is opened at the moment that `stamp` spells.
    pub open spec fn at(root: Seq<char>, stamp: Seq<char>) -> DebugLoggerView {
        DebugLoggerView { folder: pushed(root, "logs"@), file_name: log_file_name(stamp) }
    }

    /// The file that the backend writes to.
    pub open spec fn target(logger: DebugLoggerView) -> Seq<char> {
        pushed(logger.folder, logger.file_name)
    }

    /// Opens the backend now. The clock decides the file's name.
    pub fn open(paths: &Path) -> (logger: DebugLogger)
        ensures
            exists|stamp: Seq<char>|
                written_moment(stamp, '_', '-') && logger@ == #[trigger] DebugLogger::at(
                    paths@,
                    stamp,
                ),
    {
        let timestamp = local_time(FILE_LAYOUT);
        DebugLogger::opened_at(paths, timestamp.as_str())
    }

    /// Opens the backend at a given moment.
    pub fn opened_at(paths: &Path, timestamp: &str) -> (logger: DebugLogger)
        ensures
            logger@ == DebugLogger::at(paths@, timestamp@),
    {
        let folder = Path::join(paths.root(), String::from_str("logs"));
        let mut file_name = String::from_str("log_");
        file_name.append(timestamp);
        file_name.append(".txt");
        DebugLogger { folder, file_name }
    }

    /// What saving `message` asks for: that it be appended, as a line of its
    /// own, to the backend's file.
    pub fn save(&self, message: &String) -> (persist: Persist)
        ensures
            persist@ == (PersistView::Append {
                path: DebugLogger::target(self@),
                data: message@ + "\n"@,
            }),
    {
        let path = Path::join(&self.folder, self.file_name.clone());
        let mut data = message.clone();
        data.append("\n");
        Persist::Append { path, data }
    }
}

} // verus!
