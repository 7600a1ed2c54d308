//! Named loggers: each logger turns a message into a log record tagged with the
//! crate and the logger's name; the caller hands the records to the global logger.
use vstd::prelude::*;

verus! {

/// The severity of a log record.
#[derive(Clone, Copy, Debug, PartialEq, Eq, Structural)]
pub enum LogLevel {
    Error,
    Warn,
    Info,
    Debug,
    Trace,
}

/// A log record: its level, its target (`<crate>-<logger>`), the module
/// (the crate) and the message.
#[derive(Debug)]
pub struct LogRecord {
    pub level: LogLevel,
    pub target: String,
    pub module: String,
    pub message: String,
}

/// A named logger of a crate.
#[derive(Debug)]
pub struct Logger {
    crate_name: &'static str,
    logger_name: &'static str,
}

/// The name of this crate, which every logger it makes carries.
pub open spec fn package_name() -> Seq<char> {
    "senka_panel"@
}

/// The record that `logger` makes of `message` at `level`.
pub open spec fn record_matches(
    record: LogRecord,
    crate_name: Seq<char>,
    logger_name: Seq<char>,
    level: LogLevel,
    message: Seq<char>,
) -> bool {
    &&& record.level == level
    &&& record.target@ == crate_name + "-"@ + logger_name
    &&& record.module@ == crate_name
    &&& record.message@ == message
}

impl Logger {
    /// The crate whose logger this is.
    pub closed spec fn crate_of(&self) -> Seq<char> {
        self.crate_name@
    }

    /// The name of the logger.
    pub closed spec fn name_of(&self) -> Seq<char> {
        self.logger_name@
    }

    fn new(logger_name: &'static str) -> (res: Self)
        ensures
            res.crate_of() == package_name(),
            res.name_of() == logger_name@,
    {
        Logger { crate_name: "senka_panel", logger_name }
    }

    /// The record of `message` at `level`.
    pub fn log(&self, level: LogLevel, message: &str) -> (res: LogRecord)
        ensures
            record_matches(res, self.crate_of(), self.name_of(), level, message@),
    {
        let mut target = String::from_str(self.crate_name);
        target.append("-");
        target.append(self.logger_name);
        LogRecord {
            level,
            target,
            module: String::from_str(self.crate_name),
            message: String::from_str(message),
        }
    }

    /// The record of `message` at level `Trace`.
    pub fn trace(&self, message: &str) -> (res: LogRecord)
        ensures
            record_matches(res, self.crate_of(), self.name_of(), LogLevel::Trace, message@),
    {
        self.log(LogLevel::Trace, message)
    }

    /// The record of `message` at level `Debug`.
    pub fn debug(&self, message: &str) -> (res: LogRecord)
        ensures
            record_matches(res, self.crate_of(), self.name_of(), LogLevel::Debug, message@),
    {
        self.log(LogLevel::Debug, message)
    }

    /// The record of `message` at level `Info`.
    pub fn info(&self, message: &str) -> (res: LogRecord)
        ensures
            record_matches(res, self.crate_of(), self.name_of(), LogLevel::Info, message@),
    {
        self.log(LogLevel::Info, message)
    }

    /// The record of `message` at level `Warn`.
    pub fn warn(&self, message: &str) -> (res: LogRecord)
        ensures
            record_matches(res, self.crate_of(), self.name_of(), LogLevel::Warn, message@),
    {
        self.log(LogLevel::Warn, message)
    }

    /// The record of `message` at level `Error`.
    pub fn error(&self, message: &str) -> (res: LogRecord)
        ensures
            record_matches(res, self.crate_of(), self.name_of(), LogLevel::Error, message@),
    {
        self.log(LogLevel::Error, message)
    }
}

/// A logger of this crate with the given name.
pub fn get_logger(logger_name: &'static str) -> (res: Logger)
    ensures
        res.crate_of() == package_name(),
        res.name_of() == logger_name@,
{
    Logger::new(logger_name)
}

/// Whether a character separates the parts of a path (`/` or `\`).
pub open spec fn is_path_separator(c: char) -> bool {
    c == '/' || c == '\\'
}

/// Where the last part of `s[..end]` begins: just after the last separator,
/// or at 0 when there is none.
pub open spec fn last_part_start(s: Seq<char>, end: int) -> int
    decreases end,
{
    if end <= 0 {
        0
    } else if is_path_separator(s[end - 1]) {
        end
    } else {
        last_part_start(s, end - 1)
    }
}

/// The position of the last `.` in `s[from..end]`, or -1 when there is none.
pub open spec fn last_dot(s: Seq<char>, from: int, end: int) -> int
    decreases end - from,
{
    if end <= from {
        -1
    } else if s[end - 1] == '.' {
        end - 1
    } else {
        last_dot(s, from, end - 1)
    }
}

/// The file name of a path without its extension: the part after the last
/// separator, cut at its last `.` when it has one.
pub open spec fn file_stem(s: Seq<char>) -> Seq<char> {
    let start = last_part_start(s, s.len() as int);
    let dot = last_dot(s, start, s.len() as int);
    if dot >= 0 {
        s.subrange(start, dot)
    } else {
        s.subrange(start, s.len() as int)
    }
}

proof fn lemma_last_part_start_bounds(s: Seq<char>, end: int)
    requires
        0 <= end <= s.len(),
    ensures
        0 <= last_part_start(s, end) <= end,
    decreases end,
{
    if end > 0 && !is_path_separator(s[end - 1]) {
        lemma_last_part_start_bounds(s, end - 1);
    }
}

proof fn lemma_last_dot_bounds(s: Seq<char>, from: int, end: int)
    ensures
        last_dot(s, from, end) == -1 || from <= last_dot(s, from, end) < end,
    decreases end - from,
{
    if end > from && s[end - 1] != '.' {
        lemma_last_dot_bounds(s, from, end - 1);
    }
}

/// The name of a source file without directories and extension, as a logger
/// named after its file is called (`src/routes/user.rs` gives `user`).
pub fn extract_filename(file_path: &str) -> (res: String)
    ensures
        res@ == file_stem(file_path@),
{
    let len = file_path.unicode_len();
    let mut start = len;
    while start > 0 && !(file_path.get_char(start - 1) == '/' || file_path.get_char(start - 1) == '\\')
        invariant
            len == file_path@.len(),
            start <= len,
            last_part_start(file_path@, len as int) == last_part_start(file_path@, start as int),
        decreases start,
    {
        start = start - 1;
    }
    proof {
        lemma_last_part_start_bounds(file_path@, len as int);
    }
    let mut end = len;
    let mut dot: Option<usize> = None;
    while end > start && dot.is_none()
        invariant
            len == file_path@.len(),
            start <= end <= len,
            start == last_part_start(file_path@, len as int),
            dot is None ==> last_dot(file_path@, start as int, len as int) == last_dot(
                file_path@,
                start as int,
                end as int,
            ),
            dot matches Some(d) ==> d as int == last_dot(file_path@, start as int, len as int) && start <= d < len,
        decreases end - start + (if dot is None { 1int } else { 0 }),
    {
        if file_path.get_char(end - 1) == '.' {
            dot = Some(end - 1);
        } else {
            end = end - 1;
        }
    }
    proof {
        lemma_last_dot_bounds(file_path@, start as int, len as int);
    }
    let stop = match dot {
        Some(d) => d,
        None => len,
    };
    String::from_str(file_path.substring_char(start, stop))
}

} // verus!
