//! Writer backed logger
use vstd::prelude::*;
use core::str::FromStr;
use crate::boot_info::{find_arg_in, spec_find_arg};

verus! {

/// The verbosity levels of the messages
#[derive(Clone, Copy, PartialEq, Eq, Structural, Debug)]
pub enum LogLevel {
    Error,
    Warn,
    Info,
    Debug,
    Trace,
}

/// The most verbose level that the logger lets through, or none
#[derive(Clone, Copy, PartialEq, Eq, Structural, Debug)]
pub enum LogLevelFilter {
    Off,
    Error,
    Warn,
    Info,
    Debug,
    Trace,
}

/// The upper case of an ASCII letter, any other character unchanged
pub open spec fn ascii_upper(c: char) -> char {
    if 'a' as u32 <= c as u32 <= 'z' as u32 {
        ((c as u32) - 32) as char
    } else {
        c
    }
}

/// `a` and `b` are equal but for the case of their ASCII letters
pub open spec fn eq_ignore_ascii_case(a: Seq<char>, b: Seq<char>) -> bool {
    &&& a.len() == b.len()
    &&& forall|i: int| 0 <= i < a.len() ==> ascii_upper(#[trigger] a[i]) == ascii_upper(b[i])
}

/// The filter that the name `s` writes, in any case: `OFF`, `ERROR`,
/// `WARN`, `INFO`, `DEBUG` or `TRACE`
pub open spec fn spec_level_filter_of(s: Seq<char>) -> Option<LogLevelFilter> {
    if eq_ignore_ascii_case(s, seq!['O', 'F', 'F']) {
        Some(LogLevelFilter::Off)
    } else if eq_ignore_ascii_case(s, seq!['E', 'R', 'R', 'O', 'R']) {
        Some(LogLevelFilter::Error)
    } else if eq_ignore_ascii_case(s, seq!['W', 'A', 'R', 'N']) {
        Some(LogLevelFilter::Warn)
    } else if eq_ignore_ascii_case(s, seq!['I', 'N', 'F', 'O']) {
        Some(LogLevelFilter::Info)
    } else if eq_ignore_ascii_case(s, seq!['D', 'E', 'B', 'U', 'G']) {
        Some(LogLevelFilter::Debug)
    } else if eq_ignore_ascii_case(s, seq!['T', 'R', 'A', 'C', 'E']) {
        Some(LogLevelFilter::Trace)
    } else {
        None
    }
}

/// Sets the most verbose level that `log` lets through, with
/// `log::set_max_level`. It stores the level into a global of `log`; nothing
/// is stated of that global state
#[verifier::external_body]
fn set_log_max_level(level_filter: LogLevelFilter) {
    log::set_max_level(
        match level_filter {
            LogLevelFilter::Off => log::LevelFilter::Off,
            LogLevelFilter::Error => log::LevelFilter::Error,
            LogLevelFilter::Warn => log::LevelFilter::Warn,
            LogLevelFilter::Info => log::LevelFilter::Info,
            LogLevelFilter::Debug => log::LevelFilter::Debug,
            LogLevelFilter::Trace => log::LevelFilter::Trace,
        },
    );
}

/// Parses the level filter name `name` with `log::LevelFilter::from_str`,
/// which compares it, ignoring the case of ASCII letters, with the names
/// `OFF`, `ERROR`, `WARN`, `INFO`, `DEBUG` and `TRACE`
#[verifier::external_body]
fn parse_level_filter(name: &Vec<char>) -> (r: Option<LogLevelFilter>)
    ensures
        r == spec_level_filter_of(name@),
{
    let text: String = name.iter().collect();
    match log::LevelFilter::from_str(&text) {
        Ok(log::LevelFilter::Off) => Some(LogLevelFilter::Off),
        Ok(log::LevelFilter::Error) => Some(LogLevelFilter::Error),
        Ok(log::LevelFilter::Warn) => Some(LogLevelFilter::Warn),
        Ok(log::LevelFilter::Info) => Some(LogLevelFilter::Info),
        Ok(log::LevelFilter::Debug) => Some(LogLevelFilter::Debug),
        Ok(log::LevelFilter::Trace) => Some(LogLevelFilter::Trace),
        Err(_) => None,
    }
}

/// The key of the command line argument that sets the logging level
pub open spec fn log_level_key() -> Seq<char> {
    seq!['-', 'l', 'o', 'g', '-', 'l', 'e', 'v', 'e', 'l']
}

/// The level that the command line `cmdline` chooses with its argument
/// `-log-level=<name>`, `fallback` when it has none or a bad name
pub open spec fn spec_cmdline_level(cmdline: Seq<char>, fallback: LogLevelFilter) -> LogLevelFilter {
    match spec_find_arg(cmdline, log_level_key()) {
        Some((_, Some(name))) => match spec_level_filter_of(name) {
            Some(level_filter) => level_filter,
            None => fallback,
        },
        _ => fallback,
    }
}

/// Returns the level that the command line `cmdline` chooses with its
/// argument `-log-level=<name>`, `fallback` when it has none or a bad name
pub fn cmdline_logging_level(cmdline: &str, fallback: LogLevelFilter) -> (r: LogLevelFilter)
    ensures
        r == spec_cmdline_level(cmdline@, fallback),
{
    let key = "-log-level";
    proof {
        reveal_strlit("-log-level");
        assert(key@ =~= log_level_key());
    }
    match find_arg_in(cmdline, key) {
        Some((_, Some(name))) => match parse_level_filter(&name) {
            Some(level_filter) => level_filter,
            None => fallback,
        },
        _ => fallback,
    }
}

/// The backend of a logger: a serial output, the video or a file
pub trait LoggerWriter: Sized {
    /// Constructs an initialized writer
    fn new() -> Self;
}

/// Generic writer backed logger
pub struct Logger<W: LoggerWriter> {
    pub m_inner: Option<W>,
}

/// The ANSI color of the messages of each level
pub open spec fn spec_color_escape(level: LogLevel) -> u8 {
    match level {
        LogLevel::Error => 31,
        LogLevel::Warn => 33,
        LogLevel::Info => 32,
        LogLevel::Debug => 35,
        LogLevel::Trace => 37,
    }
}

impl<W: LoggerWriter> Logger<W> {
    pub const ESC_RED: u8 = 31;
    pub const ESC_GREEN: u8 = 32;
    pub const ESC_YELLOW: u8 = 33;
    pub const ESC_MAGENTA: u8 = 35;
    pub const ESC_CYAN: u8 = 36;
    pub const ESC_WHITE: u8 = 37;

    /// Constructs a `Logger` without its writer, which `init` gives
    pub fn new_uninitialized() -> (r: Self)
        ensures
            r.m_inner is None,
    {
        Self { m_inner: None }
    }

    /// Constructs the writer
    pub fn init(&mut self)
        ensures
            final(self).m_inner is Some,
    {
        self.m_inner = Some(W::new());
    }

    /// Tells whether the writer is there, as the logger must be before it
    /// serves as the global logger
    pub fn is_initialized(&self) -> (r: bool)
        ensures
            r == self.m_inner is Some,
    {
        self.m_inner.is_some()
    }

    /// Returns the ANSI color of the messages of `level`
    pub fn color_escape(level: LogLevel) -> (r: u8)
        ensures
            r == spec_color_escape(level),
    {
        match level {
            LogLevel::Error => Self::ESC_RED,
            LogLevel::Warn => Self::ESC_YELLOW,
            LogLevel::Info => Self::ESC_GREEN,
            LogLevel::Debug => Self::ESC_MAGENTA,
            LogLevel::Trace => Self::ESC_WHITE,
        }
    }

    /// Sets the logging level to the one that the command line chooses with
    /// `-log-level=<name>`, `fallback` when it has none or a bad name
    pub fn set_max_logging_level_from_cmdline(&self, cmdline: &str, fallback: LogLevelFilter) {
        self.set_max_logging_level(cmdline_logging_level(cmdline, fallback));
    }

    /// Sets the most verbose level that the logger lets through
    pub fn set_max_logging_level(&self, level_filter: LogLevelFilter) {
        set_log_max_level(level_filter);
    }
}

} // verus!
