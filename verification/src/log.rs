//! Log levels and the text of a log line.

use vstd::prelude::*;
use vstd::string::*;
use crate::text::str_eq;

verus! {

/// Severity of a log line, from least to most severe.
#[derive(Copy, Clone, Debug, PartialEq, Eq)]
pub enum LogLevel {
    Trace,
    Debug,
    Info,
    Warning,
    Error,
}

impl LogLevel {
    /// Position of the level in the order of severity.
    pub open spec fn rank(self) -> nat {
        match self {
            LogLevel::Trace => 0,
            LogLevel::Debug => 1,
            LogLevel::Info => 2,
            LogLevel::Warning => 3,
            LogLevel::Error => 4,
        }
    }

    /// The lower-case name under which the level is printed.
    pub open spec fn name(self) -> Seq<char> {
        match self {
            LogLevel::Error => "error"@,
            LogLevel::Warning => "warning"@,
            LogLevel::Info => "info"@,
            LogLevel::Debug => "debug"@,
            LogLevel::Trace => "trace"@,
        }
    }

    /// The name under which the level is printed.
    pub fn as_str(&self) -> (s: &str)
        ensures
            s@ == self.name(),
    {
        match self {
            LogLevel::Error => "error",
            LogLevel::Warning => "warning",
            LogLevel::Info => "info",
            LogLevel::Debug => "debug",
            LogLevel::Trace => "trace",
        }
    }

    /// The level's position in the order of severity as a number.
    pub fn severity(&self) -> (r: u16)
        ensures
            r == self.rank(),
    {
        match self {
            LogLevel::Trace => 0,
            LogLevel::Debug => 1,
            LogLevel::Info => 2,
            LogLevel::Warning => 3,
            LogLevel::Error => 4,
        }
    }

    /// Whether a line of this level is written when `min_level` is the
    /// least severe level that is written.
    pub open spec fn passes_spec(self, min_level: LogLevel) -> bool {
        self.rank() >= min_level.rank()
    }

    /// Whether a line of this level is written under `min_level`.
    pub fn passes(&self, min_level: LogLevel) -> (r: bool)
        ensures
            r == self.passes_spec(min_level),
    {
        self.severity() >= min_level.severity()
    }

    /// The level a textual name stands for: its printed name, in lower
    /// case; no other text names a level.
    pub open spec fn named(value: Seq<char>) -> Option<LogLevel> {
        if value == "error"@ {
            Some(LogLevel::Error)
        } else if value == "warning"@ {
            Some(LogLevel::Warning)
        } else if value == "info"@ {
            Some(LogLevel::Info)
        } else if value == "debug"@ {
            Some(LogLevel::Debug)
        } else if value == "trace"@ {
            Some(LogLevel::Trace)
        } else {
            None
        }
    }

    /// Reads a level from its textual name; `None` for any other text.
    pub fn from_name(value: &str) -> (r: Option<LogLevel>)
        ensures
            r == LogLevel::named(value@),
    {
        if str_eq(value, "error") {
            Some(LogLevel::Error)
        } else if str_eq(value, "warning") {
            Some(LogLevel::Warning)
        } else if str_eq(value, "info") {
            Some(LogLevel::Info)
        } else if str_eq(value, "debug") {
            Some(LogLevel::Debug)
        } else if str_eq(value, "trace") {
            Some(LogLevel::Trace)
        } else {
            None
        }
    }
}

/// The text of a log line: `[timestamp][level][name]message`.
pub open spec fn log_text(timestamp: Seq<char>, level: LogLevel, name: Seq<char>, msg: Seq<char>) -> Seq<char> {
    "["@ + timestamp + "]["@ + level.name() + "]["@ + name + "]"@ + msg
}

/// A decimal digit.
pub open spec fn is_digit(c: char) -> bool {
    '0' <= c && c <= '9'
}

/// The layout `%Y-%m-%d %H:%M:%S` gives: the year, at least four
/// characters, all digits but for a leading sign on years outside
/// 0..=9999; then `-MM-DD HH:MM:SS`, each field two digits.
pub open spec fn is_clock_text(t: Seq<char>) -> bool {
    let n = t.len() as int;
    &&& n >= 19
    &&& t[0] == '+' || t[0] == '-' || is_digit(t[0])
    &&& forall|i: int| 1 <= i < n - 15 ==> is_digit(#[trigger] t[i])
    &&& t[n - 15] == '-' && is_digit(t[n - 14]) && is_digit(t[n - 13])
    &&& t[n - 12] == '-' && is_digit(t[n - 11]) && is_digit(t[n - 10])
    &&& t[n - 9] == ' ' && is_digit(t[n - 8]) && is_digit(t[n - 7])
    &&& t[n - 6] == ':' && is_digit(t[n - 5]) && is_digit(t[n - 4])
    &&& t[n - 3] == ':' && is_digit(t[n - 2]) && is_digit(t[n - 1])
}

/// What `log_line` may return: the line with some timestamp when the level
/// passes `min_level`, else the empty text.
pub open spec fn is_log_output(line: Seq<char>, level: LogLevel, min_level: LogLevel, name: Seq<char>, msg: Seq<char>) -> bool {
    if level.passes_spec(min_level) {
        exists|ts: Seq<char>| is_clock_text(ts) && line == #[trigger] log_text(ts, level, name, msg)
    } else {
        line == Seq::<char>::empty()
    }
}

/// Builds the text of a log line from its parts.
pub fn format_log_line(timestamp: &str, level: LogLevel, name: &str, msg: &str) -> (line: String)
    ensures
        line@ == log_text(timestamp@, level, name@, msg@),
{
    let mut line = String::from_str("[");
    line.append(timestamp);
    line.append("][");
    line.append(level.as_str());
    line.append("][");
    line.append(name);
    line.append("]");
    line.append(msg);
    line
}

/// Reads the local clock and renders it with the layout
/// `%Y-%m-%d %H:%M:%S` (chrono's `Local::now`, then `format` and
/// `to_string`), the only layout it is called with. Claimed: the text has
/// that layout (chrono's `write_year` pads the year to four digits and signs
/// years outside 0..=9999; month, day, hour, minute and second are written
/// as two digits). Which instant it shows is not claimed: it depends on the
/// clock.
#[verifier::external_body]
fn local_time_text(pattern: &str) -> (r: String)
    requires
        pattern@ == "%Y-%m-%d %H:%M:%S"@,
    ensures
        is_clock_text(r@),
{
    chrono::Local::now().format(pattern).to_string()
}

/// The log line for `msg`, stamped with the local time, or the empty
/// string when `level` is below `min_level`; the caller writes it out.
pub fn log_line(level: LogLevel, min_level: LogLevel, name: &str, msg: &str) -> (line: String)
    ensures
        is_log_output(line@, level, min_level, name@, msg@),
{
    let layout = "%Y-%m-%d %H:%M:%S";
    let timestamp = local_time_text(layout);
    if level.passes(min_level) {
        let line = format_log_line(timestamp.as_str(), level, name, msg);
        assert(line@ == log_text(timestamp@, level, name@, msg@));
        line
    } else {
        String::new()
    }
}

/// As `log_line`, with the message produced by `msgf`, which is called once.
pub fn log_line_f<F: Fn() -> String>(level: LogLevel, min_level: LogLevel, name: &str, msgf: F) -> (line: String)
    requires
        call_requires(msgf, ()),
    ensures
        exists|msg: String| call_ensures(msgf, (), msg) && is_log_output(line@, level, min_level, name@, msg@),
{
    let msg = msgf();
    log_line(level, min_level, name, msg.as_str())
}

/// An error line is written whatever the least severe level written is.
pub proof fn law_errors_always_pass(min_level: LogLevel)
    ensures
        LogLevel::Error.passes_spec(min_level),
{
}

/// Lowering the least severe level written never drops a line: what passes
/// a stricter minimum passes a looser one.
pub proof fn law_lower_minimum_keeps_lines(level: LogLevel, looser: LogLevel, stricter: LogLevel)
    requires
        looser.rank() <= stricter.rank(),
        level.passes_spec(stricter),
    ensures
        level.passes_spec(looser),
{
}

/// The printed name of every level reads back as the same level.
pub proof fn law_name_reads_back(level: LogLevel)
    ensures
        LogLevel::named(level.name()) == Some(level),
{
    reveal_strlit("error");
    reveal_strlit("warning");
    reveal_strlit("info");
    reveal_strlit("debug");
    reveal_strlit("trace");
    assert("warning"@[0] != "error"@[0]);
    assert("info"@[0] != "error"@[0]);
    assert("info"@[0] != "warning"@[0]);
    assert("debug"@[0] != "error"@[0]);
    assert("debug"@[0] != "warning"@[0]);
    assert("debug"@[0] != "info"@[0]);
    assert("trace"@[0] != "error"@[0]);
    assert("trace"@[0] != "warning"@[0]);
    assert("trace"@[0] != "info"@[0]);
    assert("trace"@[0] != "debug"@[0]);
}

/// Every level passes a minimum equal to itself, and every level passes the
/// least severe minimum, `trace`: with that minimum every line is written.
pub proof fn law_level_passes_itself_and_trace(level: LogLevel)
    ensures
        level.passes_spec(level),
        level.passes_spec(LogLevel::Trace),
{
}

/// With a minimum level, the levels that pass are exactly the minimum and
/// the more severe ones, in the order trace, debug, info, warning, error.
pub proof fn law_passing_levels(min_level: LogLevel)
    ensures
        LogLevel::Error.passes_spec(min_level),
        min_level != LogLevel::Error ==> LogLevel::Warning.passes_spec(min_level),
        (min_level == LogLevel::Trace || min_level == LogLevel::Debug || min_level == LogLevel::Info) ==> LogLevel::Info.passes_spec(min_level),
        (min_level == LogLevel::Trace || min_level == LogLevel::Debug) ==> LogLevel::Debug.passes_spec(min_level),
        LogLevel::Trace.passes_spec(min_level) == (min_level == LogLevel::Trace),
        LogLevel::Debug.passes_spec(min_level) == (min_level == LogLevel::Trace || min_level == LogLevel::Debug),
        LogLevel::Info.passes_spec(min_level) == !(min_level == LogLevel::Warning || min_level == LogLevel::Error),
        LogLevel::Warning.passes_spec(min_level) == (min_level != LogLevel::Error),
{
}

} // verus!
