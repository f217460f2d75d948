//! Monitor actions and the evaluation of a check's outcome: regular
//! expression tests on a response, exit status of a command, status codes.

use vstd::prelude::*;
use vstd::string::*;
use crate::prog_settings::MonitorTarget;
use crate::text::{str_eq, push_decimal};

verus! {

/// An error carried by a check, with its message.
pub struct Error {
    msg: String,
}

impl View for Error {
    type V = Seq<char>;

    closed spec fn view(&self) -> Seq<char> {
        self.msg@
    }
}

impl Error {
    /// An error with message `msg`.
    pub fn new(msg: &str) -> (e: Error)
        ensures
            e@ == msg@,
    {
        Error { msg: String::from_str(msg) }
    }

    /// The message.
    pub fn to_string(&self) -> (s: String)
        ensures
            s@ == self@,
    {
        self.msg.clone()
    }
}

/// What one round of a target's monitoring does.
#[derive(Copy, Clone, Debug, PartialEq, Eq)]
pub enum MonitorAction {
    /// Request the target's URL.
    Web,
    /// Run the target's check command.
    CustomCommand,
    /// Wait; the value is the pause handed to the sleep.
    Sleep(i64),
}

/// The action a target's `kind` calls for: `web` or `custom`.
pub open spec fn action_for_kind(kind: Seq<char>) -> Option<MonitorAction> {
    if kind == "web"@ {
        Some(MonitorAction::Web)
    } else if kind == "custom"@ {
        Some(MonitorAction::CustomCommand)
    } else {
        None
    }
}

impl MonitorAction {
    /// The action for a target, by its `kind`; `None` for an unknown kind.
    pub fn from_target(target: &MonitorTarget) -> (r: Option<MonitorAction>)
        ensures
            r == action_for_kind(target.kind@),
    {
        if str_eq(target.kind.as_str(), "web") {
            Some(MonitorAction::Web)
        } else if str_eq(target.kind.as_str(), "custom") {
            Some(MonitorAction::CustomCommand)
        } else {
            None
        }
    }
}

/// A compiled regular expression together with the pattern it came from.
pub struct Pattern {
    source: String,
    compiled: regex::Regex,
}

#[verifier::external_type_specification]
#[verifier::external_body]
pub struct ExRegex(regex::Regex);

impl Pattern {
    /// The pattern text the expression was compiled from.
    pub closed spec fn source(&self) -> Seq<char> {
        self.source@
    }
}

/// What `regex::Regex::new` gives for a pattern: `None` when it compiles,
/// else the text of its error.
pub uninterp spec fn regex_compile_error(pattern: Seq<char>) -> Option<Seq<char>>;

/// What `regex::Regex::is_match` answers for the expression compiled from
/// `pattern` on `text`.
pub uninterp spec fn regex_is_match(pattern: Seq<char>, text: Seq<char>) -> bool;

/// Calls `regex::Regex::new`, keeping the pattern beside the result and the
/// error as its text (`to_string`). Claimed: the outcome is the one named
/// by `regex_compile_error` for this pattern.
#[verifier::external_body]
fn compile_pattern(pattern: &str) -> (r: Result<Pattern, String>)
    ensures
        match r {
            Ok(p) => p.source() == pattern@ && regex_compile_error(pattern@) is None,
            Err(m) => regex_compile_error(pattern@) == Some(m@),
        },
{
    match regex::Regex::new(pattern) {
        Ok(re) => Ok(Pattern { source: pattern.to_string(), compiled: re }),
        Err(e) => Err(e.to_string()),
    }
}

/// Calls `regex::Regex::is_match`. Claimed: the answer is the one named by
/// `regex_is_match` for the pattern and the text.
#[verifier::external_body]
fn pattern_is_match(p: &Pattern, text: &str) -> (r: bool)
    ensures
        r == regex_is_match(p.source(), text@),
{
    p.compiled.is_match(text)
}

/// An optional string as optional text.
pub open spec fn opt_text(o: Option<String>) -> Option<Seq<char>> {
    match o {
        Some(s) => Some(s@),
        None => None,
    }
}

/// The text handed to a match test, or the error that took its place.
pub open spec fn text_view(t: Result<&str, Error>) -> Result<Seq<char>, Seq<char>> {
    match t {
        Ok(s) => Ok(s@),
        Err(e) => Err(e@),
    }
}

/// A check's outcome as texts.
pub open spec fn outcome_view(r: Result<Option<String>, String>) -> Result<Option<Seq<char>>, Seq<char>> {
    match r {
        Ok(Some(s)) => Ok(Some(s@)),
        Ok(None) => Ok(None),
        Err(e) => Err(e@),
    }
}

/// Why the `expect_match` test fails, if it does: the pattern does not
/// compile, the text is missing, or the text does not match.
pub open spec fn expect_match_failure(expect: Option<Seq<char>>, text: Result<Seq<char>, Seq<char>>) -> Option<Seq<char>> {
    match expect {
        None => None,
        Some(p) => match regex_compile_error(p) {
            Some(e) => Some(e),
            None => match text {
                Err(m) => Some(m),
                Ok(t) => if regex_is_match(p, t) {
                    None
                } else {
                    Some("Content did not match against regex: "@ + p)
                },
            },
        },
    }
}

/// Why the `expect_unmatch` test fails, if it does: the pattern does not
/// compile, the text is missing, or the text matches the pattern, which
/// the message names.
pub open spec fn expect_unmatch_failure(expect_unmatch: Option<Seq<char>>, text: Result<Seq<char>, Seq<char>>) -> Option<Seq<char>> {
    match expect_unmatch {
        None => None,
        Some(p) => match regex_compile_error(p) {
            Some(e) => Some(e),
            None => match text {
                Err(m) => Some(m),
                Ok(t) => if !regex_is_match(p, t) {
                    None
                } else {
                    Some("Content unexpectedly matched against regex: "@ + p)
                },
            },
        },
    }
}

/// The outcome of the match tests: the first failure, else success with
/// no message.
pub open spec fn check_match_result(expect_match: Option<Seq<char>>, expect_unmatch: Option<Seq<char>>, text: Result<Seq<char>, Seq<char>>) -> Result<Option<Seq<char>>, Seq<char>> {
    match expect_match_failure(expect_match, text) {
        Some(m) => Err(m),
        None => match expect_unmatch_failure(expect_unmatch, text) {
            Some(m) => Err(m),
            None => Ok(None),
        },
    }
}

/// Runs the target's match tests on `text` (see `check_match_result`): the
/// text must match `expect_match` and must not match `expect_unmatch`.
pub fn check_match(target: &MonitorTarget, text: Result<&str, Error>) -> (r: Result<Option<String>, String>)
    ensures
        outcome_view(r) == check_match_result(opt_text(target.expect_match), opt_text(target.expect_unmatch), text_view(text)),
{
    if let Some(expect) = &target.expect_match {
        match compile_pattern(expect.as_str()) {
            Err(e) => return Err(e),
            Ok(p) => match &text {
                Ok(t) => {
                    if !pattern_is_match(&p, t) {
                        let mut m = String::from_str("Content did not match against regex: ");
                        m.append(expect.as_str());
                        return Err(m);
                    }
                },
                Err(err) => return Err(err.to_string()),
            },
        }
    }
    if let Some(unexpect) = &target.expect_unmatch {
        match compile_pattern(unexpect.as_str()) {
            Err(e) => return Err(e),
            Ok(p) => match &text {
                Ok(t) => {
                    if pattern_is_match(&p, t) {
                        let mut m = String::from_str("Content unexpectedly matched against regex: ");
                        m.append(unexpect.as_str());
                        return Err(m);
                    }
                },
                Err(err) => return Err(err.to_string()),
            },
        }
    }
    Ok(None)
}

/// What `shell_words::split` gives for a command line: the words, or
/// `None` when a quote is left open.
pub uninterp spec fn shell_split(cmd: Seq<char>) -> Option<Seq<Seq<char>>>;

/// Calls `shell_words::split`. Claimed: the words are the ones named by
/// `shell_split`; on failure the message is that of `ParseError`'s
/// `Display`, "missing closing quote".
#[verifier::external_body]
fn split_words(cmd: &str) -> (r: Result<Vec<String>, String>)
    ensures
        match r {
            Ok(w) => shell_split(cmd@) == Some(w@.map_values(|s: String| s@)),
            Err(m) => shell_split(cmd@) is None && m@ == "missing closing quote"@,
        },
{
    match shell_words::split(cmd) {
        Ok(w) => Ok(w),
        Err(e) => Err(e.to_string()),
    }
}

/// Splits a command line into the program and its arguments, as a POSIX
/// shell would (quotes, backslashes, comments).
pub fn command_words(cmd: &str) -> (r: Result<Vec<String>, String>)
    ensures
        match r {
            Ok(w) => shell_split(cmd@) == Some(w@.map_values(|s: String| s@)),
            Err(m) => shell_split(cmd@) is None && m@ == "missing closing quote"@,
        },
{
    split_words(cmd)
}

/// The outcome of a command that ran: success with its output when it
/// exited with status 0, else a failure that shows both outputs.
pub fn command_outcome(success: bool, stdout: &str, stderr: &str) -> (r: Result<Option<String>, String>)
    ensures
        success ==> outcome_view(r) == Ok::<Option<Seq<char>>, Seq<char>>(Some(stdout@ + "\n"@ + stderr@)),
        !success ==> outcome_view(r) == Err::<Option<Seq<char>>, Seq<char>>(
            "Stdout:\n"@ + stdout@ + "\n\nStderr:\n"@ + stderr@ + "\n"@),
{
    if success {
        let mut m = String::from_str(stdout);
        m.append("\n");
        m.append(stderr);
        Ok(Some(m))
    } else {
        let mut m = String::from_str("Stdout:\n");
        m.append(stdout);
        m.append("\n\nStderr:\n");
        m.append(stderr);
        m.append("\n");
        Err(m)
    }
}

/// The message of a `custom` target without a check command.
pub open spec fn missing_command_message() -> Seq<char> {
    "The custom_check_cmd is not defined for the target."@
}

/// A `custom` target can run only with a check command.
pub fn custom_check_precondition(target: &MonitorTarget) -> (r: Result<(), String>)
    ensures
        target.custom_check_cmd@.len() > 0 ==> r is Ok,
        target.custom_check_cmd@.len() == 0 ==> (r matches Err(m) && m@ == missing_command_message()),
{
    let chars = crate::text::chars_of(target.custom_check_cmd.as_str());
    if chars.len() == 0 {
        Err(String::from_str("The custom_check_cmd is not defined for the target."))
    } else {
        Ok(())
    }
}

/// The outcome of a `custom` check from that of its command, which ran
/// and, when it succeeded, gave its output: the command's failure, else the
/// match tests on its output, which report "Custom command succeeded." when
/// they pass.
pub open spec fn custom_check_result(expect_match: Option<Seq<char>>, expect_unmatch: Option<Seq<char>>, call: Result<Option<Seq<char>>, Seq<char>>) -> Result<Option<Seq<char>>, Seq<char>> {
    match call {
        Err(e) => Err(e),
        Ok(out) => match check_match_result(expect_match, expect_unmatch, Ok(out.unwrap())) {
            Ok(Some(m)) => Ok(Some(m)),
            Ok(None) => Ok(Some("Custom command succeeded."@)),
            Err(e) => Err(e),
        },
    }
}

/// Finishes a `custom` check once its command has run; a command that
/// succeeded comes with its output.
pub fn finish_custom_check(target: &MonitorTarget, call: Result<Option<String>, String>) -> (r: Result<Option<String>, String>)
    requires
        call is Ok ==> call->Ok_0 is Some,
    ensures
        outcome_view(r) == custom_check_result(opt_text(target.expect_match), opt_text(target.expect_unmatch), outcome_view(call)),
{
    match call {
        Err(e) => Err(e),
        Ok(None) => vstd::pervasive::unreached(),
        Ok(Some(out)) => {
            match check_match(target, Ok(out.as_str())) {
                Ok(Some(m)) => Ok(Some(m)),
                Ok(None) => Ok(Some(String::from_str("Custom command succeeded."))),
                Err(e) => Err(e),
            }
        },
    }
}

/// The message for a status code other than the expected one.
pub open spec fn status_message(status: u16, expected: u16) -> Seq<char> {
    "Got status code ["@ + crate::text::decimal(status as nat) + "] != expected status code ["@
        + crate::text::decimal(expected as nat) + "]."@
}

/// Compares a response's status code with the expected one (200 when the
/// target names none). With no expected code, only 200 can be judged.
pub fn check_status(status: u16, expect: Option<u16>) -> (r: Result<(), String>)
    requires
        expect is None ==> status == 200,
    ensures
        match expect {
            None => r is Ok,
            Some(e) => if status == e {
                r is Ok
            } else {
                r matches Err(m) && m@ == status_message(status, e)
            },
        },
{
    match expect {
        None => Ok(()),
        Some(e) => {
            if status == e {
                Ok(())
            } else {
                let mut m = String::from_str("Got status code [");
                push_decimal(&mut m, status as u64);
                m.append("] != expected status code [");
                push_decimal(&mut m, e as u64);
                m.append("].");
                Err(m)
            }
        },
    }
}

/// The outcome of a `web` check from its response body: a body that could
/// not be read fails, else the match tests decide and success reports
/// "Web check succeeded.".
pub open spec fn web_check_result(expect_match: Option<Seq<char>>, expect_unmatch: Option<Seq<char>>, body: Result<Seq<char>, Seq<char>>) -> Result<Option<Seq<char>>, Seq<char>> {
    match body {
        Err(e) => Err("Failed to get body bytes: "@ + e),
        Ok(b) => match check_match_result(expect_match, expect_unmatch, Ok(b)) {
            Ok(_) => Ok(Some("Web check succeeded."@)),
            Err(e) => Err(e),
        },
    }
}

/// A body read, or the text of the error that stopped the read.
pub open spec fn body_view(body: Result<String, String>) -> Result<Seq<char>, Seq<char>> {
    match body {
        Ok(b) => Ok(b@),
        Err(e) => Err(e@),
    }
}

/// Finishes a `web` check once its body has been read.
pub fn finish_web_check(target: &MonitorTarget, body: Result<String, String>) -> (r: Result<Option<String>, String>)
    ensures
        outcome_view(r) == web_check_result(opt_text(target.expect_match), opt_text(target.expect_unmatch), body_view(body)),
{
    match body {
        Err(e) => {
            let mut m = String::from_str("Failed to get body bytes: ");
            m.append(e.as_str());
            Err(m)
        },
        Ok(b) => {
            match check_match(target, Ok(b.as_str())) {
                Ok(_) => Ok(Some(String::from_str("Web check succeeded."))),
                Err(e) => Err(e),
            }
        },
    }
}

/// The request method of a `web` target.
#[derive(Copy, Clone, Debug, PartialEq, Eq)]
pub enum HttpMethod {
    Options,
    Get,
    Post,
    Put,
    Delete,
    Head,
    Trace,
    Connect,
    Patch,
}

/// The method a target's `method` setting names, in upper case.
pub open spec fn method_named(name: Seq<char>) -> Option<HttpMethod> {
    if name == "OPTIONS"@ { Some(HttpMethod::Options) }
    else if name == "GET"@ { Some(HttpMethod::Get) }
    else if name == "POST"@ { Some(HttpMethod::Post) }
    else if name == "PUT"@ { Some(HttpMethod::Put) }
    else if name == "DELETE"@ { Some(HttpMethod::Delete) }
    else if name == "HEAD"@ { Some(HttpMethod::Head) }
    else if name == "TRACE"@ { Some(HttpMethod::Trace) }
    else if name == "CONNECT"@ { Some(HttpMethod::Connect) }
    else if name == "PATCH"@ { Some(HttpMethod::Patch) }
    else { None }
}

/// The method of a `web` target; any other name fails the check.
pub fn request_method(target: &MonitorTarget) -> (r: Result<HttpMethod, String>)
    ensures
        match method_named(target.method@) {
            Some(m) => r == Ok::<HttpMethod, String>(m),
            None => r matches Err(e) && e@ == "Unsupported method: "@ + target.method@,
        },
{
    let m = target.method.as_str();
    if str_eq(m, "OPTIONS") { Ok(HttpMethod::Options) }
    else if str_eq(m, "GET") { Ok(HttpMethod::Get) }
    else if str_eq(m, "POST") { Ok(HttpMethod::Post) }
    else if str_eq(m, "PUT") { Ok(HttpMethod::Put) }
    else if str_eq(m, "DELETE") { Ok(HttpMethod::Delete) }
    else if str_eq(m, "HEAD") { Ok(HttpMethod::Head) }
    else if str_eq(m, "TRACE") { Ok(HttpMethod::Trace) }
    else if str_eq(m, "CONNECT") { Ok(HttpMethod::Connect) }
    else if str_eq(m, "PATCH") { Ok(HttpMethod::Patch) }
    else {
        let mut e = String::from_str("Unsupported method: ");
        e.append(m);
        Err(e)
    }
}

/// The timeouts of a target, in seconds: connection, read and general.
pub struct Timeouts {
    pub connect: u64,
    pub read: u64,
    pub general: u64,
}

/// A target's timeouts: its own settings, else the common ones.
pub fn target_timeouts(target: &MonitorTarget, common: &crate::prog_settings::CommonSettings) -> (r: Timeouts)
    ensures
        r.connect == match target.connect_timeout { Some(t) => t, None => common.connect_timeout },
        r.read == match target.read_timeout { Some(t) => t, None => common.read_timeout },
        r.general == match target.timeout { Some(t) => t, None => common.timeout },
{
    Timeouts {
        connect: match target.connect_timeout { Some(t) => t, None => common.connect_timeout },
        read: match target.read_timeout { Some(t) => t, None => common.read_timeout },
        general: match target.timeout { Some(t) => t, None => common.timeout },
    }
}

/// Without `expect_match` and `expect_unmatch`, any text passes the match
/// tests, so a `web` check that reads its body succeeds and a `custom`
/// check whose command exits with status 0 succeeds.
pub proof fn law_no_expectations_pass(text: Seq<char>)
    ensures
        check_match_result(None, None, Ok(text)) == Ok::<Option<Seq<char>>, Seq<char>>(None),
        web_check_result(None, None, Ok(text)) == Ok::<Option<Seq<char>>, Seq<char>>(Some("Web check succeeded."@)),
        custom_check_result(None, None, Ok(Some(text))) == Ok::<Option<Seq<char>>, Seq<char>>(Some("Custom command succeeded."@)),
{
}

/// A command that exits with a status other than 0 fails the `custom`
/// check, with both of its outputs in the message, whatever the match
/// tests would say.
pub proof fn law_failed_command_fails_check(
    expect_match: Option<Seq<char>>,
    expect_unmatch: Option<Seq<char>>,
    stdout: Seq<char>,
    stderr: Seq<char>,
)
    ensures
        custom_check_result(expect_match, expect_unmatch, Err("Stdout:\n"@ + stdout + "\n\nStderr:\n"@ + stderr + "\n"@))
            == Err::<Option<Seq<char>>, Seq<char>>("Stdout:\n"@ + stdout + "\n\nStderr:\n"@ + stderr + "\n"@),
{
}

/// A text that `expect_match` does not match fails the check, naming the
/// pattern.
pub proof fn law_unmatched_text_fails(pattern: Seq<char>, expect_unmatch: Option<Seq<char>>, text: Seq<char>)
    requires
        regex_compile_error(pattern) is None,
        !regex_is_match(pattern, text),
    ensures
        check_match_result(Some(pattern), expect_unmatch, Ok(text))
            == Err::<Option<Seq<char>>, Seq<char>>("Content did not match against regex: "@ + pattern),
{
}

/// A text that `expect_unmatch` matches fails the check, naming that
/// pattern, whether or not `expect_match` is set (when it is, the text
/// passes it).
pub proof fn law_matched_unwanted_text_fails(expect_match: Option<Seq<char>>, pattern: Seq<char>, text: Seq<char>)
    requires
        expect_match_failure(expect_match, Ok(text)) is None,
        regex_compile_error(pattern) is None,
        regex_is_match(pattern, text),
    ensures
        check_match_result(expect_match, Some(pattern), Ok(text))
            == Err::<Option<Seq<char>>, Seq<char>>("Content unexpectedly matched against regex: "@ + pattern),
{
}

/// With patterns that compile, the match tests pass exactly when the text
/// matches `expect_match` (if set) and does not match `expect_unmatch` (if
/// set); they never pass with a message.
pub proof fn law_match_tests_decide(expect_match: Option<Seq<char>>, expect_unmatch: Option<Seq<char>>, text: Seq<char>)
    requires
        expect_match matches Some(p) ==> regex_compile_error(p) is None,
        expect_unmatch matches Some(p) ==> regex_compile_error(p) is None,
    ensures
        (check_match_result(expect_match, expect_unmatch, Ok(text)) == Ok::<Option<Seq<char>>, Seq<char>>(None)) == (
            (expect_match matches Some(p) ==> regex_is_match(p, text))
            && (expect_unmatch matches Some(p) ==> !regex_is_match(p, text))),
        !(check_match_result(expect_match, expect_unmatch, Ok(text)) matches Ok(Some(_))),
{
}

/// The match tests on a text, told by the patterns themselves: with patterns
/// that compile, the text fails exactly when `expect_match` is set and does
/// not match it, or `expect_unmatch` is set and matches it; a text that
/// passes the first test and matches `expect_unmatch` fails with a message
/// naming that pattern.
pub open spec fn fails_match_tests(expect_match: Option<Seq<char>>, expect_unmatch: Option<Seq<char>>, text: Seq<char>) -> bool {
    ||| (expect_match matches Some(p) && !regex_is_match(p, text))
    ||| (expect_unmatch matches Some(p) && regex_is_match(p, text))
}

/// A `custom` check whose command exited with status 0 and printed `out`
/// fails exactly when its output fails the match tests: `expect_unmatch`
/// is applied whether or not `expect_match` is set; otherwise it succeeds
/// with "Custom command succeeded.".
pub proof fn law_custom_check_applies_both_patterns(expect_match: Option<Seq<char>>, expect_unmatch: Option<Seq<char>>, out: Seq<char>)
    requires
        expect_match matches Some(p) ==> regex_compile_error(p) is None,
        expect_unmatch matches Some(p) ==> regex_compile_error(p) is None,
    ensures
        custom_check_result(expect_match, expect_unmatch, Ok(Some(out))) is Err <==> fails_match_tests(expect_match, expect_unmatch, out),
        !fails_match_tests(expect_match, expect_unmatch, out) ==> custom_check_result(expect_match, expect_unmatch, Ok(Some(out)))
            == Ok::<Option<Seq<char>>, Seq<char>>(Some("Custom command succeeded."@)),
        (expect_unmatch matches Some(u) && regex_is_match(u, out)
            && (expect_match matches Some(p) ==> regex_is_match(p, out))) ==> custom_check_result(expect_match, expect_unmatch, Ok(Some(out)))
            == Err::<Option<Seq<char>>, Seq<char>>("Content unexpectedly matched against regex: "@ + expect_unmatch->0),
{
}

/// A `web` check whose body was read fails exactly when the body fails the
/// match tests, both patterns applied; otherwise it succeeds with "Web check
/// succeeded.".
pub proof fn law_web_check_applies_both_patterns(expect_match: Option<Seq<char>>, expect_unmatch: Option<Seq<char>>, body: Seq<char>)
    requires
        expect_match matches Some(p) ==> regex_compile_error(p) is None,
        expect_unmatch matches Some(p) ==> regex_compile_error(p) is None,
    ensures
        web_check_result(expect_match, expect_unmatch, Ok(body)) is Err <==> fails_match_tests(expect_match, expect_unmatch, body),
        !fails_match_tests(expect_match, expect_unmatch, body) ==> web_check_result(expect_match, expect_unmatch, Ok(body))
            == Ok::<Option<Seq<char>>, Seq<char>>(Some("Web check succeeded."@)),
        (expect_unmatch matches Some(u) && regex_is_match(u, body)
            && (expect_match matches Some(p) ==> regex_is_match(p, body))) ==> web_check_result(expect_match, expect_unmatch, Ok(body))
            == Err::<Option<Seq<char>>, Seq<char>>("Content unexpectedly matched against regex: "@ + expect_unmatch->0),
{
}

} // verus!
