//! The content and delivery settings of an e-mail report.

use vstd::prelude::*;
use vstd::string::*;
use crate::log::LogLevel;
use crate::monitor::opt_text;
use crate::prog_settings::CommonSettings;

verus! {

/// The kind of a report, which sets its title.
#[derive(Copy, Clone, Debug, PartialEq, Eq)]
pub enum ReportKind {
    Error,
    Warning,
}

/// The start of a report's title, before the target's name.
pub open spec fn title_prefix_text(kind: ReportKind) -> Seq<char> {
    match kind {
        ReportKind::Error => "Monitor error on "@,
        ReportKind::Warning => "Monitor warning on "@,
    }
}

impl ReportKind {
    /// The start of the title of a report of this kind.
    pub fn title_prefix(&self) -> (r: &str)
        ensures
            r@ == title_prefix_text(*self),
    {
        match self {
            ReportKind::Error => "Monitor error on ",
            ReportKind::Warning => "Monitor warning on ",
        }
    }
}

/// A report ready to be sent: addresses, content and how to reach the
/// SMTP server.
pub struct EmailPlan {
    pub from: String,
    pub reply_to: String,
    pub to: String,
    pub subject: String,
    pub body: String,
    pub smtp_host: String,
    pub smtp_port: u16,
    pub starttls: bool,
    pub accept_invalid_hostnames: bool,
    pub accept_invalid_certs: bool,
    /// User name and password for the SMTP login.
    pub credentials: (String, String),
}

/// Reports are sent only when the sender, the recipient, the SMTP host,
/// the SMTP port, user and password are all set.
pub open spec fn reporting_enabled(common: CommonSettings) -> bool {
    &&& common.report_from is Some
    &&& common.report_to is Some
    &&& common.smtp_host is Some
    &&& common.smtp_port is Some
    &&& common.smtp_user is Some
    &&& common.smtp_pass is Some
}

/// Whether a text parses as an e-mail address (`lettre::Address`'s
/// `FromStr`).
pub uninterp spec fn is_email_address(text: Seq<char>) -> bool;

/// Parses a text as a `lettre::Address` and keeps only whether it parsed;
/// the answer is named `is_email_address`.
#[verifier::external_body]
fn parses_as_address(text: &str) -> (r: bool)
    ensures
        r == is_email_address(text@),
{
    text.parse::<lettre::Address>().is_ok()
}

/// The sender and recipient of an enabled report are e-mail addresses.
pub open spec fn addresses_parse(common: CommonSettings) -> bool {
    reporting_enabled(common) ==> {
        &&& is_email_address(opt_text(common.report_from).unwrap())
        &&& is_email_address(opt_text(common.report_to).unwrap())
    }
}

/// The body of a report: the line, then the target's name and description.
pub open spec fn report_body(line: Seq<char>, target_name: Seq<char>, target_text: Seq<char>) -> Seq<char> {
    line + "\n\nOn target: "@ + target_name + "\n"@ + target_text
}

/// The plan `p` is the report of `line` on the target under `common`.
pub open spec fn is_report_plan(p: EmailPlan, line: Seq<char>, title_prefix: Seq<char>, target_name: Seq<char>, target_text: Seq<char>, common: CommonSettings) -> bool {
    &&& opt_text(common.report_from) == Some(p.from@)
    &&& opt_text(common.report_from) == Some(p.reply_to@)
    &&& opt_text(common.report_to) == Some(p.to@)
    &&& p.subject@ == title_prefix + target_name
    &&& p.body@ == report_body(line, target_name, target_text)
    &&& opt_text(common.smtp_host) == Some(p.smtp_host@)
    &&& common.smtp_port == Some(p.smtp_port)
    &&& p.starttls == common.smtp_starttls
    &&& p.accept_invalid_hostnames == common.smtp_no_verify_hostname
    &&& p.accept_invalid_certs == common.smtp_no_check_certificate
    &&& opt_text(common.smtp_user) == Some(p.credentials.0@)
    &&& opt_text(common.smtp_pass) == Some(p.credentials.1@)
}

/// The e-mail that reports `line` on the target named `target_name`, whose
/// description is `target_text`; `None` when reporting is not set up. The
/// sender and recipient must be e-mail addresses.
pub fn plan_report_email(line: &str, title_prefix: &str, target_name: &str, target_text: &str, common: &CommonSettings) -> (r: Option<EmailPlan>)
    requires
        addresses_parse(*common),
    ensures
        !reporting_enabled(*common) ==> r is None,
        reporting_enabled(*common) ==> (r matches Some(p) && is_report_plan(p, line@, title_prefix@, target_name@, target_text@, *common)),
{
    let from = match &common.report_from {
        Some(f) => f,
        None => return None,
    };
    let to = match &common.report_to {
        Some(t) => t,
        None => return None,
    };
    let host = match &common.smtp_host {
        Some(h) => h,
        None => return None,
    };
    let port = match common.smtp_port {
        Some(p) => p,
        None => return None,
    };
    let user = match &common.smtp_user {
        Some(u) => u,
        None => return None,
    };
    let pass = match &common.smtp_pass {
        Some(w) => w,
        None => return None,
    };
    let mut subject = String::from_str(title_prefix);
    subject.append(target_name);
    let mut body = String::from_str(line);
    body.append("\n\nOn target: ");
    body.append(target_name);
    body.append("\n");
    body.append(target_text);
    Some(EmailPlan {
        from: from.clone(),
        reply_to: from.clone(),
        to: to.clone(),
        subject,
        body,
        smtp_host: host.clone(),
        smtp_port: port,
        starttls: common.smtp_starttls,
        accept_invalid_hostnames: common.smtp_no_verify_hostname,
        accept_invalid_certs: common.smtp_no_check_certificate,
        credentials: (user.clone(), pass.clone()),
    })
}

/// As `plan_report_email`, first checking that the sender and recipient of
/// an enabled report parse as e-mail addresses: `None` when one does not,
/// else the plan (itself `None` when reporting is not set up).
pub fn checked_report_email(line: &str, title_prefix: &str, target_name: &str, target_text: &str, common: &CommonSettings) -> (r: Option<Option<EmailPlan>>)
    ensures
        !addresses_parse(*common) ==> r is None,
        addresses_parse(*common) ==> (r matches Some(o) && (
            !reporting_enabled(*common) ==> o is None) && (
            reporting_enabled(*common) ==> (o matches Some(p) && is_report_plan(p, line@, title_prefix@, target_name@, target_text@, *common)))),
{
    let enabled = common.report_from.is_some() && common.report_to.is_some() && common.smtp_host.is_some()
        && common.smtp_port.is_some() && common.smtp_user.is_some() && common.smtp_pass.is_some();
    if enabled {
        match (&common.report_from, &common.report_to) {
            (Some(f), Some(t)) => {
                if !parses_as_address(f.as_str()) || !parses_as_address(t.as_str()) {
                    return None;
                }
            },
            _ => {},
        }
    }
    Some(plan_report_email(line, title_prefix, target_name, target_text, common))
}

/// What is logged once a report has been sent or has failed.
pub fn report_outcome_log(result: &Result<(), String>) -> (r: (LogLevel, String))
    ensures
        match result {
            Ok(_) => r.0 == LogLevel::Debug && r.1@ == "Successfully sent email report"@,
            Err(e) => r.0 == LogLevel::Error && r.1@ == "Failed to send email: "@ + e@,
        },
{
    match result {
        Ok(_) => (LogLevel::Debug, String::from_str("Successfully sent email report")),
        Err(e) => {
            let mut m = String::from_str("Failed to send email: ");
            m.append(e.as_str());
            (LogLevel::Error, m)
        },
    }
}

} // verus!
