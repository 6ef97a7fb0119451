//! What a run reports: each report is one line for the console, with the
//! severity that the line announces.

use vstd::prelude::*;
use vstd::string::*;
use crate::progress::{summary_line, summary_text, FetchStatistics};

verus! {

/// How grave a report is.
#[derive(Clone, Copy, Debug, PartialEq, Eq, Structural)]
pub enum Severity {
    /// The run cannot go on.
    Fatal,
    /// One line, repository or remote was given up; the run goes on.
    Error,
    /// Something was left out on purpose.
    Info,
    /// Ordinary progress.
    Notice,
}

/// One line for the console. The text holds its own line end.
#[derive(Debug, PartialEq, Eq)]
pub struct Report {
    pub severity: Severity,
    pub text: String,
}

/// A [`Report`] with its text as a sequence of characters.
pub struct ReportModel {
    pub severity: Severity,
    pub text: Seq<char>,
}

impl View for Report {
    type V = ReportModel;

    open spec fn view(&self) -> ReportModel {
        ReportModel { severity: self.severity, text: self.text@ }
    }
}

/// The views of a list of reports.
pub open spec fn reports_of(reports: Seq<Report>) -> Seq<ReportModel> {
    Seq::new(reports.len(), |i: int| reports[i]@)
}

/// A failure together with what was being done when it happened.
#[derive(Debug, PartialEq, Eq)]
pub enum Error {
    /// What was being done, and the failure underneath.
    Nested(String, String),
}

/// A context and the cause underneath it, as one message.
pub open spec fn nested_text(context: Seq<char>, cause: Seq<char>) -> Seq<char> {
    context + ": "@ + cause
}

impl Error {
    /// The message of this error: the context, a colon, and the cause.
    pub open spec fn text(&self) -> Seq<char> {
        match self {
            Error::Nested(context, cause) => nested_text(context@, cause@),
        }
    }

    /// The error underneath this one. The cause is kept as text, so there is
    /// none to hand out.
    pub fn source(&self) -> (cause: Option<&Error>)
        ensures
            cause is None,
    {
        None
    }

    /// Writes this error as one message.
    pub fn to_text(&self) -> (message: String)
        ensures
            message@ == self.text(),
    {
        match self {
            Error::Nested(context, cause) => {
                let mut message = context.clone();
                message.append(": ");
                message.append(cause.as_str());
                message
            },
        }
    }
}

/// The line of a failure that ends the run.
pub open spec fn fatal_text(message: Seq<char>, cause: Seq<char>) -> Seq<char> {
    "fatal: "@ + message + ": "@ + cause + "\n"@
}

/// The line of a failure after which the run goes on.
pub open spec fn error_text(message: Seq<char>, cause: Seq<char>) -> Seq<char> {
    "error: "@ + message + ": "@ + cause + "\n"@
}

/// The line that says that something was left out.
pub open spec fn info_text(message: Seq<char>) -> Seq<char> {
    "info: "@ + message + "\n"@
}

/// The report of a failure that ends the run.
pub fn fatal(message: &str, cause: &str) -> (report: Report)
    ensures
        report@ == (ReportModel { severity: Severity::Fatal, text: fatal_text(message@, cause@) }),
{
    let mut text = String::from_str("fatal: ");
    text.append(message);
    text.append(": ");
    text.append(cause);
    text.append("\n");
    Report { severity: Severity::Fatal, text }
}

/// The report of a failure after which the run goes on.
pub fn error(message: &str, cause: &str) -> (report: Report)
    ensures
        report@ == (ReportModel { severity: Severity::Error, text: error_text(message@, cause@) }),
{
    let mut text = String::from_str("error: ");
    text.append(message);
    text.append(": ");
    text.append(cause);
    text.append("\n");
    Report { severity: Severity::Error, text }
}

/// The report that something was left out.
pub fn info(message: &str) -> (report: Report)
    ensures
        report@ == (ReportModel { severity: Severity::Info, text: info_text(message@) }),
{
    let mut text = String::from_str("info: ");
    text.append(message);
    text.append("\n");
    Report { severity: Severity::Info, text }
}

/// The report that closes a download: its summary line.
pub fn summary(stats: &FetchStatistics) -> (report: Report)
    ensures
        report@ == (ReportModel { severity: Severity::Notice, text: summary_text(*stats) }),
{
    Report { severity: Severity::Notice, text: summary_line(stats) }
}

} // verus!
