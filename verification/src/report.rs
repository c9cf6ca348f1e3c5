//! What the publisher reports of a response: that it was sent, that none was
//! owed, or what went wrong.

use vstd::prelude::*;
use vstd::string::*;
use crate::text::{lemma_occurs_between, occurs_in};
use crate::threshold::{threshold_error, threshold_error_text};

verus! {

/// Why no response could be prepared.
#[derive(Debug, PartialEq, Eq)]
pub enum BuildError {
    /// The threshold does not fit into the byte that the service contract takes.
    InvalidThreshold(usize),
    /// The session has left no coefficient for this key server: its result is
    /// inconsistent.
    MissingSelfCoefficient,
    /// The requester's credential yields no account: the text says why.
    Requester(String),
}

/// Why no response could be prepared, as a mathematical value.
pub enum BuildErrorView {
    InvalidThreshold(usize),
    MissingSelfCoefficient,
    Requester(Seq<char>),
}

impl View for BuildError {
    type V = BuildErrorView;

    open spec fn view(&self) -> BuildErrorView {
        match *self {
            BuildError::InvalidThreshold(threshold) => BuildErrorView::InvalidThreshold(threshold),
            BuildError::MissingSelfCoefficient => BuildErrorView::MissingSelfCoefficient,
            BuildError::Requester(reason) => BuildErrorView::Requester(reason@),
        }
    }
}

impl BuildErrorView {
    /// The error in words.
    pub open spec fn message(self) -> Seq<char> {
        match self {
            BuildErrorView::InvalidThreshold(threshold) => threshold_error_text(threshold as nat),
            BuildErrorView::MissingSelfCoefficient => "DocumentKeyPersonalRetrieval session has completed without self coefficient"@,
            BuildErrorView::Requester(reason) => reason,
        }
    }
}

impl BuildError {
    /// The error in words.
    pub fn message(&self) -> (message: String)
        ensures
            message@ == self@.message(),
    {
        match self {
            BuildError::InvalidThreshold(threshold) => threshold_error(*threshold),
            BuildError::MissingSelfCoefficient => String::from_str(
                "DocumentKeyPersonalRetrieval session has completed without self coefficient",
            ),
            BuildError::Requester(reason) => reason.clone(),
        }
    }
}

/// How much a report matters.
#[derive(Clone, Copy, Debug, PartialEq, Eq, Structural)]
pub enum Severity {
    /// Nothing went wrong.
    Information,
    /// No response was sent, though one may have been owed.
    Warning,
}

/// What has become of one response. `request` names the operation and its outcome.
#[derive(Debug, PartialEq, Eq)]
pub enum Report {
    /// The response is in the transaction pool, under the given transaction.
    Submitted { request: String, transaction: String },
    /// This key server owes no response.
    NotRequired { request: String },
    /// Whether a response is owed could not be found out.
    CheckFailed { request: String, error: String },
    /// A response is owed, but none could be prepared.
    PreparationFailed { request: String, cause: BuildError },
    /// The transaction pool has not taken the response.
    SubmissionFailed { request: String, error: String },
}

/// What has become of one response, as a mathematical value.
pub enum ReportView {
    Submitted { request: Seq<char>, transaction: Seq<char> },
    NotRequired { request: Seq<char> },
    CheckFailed { request: Seq<char>, error: Seq<char> },
    PreparationFailed { request: Seq<char>, cause: BuildErrorView },
    SubmissionFailed { request: Seq<char>, error: Seq<char> },
}

impl View for Report {
    type V = ReportView;

    open spec fn view(&self) -> ReportView {
        match *self {
            Report::Submitted { request, transaction } => ReportView::Submitted {
                request: request@,
                transaction: transaction@,
            },
            Report::NotRequired { request } => ReportView::NotRequired { request: request@ },
            Report::CheckFailed { request, error } => ReportView::CheckFailed {
                request: request@,
                error: error@,
            },
            Report::PreparationFailed { request, cause } => ReportView::PreparationFailed {
                request: request@,
                cause: cause@,
            },
            Report::SubmissionFailed { request, error } => ReportView::SubmissionFailed {
                request: request@,
                error: error@,
            },
        }
    }
}

impl ReportView {
    /// How much the report matters: a response that was sent or not owed is
    /// information, everything else a warning.
    pub open spec fn severity(self) -> Severity {
        match self {
            ReportView::Submitted { .. } => Severity::Information,
            ReportView::NotRequired { .. } => Severity::Information,
            _ => Severity::Warning,
        }
    }

    /// The operation and outcome that the report is about.
    pub open spec fn request(self) -> Seq<char> {
        match self {
            ReportView::Submitted { request, .. } => request,
            ReportView::NotRequired { request } => request,
            ReportView::CheckFailed { request, .. } => request,
            ReportView::PreparationFailed { request, .. } => request,
            ReportView::SubmissionFailed { request, .. } => request,
        }
    }

    /// The report in words.
    pub open spec fn message(self) -> Seq<char> {
        match self {
            ReportView::Submitted { request, transaction } => "Submitted response "@ + request
                + ": "@ + transaction,
            ReportView::NotRequired { request } => "Response "@ + request
                + " is not required. Transaction is not submitted."@,
            ReportView::CheckFailed { request, error } => "Failed to check if response "@ + request
                + " is required: "@ + error,
            ReportView::PreparationFailed { request, cause } => "Failed to submit response "@
                + request + ": "@ + cause.message(),
            ReportView::SubmissionFailed { request, error } => "Failed to submit response "@
                + request + ": "@ + error,
        }
    }
}

impl Report {
    /// How much the report matters.
    pub fn severity(&self) -> (severity: Severity)
        ensures
            severity == self@.severity(),
    {
        match self {
            Report::Submitted { .. } => Severity::Information,
            Report::NotRequired { .. } => Severity::Information,
            _ => Severity::Warning,
        }
    }

    /// The report in words.
    pub fn message(&self) -> (message: String)
        ensures
            message@ == self@.message(),
    {
        match self {
            Report::Submitted { request, transaction } => {
                let mut message = String::from_str("Submitted response ");
                message.append(request.as_str());
                message.append(": ");
                message.append(transaction.as_str());
                message
            },
            Report::NotRequired { request } => {
                let mut message = String::from_str("Response ");
                message.append(request.as_str());
                message.append(" is not required. Transaction is not submitted.");
                message
            },
            Report::CheckFailed { request, error } => {
                let mut message = String::from_str("Failed to check if response ");
                message.append(request.as_str());
                message.append(" is required: ");
                message.append(error.as_str());
                message
            },
            Report::PreparationFailed { request, cause } => {
                let reason = cause.message();
                let mut message = String::from_str("Failed to submit response ");
                message.append(request.as_str());
                message.append(": ");
                message.append(reason.as_str());
                message
            },
            Report::SubmissionFailed { request, error } => {
                let mut message = String::from_str("Failed to submit response ");
                message.append(request.as_str());
                message.append(": ");
                message.append(error.as_str());
                message
            },
        }
    }
}

/// Every report names in its message the outcome that it is about. The
/// report of a submission also holds the transaction, and the report of a
/// failure the reason that was given for it.
pub proof fn lemma_message_names_request(report: ReportView)
    ensures
        occurs_in(report.message(), report.request()),
        report matches ReportView::Submitted { transaction, .. } ==> occurs_in(
            report.message(),
            transaction,
        ),
        report matches ReportView::CheckFailed { error, .. } ==> occurs_in(report.message(), error),
        report matches ReportView::PreparationFailed { cause, .. } ==> occurs_in(
            report.message(),
            cause.message(),
        ),
        report matches ReportView::SubmissionFailed { error, .. } ==> occurs_in(
            report.message(),
            error,
        ),
{
    match report {
        ReportView::Submitted { request, transaction } => {
            lemma_named(report.message(), "Submitted response "@, request, ": "@, transaction);
        },
        ReportView::NotRequired { request } => {
            let before = "Response "@;
            let after = " is not required. Transaction is not submitted."@;
            lemma_occurs_between(before, request, after);
        },
        ReportView::CheckFailed { request, error } => {
            lemma_named(
                report.message(),
                "Failed to check if response "@,
                request,
                " is required: "@,
                error,
            );
        },
        ReportView::PreparationFailed { request, cause } => {
            lemma_named(
                report.message(),
                "Failed to submit response "@,
                request,
                ": "@,
                cause.message(),
            );
        },
        ReportView::SubmissionFailed { request, error } => {
            lemma_named(report.message(), "Failed to submit response "@, request, ": "@, error);
        },
    }
}

/// In a message of four parts the second and the fourth stand.
proof fn lemma_named(
    message: Seq<char>,
    opening: Seq<char>,
    request: Seq<char>,
    link: Seq<char>,
    detail: Seq<char>,
)
    requires
        message == opening + request + link + detail,
    ensures
        occurs_in(message, request),
        occurs_in(message, detail),
{
    assert(message =~= opening + request + (link + detail));
    lemma_occurs_between(opening, request, link + detail);
    assert(message =~= (opening + request + link) + detail + Seq::<char>::empty());
    lemma_occurs_between(opening + request + link, detail, Seq::<char>::empty());
}

} // verus!
