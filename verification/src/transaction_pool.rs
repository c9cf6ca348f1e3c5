//! The publisher of responses: for each outcome of a key operation it finds
//! out whether this key server owes the ledger a response, prepares the
//! response and reports what has become of it.
//!
//! The publisher neither asks the ledger nor sends anything itself. It says
//! what to ask and what to send, and goes on from the answer that its caller
//! brings back. One outcome passes through up to three steps:
//! [`SubstrateTransactionPool::publish`], which names the question to the
//! ledger; [`PendingResponse::submit_response_transaction`], which takes the
//! ledger's answer and prepares the response; and [`PendingSubmission::finish`],
//! which takes the word of the transaction pool. Each step ends either in the
//! next thing to do or in a [`Report`], and every outcome ends in exactly one
//! report.

use vstd::prelude::*;
use vstd::string::*;
use crate::call::{ResponseQuery, SecretStoreCall, SecretStoreCallView};
use crate::outcome::{
    lemma_request_names_operation, DocumentKeyCommonRetrievalArtifacts,
    DocumentKeyShadowRetrievalArtifacts, Outcome, ServerKeyGenerationArtifacts,
    ServerKeyRetrievalArtifacts,
};
use crate::primitives::{Address, ServerKeyId};
use crate::report::{lemma_message_names_request, BuildErrorView, Report, ReportView, Severity};
use crate::requester::Requester;
use crate::text::{lemma_occurs_within, occurs_in, prefixed_hex_text};

verus! {

/// Substrate transaction pool: publishes the responses of one key server.
#[derive(Clone, Copy, Debug, PartialEq, Eq)]
pub struct SubstrateTransactionPool {
    /// This key server address.
    key_server_address: Address,
}

/// An outcome for which the ledger has yet to say whether a response is owed.
#[derive(Debug, PartialEq, Eq)]
pub struct PendingResponse {
    outcome: Outcome,
    key_server_address: Address,
}

/// A response that is on its way to the transaction pool.
#[derive(Debug, PartialEq, Eq)]
pub struct PendingSubmission {
    request: String,
}

/// What is to be done first for an outcome.
#[derive(Debug, PartialEq, Eq)]
pub enum Started {
    /// Ask the ledger, and hand its answer to `pending`.
    Check { query: ResponseQuery, pending: PendingResponse },
    /// Nothing is to be done but to pass on the report.
    Finished(Report),
}

/// What is to be done once the ledger has answered.
#[derive(Debug, PartialEq, Eq)]
pub enum Checked {
    /// Send the transaction to the pool, and hand the pool's word to `pending`.
    Submit { transaction: SecretStoreCall, pending: PendingSubmission },
    /// Nothing is to be done but to pass on the report.
    Finished(Report),
}

/// What is to be done first for an outcome, as a mathematical value.
pub enum StartedView {
    Check { query: ResponseQuery, outcome: Outcome, key_server_address: Address },
    Finished(ReportView),
}

/// What is to be done once the ledger has answered, as a mathematical value.
pub enum CheckedView {
    Submit { transaction: SecretStoreCallView, request: Seq<char> },
    Finished(ReportView),
}

/// The ledger's answer, or the text that says why there is none.
pub open spec fn answer_view(answer: Result<bool, String>) -> Result<bool, Seq<char>> {
    match answer {
        Ok(required) => Ok(required),
        Err(reason) => Err(reason@),
    }
}

/// The transaction that the pool has made of a response, or the text that
/// says why it has not taken it.
pub open spec fn submission_view(submission: Result<String, String>) -> Result<
    Seq<char>,
    Seq<char>,
> {
    match submission {
        Ok(transaction) => Ok(transaction@),
        Err(reason) => Err(reason@),
    }
}

/// The first step for an outcome on the key server at `key_server_address`:
/// the question to the ledger, or, where the requester's credential yields
/// no account, the report of that.
pub open spec fn started(outcome: Outcome, key_server_address: Address) -> StartedView {
    match outcome.query_spec(key_server_address) {
        Ok(query) => StartedView::Check { query, outcome, key_server_address },
        Err(reason) => StartedView::Finished(
            ReportView::CheckFailed { request: outcome.request_text(), error: reason },
        ),
    }
}

/// The step that follows the ledger's answer. Only where a response is owed
/// is one prepared, and only where one could be prepared is it submitted.
pub open spec fn checked(
    outcome: Outcome,
    key_server_address: Address,
    is_response_required: Result<bool, Seq<char>>,
) -> CheckedView {
    match is_response_required {
        Ok(true) => match outcome.response_spec(key_server_address) {
            Ok(transaction) => CheckedView::Submit {
                transaction,
                request: outcome.request_text(),
            },
            Err(cause) => CheckedView::Finished(
                ReportView::PreparationFailed { request: outcome.request_text(), cause },
            ),
        },
        Ok(false) => CheckedView::Finished(
            ReportView::NotRequired { request: outcome.request_text() },
        ),
        Err(reason) => CheckedView::Finished(
            ReportView::CheckFailed { request: outcome.request_text(), error: reason },
        ),
    }
}

/// The report that follows the word of the transaction pool.
pub open spec fn submitted(request: Seq<char>, submission: Result<Seq<char>, Seq<char>>) -> ReportView {
    match submission {
        Ok(transaction) => ReportView::Submitted { request, transaction },
        Err(reason) => ReportView::SubmissionFailed { request, error: reason },
    }
}

impl PendingResponse {
    /// The outcome that is waiting for the ledger's answer.
    pub closed spec fn outcome(&self) -> Outcome {
        self.outcome
    }

    /// The key server whose response is in question.
    pub closed spec fn key_server_address(&self) -> Address {
        self.key_server_address
    }

    /// Send response transaction if required.
    ///
    /// Takes the ledger's answer. Where a response is owed, it is prepared
    /// and handed out for submission. Where none is owed, where the ledger
    /// has not answered or where no response can be prepared, this ends in a
    /// report and nothing is submitted.
    pub fn submit_response_transaction(self, is_response_required: Result<bool, String>) -> (next:
        Checked)
        ensures
            next@ == checked(
                self.outcome(),
                self.key_server_address(),
                answer_view(is_response_required),
            ),
    {
        let request = self.outcome.formatted_request();
        match is_response_required {
            Ok(true) => match self.outcome.prepare_response(self.key_server_address) {
                Ok(transaction) => Checked::Submit {
                    transaction,
                    pending: PendingSubmission { request },
                },
                Err(cause) => Checked::Finished(Report::PreparationFailed { request, cause }),
            },
            Ok(false) => Checked::Finished(Report::NotRequired { request }),
            Err(error) => Checked::Finished(Report::CheckFailed { request, error }),
        }
    }
}

impl PendingSubmission {
    /// The text that names the outcome whose response is being submitted.
    pub closed spec fn request(&self) -> Seq<char> {
        self.request@
    }

    /// Takes the word of the transaction pool: the transaction, or why the
    /// pool has not taken the response.
    pub fn finish(self, submission: Result<String, String>) -> (report: Report)
        ensures
            report@ == submitted(self.request(), submission_view(submission)),
    {
        match submission {
            Ok(transaction) => Report::Submitted { request: self.request, transaction },
            Err(error) => Report::SubmissionFailed { request: self.request, error },
        }
    }
}

impl View for Started {
    type V = StartedView;

    open spec fn view(&self) -> StartedView {
        match *self {
            Started::Check { query, pending } => StartedView::Check {
                query,
                outcome: pending.outcome(),
                key_server_address: pending.key_server_address(),
            },
            Started::Finished(report) => StartedView::Finished(report@),
        }
    }
}

impl View for Checked {
    type V = CheckedView;

    open spec fn view(&self) -> CheckedView {
        match *self {
            Checked::Submit { transaction, pending } => CheckedView::Submit {
                transaction: transaction@,
                request: pending.request(),
            },
            Checked::Finished(report) => CheckedView::Finished(report@),
        }
    }
}

impl SubstrateTransactionPool {
    /// The key server whose responses this pool publishes.
    pub closed spec fn key_server_address_spec(&self) -> Address {
        self.key_server_address
    }

    /// Create new transaction pool.
    pub fn new(key_server_address: Address) -> (pool: SubstrateTransactionPool)
        ensures
            pool.key_server_address() == key_server_address,
    {
        SubstrateTransactionPool { key_server_address }
    }

    /// The key server whose responses this pool publishes.
    #[verifier::when_used_as_spec(key_server_address_spec)]
    pub fn key_server_address(&self) -> (address: Address)
        ensures
            address == self.key_server_address_spec(),
    {
        self.key_server_address
    }

    /// Takes up an outcome: names the question to the ledger, or reports that
    /// the requester's credential yields no account.
    pub fn publish(&self, outcome: Outcome) -> (first: Started)
        ensures
            first@ == started(outcome, self.key_server_address()),
    {
        match outcome.response_query(self.key_server_address) {
            Ok(query) => Started::Check {
                query,
                pending: PendingResponse { outcome, key_server_address: self.key_server_address },
            },
            Err(error) => Started::Finished(
                Report::CheckFailed { request: outcome.formatted_request(), error },
            ),
        }
    }

    /// Publishes that a server key has been generated.
    pub fn publish_generated_server_key(
        &self,
        _origin: Address,
        key_id: ServerKeyId,
        artifacts: ServerKeyGenerationArtifacts,
    ) -> (first: Started)
        ensures
            first@ == started(
                (Outcome::ServerKeyGenerated { key_id, artifacts }),
                self.key_server_address(),
            ),
    {
        self.publish(Outcome::ServerKeyGenerated { key_id, artifacts })
    }

    /// Publishes that the generation of a server key has failed.
    pub fn publish_server_key_generation_error(&self, _origin: Address, key_id: ServerKeyId) -> (first:
        Started)
        ensures
            first@ == started(
                (Outcome::ServerKeyGenerationError { key_id }),
                self.key_server_address(),
            ),
    {
        self.publish(Outcome::ServerKeyGenerationError { key_id })
    }

    /// Publishes that a server key has been retrieved.
    pub fn publish_retrieved_server_key(
        &self,
        _origin: Address,
        key_id: ServerKeyId,
        artifacts: ServerKeyRetrievalArtifacts,
    ) -> (first: Started)
        ensures
            first@ == started(
                (Outcome::ServerKeyRetrieved { key_id, artifacts }),
                self.key_server_address(),
            ),
    {
        self.publish(Outcome::ServerKeyRetrieved { key_id, artifacts })
    }

    /// Publishes that the retrieval of a server key has failed.
    pub fn publish_server_key_retrieval_error(&self, _origin: Address, key_id: ServerKeyId) -> (first:
        Started)
        ensures
            first@ == started(
                (Outcome::ServerKeyRetrievalError { key_id }),
                self.key_server_address(),
            ),
    {
        self.publish(Outcome::ServerKeyRetrievalError { key_id })
    }

    /// Publishes that a document key has been stored.
    pub fn publish_stored_document_key(&self, _origin: Address, key_id: ServerKeyId) -> (first:
        Started)
        ensures
            first@ == started((Outcome::DocumentKeyStored { key_id }), self.key_server_address()),
    {
        self.publish(Outcome::DocumentKeyStored { key_id })
    }

    /// Publishes that the storing of a document key has failed.
    pub fn publish_document_key_store_error(&self, _origin: Address, key_id: ServerKeyId) -> (first:
        Started)
        ensures
            first@ == started(
                (Outcome::DocumentKeyStoreError { key_id }),
                self.key_server_address(),
            ),
    {
        self.publish(Outcome::DocumentKeyStoreError { key_id })
    }

    /// Publishes that the common part of a document key has been retrieved.
    pub fn publish_retrieved_document_key_common(
        &self,
        _origin: Address,
        key_id: ServerKeyId,
        requester: Requester,
        artifacts: DocumentKeyCommonRetrievalArtifacts,
    ) -> (first: Started)
        ensures
            first@ == started(
                (Outcome::DocumentKeyCommonRetrieved { key_id, requester, artifacts }),
                self.key_server_address(),
            ),
    {
        self.publish(Outcome::DocumentKeyCommonRetrieved { key_id, requester, artifacts })
    }

    /// Publishes that the retrieval of the common part of a document key has failed.
    pub fn publish_document_key_common_retrieval_error(
        &self,
        _origin: Address,
        key_id: ServerKeyId,
        requester: Requester,
    ) -> (first: Started)
        ensures
            first@ == started(
                (Outcome::DocumentKeyCommonRetrievalError { key_id, requester }),
                self.key_server_address(),
            ),
    {
        self.publish(Outcome::DocumentKeyCommonRetrievalError { key_id, requester })
    }

    /// Publishes that the personal part of a document key has been retrieved.
    pub fn publish_retrieved_document_key_personal(
        &self,
        _origin: Address,
        key_id: ServerKeyId,
        requester: Requester,
        artifacts: DocumentKeyShadowRetrievalArtifacts,
    ) -> (first: Started)
        ensures
            first@ == started(
                (Outcome::DocumentKeyPersonalRetrieved { key_id, requester, artifacts }),
                self.key_server_address(),
            ),
    {
        self.publish(Outcome::DocumentKeyPersonalRetrieved { key_id, requester, artifacts })
    }

    /// Publishes that the retrieval of the personal part of a document key has failed.
    pub fn publish_document_key_personal_retrieval_error(
        &self,
        _origin: Address,
        key_id: ServerKeyId,
        requester: Requester,
    ) -> (first: Started)
        ensures
            first@ == started(
                (Outcome::DocumentKeyPersonalRetrievalError { key_id, requester }),
                self.key_server_address(),
            ),
    {
        self.publish(Outcome::DocumentKeyPersonalRetrievalError { key_id, requester })
    }
}

/// Where the ledger says that no response is owed, nothing is submitted,
/// whatever the outcome: the step ends in the report that none was required.
pub proof fn lemma_nothing_submitted_unless_required(outcome: Outcome, key_server_address: Address)
    ensures
        checked(outcome, key_server_address, Ok(false)) == CheckedView::Finished(
            ReportView::NotRequired { request: outcome.request_text() },
        ),
        !(checked(outcome, key_server_address, Ok(false)) is Submit),
{
}

/// Where the ledger does not answer, no response is prepared and nothing is
/// submitted, whatever the outcome: the step ends in the report of the
/// ledger's error, also where preparing the response would have failed.
pub proof fn lemma_nothing_prepared_when_check_fails(
    outcome: Outcome,
    key_server_address: Address,
    reason: Seq<char>,
)
    ensures
        checked(outcome, key_server_address, Err(reason)) == CheckedView::Finished(
            ReportView::CheckFailed { request: outcome.request_text(), error: reason },
        ),
        !(checked(outcome, key_server_address, Err(reason)) is Submit),
{
}

/// A response is submitted only where the ledger says that one is owed and
/// one can be prepared, and then it is the prepared one.
pub proof fn lemma_submission_is_owed_and_prepared(
    outcome: Outcome,
    key_server_address: Address,
    is_response_required: Result<bool, Seq<char>>,
)
    ensures
        checked(outcome, key_server_address, is_response_required) is Submit <==> (
        is_response_required == Ok::<bool, Seq<char>>(true) && outcome.response_spec(
            key_server_address,
        ) is Ok),
        checked(outcome, key_server_address, is_response_required) matches CheckedView::Submit {
            transaction,
            ..
        } ==> outcome.response_spec(key_server_address) == Ok::<
            SecretStoreCallView,
            BuildErrorView,
        >(transaction),
{
}

/// The ledger is asked exactly where the outcome names no requester or the
/// requester's credential yields an account. Where it yields none, the
/// outcome ends at once in the report of that, which names the operation:
/// the ledger is not asked and no response is prepared.
pub proof fn lemma_unresolved_requester_ends_at_once(outcome: Outcome, key_server_address: Address)
    ensures
        started(outcome, key_server_address) is Check <==> (outcome.requester_spec() matches Some(
            requester,
        ) ==> requester.resolved() is Ok),
        outcome.requester_spec() matches Some(requester) ==> (requester.resolved() matches Err(
            reason,
        ) ==> started(outcome, key_server_address) == StartedView::Finished(
            ReportView::CheckFailed { request: outcome.request_text(), error: reason },
        )),
{
}

/// Whatever the transaction pool says ends in one report: information with
/// the transaction where the pool has taken the response, a warning with
/// the pool's reason where it has not.
pub proof fn lemma_submission_is_reported(request: Seq<char>, submission: Result<Seq<char>, Seq<char>>)
    ensures
        submission matches Ok(transaction) ==> submitted(request, submission)
            == (ReportView::Submitted { request, transaction }) && submitted(
            request,
            submission,
        ).severity() == Severity::Information,
        submission matches Err(reason) ==> submitted(request, submission)
            == (ReportView::SubmissionFailed { request, error: reason }) && submitted(
            request,
            submission,
        ).severity() == Severity::Warning,
{
}

/// Whatever report an outcome ends in, at whichever step, its message holds
/// the operation in full.
pub proof fn lemma_reports_name_operation(
    outcome: Outcome,
    key_server_address: Address,
    is_response_required: Result<bool, Seq<char>>,
    submission: Result<Seq<char>, Seq<char>>,
)
    ensures
        started(outcome, key_server_address) matches StartedView::Finished(report) ==> occurs_in(
            report.message(),
            prefixed_hex_text(outcome.key_id().bytes@),
        ),
        checked(outcome, key_server_address, is_response_required) matches CheckedView::Finished(
            report,
        ) ==> occurs_in(report.message(), prefixed_hex_text(outcome.key_id().bytes@)),
        checked(outcome, key_server_address, is_response_required) matches CheckedView::Submit {
            request,
            ..
        } ==> occurs_in(
            submitted(request, submission).message(),
            prefixed_hex_text(outcome.key_id().bytes@),
        ),
{
    let operation = prefixed_hex_text(outcome.key_id().bytes@);
    let request = outcome.request_text();
    lemma_request_names_operation(outcome);
    if let StartedView::Finished(report) = started(outcome, key_server_address) {
        lemma_message_names_request(report);
        lemma_occurs_within(report.message(), request, operation);
    }
    match checked(outcome, key_server_address, is_response_required) {
        CheckedView::Finished(report) => {
            lemma_message_names_request(report);
            lemma_occurs_within(report.message(), request, operation);
        },
        CheckedView::Submit { .. } => {
            let report = submitted(request, submission);
            lemma_message_names_request(report);
            lemma_occurs_within(report.message(), request, operation);
        },
    }
}

} // verus!
