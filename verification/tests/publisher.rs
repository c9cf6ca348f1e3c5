use substrate_service::call::{ResponseQuery, SecretStoreCall};
use substrate_service::coefficients::ParticipantCoefficients;
use substrate_service::outcome::{
    DocumentKeyCommonRetrievalArtifacts, DocumentKeyShadowRetrievalArtifacts, Outcome,
    ServerKeyGenerationArtifacts, ServerKeyRetrievalArtifacts,
};
use substrate_service::primitives::{Address, Public, ServerKeyId};
use substrate_service::report::{BuildError, Report, Severity};
use substrate_service::requester::Requester;
use substrate_service::transaction_pool::{Checked, Started, SubstrateTransactionPool};

const KEY_TEXT: &str = "0x0909090909090909090909090909090909090909090909090909090909090909";

fn operation() -> ServerKeyId {
    ServerKeyId { bytes: [9; 32] }
}

fn account(tag: u8) -> Address {
    Address { bytes: [tag; 20] }
}

fn point(tag: u8) -> Public {
    Public { bytes: [tag; 64] }
}

fn node() -> Address {
    account(5)
}

fn origin() -> Address {
    account(0xee)
}

fn known_requester() -> Requester {
    Requester { credential: String::from("alice"), address: Ok(account(8)) }
}

fn unknown_requester() -> Requester {
    Requester { credential: String::from("mallory"), address: Err(String::from("bad signature")) }
}

fn shadow_artifacts(tags: &[u8]) -> DocumentKeyShadowRetrievalArtifacts {
    let mut coefficients = ParticipantCoefficients::new();
    for tag in tags {
        coefficients.insert(account(*tag), vec![*tag]);
    }
    DocumentKeyShadowRetrievalArtifacts {
        participants_coefficients: coefficients,
        encrypted_document_key: point(7),
    }
}

/// One start for each kind of outcome, each of them with a requester that resolves.
fn every_start(pool: &SubstrateTransactionPool) -> Vec<(&'static str, Started)> {
    vec![
        (
            "ServerKeyGenerationSuccess",
            pool.publish_generated_server_key(
                origin(),
                operation(),
                ServerKeyGenerationArtifacts { key: point(1) },
            ),
        ),
        (
            "ServerKeyGenerationFailure",
            pool.publish_server_key_generation_error(origin(), operation()),
        ),
        (
            "ServerKeyRetrievalSuccess",
            pool.publish_retrieved_server_key(
                origin(),
                operation(),
                ServerKeyRetrievalArtifacts { key: point(1), threshold: 2 },
            ),
        ),
        (
            "ServerKeyRetrievalFailure",
            pool.publish_server_key_retrieval_error(origin(), operation()),
        ),
        ("DocumentKeyStoreSuccess", pool.publish_stored_document_key(origin(), operation())),
        ("DocumentKeyStoreFailure", pool.publish_document_key_store_error(origin(), operation())),
        (
            "DocumentKeyCommonRetrievalSuccess",
            pool.publish_retrieved_document_key_common(
                origin(),
                operation(),
                known_requester(),
                DocumentKeyCommonRetrievalArtifacts { common_point: point(3), threshold: 2 },
            ),
        ),
        (
            "DocumentKeyCommonRetrievalFailure",
            pool.publish_document_key_common_retrieval_error(
                origin(),
                operation(),
                known_requester(),
            ),
        ),
        (
            "DocumentKeyPersonalRetrievalSuccess",
            pool.publish_retrieved_document_key_personal(
                origin(),
                operation(),
                known_requester(),
                shadow_artifacts(&[4, 5, 6]),
            ),
        ),
        (
            "DocumentKeyPersonalRetrievalFailure",
            pool.publish_document_key_personal_retrieval_error(
                origin(),
                operation(),
                known_requester(),
            ),
        ),
    ]
}

fn request_text(name: &str) -> String {
    if name.starts_with("DocumentKeyCommon") || name.starts_with("DocumentKeyPersonal") {
        format!("{}({}, alice)", name, KEY_TEXT)
    } else {
        format!("{}({})", name, KEY_TEXT)
    }
}

#[test]
fn pool_keeps_its_key_server() {
    let pool = SubstrateTransactionPool::new(node());
    assert_eq!(pool.key_server_address(), node());
}

#[test]
fn every_kind_of_outcome_starts_with_a_question() {
    let pool = SubstrateTransactionPool::new(node());
    let starts = every_start(&pool);
    assert_eq!(starts.len(), 10);
    for (name, first) in starts {
        match first {
            Started::Check { query, .. } => {
                let expected = if name.starts_with("ServerKeyGeneration") {
                    ResponseQuery::ServerKeyGeneration {
                        key_id: operation(),
                        key_server_address: node(),
                    }
                } else if name.starts_with("ServerKeyRetrieval") {
                    ResponseQuery::ServerKeyRetrieval {
                        key_id: operation(),
                        key_server_address: node(),
                    }
                } else if name.starts_with("DocumentKeyStore") {
                    ResponseQuery::DocumentKeyStore {
                        key_id: operation(),
                        key_server_address: node(),
                    }
                } else {
                    ResponseQuery::DocumentKeyShadowRetrieval {
                        key_id: operation(),
                        requester: account(8),
                        key_server_address: node(),
                    }
                };
                assert_eq!(query, expected, "{}", name);
            }
            Started::Finished(report) => panic!("{} ended early: {:?}", name, report),
        }
    }
}

#[test]
fn nothing_is_submitted_where_no_response_is_required() {
    let pool = SubstrateTransactionPool::new(node());
    for (name, first) in every_start(&pool) {
        let pending = match first {
            Started::Check { pending, .. } => pending,
            Started::Finished(report) => panic!("{} ended early: {:?}", name, report),
        };
        match pending.submit_response_transaction(Ok(false)) {
            Checked::Finished(report) => {
                assert_eq!(report, Report::NotRequired { request: request_text(name) });
                assert_eq!(report.severity(), Severity::Information);
                assert_eq!(
                    report.message(),
                    format!(
                        "Response {} is not required. Transaction is not submitted.",
                        request_text(name)
                    )
                );
            }
            Checked::Submit { transaction, .. } => {
                panic!("{} submitted {:?}", name, transaction)
            }
        }
    }
}

#[test]
fn nothing_is_submitted_where_the_check_fails() {
    let pool = SubstrateTransactionPool::new(node());
    for (name, first) in every_start(&pool) {
        let pending = match first {
            Started::Check { pending, .. } => pending,
            Started::Finished(report) => panic!("{} ended early: {:?}", name, report),
        };
        match pending.submit_response_transaction(Err(String::from("ledger is away"))) {
            Checked::Finished(report) => {
                assert_eq!(
                    report,
                    Report::CheckFailed {
                        request: request_text(name),
                        error: String::from("ledger is away"),
                    }
                );
                assert_eq!(report.severity(), Severity::Warning);
                assert_eq!(
                    report.message(),
                    format!(
                        "Failed to check if response {} is required: ledger is away",
                        request_text(name)
                    )
                );
            }
            Checked::Submit { transaction, .. } => {
                panic!("{} submitted {:?}", name, transaction)
            }
        }
    }
}

#[test]
fn failed_check_is_reported_even_where_no_response_could_be_prepared() {
    let pool = SubstrateTransactionPool::new(node());
    let first = pool.publish_retrieved_server_key(
        origin(),
        operation(),
        ServerKeyRetrievalArtifacts { key: point(1), threshold: 1000 },
    );
    let pending = match first {
        Started::Check { pending, .. } => pending,
        Started::Finished(report) => panic!("ended early: {:?}", report),
    };
    match pending.submit_response_transaction(Err(String::from("ledger is away"))) {
        Checked::Finished(report) => assert_eq!(
            report,
            Report::CheckFailed {
                request: format!("ServerKeyRetrievalSuccess({})", KEY_TEXT),
                error: String::from("ledger is away"),
            }
        ),
        Checked::Submit { transaction, .. } => panic!("submitted {:?}", transaction),
    }
}

#[test]
fn every_kind_of_outcome_submits_its_response_where_one_is_required() {
    let pool = SubstrateTransactionPool::new(node());
    let expected = vec![
        SecretStoreCall::ServerKeyGenerated(operation(), point(1)),
        SecretStoreCall::ServerKeyGenerationError(operation()),
        SecretStoreCall::ServerKeyRetrieved(operation(), point(1), 2),
        SecretStoreCall::ServerKeyRetrievalError(operation()),
        SecretStoreCall::DocumentKeyStored(operation()),
        SecretStoreCall::DocumentKeyStoreError(operation()),
        SecretStoreCall::DocumentKeyCommonRetrieved(operation(), account(8), point(3), 2),
        SecretStoreCall::DocumentKeyShadowRetrievalError(operation(), account(8)),
        SecretStoreCall::DocumentKeyPersonalRetrieved(
            operation(),
            account(8),
            vec![account(4), account(5), account(6)],
            point(7),
            vec![5],
        ),
        SecretStoreCall::DocumentKeyShadowRetrievalError(operation(), account(8)),
    ];
    for ((name, first), expected) in every_start(&pool).into_iter().zip(expected) {
        let pending = match first {
            Started::Check { pending, .. } => pending,
            Started::Finished(report) => panic!("{} ended early: {:?}", name, report),
        };
        match pending.submit_response_transaction(Ok(true)) {
            Checked::Submit { transaction, pending } => {
                assert_eq!(transaction, expected, "{}", name);
                let report = pending.finish(Ok(String::from("0xfeed")));
                assert_eq!(
                    report,
                    Report::Submitted {
                        request: request_text(name),
                        transaction: String::from("0xfeed"),
                    }
                );
            }
            Checked::Finished(report) => panic!("{} was not submitted: {:?}", name, report),
        }
    }
}

#[test]
fn accepted_submission_ends_in_one_report_with_the_transaction() {
    let pool = SubstrateTransactionPool::new(node());
    let first = pool.publish_generated_server_key(
        origin(),
        operation(),
        ServerKeyGenerationArtifacts { key: point(1) },
    );
    let pending = match first {
        Started::Check { pending, .. } => pending,
        Started::Finished(report) => panic!("ended early: {:?}", report),
    };
    let pending = match pending.submit_response_transaction(Ok(true)) {
        Checked::Submit { transaction, pending } => {
            assert_eq!(transaction, SecretStoreCall::ServerKeyGenerated(operation(), point(1)));
            pending
        }
        Checked::Finished(report) => panic!("not submitted: {:?}", report),
    };
    let report = pending.finish(Ok(String::from("H")));
    assert_eq!(report.severity(), Severity::Information);
    assert_eq!(
        report,
        Report::Submitted {
            request: format!("ServerKeyGenerationSuccess({})", KEY_TEXT),
            transaction: String::from("H"),
        }
    );
    assert_eq!(
        report.message(),
        format!("Submitted response ServerKeyGenerationSuccess({}): H", KEY_TEXT)
    );
}

#[test]
fn refused_submission_ends_in_one_warning_with_the_reason() {
    let pool = SubstrateTransactionPool::new(node());
    let first = pool.publish_stored_document_key(origin(), operation());
    let pending = match first {
        Started::Check { pending, .. } => pending,
        Started::Finished(report) => panic!("ended early: {:?}", report),
    };
    let pending = match pending.submit_response_transaction(Ok(true)) {
        Checked::Submit { pending, .. } => pending,
        Checked::Finished(report) => panic!("not submitted: {:?}", report),
    };
    let report = pending.finish(Err(String::from("pool full")));
    assert_eq!(report.severity(), Severity::Warning);
    assert_eq!(
        report,
        Report::SubmissionFailed {
            request: format!("DocumentKeyStoreSuccess({})", KEY_TEXT),
            error: String::from("pool full"),
        }
    );
    assert!(report.message().contains("pool full"));
    assert_eq!(
        report.message(),
        format!("Failed to submit response DocumentKeyStoreSuccess({}): pool full", KEY_TEXT)
    );
}

#[test]
fn unresolved_requester_ends_in_one_warning_before_the_ledger_is_asked() {
    let pool = SubstrateTransactionPool::new(node());
    let starts = vec![
        (
            "DocumentKeyCommonRetrievalSuccess",
            pool.publish_retrieved_document_key_common(
                origin(),
                operation(),
                unknown_requester(),
                DocumentKeyCommonRetrievalArtifacts { common_point: point(3), threshold: 2 },
            ),
        ),
        (
            "DocumentKeyCommonRetrievalFailure",
            pool.publish_document_key_common_retrieval_error(
                origin(),
                operation(),
                unknown_requester(),
            ),
        ),
        (
            "DocumentKeyPersonalRetrievalSuccess",
            pool.publish_retrieved_document_key_personal(
                origin(),
                operation(),
                unknown_requester(),
                shadow_artifacts(&[5]),
            ),
        ),
        (
            "DocumentKeyPersonalRetrievalFailure",
            pool.publish_document_key_personal_retrieval_error(
                origin(),
                operation(),
                unknown_requester(),
            ),
        ),
    ];
    for (name, first) in starts {
        match first {
            Started::Finished(report) => {
                assert_eq!(
                    report,
                    Report::CheckFailed {
                        request: format!("{}({}, mallory)", name, KEY_TEXT),
                        error: String::from("bad signature"),
                    }
                );
                assert_eq!(report.severity(), Severity::Warning);
                assert!(report.message().contains(KEY_TEXT));
                assert_eq!(
                    report.message(),
                    format!(
                        "Failed to check if response {}({}, mallory) is required: bad signature",
                        name, KEY_TEXT
                    )
                );
            }
            Started::Check { query, .. } => panic!("{} asked {:?}", name, query),
        }
    }
}

#[test]
fn response_that_cannot_be_prepared_is_reported_and_not_submitted() {
    let pool = SubstrateTransactionPool::new(node());
    let first = pool.publish_retrieved_document_key_common(
        origin(),
        operation(),
        known_requester(),
        DocumentKeyCommonRetrievalArtifacts { common_point: point(3), threshold: 256 },
    );
    let pending = match first {
        Started::Check { pending, .. } => pending,
        Started::Finished(report) => panic!("ended early: {:?}", report),
    };
    match pending.submit_response_transaction(Ok(true)) {
        Checked::Finished(report) => {
            assert_eq!(
                report,
                Report::PreparationFailed {
                    request: format!("DocumentKeyCommonRetrievalSuccess({}, alice)", KEY_TEXT),
                    cause: BuildError::InvalidThreshold(256),
                }
            );
            assert_eq!(report.severity(), Severity::Warning);
            assert_eq!(
                report.message(),
                format!(
                    "Failed to submit response DocumentKeyCommonRetrievalSuccess({}, alice): \
                     invalid threshold to use in service contract: 256",
                    KEY_TEXT
                )
            );
        }
        Checked::Submit { transaction, .. } => panic!("submitted {:?}", transaction),
    }
}

#[test]
fn missing_self_coefficient_is_reported_and_not_submitted() {
    let pool = SubstrateTransactionPool::new(node());
    let first = pool.publish_retrieved_document_key_personal(
        origin(),
        operation(),
        known_requester(),
        shadow_artifacts(&[4, 6]),
    );
    let pending = match first {
        Started::Check { pending, .. } => pending,
        Started::Finished(report) => panic!("ended early: {:?}", report),
    };
    match pending.submit_response_transaction(Ok(true)) {
        Checked::Finished(report) => {
            assert_eq!(
                report,
                Report::PreparationFailed {
                    request: format!("DocumentKeyPersonalRetrievalSuccess({}, alice)", KEY_TEXT),
                    cause: BuildError::MissingSelfCoefficient,
                }
            );
            assert_eq!(report.severity(), Severity::Warning);
            assert_eq!(
                report.message(),
                format!(
                    "Failed to submit response DocumentKeyPersonalRetrievalSuccess({}, alice): \
                     DocumentKeyPersonalRetrieval session has completed without self coefficient",
                    KEY_TEXT
                )
            );
        }
        Checked::Submit { transaction, .. } => panic!("submitted {:?}", transaction),
    }
}

#[test]
fn missing_self_coefficient_does_not_matter_where_no_response_is_required() {
    let pool = SubstrateTransactionPool::new(node());
    let first = pool.publish_retrieved_document_key_personal(
        origin(),
        operation(),
        known_requester(),
        shadow_artifacts(&[4, 6]),
    );
    let pending = match first {
        Started::Check { pending, .. } => pending,
        Started::Finished(report) => panic!("ended early: {:?}", report),
    };
    match pending.submit_response_transaction(Ok(false)) {
        Checked::Finished(report) => assert_eq!(
            report,
            Report::NotRequired {
                request: format!("DocumentKeyPersonalRetrievalSuccess({}, alice)", KEY_TEXT),
            }
        ),
        Checked::Submit { transaction, .. } => panic!("submitted {:?}", transaction),
    }
}

#[test]
fn general_entry_agrees_with_the_entry_of_each_kind() {
    let pool = SubstrateTransactionPool::new(node());
    let by_kind = pool.publish_retrieved_server_key(
        origin(),
        operation(),
        ServerKeyRetrievalArtifacts { key: point(1), threshold: 2 },
    );
    let general = pool.publish(Outcome::ServerKeyRetrieved {
        key_id: operation(),
        artifacts: ServerKeyRetrievalArtifacts { key: point(1), threshold: 2 },
    });
    assert_eq!(by_kind, general);
}
