//! The outcomes of key operations, and the response that each of them calls for.

use vstd::prelude::*;
use vstd::string::*;
use crate::call::{ResponseQuery, SecretStoreCall, SecretStoreCallView};
use crate::coefficients::ParticipantCoefficients;
use crate::primitives::{Address, Public, ServerKeyId};
use crate::report::{BuildError, BuildErrorView};
use crate::requester::Requester;
use crate::text::{lemma_occurs_between, occurs_in, prefixed_hex_text};
use crate::threshold::{serialize_threshold, MAX_THRESHOLD};

verus! {

/// What the generation of a server key has brought.
#[derive(Debug, PartialEq, Eq)]
pub struct ServerKeyGenerationArtifacts {
    /// The public part of the server key.
    pub key: Public,
}

/// What the retrieval of a server key has brought.
#[derive(Debug, PartialEq, Eq)]
pub struct ServerKeyRetrievalArtifacts {
    /// The public part of the server key.
    pub key: Public,
    /// The threshold of the server key.
    pub threshold: usize,
}

/// What the retrieval of the common part of a document key has brought.
#[derive(Debug, PartialEq, Eq)]
pub struct DocumentKeyCommonRetrievalArtifacts {
    /// The common point of the document key.
    pub common_point: Public,
    /// The threshold of the server key.
    pub threshold: usize,
}

/// What the retrieval of the personal part of a document key has brought.
#[derive(Debug, PartialEq, Eq)]
pub struct DocumentKeyShadowRetrievalArtifacts {
    /// The coefficient of each key server that has taken part.
    pub participants_coefficients: ParticipantCoefficients,
    /// The document key, encrypted for the requester.
    pub encrypted_document_key: Public,
}

/// How a key operation has ended on this key server.
#[derive(Debug, PartialEq, Eq)]
#[allow(inconsistent_fields)]
pub enum Outcome {
    /// A server key has been generated.
    ServerKeyGenerated { key_id: ServerKeyId, artifacts: ServerKeyGenerationArtifacts },
    /// The generation of a server key has failed.
    ServerKeyGenerationError { key_id: ServerKeyId },
    /// A server key has been retrieved.
    ServerKeyRetrieved { key_id: ServerKeyId, artifacts: ServerKeyRetrievalArtifacts },
    /// The retrieval of a server key has failed.
    ServerKeyRetrievalError { key_id: ServerKeyId },
    /// A document key has been stored.
    DocumentKeyStored { key_id: ServerKeyId },
    /// The storing of a document key has failed.
    DocumentKeyStoreError { key_id: ServerKeyId },
    /// The common part of a document key has been retrieved for a requester.
    DocumentKeyCommonRetrieved {
        key_id: ServerKeyId,
        requester: Requester,
        artifacts: DocumentKeyCommonRetrievalArtifacts,
    },
    /// The retrieval of the common part of a document key has failed.
    DocumentKeyCommonRetrievalError { key_id: ServerKeyId, requester: Requester },
    /// The personal part of a document key has been retrieved for a requester.
    DocumentKeyPersonalRetrieved {
        key_id: ServerKeyId,
        requester: Requester,
        artifacts: DocumentKeyShadowRetrievalArtifacts,
    },
    /// The retrieval of the personal part of a document key has failed.
    DocumentKeyPersonalRetrievalError { key_id: ServerKeyId, requester: Requester },
}

/// A question to the ledger, or the text that says why none can be asked.
pub open spec fn query_view(query: Result<ResponseQuery, String>) -> Result<
    ResponseQuery,
    Seq<char>,
> {
    match query {
        Ok(question) => Ok(question),
        Err(reason) => Err(reason@),
    }
}

/// A call of the service contract, or the reason why there is none, as
/// mathematical values.
pub open spec fn response_view(response: Result<SecretStoreCall, BuildError>) -> Result<
    SecretStoreCallView,
    BuildErrorView,
> {
    match response {
        Ok(call) => Ok(call@),
        Err(error) => Err(error@),
    }
}

/// The response to the failed retrieval of a document key for a requester.
pub open spec fn retrieval_error_response(key_id: ServerKeyId, requester: Requester) -> Result<
    SecretStoreCallView,
    BuildErrorView,
> {
    match requester.resolved() {
        Ok(account) => Ok(SecretStoreCallView::DocumentKeyShadowRetrievalError(key_id, account)),
        Err(reason) => Err(BuildErrorView::Requester(reason)),
    }
}

/// The question to the ledger about a requester's retrieval of a document key.
pub open spec fn retrieval_query(
    key_id: ServerKeyId,
    requester: Requester,
    key_server_address: Address,
) -> Result<ResponseQuery, Seq<char>> {
    match requester.resolved() {
        Ok(account) => Ok(
            ResponseQuery::DocumentKeyShadowRetrieval {
                key_id,
                requester: account,
                key_server_address,
            },
        ),
        Err(reason) => Err(reason),
    }
}

impl Outcome {
    /// The operation that has ended.
    pub open spec fn key_id_spec(&self) -> ServerKeyId {
        match *self {
            Outcome::ServerKeyGenerated { key_id, .. } => key_id,
            Outcome::ServerKeyGenerationError { key_id } => key_id,
            Outcome::ServerKeyRetrieved { key_id, .. } => key_id,
            Outcome::ServerKeyRetrievalError { key_id } => key_id,
            Outcome::DocumentKeyStored { key_id } => key_id,
            Outcome::DocumentKeyStoreError { key_id } => key_id,
            Outcome::DocumentKeyCommonRetrieved { key_id, .. } => key_id,
            Outcome::DocumentKeyCommonRetrievalError { key_id, .. } => key_id,
            Outcome::DocumentKeyPersonalRetrieved { key_id, .. } => key_id,
            Outcome::DocumentKeyPersonalRetrievalError { key_id, .. } => key_id,
        }
    }

    /// The requester on whose behalf the operation ran, where it ran for one.
    pub open spec fn requester_spec(&self) -> Option<Requester> {
        match *self {
            Outcome::DocumentKeyCommonRetrieved { requester, .. } => Some(requester),
            Outcome::DocumentKeyCommonRetrievalError { requester, .. } => Some(requester),
            Outcome::DocumentKeyPersonalRetrieved { requester, .. } => Some(requester),
            Outcome::DocumentKeyPersonalRetrievalError { requester, .. } => Some(requester),
            _ => None,
        }
    }

    /// The name of the kind of operation and of its end.
    pub open spec fn name_spec(&self) -> Seq<char> {
        match *self {
            Outcome::ServerKeyGenerated { .. } => "ServerKeyGenerationSuccess"@,
            Outcome::ServerKeyGenerationError { .. } => "ServerKeyGenerationFailure"@,
            Outcome::ServerKeyRetrieved { .. } => "ServerKeyRetrievalSuccess"@,
            Outcome::ServerKeyRetrievalError { .. } => "ServerKeyRetrievalFailure"@,
            Outcome::DocumentKeyStored { .. } => "DocumentKeyStoreSuccess"@,
            Outcome::DocumentKeyStoreError { .. } => "DocumentKeyStoreFailure"@,
            Outcome::DocumentKeyCommonRetrieved { .. } => "DocumentKeyCommonRetrievalSuccess"@,
            Outcome::DocumentKeyCommonRetrievalError { .. } => "DocumentKeyCommonRetrievalFailure"@,
            Outcome::DocumentKeyPersonalRetrieved { .. } => "DocumentKeyPersonalRetrievalSuccess"@,
            Outcome::DocumentKeyPersonalRetrievalError { .. } => "DocumentKeyPersonalRetrievalFailure"@,
        }
    }

    /// The text that names the outcome in reports: the name, then in brackets
    /// the operation and, where there is one, the requester's credential.
    pub open spec fn request_text(&self) -> Seq<char> {
        match self.requester_spec() {
            Some(requester) => self.name_spec() + "("@ + prefixed_hex_text(
                self.key_id_spec().bytes@,
            ) + ", "@ + requester.credential@ + ")"@,
            None => self.name_spec() + "("@ + prefixed_hex_text(self.key_id_spec().bytes@) + ")"@,
        }
    }

    /// The question that decides whether the key server at `key_server_address`
    /// owes a response to this outcome, or, where the requester's credential
    /// yields no account, the reason why none can be asked.
    pub open spec fn query_spec(&self, key_server_address: Address) -> Result<
        ResponseQuery,
        Seq<char>,
    > {
        match *self {
            Outcome::ServerKeyGenerated { key_id, .. } => Ok(
                ResponseQuery::ServerKeyGeneration { key_id, key_server_address },
            ),
            Outcome::ServerKeyGenerationError { key_id } => Ok(
                ResponseQuery::ServerKeyGeneration { key_id, key_server_address },
            ),
            Outcome::ServerKeyRetrieved { key_id, .. } => Ok(
                ResponseQuery::ServerKeyRetrieval { key_id, key_server_address },
            ),
            Outcome::ServerKeyRetrievalError { key_id } => Ok(
                ResponseQuery::ServerKeyRetrieval { key_id, key_server_address },
            ),
            Outcome::DocumentKeyStored { key_id } => Ok(
                ResponseQuery::DocumentKeyStore { key_id, key_server_address },
            ),
            Outcome::DocumentKeyStoreError { key_id } => Ok(
                ResponseQuery::DocumentKeyStore { key_id, key_server_address },
            ),
            Outcome::DocumentKeyCommonRetrieved { key_id, requester, .. } => retrieval_query(
                key_id,
                requester,
                key_server_address,
            ),
            Outcome::DocumentKeyCommonRetrievalError { key_id, requester } => retrieval_query(
                key_id,
                requester,
                key_server_address,
            ),
            Outcome::DocumentKeyPersonalRetrieved { key_id, requester, .. } => retrieval_query(
                key_id,
                requester,
                key_server_address,
            ),
            Outcome::DocumentKeyPersonalRetrievalError { key_id, requester } => retrieval_query(
                key_id,
                requester,
                key_server_address,
            ),
        }
    }

    /// The response of the key server at `key_server_address` to this outcome,
    /// or the reason why there is none.
    ///
    /// A threshold must fit into a byte. The personal part of a document key
    /// needs the key server's own coefficient. Where a requester is named, its
    /// credential must yield an account. Of several faults the first in this
    /// order is the one reported.
    pub open spec fn response_spec(&self, key_server_address: Address) -> Result<
        SecretStoreCallView,
        BuildErrorView,
    > {
        match *self {
            Outcome::ServerKeyGenerated { key_id, artifacts } => Ok(
                SecretStoreCallView::ServerKeyGenerated(key_id, artifacts.key),
            ),
            Outcome::ServerKeyGenerationError { key_id } => Ok(
                SecretStoreCallView::ServerKeyGenerationError(key_id),
            ),
            Outcome::ServerKeyRetrieved { key_id, artifacts } => if artifacts.threshold
                > MAX_THRESHOLD {
                Err(BuildErrorView::InvalidThreshold(artifacts.threshold))
            } else {
                Ok(
                    SecretStoreCallView::ServerKeyRetrieved(
                        key_id,
                        artifacts.key,
                        artifacts.threshold as u8,
                    ),
                )
            },
            Outcome::ServerKeyRetrievalError { key_id } => Ok(
                SecretStoreCallView::ServerKeyRetrievalError(key_id),
            ),
            Outcome::DocumentKeyStored { key_id } => Ok(
                SecretStoreCallView::DocumentKeyStored(key_id),
            ),
            Outcome::DocumentKeyStoreError { key_id } => Ok(
                SecretStoreCallView::DocumentKeyStoreError(key_id),
            ),
            Outcome::DocumentKeyCommonRetrieved { key_id, requester, artifacts } => {
                if artifacts.threshold > MAX_THRESHOLD {
                    Err(BuildErrorView::InvalidThreshold(artifacts.threshold))
                } else {
                    match requester.resolved() {
                        Ok(account) => Ok(
                            SecretStoreCallView::DocumentKeyCommonRetrieved(
                                key_id,
                                account,
                                artifacts.common_point,
                                artifacts.threshold as u8,
                            ),
                        ),
                        Err(reason) => Err(BuildErrorView::Requester(reason)),
                    }
                }
            },
            Outcome::DocumentKeyCommonRetrievalError {
                key_id,
                requester,
            } => retrieval_error_response(key_id, requester),
            Outcome::DocumentKeyPersonalRetrieved { key_id, requester, artifacts } => {
                let coefficients = artifacts.participants_coefficients;
                if !coefficients@.dom().contains(key_server_address) {
                    Err(BuildErrorView::MissingSelfCoefficient)
                } else {
                    match requester.resolved() {
                        Ok(account) => Ok(
                            SecretStoreCallView::DocumentKeyPersonalRetrieved(
                                key_id,
                                account,
                                coefficients.participants(),
                                artifacts.encrypted_document_key,
                                coefficients@[key_server_address],
                            ),
                        ),
                        Err(reason) => Err(BuildErrorView::Requester(reason)),
                    }
                }
            },
            Outcome::DocumentKeyPersonalRetrievalError {
                key_id,
                requester,
            } => retrieval_error_response(key_id, requester),
        }
    }

    /// The operation that has ended.
    #[verifier::when_used_as_spec(key_id_spec)]
    pub fn key_id(&self) -> (key_id: ServerKeyId)
        ensures
            key_id == self.key_id_spec(),
    {
        match self {
            Outcome::ServerKeyGenerated { key_id, .. } => *key_id,
            Outcome::ServerKeyGenerationError { key_id } => *key_id,
            Outcome::ServerKeyRetrieved { key_id, .. } => *key_id,
            Outcome::ServerKeyRetrievalError { key_id } => *key_id,
            Outcome::DocumentKeyStored { key_id } => *key_id,
            Outcome::DocumentKeyStoreError { key_id } => *key_id,
            Outcome::DocumentKeyCommonRetrieved { key_id, .. } => *key_id,
            Outcome::DocumentKeyCommonRetrievalError { key_id, .. } => *key_id,
            Outcome::DocumentKeyPersonalRetrieved { key_id, .. } => *key_id,
            Outcome::DocumentKeyPersonalRetrievalError { key_id, .. } => *key_id,
        }
    }

    /// The requester on whose behalf the operation ran, where it ran for one.
    pub fn requester(&self) -> (requester: Option<&Requester>)
        ensures
            match requester {
                Some(named) => self.requester_spec() == Some(*named),
                None => self.requester_spec() is None,
            },
    {
        match self {
            Outcome::DocumentKeyCommonRetrieved { requester, .. } => Some(requester),
            Outcome::DocumentKeyCommonRetrievalError { requester, .. } => Some(requester),
            Outcome::DocumentKeyPersonalRetrieved { requester, .. } => Some(requester),
            Outcome::DocumentKeyPersonalRetrievalError { requester, .. } => Some(requester),
            _ => None,
        }
    }

    /// The name of the kind of operation and of its end.
    pub fn name(&self) -> (name: &'static str)
        ensures
            name@ == self.name_spec(),
    {
        match self {
            Outcome::ServerKeyGenerated { .. } => "ServerKeyGenerationSuccess",
            Outcome::ServerKeyGenerationError { .. } => "ServerKeyGenerationFailure",
            Outcome::ServerKeyRetrieved { .. } => "ServerKeyRetrievalSuccess",
            Outcome::ServerKeyRetrievalError { .. } => "ServerKeyRetrievalFailure",
            Outcome::DocumentKeyStored { .. } => "DocumentKeyStoreSuccess",
            Outcome::DocumentKeyStoreError { .. } => "DocumentKeyStoreFailure",
            Outcome::DocumentKeyCommonRetrieved { .. } => "DocumentKeyCommonRetrievalSuccess",
            Outcome::DocumentKeyCommonRetrievalError { .. } => "DocumentKeyCommonRetrievalFailure",
            Outcome::DocumentKeyPersonalRetrieved { .. } => "DocumentKeyPersonalRetrievalSuccess",
            Outcome::DocumentKeyPersonalRetrievalError { .. } => "DocumentKeyPersonalRetrievalFailure",
        }
    }

    /// Writes the text that names the outcome in reports.
    pub fn formatted_request(&self) -> (request: String)
        ensures
            request@ == self.request_text(),
    {
        let key_id = self.key_id();
        let mut request = String::from_str(self.name());
        request.append("(");
        request.append(key_id.to_text().as_str());
        match self.requester() {
            Some(requester) => {
                request.append(", ");
                request.append(requester.credential.as_str());
            },
            None => {},
        }
        request.append(")");
        request
    }

    /// The question that decides whether the key server at `key_server_address`
    /// owes a response to this outcome.
    pub fn response_query(&self, key_server_address: Address) -> (query: Result<
        ResponseQuery,
        String,
    >)
        ensures
            query_view(query) == self.query_spec(key_server_address),
    {
        let key_id = self.key_id();
        match self {
            Outcome::ServerKeyGenerated { .. } | Outcome::ServerKeyGenerationError { .. } => Ok(
                ResponseQuery::ServerKeyGeneration { key_id, key_server_address },
            ),
            Outcome::ServerKeyRetrieved { .. } | Outcome::ServerKeyRetrievalError { .. } => Ok(
                ResponseQuery::ServerKeyRetrieval { key_id, key_server_address },
            ),
            Outcome::DocumentKeyStored { .. } | Outcome::DocumentKeyStoreError { .. } => Ok(
                ResponseQuery::DocumentKeyStore { key_id, key_server_address },
            ),
            Outcome::DocumentKeyCommonRetrieved { requester, .. }
            | Outcome::DocumentKeyCommonRetrievalError { requester, .. }
            | Outcome::DocumentKeyPersonalRetrieved { requester, .. }
            | Outcome::DocumentKeyPersonalRetrievalError { requester, .. } => {
                match requester.address() {
                    Ok(account) => Ok(
                        ResponseQuery::DocumentKeyShadowRetrieval {
                            key_id,
                            requester: account,
                            key_server_address,
                        },
                    ),
                    Err(reason) => Err(reason),
                }
            },
        }
    }

    /// Prepares the response of the key server at `key_server_address` to this
    /// outcome.
    pub fn prepare_response(&self, key_server_address: Address) -> (response: Result<
        SecretStoreCall,
        BuildError,
    >)
        ensures
            response_view(response) == self.response_spec(key_server_address),
    {
        match self {
            Outcome::ServerKeyGenerated { key_id, artifacts } => Ok(
                SecretStoreCall::ServerKeyGenerated(*key_id, artifacts.key),
            ),
            Outcome::ServerKeyGenerationError { key_id } => Ok(
                SecretStoreCall::ServerKeyGenerationError(*key_id),
            ),
            Outcome::ServerKeyRetrieved { key_id, artifacts } => {
                match serialize_threshold(artifacts.threshold) {
                    Ok(threshold) => Ok(
                        SecretStoreCall::ServerKeyRetrieved(*key_id, artifacts.key, threshold),
                    ),
                    Err(_) => Err(BuildError::InvalidThreshold(artifacts.threshold)),
                }
            },
            Outcome::ServerKeyRetrievalError { key_id } => Ok(
                SecretStoreCall::ServerKeyRetrievalError(*key_id),
            ),
            Outcome::DocumentKeyStored { key_id } => Ok(SecretStoreCall::DocumentKeyStored(*key_id)),
            Outcome::DocumentKeyStoreError { key_id } => Ok(
                SecretStoreCall::DocumentKeyStoreError(*key_id),
            ),
            Outcome::DocumentKeyCommonRetrieved { key_id, requester, artifacts } => {
                let threshold = match serialize_threshold(artifacts.threshold) {
                    Ok(threshold) => threshold,
                    Err(_) => {
                        return Err(BuildError::InvalidThreshold(artifacts.threshold));
                    },
                };
                match requester.address() {
                    Ok(account) => Ok(
                        SecretStoreCall::DocumentKeyCommonRetrieved(
                            *key_id,
                            account,
                            artifacts.common_point,
                            threshold,
                        ),
                    ),
                    Err(reason) => Err(BuildError::Requester(reason)),
                }
            },
            Outcome::DocumentKeyCommonRetrievalError { key_id, requester }
            | Outcome::DocumentKeyPersonalRetrievalError { key_id, requester } => {
                match requester.address() {
                    Ok(account) => Ok(
                        SecretStoreCall::DocumentKeyShadowRetrievalError(*key_id, account),
                    ),
                    Err(reason) => Err(BuildError::Requester(reason)),
                }
            },
            Outcome::DocumentKeyPersonalRetrieved { key_id, requester, artifacts } => {
                let self_coefficient = match artifacts.participants_coefficients.get(
                    &key_server_address,
                ) {
                    Some(coefficient) => coefficient.clone(),
                    None => {
                        return Err(BuildError::MissingSelfCoefficient);
                    },
                };
                match requester.address() {
                    Ok(account) => Ok(
                        SecretStoreCall::DocumentKeyPersonalRetrieved(
                            *key_id,
                            account,
                            artifacts.participants_coefficients.keys(),
                            artifacts.encrypted_document_key,
                            self_coefficient,
                        ),
                    ),
                    Err(reason) => Err(BuildError::Requester(reason)),
                }
            },
        }
    }
}

/// The personal part of a document key cannot be published without this key
/// server's own coefficient: where the participants' coefficients hold none
/// for it, preparing the response fails with
/// [`BuildError::MissingSelfCoefficient`]. Where they hold one and the
/// requester's credential yields an account, the response is prepared: it
/// carries that coefficient, and its participants are those of the map.
pub proof fn lemma_personal_retrieval_response(
    key_id: ServerKeyId,
    requester: Requester,
    artifacts: DocumentKeyShadowRetrievalArtifacts,
    key_server_address: Address,
)
    requires
        artifacts.participants_coefficients.well_formed(),
    ensures
        ({
            let outcome = Outcome::DocumentKeyPersonalRetrieved { key_id, requester, artifacts };
            let coefficients = artifacts.participants_coefficients@;
            let response = outcome.response_spec(key_server_address);
            &&& !coefficients.dom().contains(key_server_address) ==> response == Err::<
                SecretStoreCallView,
                BuildErrorView,
            >(BuildErrorView::MissingSelfCoefficient)
            &&& coefficients.dom().contains(key_server_address) && requester.resolved() is Ok
                ==> {
                &&& response matches Ok(
                    SecretStoreCallView::DocumentKeyPersonalRetrieved(
                        operation,
                        account,
                        participants,
                        encrypted_document_key,
                        self_coefficient,
                    ),
                )
                &&& operation == key_id
                &&& requester.resolved() == Ok::<Address, Seq<char>>(account)
                &&& participants.to_set() == coefficients.dom()
                &&& encrypted_document_key == artifacts.encrypted_document_key
                &&& self_coefficient == coefficients[key_server_address]
            }
        }),
{
    let coefficients = artifacts.participants_coefficients;
    coefficients.lemma_participants();
    assert(coefficients.participants().to_set() =~= coefficients@.dom());
}

/// Preparing a response depends on nothing but the outcome and the key
/// server: whatever is prepared twice for the same outcome is the same.
pub proof fn lemma_response_is_determined(
    outcome: Outcome,
    key_server_address: Address,
    first: Result<SecretStoreCall, BuildError>,
    second: Result<SecretStoreCall, BuildError>,
)
    requires
        response_view(first) == outcome.response_spec(key_server_address),
        response_view(second) == outcome.response_spec(key_server_address),
    ensures
        response_view(first) == response_view(second),
{
}

/// The text that names an outcome in reports holds the operation in full.
pub proof fn lemma_request_names_operation(outcome: Outcome)
    ensures
        occurs_in(outcome.request_text(), prefixed_hex_text(outcome.key_id().bytes@)),
{
    let opening = outcome.name_spec() + "("@;
    let operation = prefixed_hex_text(outcome.key_id().bytes@);
    match outcome.requester_spec() {
        Some(requester) => {
            let rest = ", "@ + requester.credential@ + ")"@;
            assert(outcome.request_text() =~= opening + operation + rest);
            lemma_occurs_between(opening, operation, rest);
        },
        None => {
            lemma_occurs_between(opening, operation, ")"@);
        },
    }
}

} // verus!
