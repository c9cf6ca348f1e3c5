//! What the publisher asks of the ledger, and what it sends to it.

use vstd::prelude::*;
use crate::primitives::{Address, Public, ServerKeyId};

verus! {

/// A question to the ledger: does this key server still owe a response?
#[derive(Clone, Copy, Debug, PartialEq, Eq)]
pub enum ResponseQuery {
    /// Is a response to the generation of a server key owed?
    ServerKeyGeneration { key_id: ServerKeyId, key_server_address: Address },
    /// Is a response to the retrieval of a server key owed?
    ServerKeyRetrieval { key_id: ServerKeyId, key_server_address: Address },
    /// Is a response to the storing of a document key owed?
    DocumentKeyStore { key_id: ServerKeyId, key_server_address: Address },
    /// Is a response to a requester's retrieval of a document key owed?
    DocumentKeyShadowRetrieval {
        key_id: ServerKeyId,
        requester: Address,
        key_server_address: Address,
    },
}

/// A call of the service contract, ready for the transaction pool.
#[derive(Debug, PartialEq, Eq)]
pub enum SecretStoreCall {
    /// A server key has been generated.
    ServerKeyGenerated(ServerKeyId, Public),
    /// The generation of a server key has failed.
    ServerKeyGenerationError(ServerKeyId),
    /// A server key has been retrieved, with its threshold.
    ServerKeyRetrieved(ServerKeyId, Public, u8),
    /// The retrieval of a server key has failed.
    ServerKeyRetrievalError(ServerKeyId),
    /// A document key has been stored.
    DocumentKeyStored(ServerKeyId),
    /// The storing of a document key has failed.
    DocumentKeyStoreError(ServerKeyId),
    /// The common part of a document key has been retrieved for a requester:
    /// the common point and the threshold.
    DocumentKeyCommonRetrieved(ServerKeyId, Address, Public, u8),
    /// The personal part of a document key has been retrieved for a requester:
    /// the participants, the encrypted document key and this key server's coefficient.
    DocumentKeyPersonalRetrieved(ServerKeyId, Address, Vec<Address>, Public, Vec<u8>),
    /// The retrieval of a document key for a requester has failed.
    DocumentKeyShadowRetrievalError(ServerKeyId, Address),
}

/// A call of the service contract as a mathematical value.
pub enum SecretStoreCallView {
    ServerKeyGenerated(ServerKeyId, Public),
    ServerKeyGenerationError(ServerKeyId),
    ServerKeyRetrieved(ServerKeyId, Public, u8),
    ServerKeyRetrievalError(ServerKeyId),
    DocumentKeyStored(ServerKeyId),
    DocumentKeyStoreError(ServerKeyId),
    DocumentKeyCommonRetrieved(ServerKeyId, Address, Public, u8),
    DocumentKeyPersonalRetrieved(ServerKeyId, Address, Seq<Address>, Public, Seq<u8>),
    DocumentKeyShadowRetrievalError(ServerKeyId, Address),
}

impl View for SecretStoreCall {
    type V = SecretStoreCallView;

    open spec fn view(&self) -> SecretStoreCallView {
        match *self {
            SecretStoreCall::ServerKeyGenerated(key_id, key) => SecretStoreCallView::ServerKeyGenerated(
                key_id,
                key,
            ),
            SecretStoreCall::ServerKeyGenerationError(key_id) => SecretStoreCallView::ServerKeyGenerationError(
                key_id,
            ),
            SecretStoreCall::ServerKeyRetrieved(
                key_id,
                key,
                threshold,
            ) => SecretStoreCallView::ServerKeyRetrieved(key_id, key, threshold),
            SecretStoreCall::ServerKeyRetrievalError(key_id) => SecretStoreCallView::ServerKeyRetrievalError(
                key_id,
            ),
            SecretStoreCall::DocumentKeyStored(key_id) => SecretStoreCallView::DocumentKeyStored(
                key_id,
            ),
            SecretStoreCall::DocumentKeyStoreError(key_id) => SecretStoreCallView::DocumentKeyStoreError(
                key_id,
            ),
            SecretStoreCall::DocumentKeyCommonRetrieved(
                key_id,
                requester,
                common_point,
                threshold,
            ) => SecretStoreCallView::DocumentKeyCommonRetrieved(
                key_id,
                requester,
                common_point,
                threshold,
            ),
            SecretStoreCall::DocumentKeyPersonalRetrieved(
                key_id,
                requester,
                participants,
                encrypted_document_key,
                coefficient,
            ) => SecretStoreCallView::DocumentKeyPersonalRetrieved(
                key_id,
                requester,
                participants@,
                encrypted_document_key,
                coefficient@,
            ),
            SecretStoreCall::DocumentKeyShadowRetrievalError(
                key_id,
                requester,
            ) => SecretStoreCallView::DocumentKeyShadowRetrievalError(key_id, requester),
        }
    }
}

} // verus!
