use vstd::prelude::*;

use crate::didcomm::envelope::{
    build_envelope, container_view, delivered, didcomm_received, new_attachment_id, open_message,
    opt_str_view, raw_json, receive_plain, sent_as, spec_verify_plain, VerifiedContainer,
};
use crate::didcomm::json::{json_valid, nesting_within_limit};
use crate::errors::NodeXError;
use crate::keyring::mnemonic::MnemonicKeyring;

verus! {

/// DIDComm messages without a signature: no authenticity is claimed.
pub struct DIDCommPlaintextService {}

impl DIDCommPlaintextService {
    /// Serializes the message from the keyring's DID to `to_did` that carries
    /// the credential `body` and, when given, `metadata` in an attachment with
    /// a fresh id. Fails exactly when the keyring has no DID bound, or when
    /// `to_did` is empty, `body` or `metadata` is not JSON, or `body` nests
    /// too deep.
    pub fn generate(keyring: &MnemonicKeyring, to_did: &str, body: &str, metadata: Option<&str>) -> (r: Result<String, NodeXError>)
        ensures
            keyring.identifier() is None ==> r == Err::<String, NodeXError>(NodeXError::Keyring),
            keyring.identifier() is Some && !(to_did@.len() > 0 && json_valid(body@) && nesting_within_limit(body@) && (
            metadata matches Some(m) ==> json_valid(m@))) ==> r == Err::<String, NodeXError>(
                NodeXError::Protocol,
            ),
            keyring.identifier() is Some && to_did@.len() > 0 && json_valid(body@) && nesting_within_limit(
                body@,
            ) && (metadata matches Some(m) ==> json_valid(m@)) ==> r is Ok,
            r matches Err(e) ==> e == NodeXError::Keyring || e == NodeXError::Protocol,
            r matches Ok(text) ==> sent_as(
                text@,
                keyring.identifier().unwrap(),
                to_did@,
                body@,
                opt_str_view(metadata),
            ),
    {
        let did = match keyring.get_identifier() {
            Ok(v) => v,
            Err(e) => return Err(e),
        };
        let id = match metadata {
            Some(_) => new_attachment_id(),
            None => String::new(),
        };
        let envelope = match build_envelope(did.as_str(), to_did, body, metadata, id.as_str()) {
            Ok(v) => v,
            Err(e) => return Err(e),
        };
        match raw_json(&envelope) {
            Some(text) => {
                assert(didcomm_received(text@) == Some(delivered(envelope)));
                Ok(text)
            },
            None => Err(NodeXError::Protocol),
        }
    }

    /// Recovers the body and metadata of a received plain message text.
    pub fn verify(message: &str) -> (r: Result<VerifiedContainer, NodeXError>)
        ensures
            r.is_ok() <==> spec_verify_plain(message@).is_ok(),
            r matches Ok(c) ==> spec_verify_plain(message@) == Ok::<(Seq<char>, Option<Seq<char>>), NodeXError>(
                container_view(c),
            ),
            r matches Err(e) ==> e == NodeXError::Protocol,
    {
        match receive_plain(message) {
            Some(m) => open_message(&m),
            None => Err(NodeXError::Protocol),
        }
    }
}

} // verus!
