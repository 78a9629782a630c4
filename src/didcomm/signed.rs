use vstd::prelude::*;

use crate::base64_url::{spec_decode_as_bytes, spec_decode_as_string, Base64Url, PaddingType};
use crate::didcomm::envelope::{
    json_normalized,
    build_envelope, container_view, delivered, envelope_carries, new_attachment_id,
    open_message, opt_str_view, spec_open, Envelope, MessageView,
    ReceivedAttachment, ReceivedMessage, VerifiedContainer, METADATA_FORMAT, METADATA_LINK,
};
use crate::didcomm::json::{json_string_member, json_valid, nesting_within_limit, string_member};
use crate::keyring::derivation::es256k_public_of;
use crate::errors::NodeXError;
use crate::keyring::mnemonic::MnemonicKeyring;

verus! {

/// Member of a signed envelope that holds the base64url (unpadded) payload.
pub const PAYLOAD_MEMBER: &'static str = "payload";

/// Member of the decoded payload that names the sender's DID.
pub const FROM_MEMBER: &'static str = "from";

/// Length of each coordinate of a secp256k1 public key.
pub const COORDINATE_LENGTH: usize = 32;

/// Leading byte of a compressed SEC1 public key whose y coordinate is even;
/// one more when it is odd.
pub const EVEN_Y_TAG: u8 = 2;

/// Key type that a secp256k1 JWK names.
pub const JWK_KEY_TYPE: &'static str = "EC";

/// Curve that a secp256k1 JWK names.
pub const JWK_CURVE: &'static str = "secp256k1";

/// DIDComm messages signed as a JWS with the sender's sign key (ES256K).
pub struct DIDCommSignedService {}

/// An envelope and the secret key that is to sign it.
pub struct SigningRequest {
    pub envelope: Envelope,
    pub secret_key: Vec<u8>,
}

/// A public key of a resolved DID document, as a JWK.
pub struct PublicKeyJwk {
    pub kty: String,
    pub crv: String,
    pub x: String,
    pub y: String,
}

/// The sender DID that a signed envelope claims: the `from` member of the
/// JSON that its `payload` member decodes to.
pub open spec fn spec_sender_did(envelope: Seq<char>) -> Result<Seq<char>, NodeXError> {
    match json_string_member(envelope, PAYLOAD_MEMBER@) {
        None => Err(NodeXError::Protocol),
        Some(p) => match spec_decode_as_string(p, PaddingType::NoPadding) {
            Err(_) => Err(NodeXError::Protocol),
            Ok(d) => match json_string_member(d, FROM_MEMBER@) {
                None => Err(NodeXError::Protocol),
                Some(f) => Ok(f),
            },
        },
    }
}

/// The compressed SEC1 public key of a secp256k1 JWK: the parity of y, then
/// x. The form is the one the keyring holds and signing names.
pub open spec fn jwk_public_key(jwk: JwkView) -> Option<Seq<u8>> {
    let (kty, crv, x, y) = jwk;
    if kty != JWK_KEY_TYPE@ || crv != JWK_CURVE@ {
        None
    } else {
        match (spec_decode_as_bytes(x, PaddingType::NoPadding), spec_decode_as_bytes(y, PaddingType::NoPadding)) {
            (Ok(xb), Ok(yb)) => if xb.len() == COORDINATE_LENGTH && yb.len() == COORDINATE_LENGTH {
                Some(seq![(EVEN_Y_TAG + yb[31] % 2) as u8] + xb)
            } else {
                None
            },
            _ => None,
        }
    }
}

/// (kty, crv, x, y) of a JWK.
pub type JwkView = (Seq<char>, Seq<char>, Seq<char>, Seq<char>);

/// The key that verifies a sender's signatures: that of the only public key
/// of its document. A document without keys or with more than one is refused.
pub open spec fn spec_verification_key(keys: Option<Seq<JwkView>>) -> Result<Seq<u8>, NodeXError> {
    match keys {
        None => Err(NodeXError::Resolution),
        Some(k) => if k.len() != 1 {
            Err(NodeXError::Resolution)
        } else {
            match jwk_public_key(k[0]) {
                Some(p) => Ok(p),
                None => Err(NodeXError::Resolution),
            }
        },
    }
}

/// (kty, crv, x, y) of each key of a document.
pub open spec fn keys_view(keys: Option<Vec<PublicKeyJwk>>) -> Option<Seq<JwkView>> {
    match keys {
        Some(k) => Some(k@.map_values(|j: PublicKeyJwk| (j.kty@, j.crv@, j.x@, j.y@))),
        None => None,
    }
}

/// Body, attachments, sender and recipients of the message that a JWS text
/// carries, if a signature of it verifies under `public_key` (SEC1 bytes)
/// and its payload is a message.
pub uninterp spec fn jws_verified(text: Seq<char>, public_key: Seq<u8>) -> Option<MessageView>;

/// Relies on didcomm_rs::Message::as_jws and Message::sign with the ES256K
/// signer, on a message built as the plain one is. Signing fails exactly
/// where k256 refuses the secret key. The payload is the message as
/// serde_json writes it, base64url-encoded without padding, with the sender
/// as its `from` member; Message::verify accepts the text under the
/// secret's public key (ECDSA) and parses the payload back as
/// Message::receive does a plain message.
#[verifier::external_body]
fn sign_jws(env: &Envelope, secret_key: &[u8]) -> (r: Option<String>)
    requires
        env.to@.len() == 1,
        env.to@[0]@.len() > 0,
        secret_key@.len() == 32,
        json_valid(env.body@),
        nesting_within_limit(env.body@),
    ensures
        r is Some <==> es256k_public_of(secret_key@) is Some,
        r matches Some(s) ==> (spec_sender_did(s@) matches Ok(f) && f == env.from@),
        r matches Some(s) ==> jws_verified(s@, es256k_public_of(secret_key@).unwrap()) == Some(
            delivered(*env),
        ) && json_valid(delivered(*env).0),
{
    let to: Vec<&str> = env.to.iter().map(|t| t.as_str()).collect();
    let mut m = didcomm_rs::Message::new().from(&env.from).to(&to).body(&env.body);
    if let Some(a) = &env.attachment {
        let data = didcomm_rs::AttachmentDataBuilder::new().with_link(&a.link).with_json(&a.json);
        m.apeend_attachment(
            didcomm_rs::AttachmentBuilder::new(true).with_id(&a.id).with_format(&a.format).with_data(data),
        );
    }
    let alg = didcomm_rs::crypto::SignatureAlgorithm::Es256k;
    m.as_jws(&alg).sign(didcomm_rs::crypto::Signer::signer(&alg), secret_key).ok()
}

/// Relies on didcomm_rs::Message::verify, then Message::get_body,
/// Message::get_attachments and Message::get_didcomm_header: the signed
/// message, if a signature verifies.
#[verifier::external_body]
fn verify_jws(text: &str, public_key: &[u8]) -> (r: Option<ReceivedMessage>)
    ensures
        r matches Some(m) ==> jws_verified(text@, public_key@) == Some(m.message_view()),
        r is None ==> jws_verified(text@, public_key@) is None,
{
    let m = didcomm_rs::Message::verify(text.as_bytes(), public_key).ok()?;
    let attachments = m.get_attachments().map(
        |a| ReceivedAttachment {
            format: a.format.clone(),
            json: a.data.json.clone(),
            id: a.id.clone(),
            links: a.data.links.clone(),
        },
    ).collect();
    let header = m.get_didcomm_header();
    Some(ReceivedMessage { from: header.from.clone(), to: header.to.clone(), body: m.get_body().ok()?, attachments })
}

/// What verifying a JWS text under `public_key` yields: a protocol error
/// when its payload names no sender, a cryptographic error when no signature
/// verifies, else the message opened.
pub open spec fn spec_verify_with_key(text: Seq<char>, public_key: Seq<u8>) -> Result<(Seq<char>, Option<Seq<char>>), NodeXError> {
    match spec_sender_did(text) {
        Err(e) => Err(e),
        Ok(_) => match jws_verified(text, public_key) {
            None => Err(NodeXError::Crypto),
            Some(m) => spec_open(m.0, m.1),
        },
    }
}

/// What verifying a JWS text against the public keys of the sender's
/// document yields: the payload is read first, then the key is selected,
/// then the signature is checked, then the message is opened.
pub open spec fn spec_verify(text: Seq<char>, keys: Option<Seq<JwkView>>) -> Result<(Seq<char>, Option<Seq<char>>), NodeXError> {
    match spec_sender_did(text) {
        Err(e) => Err(e),
        Ok(_) => match spec_verification_key(keys) {
            Err(e) => Err(e),
            Ok(k) => spec_verify_with_key(text, k),
        },
    }
}

/// Whether `text` is a JWS, signed with `secret`, of an envelope that goes
/// from `from` to `to` and carries `body` and `metadata`.
pub open spec fn signed_as(
    text: Seq<char>,
    from: Seq<char>,
    to: Seq<char>,
    body: Seq<char>,
    metadata: Option<Seq<char>>,
    secret: Seq<u8>,
) -> bool {
    &&& es256k_public_of(secret) is Some
    &&& spec_sender_did(text) == Ok::<Seq<char>, NodeXError>(from)
    &&& exists|env: Envelope|
        #![trigger delivered(env)]
        envelope_carries(env, from, to, body, metadata) && jws_verified(
            text,
            es256k_public_of(secret).unwrap(),
        ) == Some(delivered(env)) && json_valid(delivered(env).0)
}

impl PublicKeyJwk {
    /// The compressed SEC1 public key that this secp256k1 JWK gives.
    pub fn to_public_key(&self) -> (r: Result<Vec<u8>, NodeXError>)
        ensures
            r.is_ok() <==> jwk_public_key((self.kty@, self.crv@, self.x@, self.y@)) is Some,
            r matches Ok(k) ==> jwk_public_key((self.kty@, self.crv@, self.x@, self.y@)) == Some(k@),
            r matches Err(e) ==> e == NodeXError::Resolution,
    {
        if self.kty != JWK_KEY_TYPE.to_owned() || self.crv != JWK_CURVE.to_owned() {
            return Err(NodeXError::Resolution);
        }
        let mut x = match Base64Url::decode_as_bytes(self.x.as_str(), &PaddingType::NoPadding) {
            Ok(v) => v,
            Err(_) => return Err(NodeXError::Resolution),
        };
        let y = match Base64Url::decode_as_bytes(self.y.as_str(), &PaddingType::NoPadding) {
            Ok(v) => v,
            Err(_) => return Err(NodeXError::Resolution),
        };
        if x.len() != COORDINATE_LENGTH || y.len() != COORDINATE_LENGTH {
            return Err(NodeXError::Resolution);
        }
        let ghost xb = x@;
        let tag: u8 = EVEN_Y_TAG + y[31] % 2;
        let mut key: Vec<u8> = Vec::new();
        key.push(tag);
        key.append(&mut x);
        assert(key@ =~= seq![tag] + xb);
        Ok(key)
    }
}

impl DIDCommSignedService {
    /// Builds the message from the keyring's DID to `to_did`, as the plaintext
    /// service does, together with the keyring's sign secret key that is to
    /// sign it.
    pub fn signing_request(keyring: &MnemonicKeyring, to_did: &str, body: &str, metadata: Option<&str>) -> (r: Result<SigningRequest, NodeXError>)
        ensures
            keyring.identifier() is None ==> r == Err::<SigningRequest, NodeXError>(NodeXError::Keyring),
            keyring.identifier() is Some ==> (r.is_ok() <==> to_did@.len() > 0 && json_valid(body@) && nesting_within_limit(
                body@,
            ) && (metadata matches Some(m) ==> json_valid(m@))),
            keyring.identifier() is Some ==> (r matches Err(e) ==> e == NodeXError::Protocol),
            r matches Ok(s) ==> envelope_carries(
                s.envelope,
                keyring.identifier().unwrap(),
                to_did@,
                body@,
                opt_str_view(metadata),
            ) && s.secret_key@ == keyring.sign_pair().secret_key(),
    {
        let did = match keyring.get_identifier() {
            Ok(v) => v,
            Err(e) => return Err(e),
        };
        let id = match metadata {
            Some(_) => new_attachment_id(),
            None => String::new(),
        };
        let envelope = match build_envelope(did.as_str(), to_did, body, metadata, id.as_str()) {
            Ok(v) => v,
            Err(e) => return Err(e),
        };
        let secret_key = keyring.get_sign_key_pair().get_secret_key();
        Ok(SigningRequest { envelope, secret_key })
    }

    /// Signs, with the keyring's sign key (ES256K), the message that
    /// `signing_request` builds, and serializes it as a JWS whose signature
    /// verifies under the keyring's sign public key. Fails exactly as
    /// `signing_request` does.
    pub fn generate(keyring: &MnemonicKeyring, to_did: &str, body: &str, metadata: Option<&str>) -> (r: Result<String, NodeXError>)
        requires
            keyring.wf(),
        ensures
            keyring.identifier() is None ==> r == Err::<String, NodeXError>(NodeXError::Keyring),
            keyring.identifier() is Some && !(to_did@.len() > 0 && json_valid(body@) && nesting_within_limit(
                body@,
            ) && (metadata matches Some(m) ==> json_valid(m@))) ==> r == Err::<String, NodeXError>(
                NodeXError::Protocol,
            ),
            keyring.identifier() is Some && to_did@.len() > 0 && json_valid(body@) && nesting_within_limit(
                body@,
            ) && (metadata matches Some(m) ==> json_valid(m@)) ==> r is Ok,
            r matches Err(e) ==> e == NodeXError::Keyring || e == NodeXError::Protocol,
            r is Ok ==> es256k_public_of(keyring.sign_pair().secret_key()) == Some(
                keyring.sign_pair().public_key(),
            ),
            r matches Ok(text) ==> signed_as(
                text@,
                keyring.identifier().unwrap(),
                to_did@,
                body@,
                opt_str_view(metadata),
                keyring.sign_pair().secret_key(),
            ),
    {
        let request = match Self::signing_request(keyring, to_did, body, metadata) {
            Ok(v) => v,
            Err(e) => return Err(e),
        };
        match sign_jws(&request.envelope, request.secret_key.as_slice()) {
            Some(text) => Ok(text),
            None => Err(NodeXError::Crypto),
        }
    }

    /// The sender DID that a signed envelope (JSON text) claims, read from its
    /// payload before anything is resolved or checked.
    pub fn sender_did(envelope: &str) -> (r: Result<String, NodeXError>)
        ensures
            r.is_ok() <==> spec_sender_did(envelope@).is_ok(),
            r matches Ok(d) ==> spec_sender_did(envelope@) == Ok::<Seq<char>, NodeXError>(d@),
            r matches Err(e) ==> e == NodeXError::Protocol,
    {
        let payload = match string_member(envelope, PAYLOAD_MEMBER) {
            Some(v) => v,
            None => return Err(NodeXError::Protocol),
        };
        let decoded = match Base64Url::decode_as_string(payload.as_str(), &PaddingType::NoPadding) {
            Ok(v) => v,
            Err(_) => return Err(NodeXError::Protocol),
        };
        match string_member(decoded.as_str(), FROM_MEMBER) {
            Some(v) => Ok(v),
            None => Err(NodeXError::Protocol),
        }
    }

    /// The public key that must verify the sender's signature, taken from the
    /// public keys of its resolved document; refused unless there is exactly one.
    pub fn verification_key(public_keys: &Option<Vec<PublicKeyJwk>>) -> (r: Result<Vec<u8>, NodeXError>)
        ensures
            r.is_ok() <==> spec_verification_key(keys_view(*public_keys)).is_ok(),
            r matches Ok(k) ==> spec_verification_key(keys_view(*public_keys)) == Ok::<Seq<u8>, NodeXError>(
                k@,
            ),
            r matches Err(e) ==> e == NodeXError::Resolution,
    {
        let keys = match public_keys {
            Some(v) => v,
            None => return Err(NodeXError::Resolution),
        };
        if keys.len() != 1 {
            return Err(NodeXError::Resolution);
        }
        keys[0].to_public_key()
    }

    /// Recovers body and metadata of a JWS text whose signature verifies
    /// under `public_key`. A payload that names no sender is a protocol
    /// error; a signature that does not verify is a cryptographic error.
    pub fn verify_with_key(envelope: &str, public_key: &[u8]) -> (r: Result<VerifiedContainer, NodeXError>)
        ensures
            r.is_ok() <==> spec_verify_with_key(envelope@, public_key@).is_ok(),
            r matches Ok(c) ==> spec_verify_with_key(envelope@, public_key@) == Ok::<
                (Seq<char>, Option<Seq<char>>),
                NodeXError,
            >(container_view(c)),
            r matches Err(e) ==> spec_verify_with_key(envelope@, public_key@) == Err::<
                (Seq<char>, Option<Seq<char>>),
                NodeXError,
            >(e),
    {
        match Self::sender_did(envelope) {
            Ok(_) => {},
            Err(e) => return Err(e),
        }
        match verify_jws(envelope, public_key) {
            Some(m) => open_message(&m),
            None => Err(NodeXError::Crypto),
        }
    }

    /// Verifies a JWS text against `public_keys`, those of the resolved
    /// document of the DID that `sender_did` reads from it, and recovers body
    /// and metadata. The payload is read first; the document must then hold
    /// exactly one key; the signature is checked last before the message is
    /// trusted.
    pub fn verify(envelope: &str, public_keys: &Option<Vec<PublicKeyJwk>>) -> (r: Result<VerifiedContainer, NodeXError>)
        ensures
            r.is_ok() <==> spec_verify(envelope@, keys_view(*public_keys)).is_ok(),
            r matches Ok(c) ==> spec_verify(envelope@, keys_view(*public_keys)) == Ok::<
                (Seq<char>, Option<Seq<char>>),
                NodeXError,
            >(container_view(c)),
            r matches Err(e) ==> spec_verify(envelope@, keys_view(*public_keys)) == Err::<
                (Seq<char>, Option<Seq<char>>),
                NodeXError,
            >(e),
    {
        match Self::sender_did(envelope) {
            Ok(_) => {},
            Err(e) => return Err(e),
        }
        let key = match Self::verification_key(public_keys) {
            Ok(k) => k,
            Err(e) => return Err(e),
        };
        Self::verify_with_key(envelope, key.as_slice())
    }
}

/// An envelope whose payload names no sender fails with a protocol error,
/// whatever the resolved document holds.
pub proof fn lemma_payload_first(text: Seq<char>, keys: Option<Seq<JwkView>>)
    requires
        spec_sender_did(text) is Err,
    ensures
        spec_verify(text, keys) == Err::<(Seq<char>, Option<Seq<char>>), NodeXError>(NodeXError::Protocol),
{
}

/// Verifying a well-formed envelope against a resolved document with no
/// public key, or with two or more, fails with a resolution error, before any
/// signature is checked.
pub proof fn lemma_key_count(text: Seq<char>, keys: Seq<JwkView>)
    requires
        spec_sender_did(text) is Ok,
        keys.len() != 1,
    ensures
        spec_verify(text, Some(keys)) == Err::<(Seq<char>, Option<Seq<char>>), NodeXError>(
            NodeXError::Resolution,
        ),
{
}

/// Once the payload is read and the key selected, a signature that does not
/// verify fails with a cryptographic error, never a protocol one.
pub proof fn lemma_bad_signature(text: Seq<char>, public_key: Seq<u8>)
    requires
        spec_sender_did(text) is Ok,
        jws_verified(text, public_key) is None,
    ensures
        spec_verify_with_key(text, public_key) == Err::<(Seq<char>, Option<Seq<char>>), NodeXError>(
            NodeXError::Crypto,
        ),
{
}

/// Verifying what signed generation produced, under the public key of the
/// secret that signed it, gives back the body (the same JSON value, as
/// serde_json writes it) and exactly the metadata text; the signed message
/// names the sender and the one recipient.
pub proof fn lemma_signed_round_trip(
    text: Seq<char>,
    from: Seq<char>,
    to: Seq<char>,
    body: Seq<char>,
    metadata: Option<Seq<char>>,
    secret: Seq<u8>,
)
    requires
        signed_as(text, from, to, body, metadata, secret),
    ensures
        spec_verify_with_key(text, es256k_public_of(secret).unwrap()) == Ok::<
            (Seq<char>, Option<Seq<char>>),
            NodeXError,
        >((json_normalized(json_normalized(body)), metadata)),
        jws_verified(text, es256k_public_of(secret).unwrap()) matches Some(m) && m.2 == Some(from)
            && m.3 == seq![to] && (metadata is Some ==> m.1.len() == 1 && m.1[0].2 is Some && m.1[0].3
            == seq![METADATA_LINK@]),
{
    let env = choose|env: Envelope|
        #![trigger delivered(env)]
        envelope_carries(env, from, to, body, metadata) && jws_verified(
            text,
            es256k_public_of(secret).unwrap(),
        ) == Some(delivered(env)) && json_valid(delivered(env).0);
    assert(env.to.deep_view() =~= seq![to]);
    match metadata {
        Some(m) => {
            assert(delivered(env).1[0].0 == Some(METADATA_FORMAT@));
        },
        None => {},
    }
}

/// Verifying what signed generation produced, against a resolved document
/// whose one key is a JWK of the signer's public key, gives back the body
/// (the same JSON value, as serde_json writes it) and exactly the metadata.
pub proof fn lemma_signed_round_trip_resolved(
    text: Seq<char>,
    from: Seq<char>,
    to: Seq<char>,
    body: Seq<char>,
    metadata: Option<Seq<char>>,
    secret: Seq<u8>,
    jwk: JwkView,
)
    requires
        signed_as(text, from, to, body, metadata, secret),
        jwk_public_key(jwk) == es256k_public_of(secret),
    ensures
        spec_verify(text, Some(seq![jwk])) == Ok::<(Seq<char>, Option<Seq<char>>), NodeXError>(
            (json_normalized(json_normalized(body)), metadata),
        ),
{
    lemma_signed_round_trip(text, from, to, body, metadata, secret);
}

} // verus!
