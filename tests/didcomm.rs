use nodex_core::base64_url::{Base64Url, PaddingType};
use nodex_core::didcomm::envelope::{
    open_message, ReceivedAttachment, ReceivedMessage, METADATA_FORMAT, METADATA_LINK,
};
use nodex_core::didcomm::plaintext::DIDCommPlaintextService;
use nodex_core::didcomm::signed::{DIDCommSignedService, PublicKeyJwk};
use nodex_core::errors::NodeXError;
use nodex_core::keyring::mnemonic::{KeyringStore, MnemonicKeyring};

const BODY: &str = r#"{"credentialSubject":{"container":{"hello":"world"}}}"#;
const METADATA: &str = r#"{"purpose":"test","n":1}"#;

fn bound_keyring() -> MnemonicKeyring {
    let store = KeyringStore::new();
    let mut keyring = MnemonicKeyring::create_keyring(&store, false).unwrap();
    let mut saved = KeyringStore::new();
    keyring.save(&mut saved, "did:nodex:test:sender");
    keyring
}

fn attachment(format: Option<&str>, json: Option<&str>) -> ReceivedAttachment {
    ReceivedAttachment {
        format: format.map(|s| s.to_string()),
        json: json.map(|s| s.to_string()),
        id: None,
        links: vec![],
    }
}

fn jwk(x: &[u8], y: &[u8]) -> PublicKeyJwk {
    PublicKeyJwk {
        kty: "EC".to_string(),
        crv: "secp256k1".to_string(),
        x: Base64Url::encode(x, &PaddingType::NoPadding),
        y: Base64Url::encode(y, &PaddingType::NoPadding),
    }
}

fn json(text: &str) -> serde_json::Value {
    serde_json::from_str(text).unwrap()
}

#[test]
fn plaintext_round_trip_without_metadata() {
    let keyring = bound_keyring();
    let text = DIDCommPlaintextService::generate(&keyring, "did:nodex:test:to", BODY, None).unwrap();
    let sent = json(&text);
    assert_eq!(sent["from"], "did:nodex:test:sender");
    assert_eq!(sent["to"], serde_json::Value::Array(vec!["did:nodex:test:to".into()]));
    let container = DIDCommPlaintextService::verify(&text).unwrap();
    assert_eq!(json(&container.message), json(BODY));
    assert_eq!(container.metadata, None);
}

#[test]
fn plaintext_round_trip_with_metadata() {
    let keyring = bound_keyring();
    let text =
        DIDCommPlaintextService::generate(&keyring, "did:nodex:test:to", BODY, Some(METADATA)).unwrap();
    let sent = json(&text);
    let a = &sent["attachments"][0];
    assert_eq!(a["format"], METADATA_FORMAT);
    assert_eq!(a["data"]["links"][0], METADATA_LINK);
    assert!(a["id"].as_str().map(|s| !s.is_empty()).unwrap_or(false));
    let container = DIDCommPlaintextService::verify(&text).unwrap();
    assert_eq!(json(&container.message), json(BODY));
    assert_eq!(container.metadata, Some(METADATA.to_string()));
}

#[test]
fn attachment_ids_are_fresh() {
    let keyring = bound_keyring();
    let a = json(&DIDCommPlaintextService::generate(&keyring, "did:x", BODY, Some(METADATA)).unwrap());
    let b = json(&DIDCommPlaintextService::generate(&keyring, "did:x", BODY, Some(METADATA)).unwrap());
    assert_ne!(a["attachments"][0]["id"], b["attachments"][0]["id"]);
}

#[test]
fn generate_needs_a_bound_identifier() {
    let store = KeyringStore::new();
    let keyring = MnemonicKeyring::create_keyring(&store, false).unwrap();
    let r = DIDCommPlaintextService::generate(&keyring, "did:x", BODY, None);
    assert_eq!(r.err(), Some(NodeXError::Keyring));
    let r = DIDCommSignedService::generate(&keyring, "did:x", BODY, None);
    assert_eq!(r.err(), Some(NodeXError::Keyring));
}

#[test]
fn generate_refuses_metadata_that_is_not_json() {
    let keyring = bound_keyring();
    let r = DIDCommPlaintextService::generate(&keyring, "did:x", BODY, Some("{not json"));
    assert_eq!(r.err(), Some(NodeXError::Protocol));
    let r = DIDCommPlaintextService::generate(&keyring, "did:x", "", None);
    assert_eq!(r.err(), Some(NodeXError::Protocol));
    let r = DIDCommSignedService::generate(&keyring, "did:x", BODY, Some("nope"));
    assert_eq!(r.err(), Some(NodeXError::Protocol));
}

#[test]
fn plaintext_verify_refuses_what_is_not_a_message() {
    assert_eq!(DIDCommPlaintextService::verify("not json").err(), Some(NodeXError::Protocol));
}

#[test]
fn first_metadata_attachment_wins() {
    let message = ReceivedMessage {
        from: None,
        to: vec![],
        body: BODY.to_string(),
        attachments: vec![
            attachment(Some("other"), Some("[1]")),
            attachment(None, Some("[2]")),
            attachment(Some("metadata"), Some("[3]")),
            attachment(Some("metadata"), Some("[4]")),
        ],
    };
    let container = open_message(&message).unwrap();
    assert_eq!(container.metadata, Some("[3]".to_string()));
}

#[test]
fn metadata_attachment_without_json_is_a_protocol_error() {
    let message = ReceivedMessage {
        from: None,
        to: vec![],
        body: BODY.to_string(),
        attachments: vec![attachment(Some("metadata"), None)],
    };
    assert_eq!(open_message(&message).err(), Some(NodeXError::Protocol));
    let message = ReceivedMessage {
        from: None,
        to: vec![],
        body: BODY.to_string(),
        attachments: vec![attachment(Some("metadata"), Some("{"))],
    };
    assert_eq!(open_message(&message).err(), Some(NodeXError::Protocol));
}

#[test]
fn body_that_is_not_json_is_a_protocol_error() {
    let message =
        ReceivedMessage { from: None, to: vec![], body: "body".to_string(), attachments: vec![] };
    assert_eq!(open_message(&message).err(), Some(NodeXError::Protocol));
}

#[test]
fn signed_request_carries_the_sign_key() {
    let keyring = bound_keyring();
    let request =
        DIDCommSignedService::signing_request(&keyring, "did:nodex:test:to", BODY, Some(METADATA)).unwrap();
    assert_eq!(request.secret_key, keyring.get_sign_key_pair().get_secret_key());
    assert_eq!(request.envelope.from, "did:nodex:test:sender");
    assert_eq!(request.envelope.attachment.as_ref().unwrap().json, METADATA);
}

#[test]
fn signed_round_trip() {
    let keyring = bound_keyring();
    let public_key = keyring.get_sign_key_pair().get_public_key();
    for metadata in [None, Some(METADATA)] {
        let text = DIDCommSignedService::generate(&keyring, "did:nodex:test:to", BODY, metadata).unwrap();
        assert_eq!(DIDCommSignedService::sender_did(&text), Ok("did:nodex:test:sender".to_string()));
        let container = DIDCommSignedService::verify_with_key(&text, &public_key).unwrap();
        assert_eq!(json(&container.message), json(BODY));
        assert_eq!(container.metadata, metadata.map(|m| m.to_string()));
    }
}

#[test]
fn tampered_signature_is_a_crypto_error() {
    let keyring = bound_keyring();
    let public_key = keyring.get_sign_key_pair().get_public_key();
    let text = DIDCommSignedService::generate(&keyring, "did:nodex:test:to", BODY, None).unwrap();
    let mut value = json(&text);
    let signature = value["signatures"][0]["signature"].as_str().unwrap().to_string();
    let mut bytes = Base64Url::decode_as_bytes(&signature, &PaddingType::NoPadding).unwrap();
    bytes[10] ^= 0x01;
    value["signatures"][0]["signature"] =
        serde_json::Value::from(Base64Url::encode(&bytes, &PaddingType::NoPadding));
    let tampered = value.to_string();
    assert_eq!(DIDCommSignedService::verify_with_key(&tampered, &public_key).err(), Some(NodeXError::Crypto));
}

#[test]
fn other_key_is_a_crypto_error() {
    let keyring = bound_keyring();
    let other = bound_keyring().get_sign_key_pair().get_public_key();
    let text = DIDCommSignedService::generate(&keyring, "did:nodex:test:to", BODY, None).unwrap();
    assert_eq!(DIDCommSignedService::verify_with_key(&text, &other).err(), Some(NodeXError::Crypto));
}

#[test]
fn key_count_is_checked_before_the_signature() {
    let keyring = bound_keyring();
    let text = DIDCommSignedService::generate(&keyring, "did:nodex:test:to", BODY, None).unwrap();
    let k = jwk(&[1u8; 32], &[2u8; 32]);
    let k2 = jwk(&[3u8; 32], &[4u8; 32]);
    assert_eq!(DIDCommSignedService::verify(&text, &Some(vec![])).err(), Some(NodeXError::Resolution));
    assert_eq!(DIDCommSignedService::verify(&text, &Some(vec![k, k2])).err(), Some(NodeXError::Resolution));
}

#[test]
fn sender_is_read_from_the_payload() {
    let payload = Base64Url::encode(br#"{"from":"did:nodex:test:sender","to":["did:x"]}"#, &PaddingType::NoPadding);
    let envelope = format!(r#"{{"payload":"{}","signatures":[]}}"#, payload);
    assert_eq!(DIDCommSignedService::sender_did(&envelope), Ok("did:nodex:test:sender".to_string()));
}

#[test]
fn unreadable_payload_is_a_protocol_error() {
    assert_eq!(DIDCommSignedService::sender_did("{}").err(), Some(NodeXError::Protocol));
    assert_eq!(DIDCommSignedService::sender_did("not json").err(), Some(NodeXError::Protocol));
    assert_eq!(DIDCommSignedService::sender_did(r#"{"payload":"***"}"#).err(), Some(NodeXError::Protocol));
    let payload = Base64Url::encode(br#"{"to":["did:x"]}"#, &PaddingType::NoPadding);
    let envelope = format!(r#"{{"payload":"{}"}}"#, payload);
    assert_eq!(DIDCommSignedService::sender_did(&envelope).err(), Some(NodeXError::Protocol));
}

#[test]
fn exactly_one_public_key_is_accepted() {
    let x = [1u8; 32];
    let mut y = [2u8; 32];
    let key = DIDCommSignedService::verification_key(&Some(vec![jwk(&x, &y)])).unwrap();
    assert_eq!(key.len(), 33);
    assert_eq!(key[0], 2);
    assert_eq!(&key[1..], &x);
    y[31] = 3;
    let key = DIDCommSignedService::verification_key(&Some(vec![jwk(&x, &y)])).unwrap();
    assert_eq!(key[0], 3);
}

#[test]
fn jwk_of_another_curve_is_a_resolution_error() {
    let mut k = jwk(&[1u8; 32], &[2u8; 32]);
    k.crv = "P-256".to_string();
    assert_eq!(DIDCommSignedService::verification_key(&Some(vec![k])).err(), Some(NodeXError::Resolution));
    let mut k = jwk(&[1u8; 32], &[2u8; 32]);
    k.kty = "OKP".to_string();
    assert_eq!(DIDCommSignedService::verification_key(&Some(vec![k])).err(), Some(NodeXError::Resolution));
}

#[test]
fn signed_round_trip_through_a_resolved_document() {
    let keyring = bound_keyring();
    let public_key = keyring.get_sign_key_pair().get_public_key();
    let mut y = [0u8; 32];
    y[31] = public_key[0] - 2;
    let document_keys = Some(vec![jwk(&public_key[1..], &y)]);
    for metadata in [None, Some(METADATA)] {
        let text = DIDCommSignedService::generate(&keyring, "did:nodex:test:to", BODY, metadata).unwrap();
        let container = DIDCommSignedService::verify(&text, &document_keys).unwrap();
        assert_eq!(json(&container.message), json(BODY));
        assert_eq!(container.metadata, metadata.map(|m| m.to_string()));
    }
}

#[test]
fn empty_recipient_is_a_protocol_error() {
    let keyring = bound_keyring();
    assert_eq!(DIDCommPlaintextService::generate(&keyring, "", BODY, None).err(), Some(NodeXError::Protocol));
    assert_eq!(DIDCommSignedService::generate(&keyring, "", BODY, None).err(), Some(NodeXError::Protocol));
}

#[test]
fn zero_or_several_public_keys_are_a_resolution_error() {
    let k = jwk(&[1u8; 32], &[2u8; 32]);
    let k2 = jwk(&[3u8; 32], &[4u8; 32]);
    assert_eq!(DIDCommSignedService::verification_key(&Some(vec![])).err(), Some(NodeXError::Resolution));
    assert_eq!(DIDCommSignedService::verification_key(&Some(vec![k, k2])).err(), Some(NodeXError::Resolution));
    assert_eq!(DIDCommSignedService::verification_key(&None).err(), Some(NodeXError::Resolution));
}

#[test]
fn malformed_jwk_is_a_resolution_error() {
    let short = jwk(&[1u8; 31], &[2u8; 32]);
    assert_eq!(DIDCommSignedService::verification_key(&Some(vec![short])).err(), Some(NodeXError::Resolution));
}

fn nested(depth: usize) -> String {
    format!("{}{}", "[".repeat(depth), "]".repeat(depth))
}

#[test]
fn body_nesting_is_limited() {
    let keyring = bound_keyring();
    let text = DIDCommPlaintextService::generate(&keyring, "did:x", &nested(100), None).unwrap();
    let container = DIDCommPlaintextService::verify(&text).unwrap();
    assert_eq!(json(&container.message), json(&nested(100)));
    let r = DIDCommPlaintextService::generate(&keyring, "did:x", &nested(101), None);
    assert_eq!(r.err(), Some(NodeXError::Protocol));
    let r = DIDCommSignedService::generate(&keyring, "did:x", &nested(127), None);
    assert_eq!(r.err(), Some(NodeXError::Protocol));
}

#[test]
fn brackets_inside_strings_do_not_count() {
    let keyring = bound_keyring();
    let body = format!(r#"{{"text":"{}\"{}"}}"#, "[".repeat(300), "{".repeat(300));
    let text = DIDCommPlaintextService::generate(&keyring, "did:x", &body, None).unwrap();
    let container = DIDCommPlaintextService::verify(&text).unwrap();
    assert_eq!(json(&container.message), json(&body));
}

#[test]
fn malformed_signed_envelope_is_a_protocol_error_before_resolution() {
    let k = jwk(&[1u8; 32], &[2u8; 32]);
    assert_eq!(DIDCommSignedService::verify("{}", &Some(vec![])).err(), Some(NodeXError::Protocol));
    assert_eq!(DIDCommSignedService::verify("not json", &Some(vec![k])).err(), Some(NodeXError::Protocol));
    assert_eq!(DIDCommSignedService::verify_with_key("{}", &[2u8; 33]).err(), Some(NodeXError::Protocol));
}

#[test]
fn signed_message_names_sender_and_recipient() {
    let keyring = bound_keyring();
    let text = DIDCommSignedService::generate(&keyring, "did:nodex:test:to", BODY, None).unwrap();
    let payload = json(&text)["payload"].as_str().unwrap().to_string();
    let decoded = Base64Url::decode_as_string(&payload, &PaddingType::NoPadding).unwrap();
    let message = json(&decoded);
    assert_eq!(message["from"], "did:nodex:test:sender");
    assert_eq!(message["to"][0], "did:nodex:test:to");
    assert_eq!(message["body"], json(BODY));
}
