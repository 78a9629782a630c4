//! Identity and secure-messaging core of a DID agent: a URL-safe base64
//! codec, a mnemonic keyring with hierarchical key derivation, and the
//! plaintext and signed DIDComm envelope services.
pub mod base64_url;
pub mod didcomm;
pub mod errors;
pub mod http_client;
pub mod keyring;
