use vstd::prelude::*;

verus! {

/// The failure categories of the core; each operation reports the one
/// nearest to where it failed.
#[derive(Clone, Copy, Debug, PartialEq, Eq, Structural)]
pub enum NodeXError {
    /// The keyring store is not initialized, is already initialized, holds a
    /// missing or corrupt field, or no DID is bound yet.
    Keyring,
    /// A derivation path is malformed or a seed gives no valid key.
    Derivation,
    /// Invalid base64url input, or invalid UTF-8 after decoding.
    Codec,
    /// A malformed envelope, or a required field that is absent or unparsable.
    Protocol,
    /// A signature that does not verify.
    Crypto,
    /// A DID lookup that failed, or a document with the wrong number of keys.
    Resolution,
}

} // verus!
