use vstd::prelude::*;

use crate::errors::NodeXError;

verus! {

/// Number of words of every newly generated recovery phrase.
pub const MNEMONIC_WORD_COUNT: usize = 24;

/// The seed that BIP-39 stretches from a phrase (empty passphrase), if the
/// phrase is a valid English BIP-39 phrase.
pub uninterp spec fn bip39_seed(words: Seq<Seq<char>>) -> Option<Seq<u8>>;

/// The BIP-32 node (public key, secret key) that `path` reaches from the
/// master key of `seed`, if the path parses and the derivation succeeds.
pub uninterp spec fn bip32_node(seed: Seq<u8>, path: Seq<char>) -> Option<(Seq<u8>, Seq<u8>)>;

/// The compressed SEC1 public key of an ES256K (secp256k1) secret key, if
/// the bytes are a valid secret scalar.
pub uninterp spec fn es256k_public_of(secret: Seq<u8>) -> Option<Seq<u8>>;

/// Word counts that BIP-39 phrases may have.
pub open spec fn valid_word_count(n: usize) -> bool {
    n == 12 || n == 15 || n == 18 || n == 21 || n == 24
}

/// Relies on bip39::Mnemonic::generate, which accepts the BIP-39 word counts,
/// and Mnemonic::words: a fresh random English phrase of that many words,
/// with its checksum, which Mnemonic::parse accepts back.
#[verifier::external_body]
pub(crate) fn generate_mnemonic_words(word_count: usize) -> (r: Option<Vec<String>>)
    requires
        valid_word_count(word_count),
    ensures
        r is Some,
        r matches Some(w) ==> w@.len() == word_count && bip39_seed(w.deep_view()) is Some,
{
    bip39::Mnemonic::generate(word_count).ok().map(
        |m| m.words().map(|w| w.to_string()).collect::<Vec<String>>(),
    )
}

/// Relies on bip39::Mnemonic::parse and Mnemonic::to_seed (empty
/// passphrase): a 64-byte seed that depends on the words alone.
#[verifier::external_body]
pub(crate) fn mnemonic_to_seed(words: &Vec<String>) -> (r: Option<Vec<u8>>)
    ensures
        r matches Some(s) ==> bip39_seed(words.deep_view()) == Some(s@) && s@.len() == 64,
        r is None ==> bip39_seed(words.deep_view()) is None,
{
    bip39::Mnemonic::parse(words.join(" ")).ok().map(|m| m.to_seed("").to_vec())
}

/// Relies on bip32::XPrv::derive_from_path, with the path parsed by
/// bip32::DerivationPath's FromStr: a 32-byte secret key that depends on the
/// seed and the path alone, and its 33-byte compressed public key.
#[verifier::external_body]
pub(crate) fn derive_node(seed: &[u8], path: &str) -> (r: Option<(Vec<u8>, Vec<u8>)>)
    ensures
        r matches Some(n) ==> bip32_node(seed@, path@) == Some((n.0@, n.1@)) && n.0@.len() == 33
            && n.1@.len() == 32 && es256k_public_of(n.1@) == Some(n.0@),
        r is None ==> bip32_node(seed@, path@) is None,
{
    let parsed = path.parse::<bip32::DerivationPath>().ok()?;
    let node = bip32::XPrv::derive_from_path(seed, &parsed).ok()?;
    Some((node.public_key().to_bytes().to_vec(), node.to_bytes().to_vec()))
}

/// What deriving along `path` from `seed` gives: the node's key pair, or a
/// derivation error.
pub open spec fn spec_generate_secp256k1(seed: Seq<u8>, path: Seq<char>) -> Result<(Seq<u8>, Seq<u8>), NodeXError> {
    match bip32_node(seed, path) {
        Some(n) => Ok(n),
        None => Err(NodeXError::Derivation),
    }
}

} // verus!
