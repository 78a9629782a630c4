use vstd::prelude::*;

use crate::errors::NodeXError;
use crate::keyring::derivation::es256k_public_of;

verus! {

/// Length in bytes of every secret key.
pub const SECRET_KEY_LENGTH: usize = 32;

/// Length of a compressed SEC1 public key.
pub const COMPRESSED_PUBLIC_KEY_LENGTH: usize = 33;

/// A public key and a secret key, as they are read from a store or derived.
pub struct Secp256k1Context {
    pub public: Vec<u8>,
    pub secret: Vec<u8>,
}

/// A secp256k1 key pair: a secret scalar and its compressed public key.
pub struct Secp256k1 {
    public: Vec<u8>,
    secret: Vec<u8>,
}

/// Whether `secret` is a valid 32-byte secp256k1 secret and `public` is its
/// compressed public key.
pub open spec fn valid_key_pair(public: Seq<u8>, secret: Seq<u8>) -> bool {
    &&& secret.len() == SECRET_KEY_LENGTH
    &&& public.len() == COMPRESSED_PUBLIC_KEY_LENGTH
    &&& es256k_public_of(secret) == Some(public)
}

/// Relies on k256's ecdsa::SigningKey::from_slice (re-exported by bip32 as
/// bip32::secp256k1) and bip32::PublicKey::to_bytes of its verifying key:
/// the 33-byte compressed public key of a valid secret scalar.
#[verifier::external_body]
pub(crate) fn es256k_public_key(secret: &[u8]) -> (r: Option<Vec<u8>>)
    requires
        secret@.len() == SECRET_KEY_LENGTH,
    ensures
        r matches Some(p) ==> es256k_public_of(secret@) == Some(p@) && p@.len() == COMPRESSED_PUBLIC_KEY_LENGTH,
        r is None ==> es256k_public_of(secret@) is None,
{
    let key = bip32::secp256k1::ecdsa::SigningKey::from_slice(secret).ok()?;
    Some(bip32::PublicKey::to_bytes(key.verifying_key()).to_vec())
}

fn bytes_equal(a: &Vec<u8>, b: &Vec<u8>) -> (r: bool)
    ensures
        r == (a@ == b@),
{
    if a.len() != b.len() {
        return false;
    }
    let mut i: usize = 0;
    while i < a.len()
        invariant
            i <= a.len(),
            a.len() == b.len(),
            forall|j: int| 0 <= j < i ==> a@[j] == b@[j],
        decreases a.len() - i,
    {
        if a[i] != b[i] {
            return false;
        }
        i = i + 1;
    }
    assert(a@ =~= b@);
    true
}

pub fn copy_bytes(v: &Vec<u8>) -> (r: Vec<u8>)
    ensures
        r@ == v@,
{
    let r = v.clone();
    assert(r@ =~= v@);
    r
}

impl Secp256k1 {
    pub closed spec fn public_key(&self) -> Seq<u8> {
        self.public@
    }

    pub closed spec fn secret_key(&self) -> Seq<u8> {
        self.secret@
    }

    pub open spec fn wf(&self) -> bool {
        valid_key_pair(self.public_key(), self.secret_key())
    }

    /// Accepts the pair when the secret is a valid secp256k1 secret and the
    /// public key is its compressed public key.
    pub fn new(context: &Secp256k1Context) -> (r: Result<Secp256k1, NodeXError>)
        ensures
            r.is_ok() <==> valid_key_pair(context.public@, context.secret@),
            r matches Ok(k) ==> k.wf() && k.public_key() == context.public@ && k.secret_key()
                == context.secret@,
            r matches Err(e) ==> e == NodeXError::Keyring,
    {
        if context.secret.len() != SECRET_KEY_LENGTH {
            return Err(NodeXError::Keyring);
        }
        let public = match es256k_public_key(context.secret.as_slice()) {
            Some(p) => p,
            None => return Err(NodeXError::Keyring),
        };
        if !bytes_equal(&public, &context.public) {
            return Err(NodeXError::Keyring);
        }
        Ok(Secp256k1 { public: copy_bytes(&context.public), secret: copy_bytes(&context.secret) })
    }

    pub fn get_public_key(&self) -> (r: Vec<u8>)
        ensures
            r@ == self.public_key(),
    {
        copy_bytes(&self.public)
    }

    pub fn get_secret_key(&self) -> (r: Vec<u8>)
        ensures
            r@ == self.secret_key(),
    {
        copy_bytes(&self.secret)
    }

    /// A copy with the same keys.
    pub fn duplicate(&self) -> (r: Secp256k1)
        ensures
            r.public_key() == self.public_key(),
            r.secret_key() == self.secret_key(),
            r.wf() == self.wf(),
    {
        Secp256k1 { public: copy_bytes(&self.public), secret: copy_bytes(&self.secret) }
    }
}

} // verus!
