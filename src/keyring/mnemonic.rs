use vstd::prelude::*;

use crate::errors::NodeXError;
use crate::keyring::derivation::{
    bip39_seed, derive_node, es256k_public_of, generate_mnemonic_words, mnemonic_to_seed,
    spec_generate_secp256k1, MNEMONIC_WORD_COUNT,
};
use crate::keyring::secp256k1::{copy_bytes, valid_key_pair, Secp256k1, Secp256k1Context};

verus! {

pub const SIGN_DERIVATION_PATH: &'static str = "m/44'/0'/0'/0/10";

pub const UPDATE_DERIVATION_PATH: &'static str = "m/44'/0'/0'/0/20";

pub const RECOVERY_DERIVATION_PATH: &'static str = "m/44'/0'/0'/0/30";

pub const ENCRYPT_DERIVATION_PATH: &'static str = "m/44'/0'/0'/0/40";

/// A key pair as the store holds it: raw public and secret bytes.
pub struct KeyPairRecord {
    pub public_key: Vec<u8>,
    pub secret_key: Vec<u8>,
}

/// The durable state of one identity: an initialized flag, the recovery
/// phrase, the four key pairs and the bound DID. The caller owns it and
/// writes it to disk; the keyring reads it and fills it.
pub struct KeyringStore {
    pub is_initialized: bool,
    pub mnemonic: Option<Vec<String>>,
    pub sign: Option<KeyPairRecord>,
    pub update: Option<KeyPairRecord>,
    pub recovery: Option<KeyPairRecord>,
    pub encrypt: Option<KeyPairRecord>,
    pub did: Option<String>,
}

/// One recovery phrase, the four key pairs derived from it (or read back),
/// and the DID bound to them once saved.
pub struct MnemonicKeyring {
    mnemonic: Vec<String>,
    sign: Secp256k1,
    update: Secp256k1,
    recovery: Secp256k1,
    encrypt: Secp256k1,
    did: Option<String>,
}

/// Whether a stored key pair is present and well formed, and equal to `k`.
pub open spec fn record_holds(r: Option<KeyPairRecord>, k: Secp256k1) -> bool {
    &&& r is Some
    &&& r.unwrap().public_key@ == k.public_key()
    &&& r.unwrap().secret_key@ == k.secret_key()
}

/// Whether a stored key pair is present and is a valid secp256k1 pair.
pub open spec fn record_valid(r: Option<KeyPairRecord>) -> bool {
    r is Some && valid_key_pair(r.unwrap().public_key@, r.unwrap().secret_key@)
}

/// Whether the store holds everything that loading a keyring needs.
pub open spec fn loadable(store: KeyringStore) -> bool {
    &&& store.is_initialized
    &&& store.mnemonic is Some
    &&& record_valid(store.sign)
    &&& record_valid(store.update)
    &&& record_valid(store.recovery)
    &&& record_valid(store.encrypt)
}

/// Whether `k` was derived from `phrase`: its key pair is what `path`
/// reaches from the phrase's seed.
pub open spec fn derived_from(phrase: Seq<Seq<char>>, path: Seq<char>, k: Secp256k1) -> bool {
    &&& es256k_public_of(k.secret_key()) == Some(k.public_key())
    &&& bip39_seed(phrase) is Some
    &&& spec_generate_secp256k1(bip39_seed(phrase).unwrap(), path) == Ok::<(Seq<u8>, Seq<u8>), NodeXError>(
        (k.public_key(), k.secret_key()),
    )
}

/// Whether every step of deriving the four pairs from `phrase` succeeds.
pub open spec fn derivable(phrase: Seq<Seq<char>>) -> bool {
    &&& bip39_seed(phrase) is Some
    &&& spec_generate_secp256k1(bip39_seed(phrase).unwrap(), SIGN_DERIVATION_PATH@).is_ok()
    &&& spec_generate_secp256k1(bip39_seed(phrase).unwrap(), UPDATE_DERIVATION_PATH@).is_ok()
    &&& spec_generate_secp256k1(bip39_seed(phrase).unwrap(), RECOVERY_DERIVATION_PATH@).is_ok()
    &&& spec_generate_secp256k1(bip39_seed(phrase).unwrap(), ENCRYPT_DERIVATION_PATH@).is_ok()
}

fn copy_words(v: &Vec<String>) -> (r: Vec<String>)
    ensures
        r.deep_view() == v.deep_view(),
{
    let mut r: Vec<String> = Vec::new();
    let mut i: usize = 0;
    while i < v.len()
        invariant
            i <= v.len(),
            r.deep_view() =~= v.deep_view().take(i as int),
        decreases v.len() - i,
    {
        let w = v[i].clone();
        assert(w.deep_view() == v.deep_view()[i as int]);
        r.push(w);
        assert(r.deep_view() =~= v.deep_view().take(i as int).push(w.deep_view()));
        assert(v.deep_view().take(i as int + 1) =~= v.deep_view().take(i as int).push(w.deep_view()));
        i = i + 1;
    }
    assert(v.deep_view().take(v.len() as int) =~= v.deep_view());
    r
}

pub(crate) fn copy_string(s: &String) -> (r: String)
    ensures
        r@ == s@,
{
    s.clone()
}

fn load_pair(r: &Option<KeyPairRecord>) -> (k: Result<Secp256k1, NodeXError>)
    ensures
        k.is_ok() <==> record_valid(*r),
        k matches Ok(k) ==> k.wf() && record_holds(*r, k),
        k matches Err(e) ==> e == NodeXError::Keyring,
{
    match r {
        Some(v) => Secp256k1::new(
            &Secp256k1Context { public: copy_bytes(&v.public_key), secret: copy_bytes(&v.secret_key) },
        ),
        None => Err(NodeXError::Keyring),
    }
}

fn record_of(k: &Secp256k1) -> (r: KeyPairRecord)
    ensures
        r.public_key@ == k.public_key(),
        r.secret_key@ == k.secret_key(),
{
    KeyPairRecord { public_key: k.get_public_key(), secret_key: k.get_secret_key() }
}

impl KeyringStore {
    /// A store that holds nothing and is not initialized.
    pub fn new() -> (r: KeyringStore)
        ensures
            !r.is_initialized,
            r.mnemonic is None,
            r.sign is None && r.update is None && r.recovery is None && r.encrypt is None,
            r.did is None,
    {
        KeyringStore {
            is_initialized: false,
            mnemonic: None,
            sign: None,
            update: None,
            recovery: None,
            encrypt: None,
            did: None,
        }
    }
}

impl MnemonicKeyring {
    pub closed spec fn phrase(&self) -> Seq<Seq<char>> {
        self.mnemonic.deep_view()
    }

    pub closed spec fn sign_pair(&self) -> Secp256k1 {
        self.sign
    }

    pub closed spec fn update_pair(&self) -> Secp256k1 {
        self.update
    }

    pub closed spec fn recovery_pair(&self) -> Secp256k1 {
        self.recovery
    }

    pub closed spec fn encrypt_pair(&self) -> Secp256k1 {
        self.encrypt
    }

    pub closed spec fn identifier(&self) -> Option<Seq<char>> {
        match self.did {
            Some(d) => Some(d@),
            None => None,
        }
    }

    /// Each of the four public keys is that of its secret key.
    pub open spec fn wf(&self) -> bool {
        &&& self.sign_pair().wf()
        &&& self.update_pair().wf()
        &&& self.recovery_pair().wf()
        &&& self.encrypt_pair().wf()
    }

    /// Reads the keyring back from `store`; fails unless the store is
    /// initialized and holds the phrase and four key pairs, each a valid
    /// secret with its own public key.
    pub fn load_keyring(store: &KeyringStore) -> (r: Result<Self, NodeXError>)
        ensures
            r.is_ok() <==> loadable(*store),
            r matches Ok(k) ==> {
                &&& k.wf()
                &&& store.mnemonic matches Some(m) && k.phrase() == m.deep_view()
                &&& record_holds(store.sign, k.sign_pair())
                &&& record_holds(store.update, k.update_pair())
                &&& record_holds(store.recovery, k.recovery_pair())
                &&& record_holds(store.encrypt, k.encrypt_pair())
                &&& k.identifier() == match store.did {
                    Some(d) => Some(d@),
                    None => None,
                }
            },
            r matches Err(e) ==> e == NodeXError::Keyring,
    {
        if !store.is_initialized {
            return Err(NodeXError::Keyring);
        }
        let mnemonic = match &store.mnemonic {
            Some(v) => copy_words(v),
            None => return Err(NodeXError::Keyring),
        };
        let sign = match load_pair(&store.sign) {
            Ok(v) => v,
            Err(e) => return Err(e),
        };
        let update = match load_pair(&store.update) {
            Ok(v) => v,
            Err(e) => return Err(e),
        };
        let recovery = match load_pair(&store.recovery) {
            Ok(v) => v,
            Err(e) => return Err(e),
        };
        let encrypt = match load_pair(&store.encrypt) {
            Ok(v) => v,
            Err(e) => return Err(e),
        };
        let did = match &store.did {
            Some(d) => Some(copy_string(d)),
            None => None,
        };
        Ok(MnemonicKeyring { mnemonic, sign, update, recovery, encrypt, did })
    }

    /// Derives the four key pairs from `mnemonic` along their fixed paths;
    /// the result has no DID bound.
    pub fn from_mnemonic(mnemonic: Vec<String>) -> (r: Result<Self, NodeXError>)
        ensures
            r.is_ok() <==> derivable(mnemonic.deep_view()),
            r matches Ok(k) ==> {
                &&& k.wf()
                &&& k.phrase() == mnemonic.deep_view()
                &&& derived_from(k.phrase(), SIGN_DERIVATION_PATH@, k.sign_pair())
                &&& derived_from(k.phrase(), UPDATE_DERIVATION_PATH@, k.update_pair())
                &&& derived_from(k.phrase(), RECOVERY_DERIVATION_PATH@, k.recovery_pair())
                &&& derived_from(k.phrase(), ENCRYPT_DERIVATION_PATH@, k.encrypt_pair())
                &&& k.sign_pair().secret_key().len() == 32
                &&& k.update_pair().secret_key().len() == 32
                &&& k.recovery_pair().secret_key().len() == 32
                &&& k.encrypt_pair().secret_key().len() == 32
                &&& k.identifier() is None
            },
            r matches Err(e) ==> e == NodeXError::Derivation,
    {
        let seed = match mnemonic_to_seed(&mnemonic) {
            Some(v) => v,
            None => return Err(NodeXError::Derivation),
        };
        let sign = match Self::generate_secp256k1(seed.as_slice(), SIGN_DERIVATION_PATH) {
            Ok(v) => v,
            Err(e) => return Err(e),
        };
        let update = match Self::generate_secp256k1(seed.as_slice(), UPDATE_DERIVATION_PATH) {
            Ok(v) => v,
            Err(e) => return Err(e),
        };
        let recovery = match Self::generate_secp256k1(seed.as_slice(), RECOVERY_DERIVATION_PATH) {
            Ok(v) => v,
            Err(e) => return Err(e),
        };
        let encrypt = match Self::generate_secp256k1(seed.as_slice(), ENCRYPT_DERIVATION_PATH) {
            Ok(v) => v,
            Err(e) => return Err(e),
        };
        Ok(MnemonicKeyring { mnemonic, sign, update, recovery, encrypt, did: None })
    }

    /// Creates a keyring from a fresh 24-word phrase. Refuses when `store` is
    /// already initialized, unless `force` is set; otherwise fails only where
    /// deriving a key pair from the phrase fails.
    pub fn create_keyring(store: &KeyringStore, force: bool) -> (r: Result<Self, NodeXError>)
        ensures
            store.is_initialized && !force ==> r == Err::<Self, NodeXError>(NodeXError::Keyring),
            !(store.is_initialized && !force) ==> (r is Ok || r == Err::<Self, NodeXError>(
                NodeXError::Derivation,
            )),
            r matches Ok(k) ==> {
                &&& k.wf()
                &&& k.phrase().len() == MNEMONIC_WORD_COUNT
                &&& derived_from(k.phrase(), SIGN_DERIVATION_PATH@, k.sign_pair())
                &&& derived_from(k.phrase(), UPDATE_DERIVATION_PATH@, k.update_pair())
                &&& derived_from(k.phrase(), RECOVERY_DERIVATION_PATH@, k.recovery_pair())
                &&& derived_from(k.phrase(), ENCRYPT_DERIVATION_PATH@, k.encrypt_pair())
                &&& k.sign_pair().secret_key().len() == 32
                &&& k.update_pair().secret_key().len() == 32
                &&& k.recovery_pair().secret_key().len() == 32
                &&& k.encrypt_pair().secret_key().len() == 32
                &&& k.identifier() is None
            },
            r matches Err(e) ==> e == NodeXError::Keyring || e == NodeXError::Derivation,
    {
        if store.is_initialized && !force {
            return Err(NodeXError::Keyring);
        }
        let mnemonic = match generate_mnemonic_words(MNEMONIC_WORD_COUNT) {
            Some(v) => v,
            None => return Err(NodeXError::Derivation),
        };
        Self::from_mnemonic(mnemonic)
    }

    pub fn get_sign_key_pair(&self) -> (r: Secp256k1)
        ensures
            r.public_key() == self.sign_pair().public_key(),
            r.secret_key() == self.sign_pair().secret_key(),
    {
        self.sign.duplicate()
    }

    pub fn get_update_key_pair(&self) -> (r: Secp256k1)
        ensures
            r.public_key() == self.update_pair().public_key(),
            r.secret_key() == self.update_pair().secret_key(),
    {
        self.update.duplicate()
    }

    pub fn get_recovery_key_pair(&self) -> (r: Secp256k1)
        ensures
            r.public_key() == self.recovery_pair().public_key(),
            r.secret_key() == self.recovery_pair().secret_key(),
    {
        self.recovery.duplicate()
    }

    pub fn get_encrypt_key_pair(&self) -> (r: Secp256k1)
        ensures
            r.public_key() == self.encrypt_pair().public_key(),
            r.secret_key() == self.encrypt_pair().secret_key(),
    {
        self.encrypt.duplicate()
    }

    /// Derives the key pair that `derivation_path` reaches from `seed`.
    pub fn generate_secp256k1(seed: &[u8], derivation_path: &str) -> (r: Result<Secp256k1, NodeXError>)
        ensures
            r.is_ok() <==> spec_generate_secp256k1(seed@, derivation_path@).is_ok(),
            r matches Ok(k) ==> k.wf() && spec_generate_secp256k1(seed@, derivation_path@) == Ok::<
                (Seq<u8>, Seq<u8>),
                NodeXError,
            >((k.public_key(), k.secret_key())) && k.secret_key().len() == 32 && es256k_public_of(
                k.secret_key(),
            ) == Some(k.public_key()),
            r matches Err(e) ==> e == NodeXError::Derivation,
    {
        let (public, secret) = match derive_node(seed, derivation_path) {
            Some(n) => n,
            None => return Err(NodeXError::Derivation),
        };
        assert(valid_key_pair(public@, secret@));
        match Secp256k1::new(&Secp256k1Context { public, secret }) {
            Ok(k) => Ok(k),
            Err(_) => Err(NodeXError::Derivation),
        }
    }

    /// Writes the four key pairs, `did` and the phrase to `store` and marks it
    /// initialized; the keyring is bound to `did` from then on.
    pub fn save(&mut self, store: &mut KeyringStore, did: &str)
        ensures
            final(store).is_initialized,
            old(self).wf() ==> loadable(*final(store)),
            final(store).mnemonic matches Some(m) && m.deep_view() == old(self).phrase(),
            record_holds(final(store).sign, old(self).sign_pair()),
            record_holds(final(store).update, old(self).update_pair()),
            record_holds(final(store).recovery, old(self).recovery_pair()),
            record_holds(final(store).encrypt, old(self).encrypt_pair()),
            final(store).did matches Some(d) && d@ == did@,
            final(self).phrase() == old(self).phrase(),
            final(self).sign_pair() == old(self).sign_pair(),
            final(self).update_pair() == old(self).update_pair(),
            final(self).recovery_pair() == old(self).recovery_pair(),
            final(self).encrypt_pair() == old(self).encrypt_pair(),
            final(self).identifier() == Some(did@),
    {
        store.sign = Some(record_of(&self.sign));
        store.update = Some(record_of(&self.update));
        store.recovery = Some(record_of(&self.recovery));
        store.encrypt = Some(record_of(&self.encrypt));
        store.did = Some(did.to_owned());
        store.mnemonic = Some(copy_words(&self.mnemonic));
        store.is_initialized = true;
        self.did = Some(did.to_owned());
    }

    /// The DID bound to this keyring; an error until one is bound.
    pub fn get_identifier(&self) -> (r: Result<String, NodeXError>)
        ensures
            r.is_ok() <==> self.identifier() is Some,
            r matches Ok(d) ==> self.identifier() == Some(d@),
            r matches Err(e) ==> e == NodeXError::Keyring,
    {
        match &self.did {
            Some(v) => Ok(copy_string(v)),
            None => Err(NodeXError::Keyring),
        }
    }

    /// The recovery phrase, word by word, in order.
    pub fn get_mnemonic_phrase(&self) -> (r: Result<Vec<String>, NodeXError>)
        ensures
            r matches Ok(w) && w.deep_view() == self.phrase(),
    {
        Ok(copy_words(&self.mnemonic))
    }

    /// Whether `phrase` is the recovery phrase, word for word and in order.
    pub fn verify_mnemonic_phrase(&self, phrase: &Vec<String>) -> (r: Result<bool, NodeXError>)
        ensures
            r matches Ok(b) && b == spec_verify_phrase(*self, phrase.deep_view()),
    {
        let mnemonic = match self.get_mnemonic_phrase() {
            Ok(v) => v,
            Err(e) => return Err(e),
        };
        if mnemonic.len() != phrase.len() {
            assert(mnemonic.deep_view().len() != phrase.deep_view().len());
            return Ok(false);
        }
        let mut i: usize = 0;
        while i < mnemonic.len()
            invariant
                i <= mnemonic.len(),
                mnemonic.len() == phrase.len(),
                mnemonic.deep_view() == self.phrase(),
                forall|j: int| 0 <= j < i ==> mnemonic.deep_view()[j] == phrase.deep_view()[j],
            decreases mnemonic.len() - i,
        {
            if mnemonic[i] != phrase[i] {
                assert(mnemonic.deep_view()[i as int] != phrase.deep_view()[i as int]);
                return Ok(false);
            }
            i = i + 1;
        }
        assert(mnemonic.deep_view() =~= phrase.deep_view());
        Ok(true)
    }
}

/// Whether `candidate` is the keyring's phrase, word for word and in order.
pub open spec fn spec_verify_phrase(k: MnemonicKeyring, candidate: Seq<Seq<char>>) -> bool {
    candidate == k.phrase()
}

/// The phrase that a keyring hands out always verifies against it, and a
/// phrase that differs from it in one word does not.
pub proof fn lemma_phrase_verification(k: MnemonicKeyring, i: int, word: Seq<char>)
    requires
        0 <= i < k.phrase().len(),
        word != k.phrase()[i],
    ensures
        spec_verify_phrase(k, k.phrase()),
        !spec_verify_phrase(k, k.phrase().update(i, word)),
{
    assert(k.phrase().update(i, word)[i] != k.phrase()[i]);
}

} // verus!
