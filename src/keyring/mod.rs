pub mod derivation;
pub mod mnemonic;
pub mod secp256k1;
