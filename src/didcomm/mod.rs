pub mod envelope;
pub mod json;
pub mod plaintext;
pub mod signed;
