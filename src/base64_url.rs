use vstd::prelude::*;
use vstd::utf8::{decode_utf8, encode_utf8, valid_utf8};

use crate::errors::NodeXError;

verus! {

/// URL-safe base64 (RFC 4648, section 5), with or without trailing `=`.
pub struct Base64Url {}

#[derive(Clone, Copy, Debug, PartialEq, Eq, Structural)]
pub enum PaddingType {
    Padding,
    NoPadding,
}

pub open spec fn is_padded(padding: PaddingType) -> bool {
    padding == PaddingType::Padding
}

/// What data_encoding's URL-safe base64 encoding writes for `bytes`.
pub uninterp spec fn base64url_encoded(bytes: Seq<u8>, padded: bool) -> Seq<char>;

/// What data_encoding's URL-safe base64 decoding gives for `text`, if it accepts it.
pub uninterp spec fn base64url_decoded(text: Seq<char>, padded: bool) -> Option<Seq<u8>>;

/// Relies on data_encoding::BASE64URL.encode, which is deterministic and
/// whose output decodes back to its input.
#[verifier::external_body]
fn encode_padded(content: &[u8]) -> (r: String)
    ensures
        r@ == base64url_encoded(content@, true),
        base64url_decoded(r@, true) == Some(content@),
{
    data_encoding::BASE64URL.encode(content)
}

/// Relies on data_encoding::BASE64URL_NOPAD.encode, which is deterministic
/// and whose output decodes back to its input.
#[verifier::external_body]
fn encode_unpadded(content: &[u8]) -> (r: String)
    ensures
        r@ == base64url_encoded(content@, false),
        base64url_decoded(r@, false) == Some(content@),
{
    data_encoding::BASE64URL_NOPAD.encode(content)
}

/// Relies on data_encoding::BASE64URL.decode, which fails on input that is
/// not a padded URL-safe base64 text.
#[verifier::external_body]
fn decode_padded(message: &str) -> (r: Option<Vec<u8>>)
    ensures
        r matches Some(v) ==> base64url_decoded(message@, true) == Some(v@),
        r is None ==> base64url_decoded(message@, true) is None,
{
    data_encoding::BASE64URL.decode(message.as_bytes()).ok()
}

/// Relies on data_encoding::BASE64URL_NOPAD.decode, which fails on input
/// that is not an unpadded URL-safe base64 text.
#[verifier::external_body]
fn decode_unpadded(message: &str) -> (r: Option<Vec<u8>>)
    ensures
        r matches Some(v) ==> base64url_decoded(message@, false) == Some(v@),
        r is None ==> base64url_decoded(message@, false) is None,
{
    data_encoding::BASE64URL_NOPAD.decode(message.as_bytes()).ok()
}

/// Relies on String::from_utf8, which accepts exactly the valid UTF-8 buffers.
#[verifier::external_body]
fn utf8_string(bytes: Vec<u8>) -> (r: Option<String>)
    ensures
        r is Some <==> valid_utf8(bytes@),
        r matches Some(s) ==> s@ == decode_utf8(bytes@),
{
    String::from_utf8(bytes).ok()
}

/// The bytes that `text` decodes to under `padding`.
pub open spec fn spec_decode_as_bytes(text: Seq<char>, padding: PaddingType) -> Result<Seq<u8>, NodeXError> {
    match base64url_decoded(text, is_padded(padding)) {
        Some(b) => Ok(b),
        None => Err(NodeXError::Codec),
    }
}

/// The string that `text` decodes to under `padding`: its bytes read as UTF-8.
pub open spec fn spec_decode_as_string(text: Seq<char>, padding: PaddingType) -> Result<Seq<char>, NodeXError> {
    match base64url_decoded(text, is_padded(padding)) {
        Some(b) => if valid_utf8(b) {
            Ok(decode_utf8(b))
        } else {
            Err(NodeXError::Codec)
        },
        None => Err(NodeXError::Codec),
    }
}

impl Base64Url {
    /// Encodes `content`; decoding the result under the same padding gives
    /// `content` back, and, when `content` is UTF-8, the text it encodes.
    pub fn encode(content: &[u8], padding: &PaddingType) -> (r: String)
        ensures
            r@ == base64url_encoded(content@, is_padded(*padding)),
            spec_decode_as_bytes(r@, *padding) == Ok::<Seq<u8>, NodeXError>(content@),
            valid_utf8(content@) ==> spec_decode_as_string(r@, *padding) == Ok::<Seq<char>, NodeXError>(
                decode_utf8(content@),
            ),
    {
        match padding {
            PaddingType::Padding => encode_padded(content),
            PaddingType::NoPadding => encode_unpadded(content),
        }
    }

    pub fn decode_as_bytes(message: &str, padding: &PaddingType) -> (r: Result<Vec<u8>, NodeXError>)
        ensures
            r.is_ok() <==> spec_decode_as_bytes(message@, *padding).is_ok(),
            r matches Ok(v) ==> spec_decode_as_bytes(message@, *padding) == Ok::<Seq<u8>, NodeXError>(v@),
            r matches Err(e) ==> e == NodeXError::Codec,
    {
        let decoded = match padding {
            PaddingType::Padding => decode_padded(message),
            PaddingType::NoPadding => decode_unpadded(message),
        };
        match decoded {
            Some(v) => Ok(v),
            None => Err(NodeXError::Codec),
        }
    }

    pub fn decode_as_string(message: &str, padding: &PaddingType) -> (r: Result<String, NodeXError>)
        ensures
            r.is_ok() <==> spec_decode_as_string(message@, *padding).is_ok(),
            r matches Ok(s) ==> spec_decode_as_string(message@, *padding) == Ok::<Seq<char>, NodeXError>(s@),
            r matches Err(e) ==> e == NodeXError::Codec,
    {
        let bytes = match Self::decode_as_bytes(message, padding) {
            Ok(v) => v,
            Err(e) => return Err(e),
        };
        match utf8_string(bytes) {
            Some(s) => Ok(s),
            None => Err(NodeXError::Codec),
        }
    }
}

/// The UTF-8 bytes of any text are valid UTF-8 and read back as that text;
/// with the `ensures` of `Base64Url::encode`, decoding the encoding of a
/// string's bytes as a string gives the string back, under either padding.
pub proof fn lemma_string_round_trip(s: Seq<char>)
    ensures
        valid_utf8(encode_utf8(s)),
        decode_utf8(encode_utf8(s)) == s,
{
    vstd::utf8::encode_utf8_valid_utf8(s);
    vstd::utf8::encode_utf8_decode_utf8(s);
}

} // verus!
