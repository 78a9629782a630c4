use nodex_core::base64_url::{Base64Url, PaddingType};
use nodex_core::errors::NodeXError;

fn message() -> String {
    String::from("0123456789abcdef")
}

#[test]
fn test_base64url_encode() {
    let result = Base64Url::encode(message().as_bytes(), &PaddingType::Padding);

    assert_eq!(result, String::from("MDEyMzQ1Njc4OWFiY2RlZg=="));
}

#[test]
fn test_base64url_encode_nopad() {
    let result = Base64Url::encode(message().as_bytes(), &PaddingType::NoPadding);

    assert_eq!(result, String::from("MDEyMzQ1Njc4OWFiY2RlZg"));
}

#[test]
fn test_base64url_decode_byte() {
    let encoded = Base64Url::encode(message().as_bytes(), &PaddingType::Padding);
    let result = match Base64Url::decode_as_bytes(&encoded, &PaddingType::Padding) {
        Ok(v) => v,
        Err(_) => panic!(),
    };

    assert_eq!(
        result,
        vec![
            0x30, 0x31, 0x32, 0x33, 0x34, 0x35, 0x36, 0x37, 0x38, 0x39, 0x61, 0x62, 0x63, 0x64,
            0x65, 0x66,
        ]
    );
}

#[test]
fn test_base64url_decode_byte_nopad() {
    let encoded = Base64Url::encode(message().as_bytes(), &PaddingType::NoPadding);
    let result = match Base64Url::decode_as_bytes(&encoded, &PaddingType::NoPadding) {
        Ok(v) => v,
        Err(_) => panic!(),
    };

    assert_eq!(
        result,
        vec![
            0x30, 0x31, 0x32, 0x33, 0x34, 0x35, 0x36, 0x37, 0x38, 0x39, 0x61, 0x62, 0x63, 0x64,
            0x65, 0x66,
        ]
    );
}

#[test]
fn test_base64url_decode_string() {
    let encoded = Base64Url::encode(message().as_bytes(), &PaddingType::Padding);
    let result = match Base64Url::decode_as_string(&encoded, &PaddingType::Padding) {
        Ok(v) => v,
        Err(_) => panic!(),
    };

    assert_eq!(result, message());
}

#[test]
fn test_base64url_decode_string_nopad() {
    let encoded = Base64Url::encode(message().as_bytes(), &PaddingType::NoPadding);
    let result = match Base64Url::decode_as_string(&encoded, &PaddingType::NoPadding) {
        Ok(v) => v,
        Err(_) => panic!(),
    };

    assert_eq!(result, message());
}

#[test]
fn url_safe_alphabet_is_used() {
    let bytes = vec![0xfbu8, 0xff, 0xbf];
    assert_eq!(Base64Url::encode(&bytes, &PaddingType::NoPadding), "-_-_");
    assert_eq!(Base64Url::encode(&[0xffu8], &PaddingType::Padding), "_w==");
    assert_eq!(Base64Url::encode(&[0xffu8], &PaddingType::NoPadding), "_w");
}

#[test]
fn empty_buffer_round_trips() {
    let encoded = Base64Url::encode(&[], &PaddingType::Padding);
    assert_eq!(encoded, "");
    assert_eq!(Base64Url::decode_as_bytes(&encoded, &PaddingType::Padding), Ok(vec![]));
}

#[test]
fn bytes_round_trip_under_both_paddings() {
    let bytes: Vec<u8> = (0u8..=255).collect();
    for padding in [PaddingType::Padding, PaddingType::NoPadding] {
        let encoded = Base64Url::encode(&bytes, &padding);
        assert_eq!(Base64Url::decode_as_bytes(&encoded, &padding), Ok(bytes.clone()));
    }
}

#[test]
fn strings_round_trip_under_both_paddings() {
    let text = "päivää, 世界 🌍";
    for padding in [PaddingType::Padding, PaddingType::NoPadding] {
        let encoded = Base64Url::encode(text.as_bytes(), &padding);
        assert_eq!(Base64Url::decode_as_string(&encoded, &padding), Ok(text.to_string()));
    }
}

#[test]
fn invalid_alphabet_is_a_codec_error() {
    assert_eq!(Base64Url::decode_as_bytes("ab+/", &PaddingType::NoPadding), Err(NodeXError::Codec));
}

#[test]
fn wrong_padding_is_a_codec_error() {
    assert_eq!(Base64Url::decode_as_bytes("_w", &PaddingType::Padding), Err(NodeXError::Codec));
    assert_eq!(Base64Url::decode_as_bytes("_w==", &PaddingType::NoPadding), Err(NodeXError::Codec));
}

#[test]
fn invalid_utf8_is_a_codec_error() {
    let encoded = Base64Url::encode(&[0xffu8, 0xfe], &PaddingType::NoPadding);
    assert_eq!(Base64Url::decode_as_string(&encoded, &PaddingType::NoPadding), Err(NodeXError::Codec));
}
