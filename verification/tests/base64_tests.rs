use resolution_protocol::encodings::{encode_then_decode, Base64};
use resolution_protocol::Error;

#[test]
fn round_trip_simple() {
    let bytes: Vec<u8> = vec![104, 101, 108, 108, 111];
    let text = Base64::new(&bytes);
    assert_eq!(text.try_value().unwrap(), bytes);
    assert_eq!(text.value(), bytes);
}

#[test]
fn round_trip_empty() {
    let bytes: Vec<u8> = Vec::new();
    let text = Base64::new(&bytes);
    assert_eq!(text.as_str(), "");
    assert_eq!(text.try_value().unwrap(), bytes);
}

#[test]
fn round_trip_all_lengths() {
    // Cover every remainder of the 3-byte grouping and all byte values.
    for len in 0..66usize {
        let bytes: Vec<u8> = (0..len).map(|i| (i * 41 % 256) as u8).collect();
        assert_eq!(encode_then_decode(&bytes), bytes);
    }
}

#[test]
fn encode_matches_known_form() {
    // "hello" in unpadded base64.
    let text = Base64::new(&vec![104, 101, 108, 108, 111]);
    assert_eq!(text.as_str(), "aGVsbG8");
}

#[test]
fn encode_uses_url_safe_alphabet() {
    // 0xFB 0xFF maps to the URL-safe digits '-' and '_', not '+' or '/'.
    let text = Base64::new(&vec![0xfb, 0xff]);
    assert_eq!(text.as_str(), "-_8");
}

#[test]
fn decode_rejects_foreign_characters() {
    let text = Base64::from_string(String::from("not base64!!"));
    assert_eq!(text.try_value(), Err(Error::Base64DecodingError));
}

#[test]
fn decode_rejects_padding() {
    // The unpadded configuration refuses padded input.
    let text = Base64::from_string(String::from("aGVsbG8="));
    assert_eq!(text.try_value(), Err(Error::Base64DecodingError));
}

#[test]
fn decode_external_valid_text() {
    let text = Base64::from_string(String::from("aGVsbG8"));
    assert_eq!(text.try_value().unwrap(), vec![104, 101, 108, 108, 111]);
}
