use ssher::endec::{decode_string, encode_string, text_of_decoded, DecodeError};

#[test]
fn the_empty_password_is_not_stored() {
    assert_eq!(encode_string(String::new()), None);
}

#[test]
fn passwords_are_stored_as_padded_base64() {
    assert_eq!(encode_string("hello".to_string()), Some("aGVsbG8=".to_string()));
    assert_eq!(encode_string("a".to_string()), Some("YQ==".to_string()));
    assert_eq!(encode_string("abc".to_string()), Some("YWJj".to_string()));
    assert_eq!(encode_string("p\u{e4}ss".to_string()), Some("cMOkc3M=".to_string()));
}

#[test]
fn stored_passwords_are_read_back() {
    assert_eq!(decode_string(&"aGVsbG8=".to_string()), Ok("hello".to_string()));
    assert_eq!(decode_string(&"cMOkc3M=".to_string()), Ok("p\u{e4}ss".to_string()));
    for secret in ["x", "secret", "with space", "\u{4f60}\u{597d}"] {
        let stored = encode_string(secret.to_string()).unwrap();
        assert_ne!(stored, secret);
        assert_eq!(decode_string(&stored), Ok(secret.to_string()));
    }
}

#[test]
fn each_decoding_error_has_its_input() {
    assert_eq!(decode_string(&String::new()), Err(DecodeError::Empty));
    assert_eq!(decode_string(&"not base64!".to_string()), Err(DecodeError::Malformed));
    assert_eq!(decode_string(&"aGVsbG8".to_string()), Err(DecodeError::Malformed));
    // 0xff 0xfe is no UTF-8
    assert_eq!(decode_string(&"//4=".to_string()), Err(DecodeError::NotText));
}

#[test]
fn decoded_bytes_become_text() {
    assert_eq!(text_of_decoded(None), Err(DecodeError::Malformed));
    assert_eq!(text_of_decoded(Some(vec![0x68, 0x69])), Ok("hi".to_string()));
    assert_eq!(text_of_decoded(Some(vec![])), Ok(String::new()));
    assert_eq!(text_of_decoded(Some(vec![0xc3])), Err(DecodeError::NotText));
}

#[test]
fn decoding_errors_have_messages() {
    assert_eq!(DecodeError::Empty.message(), "string is empty");
    assert_eq!(DecodeError::Malformed.message(), "string decode failed");
    assert_eq!(DecodeError::NotText.message(), "string is not valid UTF-8");
}
