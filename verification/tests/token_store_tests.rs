use ticktask::token_store::{decode_token, encode_token, load_token, AccessToken, StoreError};

#[test]
fn codec_round_trips_a_record() {
    let t = AccessToken { access_token: String::from("tok-123"), expires_on: 1717977600 };
    let bytes = encode_token(&t);
    let back = decode_token(bytes.as_slice()).unwrap();
    assert_eq!(back, t);
}

#[test]
fn codec_round_trips_an_empty_token() {
    let t = AccessToken { access_token: String::new(), expires_on: 0 };
    let back = decode_token(encode_token(&t).as_slice()).unwrap();
    assert_eq!(back, t);
}

#[test]
fn codec_round_trips_a_negative_expiry() {
    let t = AccessToken { access_token: String::from("x"), expires_on: -12345 };
    let back = decode_token(encode_token(&t).as_slice()).unwrap();
    assert_eq!(back, t);
}

#[test]
fn codec_round_trips_non_ascii_text() {
    let t = AccessToken { access_token: String::from("tök€n"), expires_on: 7 };
    let back = decode_token(encode_token(&t).as_slice()).unwrap();
    assert_eq!(back, t);
}

#[test]
fn encoding_layout_is_length_text_expiry() {
    let t = AccessToken { access_token: String::from("ab"), expires_on: 3 };
    let bytes = encode_token(&t);
    let mut expected = vec![2u8, 0, 0, 0, 0, 0, 0, 0];
    expected.extend_from_slice(b"ab");
    expected.extend_from_slice(&[3u8, 0, 0, 0, 0, 0, 0, 0]);
    assert_eq!(bytes, expected);
}

#[test]
fn truncated_bytes_do_not_decode() {
    let t = AccessToken { access_token: String::from("tok"), expires_on: 1 };
    let mut bytes = encode_token(&t);
    bytes.pop();
    assert!(decode_token(bytes.as_slice()).is_none());
}

#[test]
fn invalid_utf8_does_not_decode() {
    // Length 1, one byte that is no UTF-8, then an expiry.
    let mut bytes = vec![1u8, 0, 0, 0, 0, 0, 0, 0, 0xff];
    bytes.extend_from_slice(&[0u8; 8]);
    assert!(decode_token(bytes.as_slice()).is_none());
}

#[test]
fn load_without_bytes_is_not_found() {
    assert_eq!(load_token(None, 0), Err(StoreError::NotFound));
}

#[test]
fn load_of_garbage_is_corrupt() {
    let bytes = vec![1u8, 2, 3];
    assert_eq!(load_token(Some(&bytes), 0), Err(StoreError::CorruptRecord));
}

#[test]
fn load_of_a_token_expired_one_second_ago_fails() {
    let now: i64 = 1717977600;
    let t = AccessToken { access_token: String::from("stale"), expires_on: now - 1 };
    let bytes = encode_token(&t);
    assert_eq!(load_token(Some(&bytes), now), Err(StoreError::Expired));
}

#[test]
fn load_of_a_token_valid_for_an_hour_returns_it_exactly() {
    let now: i64 = 1717977600;
    let t = AccessToken { access_token: String::from("fresh"), expires_on: now + 3600 };
    let bytes = encode_token(&t);
    let back = load_token(Some(&bytes), now).unwrap();
    assert_eq!(back, t);
}

#[test]
fn load_at_the_exact_expiry_second_still_succeeds() {
    let now: i64 = 1717977600;
    let t = AccessToken { access_token: String::from("edge"), expires_on: now };
    let bytes = encode_token(&t);
    assert_eq!(load_token(Some(&bytes), now).unwrap(), t);
}
