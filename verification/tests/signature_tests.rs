use uptime_monitor::encoding::percent_encode;
use uptime_monitor::signature::Twitter;

fn fixed_engine() -> Twitter {
    Twitter::new(
        b"ck".to_vec(),
        b"cs".to_vec(),
        b"tk".to_vec(),
        b"ts".to_vec(),
    )
}

#[test]
fn engine_construction_needs_all_four_credentials() {
    let built = Twitter::from_config(
        Some(b"ck".to_vec()),
        Some(b"cs".to_vec()),
        Some(b"tk".to_vec()),
        Some(b"ts".to_vec()),
    )
    .unwrap();
    assert_eq!(built.consumer_key, b"ck".to_vec());
    assert_eq!(built.consumer_secret, b"cs".to_vec());
    assert_eq!(built.access_token_key, b"tk".to_vec());
    assert_eq!(built.access_token_secret, b"ts".to_vec());

    let missing = Twitter::from_config(
        Some(b"ck".to_vec()),
        None,
        Some(b"tk".to_vec()),
        Some(b"ts".to_vec()),
    );
    assert!(matches!(
        missing,
        Err(uptime_monitor::errors::MonitorError::ConfigurationError)
    ));
}

#[test]
fn percent_encoding_fixed_character_set() {
    let encoded = percent_encode(&b"a b*c".to_vec());
    assert_eq!(encoded, b"a%20b*c".to_vec());
}

#[test]
fn percent_encoding_keeps_the_four_unreserved_marks() {
    let encoded = percent_encode(&b"A9z*-._/&=:".to_vec());
    assert_eq!(String::from_utf8(encoded).unwrap(), "A9z*-._%2F%26%3D%3A");
}

#[test]
fn percent_encoding_matches_reference_crate() {
    let set: &'static percent_encoding::AsciiSet = Box::leak(Box::new(
        percent_encoding::NON_ALPHANUMERIC
            .remove(b'*')
            .remove(b'-')
            .remove(b'.')
            .remove(b'_'),
    ));
    let samples = [
        "a b*c",
        "https://api.twitter.com/2/tweets",
        "HMAC-SHA1",
        "1.0",
        "【障害情報】\nサーバ",
        "key=value&more",
        "",
    ];
    for s in samples {
        let expected = percent_encoding::utf8_percent_encode(s, set).to_string();
        let got = percent_encode(&s.as_bytes().to_vec());
        assert_eq!(String::from_utf8(got).unwrap(), expected);
    }
}

#[test]
fn param_string_is_sorted_and_joined() {
    let engine = fixed_engine();
    let got = engine.generate_oauth_param_string(&b"1600000000".to_vec(), &b"1600000000".to_vec());
    assert_eq!(
        String::from_utf8(got).unwrap(),
        "oauth_consumer_key=ck&oauth_nonce=1600000000&oauth_signature_method=HMAC-SHA1&oauth_timestamp=1600000000&oauth_token=tk&oauth_version=1.0"
    );
}

#[test]
fn signing_key_joins_the_encoded_secrets() {
    let engine = fixed_engine();
    let key = engine.generate_oauth_signature_key(&b"c s".to_vec(), &b"t/s".to_vec());
    assert_eq!(String::from_utf8(key).unwrap(), "c%20s&t%2Fs");
}

#[test]
fn signature_base_known_value() {
    let engine = fixed_engine();
    let base = engine.generate_oauth_signature_base(
        &b"POST".to_vec(),
        &b"https://api.twitter.com/2/tweets".to_vec(),
        &b"1600000000".to_vec(),
        &b"1600000000".to_vec(),
    );
    assert_eq!(
        String::from_utf8(base).unwrap(),
        "POST&https%3A%2F%2Fapi.twitter.com%2F2%2Ftweets&oauth_consumer_key%3Dck%26oauth_nonce%3D1600000000%26oauth_signature_method%3DHMAC-SHA1%26oauth_timestamp%3D1600000000%26oauth_token%3Dtk%26oauth_version%3D1.0"
    );
}

#[test]
fn oauth_signature_known_value() {
    let engine = fixed_engine();
    let key = engine.generate_oauth_signature_key(&b"cs".to_vec(), &b"ts".to_vec());
    let base = engine.generate_oauth_signature_base(
        &b"POST".to_vec(),
        &b"https://api.twitter.com/2/tweets".to_vec(),
        &b"1600000000".to_vec(),
        &b"1600000000".to_vec(),
    );
    let signature = engine.generate_oauth_signature(&key, &base);
    assert_eq!(String::from_utf8(signature).unwrap(), "cVGQAviRmAQVCvIKwqLWvAe/ZCc=");
}

#[test]
fn authorization_header_known_value() {
    let engine = fixed_engine();
    let header = engine.get_request_header(
        &b"POST".to_vec(),
        &b"https://api.twitter.com/2/tweets".to_vec(),
        &b"1600000000".to_vec(),
        &b"1600000000".to_vec(),
    );
    assert_eq!(
        String::from_utf8(header).unwrap(),
        "OAuth oauth_consumer_key=\"ck\", oauth_nonce=\"1600000000\", oauth_signature=\"cVGQAviRmAQVCvIKwqLWvAe%2FZCc%3D\", oauth_signature_method=\"HMAC-SHA1\", oauth_timestamp=\"1600000000\", oauth_token=\"tk\", oauth_version=\"1.0\""
    );
}

#[test]
fn authorization_header_is_deterministic() {
    let first = fixed_engine().get_request_header(
        &b"POST".to_vec(),
        &b"https://api.twitter.com/2/tweets".to_vec(),
        &b"abcnonce".to_vec(),
        &b"1700000000".to_vec(),
    );
    let second = fixed_engine().get_request_header(
        &b"POST".to_vec(),
        &b"https://api.twitter.com/2/tweets".to_vec(),
        &b"abcnonce".to_vec(),
        &b"1700000000".to_vec(),
    );
    assert_eq!(first, second);
}
