use oauth_relay::controllers::oauth::well_known;
use oauth_relay::error::OAuthError;
use oauth_relay::oauth::crypto::{
    check_generated, generate_keypair, key_bits, keypair_from_generated, keypair_from_parts,
    provision_keys, read_public_key, Encodable, KeyStore, Provisioning, PublicKey, RsaParts,
    SecretKey,
};

fn is_url_safe(text: &str) -> bool {
    text.chars().all(|c| c.is_ascii_alphanumeric() || c == '-' || c == '_')
}

fn parts() -> RsaParts {
    RsaParts {
        n: vec![0xff, 0xee, 0xdd, 0xcc],
        e: vec![1, 0, 1],
        d: vec![0xfb, 0xff],
        p: Some(vec![0x4d, 0x61, 0x6e]),
        q: Some(vec![0x4d, 0x61]),
        dp: Some(vec![0x4d]),
        dq: Some(vec![0, 0, 0]),
        qi: Some(vec![]),
    }
}

fn generated() -> (SecretKey, PublicKey) {
    match generate_keypair() {
        Ok(pair) => pair,
        Err(err) => panic!("key generation failed: {:?}", err),
    }
}

#[test]
fn parts_are_written_in_url_safe_base64() {
    let (secret, public) = match keypair_from_parts(&parts()) {
        Ok(pair) => pair,
        Err(err) => panic!("complete parts must encode: {:?}", err),
    };
    assert_eq!(secret.kty, "RSA");
    assert_eq!(secret.n, "_-7dzA");
    assert_eq!(secret.e, "AQAB");
    assert_eq!(secret.d, "-_8");
    assert_eq!(secret.p, "TWFu");
    assert_eq!(secret.q, "TWE");
    assert_eq!(secret.dp, "TQ");
    assert_eq!(secret.dq, "AAAA");
    assert_eq!(secret.qi, "");
    assert_eq!(public.kid, "dev-1");
    assert_eq!(public.kty, "RSA");
    assert_eq!(public.n, "_-7dzA");
    assert_eq!(public.e, "AQAB");
}

#[test]
fn incomplete_parts_are_an_unknown_error() {
    let missing = [
        RsaParts { p: None, ..parts() },
        RsaParts { q: None, ..parts() },
        RsaParts { dp: None, ..parts() },
        RsaParts { dq: None, ..parts() },
        RsaParts { qi: None, ..parts() },
    ];
    for incomplete in missing.iter() {
        assert!(matches!(keypair_from_parts(incomplete), Err(OAuthError::UnknownError(_))));
    }
}

#[test]
fn generated_pair_shares_modulus_and_exponent() {
    let (secret, public) = generated();
    assert_eq!(secret.kty, "RSA");
    assert_eq!(public.kty, "RSA");
    assert_eq!(public.kid, "dev-1");
    assert_eq!(public.n, secret.n);
    assert_eq!(public.e, secret.e);
    assert_eq!(public.e, "AQAB");
    // 2048 bits are 256 bytes, which take 342 characters without padding.
    assert_eq!(secret.n.len(), 342);
    for field in [&secret.n, &secret.e, &secret.d, &secret.p, &secret.q, &secret.dp, &secret.dq, &secret.qi] {
        assert!(!field.is_empty());
        assert!(is_url_safe(field));
    }
}

#[test]
fn generated_keys_differ() {
    let (first, _) = generated();
    let (second, _) = generated();
    assert_ne!(first.n, second.n);
}

#[test]
fn public_key_json_has_the_persisted_layout() {
    let key = PublicKey {
        kid: "dev-1".to_string(),
        kty: "RSA".to_string(),
        n: "_-7dzA".to_string(),
        e: "AQAB".to_string(),
    };
    match key.encode() {
        Ok(text) => assert_eq!(
            text,
            "{\"kid\":\"dev-1\",\"kty\":\"RSA\",\"n\":\"_-7dzA\",\"e\":\"AQAB\"}"
        ),
        Err(err) => panic!("encoding failed: {:?}", err),
    }
}

#[test]
fn secret_key_json_has_the_persisted_layout() {
    let (secret, _) = match keypair_from_parts(&parts()) {
        Ok(pair) => pair,
        Err(err) => panic!("complete parts must encode: {:?}", err),
    };
    match secret.encode() {
        Ok(text) => assert_eq!(
            text,
            "{\"kty\":\"RSA\",\"n\":\"_-7dzA\",\"e\":\"AQAB\",\"d\":\"-_8\",\"p\":\"TWFu\",\"q\":\"TWE\",\"dp\":\"TQ\",\"dq\":\"AAAA\",\"qi\":\"\"}"
        ),
        Err(err) => panic!("encoding failed: {:?}", err),
    }
}

#[test]
fn encoding_escapes_what_json_must_escape() {
    let key = PublicKey {
        kid: "a\"b\\c\n".to_string(),
        kty: "RSA".to_string(),
        n: "é".to_string(),
        e: String::new(),
    };
    match key.encode() {
        Ok(text) => {
            assert_eq!(text, "{\"kid\":\"a\\\"b\\\\c\\n\",\"kty\":\"RSA\",\"n\":\"é\",\"e\":\"\"}");
            match PublicKey::decode(&text) {
                Ok(back) => {
                    assert_eq!(back.kid, "a\"b\\c\n");
                    assert_eq!(back.n, "é");
                    assert_eq!(back.e, "");
                }
                Err(err) => panic!("decoding failed: {:?}", err),
            }
        }
        Err(err) => panic!("encoding failed: {:?}", err),
    }
}

#[test]
fn round_trip_keeps_the_public_key() {
    let (secret, public) = generated();
    let secret_json = match secret.encode() {
        Ok(text) => text,
        Err(err) => panic!("encoding failed: {:?}", err),
    };
    let public_json = match public.encode() {
        Ok(text) => text,
        Err(err) => panic!("encoding failed: {:?}", err),
    };
    let back = match PublicKey::decode(&public_json) {
        Ok(key) => key,
        Err(err) => panic!("decoding failed: {:?}", err),
    };
    assert_eq!(back.n, public.n);
    assert_eq!(back.e, public.e);
    assert_eq!(back.kid, public.kid);
    assert_eq!(back.kty, public.kty);
    // The secret key document names the same modulus and exponent.
    assert!(secret_json.contains(&format!("\"n\":\"{}\"", public.n)));
    assert!(secret_json.contains(&format!("\"e\":\"{}\"", public.e)));
}

#[test]
fn decode_ignores_other_members_and_their_order() {
    let text = " { \"e\" : \"AQAB\", \"extra\": [1, {\"x\": null}], \"n\":\"bW9k\", \"kty\":\"RSA\", \"kid\":\"k\" } ";
    match PublicKey::decode(text) {
        Ok(key) => {
            assert_eq!(key.kid, "k");
            assert_eq!(key.kty, "RSA");
            assert_eq!(key.n, "bW9k");
            assert_eq!(key.e, "AQAB");
        }
        Err(err) => panic!("decoding failed: {:?}", err),
    }
}

#[test]
fn decode_rejects_what_is_not_a_public_key() {
    let malformed = [
        "",
        "{",
        "null",
        "\"text\"",
        "[\"k\",\"RSA\",\"n\",\"e\"]",
        "{\"kty\":\"RSA\",\"n\":\"bW9k\",\"e\":\"AQAB\"}",
        "{\"kid\":\"k\",\"n\":\"bW9k\",\"e\":\"AQAB\"}",
        "{\"kid\":\"k\",\"kty\":\"RSA\",\"e\":\"AQAB\"}",
        "{\"kid\":\"k\",\"kty\":\"RSA\",\"n\":\"bW9k\"}",
        "{\"kid\":1,\"kty\":\"RSA\",\"n\":\"bW9k\",\"e\":\"AQAB\"}",
        "{\"kid\":null,\"kty\":\"RSA\",\"n\":\"bW9k\",\"e\":\"AQAB\"}",
        "{\"kid\":\"k\",\"kty\":\"RSA\",\"n\":\"bW9k\",\"e\":\"AQAB\"} trailing",
    ];
    for text in malformed.iter() {
        assert!(matches!(PublicKey::decode(text), Err(OAuthError::JSONError(_))), "{}", text);
    }
}

#[test]
fn unreadable_file_is_an_io_error() {
    let cause = std::io::Error::new(std::io::ErrorKind::NotFound, "no such file");
    match read_public_key(Err(cause)) {
        Err(OAuthError::IOError(err)) => {
            assert_eq!(err.kind(), std::io::ErrorKind::NotFound);
            assert_eq!(err.to_string(), "no such file");
        }
        _ => panic!("expected an I/O error"),
    }
}

#[test]
fn readable_file_is_decoded() {
    let text = "{\"kid\":\"dev-1\",\"kty\":\"RSA\",\"n\":\"bW9k\",\"e\":\"AQAB\"}".to_string();
    match read_public_key(Ok(text)) {
        Ok(key) => assert_eq!(key.n, "bW9k"),
        Err(err) => panic!("decoding failed: {:?}", err),
    }
    assert!(matches!(read_public_key(Ok("{}".to_string())), Err(OAuthError::JSONError(_))));
}

#[test]
fn provisioning_fills_an_empty_store() {
    let mut store = KeyStore::new();
    assert_eq!(store.secret, None);
    assert_eq!(store.public, None);
    match provision_keys(&mut store) {
        Ok(outcome) => assert_eq!(outcome, Provisioning::Generated),
        Err(err) => panic!("provisioning failed: {:?}", err),
    }
    let secret = store.secret.clone().expect("a secret key was written");
    let public = store.public.clone().expect("a public key was written");
    assert!(secret.starts_with("{\"kty\":\"RSA\",\"n\":\""));
    assert!(public.starts_with("{\"kid\":\"dev-1\",\"kty\":\"RSA\",\"n\":\""));
    match PublicKey::decode(&public) {
        Ok(key) => assert_eq!(key.e, "AQAB"),
        Err(err) => panic!("decoding failed: {:?}", err),
    }
}

#[test]
fn provisioning_twice_leaves_the_store_unchanged() {
    let mut store = KeyStore::new();
    assert!(matches!(provision_keys(&mut store), Ok(Provisioning::Generated)));
    let secret = store.secret.clone();
    let public = store.public.clone();
    assert!(matches!(provision_keys(&mut store), Ok(Provisioning::AlreadyGenerated)));
    assert_eq!(store.secret, secret);
    assert_eq!(store.public, public);
}

#[test]
fn provisioning_never_touches_an_existing_secret() {
    let mut store = KeyStore { secret: Some("not even json".to_string()), public: None };
    assert!(matches!(provision_keys(&mut store), Ok(Provisioning::AlreadyGenerated)));
    assert_eq!(store.secret, Some("not even json".to_string()));
    assert_eq!(store.public, None);
}

#[test]
fn persist_writes_both_documents() {
    let (secret, public) = match keypair_from_parts(&parts()) {
        Ok(pair) => pair,
        Err(err) => panic!("complete parts must encode: {:?}", err),
    };
    let mut store = KeyStore::new();
    assert!(store.persist(&secret, &public).is_ok());
    assert_eq!(
        store.public,
        Some("{\"kid\":\"dev-1\",\"kty\":\"RSA\",\"n\":\"_-7dzA\",\"e\":\"AQAB\"}".to_string())
    );
    assert_eq!(
        store.secret,
        Some("{\"kty\":\"RSA\",\"n\":\"_-7dzA\",\"e\":\"AQAB\",\"d\":\"-_8\",\"p\":\"TWFu\",\"q\":\"TWE\",\"dp\":\"TQ\",\"dq\":\"AAAA\",\"qi\":\"\"}".to_string())
    );
}

#[test]
fn well_known_publishes_the_key_for_signing() {
    let key = PublicKey {
        kid: "dev-1".to_string(),
        kty: "RSA".to_string(),
        n: "bW9k".to_string(),
        e: "AQAB".to_string(),
    };
    let response = well_known(&key);
    assert_eq!(response.kid, "dev-1");
    assert_eq!(response._use, "sig");
    assert_eq!(response.kty, "RSA");
    assert_eq!(response.n, "bW9k");
    assert_eq!(response.e, "AQAB");
}

#[test]
fn key_layouts_frame_the_given_texts() {
    assert_eq!(
        PublicKey::layout("1", "2", "3", "4"),
        "{\"kid\":1,\"kty\":2,\"n\":3,\"e\":4}"
    );
    assert_eq!(
        SecretKey::layout("1", "2", "3", "4", "5", "6", "7", "8", "9"),
        "{\"kty\":1,\"n\":2,\"e\":3,\"d\":4,\"p\":5,\"q\":6,\"dp\":7,\"dq\":8,\"qi\":9}"
    );
    assert_eq!(PublicKey::layout("", "", "", ""), "{\"kid\":,\"kty\":,\"n\":,\"e\":}");
}

fn generated_parts() -> RsaParts {
    let mut n = vec![0x5au8; 256];
    n[0] = 0x80;
    RsaParts {
        n,
        e: vec![1, 0, 1],
        d: vec![1],
        p: Some(vec![2]),
        q: Some(vec![3]),
        dp: Some(vec![4]),
        dq: Some(vec![5]),
        qi: Some(vec![6]),
    }
}

#[test]
fn a_key_of_2048_bits_with_all_numbers_passes() {
    assert!(check_generated(&generated_parts()));
    let mut top = generated_parts();
    top.n[0] = 0xff;
    assert!(check_generated(&top));
}

#[test]
fn a_key_of_another_shape_does_not_pass() {
    assert!(!check_generated(&parts()));
    let mut short = generated_parts();
    short.n.pop();
    assert!(!check_generated(&short));
    let mut long = generated_parts();
    long.n.push(1);
    assert!(!check_generated(&long));
    let mut low = generated_parts();
    low.n[0] = 0x7f;
    assert!(!check_generated(&low));
    assert!(!check_generated(&RsaParts { n: vec![], ..generated_parts() }));
    assert!(!check_generated(&RsaParts { e: vec![3], ..generated_parts() }));
    assert!(!check_generated(&RsaParts { e: vec![1, 0, 1, 0], ..generated_parts() }));
    assert!(!check_generated(&RsaParts { e: vec![1, 0, 0], ..generated_parts() }));
    assert!(!check_generated(&RsaParts { d: vec![], ..generated_parts() }));
    assert!(!check_generated(&RsaParts { p: None, ..generated_parts() }));
    assert!(!check_generated(&RsaParts { p: Some(vec![]), ..generated_parts() }));
    assert!(!check_generated(&RsaParts { q: None, ..generated_parts() }));
    assert!(!check_generated(&RsaParts { q: Some(vec![]), ..generated_parts() }));
    assert!(!check_generated(&RsaParts { dp: None, ..generated_parts() }));
    assert!(!check_generated(&RsaParts { dp: Some(vec![]), ..generated_parts() }));
    assert!(!check_generated(&RsaParts { dq: None, ..generated_parts() }));
    assert!(!check_generated(&RsaParts { dq: Some(vec![]), ..generated_parts() }));
    assert!(!check_generated(&RsaParts { qi: None, ..generated_parts() }));
    assert!(!check_generated(&RsaParts { qi: Some(vec![]), ..generated_parts() }));
}

#[test]
fn the_numbers_of_a_key_take_their_base64_length() {
    let (secret, public) = match keypair_from_parts(&generated_parts()) {
        Ok(pair) => pair,
        Err(err) => panic!("complete parts must encode: {:?}", err),
    };
    assert_eq!(secret.n.len(), 342);
    assert_eq!(public.n.len(), 342);
    assert_eq!(public.e.len(), 4);
    assert_eq!(secret.d.len(), 2);
    assert!(is_url_safe(&secret.n));
    assert!(secret.n.starts_with("gFpa"));
}

#[test]
fn a_generated_modulus_has_2048_bits() {
    let (secret, public) = generated();
    assert_eq!(public.n.len(), 342);
    assert_eq!(secret.n.len(), 342);
    assert_eq!(public.e.len(), 4);
    // The first character holds the six highest bits, the highest of them set.
    let first = public.n.chars().next().unwrap_or('A');
    assert!(first.is_ascii_lowercase() || first.is_ascii_digit() || first == '-' || first == '_');
}

#[test]
fn encoding_and_persisting_always_succeed() {
    let odd = PublicKey {
        kid: "\u{0}\u{1f}\u{7f}\"\\/".to_string(),
        kty: "\u{10ffff}".to_string(),
        n: String::new(),
        e: "é€".to_string(),
    };
    assert!(odd.encode().is_ok());
    let (secret, _) = match keypair_from_parts(&parts()) {
        Ok(pair) => pair,
        Err(err) => panic!("complete parts must encode: {:?}", err),
    };
    let mut store = KeyStore::new();
    assert!(store.persist(&secret, &odd).is_ok());
    assert!(store.secret.is_some());
    assert!(store.public.is_some());
}

#[test]
fn the_provider_is_asked_for_2048_bits() {
    assert_eq!(key_bits(), 2048);
}

#[test]
fn a_provider_failure_is_an_openssl_error_with_its_cause() {
    // An error raised by the provider itself: a size no key can have.
    let cause = match openssl::rsa::Rsa::generate(1) {
        Err(cause) => cause,
        Ok(_) => panic!("no key has one bit"),
    };
    let told = cause.to_string();
    match keypair_from_generated(Err(cause)) {
        Err(OAuthError::OpenSSLError(err)) => assert_eq!(err.to_string(), told),
        _ => panic!("expected the provider's error"),
    }
    let empty = openssl::error::ErrorStack::get();
    assert!(matches!(keypair_from_generated(Err(empty)), Err(OAuthError::OpenSSLError(_))));
}

#[test]
fn a_generated_key_becomes_a_pair() {
    match keypair_from_generated(Ok(generated_parts())) {
        Ok((secret, public)) => {
            assert_eq!(secret.kty, "RSA");
            assert_eq!(public.kid, "dev-1");
            assert_eq!(public.kty, "RSA");
            assert_eq!(public.n, secret.n);
            assert_eq!(public.e, secret.e);
            assert_eq!(public.e, "AQAB");
            assert_eq!(public.n.len(), 342);
            assert!(public.n.starts_with("gFpa"));
            assert_eq!(secret.d, "AQ");
            assert_eq!(secret.p, "Ag");
            assert_eq!(secret.q, "Aw");
            assert_eq!(secret.dp, "BA");
            assert_eq!(secret.dq, "BQ");
            assert_eq!(secret.qi, "Bg");
        }
        Err(err) => panic!("a generated key must encode: {:?}", err),
    }
}

#[test]
fn a_key_of_another_shape_is_an_unknown_error() {
    assert!(matches!(keypair_from_generated(Ok(parts())), Err(OAuthError::UnknownError(_))));
    let mut short = generated_parts();
    short.n.truncate(128);
    assert!(matches!(keypair_from_generated(Ok(short)), Err(OAuthError::UnknownError(_))));
    let incomplete = RsaParts { qi: None, ..generated_parts() };
    assert!(matches!(keypair_from_generated(Ok(incomplete)), Err(OAuthError::UnknownError(_))));
}

#[test]
fn a_generated_pair_is_stored() {
    let pair = match keypair_from_generated(Ok(generated_parts())) {
        Ok(pair) => pair,
        Err(err) => panic!("a generated key must encode: {:?}", err),
    };
    let mut store = KeyStore::new();
    assert!(matches!(store.store_generated(Ok(pair)), Ok(Provisioning::Generated)));
    let secret = store.secret.clone().unwrap_or_default();
    let public = store.public.clone().unwrap_or_default();
    assert!(secret.starts_with("{\"kty\":\"RSA\",\"n\":\"gFpa"));
    assert!(secret.ends_with("\"dq\":\"BQ\",\"qi\":\"Bg\"}"));
    assert!(public.starts_with("{\"kid\":\"dev-1\",\"kty\":\"RSA\",\"n\":\"gFpa"));
    assert!(public.ends_with("\"e\":\"AQAB\"}"));
}

#[test]
fn a_failed_generation_leaves_the_store_empty() {
    let mut store = KeyStore::new();
    let failed = keypair_from_generated(Err(openssl::error::ErrorStack::get()));
    assert!(matches!(store.store_generated(failed), Err(OAuthError::OpenSSLError(_))));
    assert_eq!(store.secret, None);
    assert_eq!(store.public, None);
    let malformed = keypair_from_generated(Ok(parts()));
    assert!(matches!(store.store_generated(malformed), Err(OAuthError::UnknownError(_))));
    assert_eq!(store.secret, None);
    assert_eq!(store.public, None);
}
