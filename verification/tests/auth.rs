use user_auth::auth::{
    authenticate, bearer_token, create_jwt, decode_jwt, hash_outcome, hash_password, header_text,
    is_ascii_digit, oversized_lanes, starts_with, token_outcome, token_verdict, unexpired_subject,
    verdict_admits, verify_hash, Rejection, UserClaims, TOKEN_VALIDITY_SECS,
};
use user_auth::result::{ApiError, ErrorType};

const SECRET: &str = "correct horse battery staple";
const NOW: u64 = 1_700_000_000;

fn signed(alg: jsonwebtoken::Algorithm, claims: &[(&str, serde_json::Value)], secret: &str) -> String {
    let mut map = serde_json::Map::new();
    for (key, value) in claims {
        map.insert(key.to_string(), value.clone());
    }
    jsonwebtoken::encode(
        &jsonwebtoken::Header::new(alg),
        &map,
        &jsonwebtoken::EncodingKey::from_secret(secret.as_bytes()),
    )
    .unwrap()
}

#[test]
fn hashed_password_verifies() {
    let password = String::from("pw1");
    let hash = hash_password(&password).unwrap();
    assert!(verify_hash(&hash, &password));
}

#[test]
fn hash_is_a_phc_string_and_not_the_password() {
    let password = String::from("hunter2");
    let hash = hash_password(&password).unwrap();
    assert_ne!(hash, password);
    assert!(hash.starts_with("$argon2id$v=19$"));
    assert!(!hash.contains("hunter2"));
}

#[test]
fn other_password_does_not_verify() {
    let hash = hash_password(&String::from("pw1")).unwrap();
    assert!(!verify_hash(&hash, &String::from("pw2")));
    assert!(!verify_hash(&hash, &String::from("")));
    assert!(!verify_hash(&hash, &String::from("pw1 ")));
    assert!(!verify_hash(&hash, &String::from("PW1")));
}

#[test]
fn two_hashes_of_one_password_differ() {
    let password = String::from("same password");
    let first = hash_password(&password).unwrap();
    let second = hash_password(&password).unwrap();
    assert_ne!(first, second);
    assert!(verify_hash(&first, &password));
    assert!(verify_hash(&second, &password));
}

#[test]
fn empty_and_unicode_passwords_round_trip() {
    for text in ["", "pässwörd ✓", "a much longer passphrase with several words in it"] {
        let password = String::from(text);
        let hash = hash_password(&password).unwrap();
        assert!(verify_hash(&hash, &password));
    }
}

#[test]
fn malformed_stored_hash_is_denied() {
    let password = String::from("pw1");
    assert!(!verify_hash("", &password));
    assert!(!verify_hash("pw1", &password));
    assert!(!verify_hash("not a hash at all", &password));
    assert!(!verify_hash("$argon2id$", &password));
    assert!(!verify_hash("$argon2id$v=19$m=19456,t=2,p=1$$$", &password));
    assert!(!verify_hash("$2b$12$abcdefghijklmnopqrstuv", &password));
}

#[test]
fn well_formed_hash_without_digest_is_denied() {
    let password = String::from("pw1");
    assert!(!verify_hash("$argon2id$v=19$m=19456,t=2,p=1", &password));
    assert!(!verify_hash("$argon2id$v=19$m=19456,t=2,p=1$c29tZXNhbHQ", &password));
}

#[test]
fn reference_hash_verifies() {
    // Argon2id reference vector: m=256, t=2, p=1, salt "somesalt".
    let hash = "$argon2id$v=19$m=256,t=2,p=1$c29tZXNhbHQ$nf65EOgLrQMR/uIPnA4rEsF5h7TKyQwu9U1bMCHGi/4";
    assert!(verify_hash(hash, &String::from("password")));
    assert!(!verify_hash(hash, &String::from("sassword")));
    assert!(!verify_hash(hash, &String::from("")));
    let other_digest =
        "$argon2id$v=19$m=256,t=2,p=1$c29tZXNhbHQ$bQk8UB/VmZZF4Oo79iDXuL5/0ttZwg2f/5U52iv1cDc";
    assert!(!verify_hash(other_digest, &String::from("password")));
}

#[test]
fn digits_are_0_to_9() {
    for byte in 0u8..=255 {
        assert_eq!(is_ascii_digit(byte), byte.is_ascii_digit());
    }
}

#[test]
fn oversized_lanes_are_nine_digits_after_p() {
    assert!(oversized_lanes(b"p=123456789"));
    assert!(oversized_lanes(b"p=536870912"));
    assert!(oversized_lanes(b"p=4294967295"));
    assert!(oversized_lanes(b"$argon2id$v=19$m=65536,t=2,p=536870912$c29tZXNhbHQ$abcd"));
    assert!(oversized_lanes(b"m=8,p=1,p=000000000"));
    assert!(oversized_lanes(b"xp=999999999"));
    assert!(!oversized_lanes(b""));
    assert!(!oversized_lanes(b"p="));
    assert!(!oversized_lanes(b"p=12345678"));
    assert!(!oversized_lanes(b"p=16777215"));
    assert!(!oversized_lanes(b"p=12345678x9"));
    assert!(!oversized_lanes(b"m=123456789,t=123456789"));
    assert!(!oversized_lanes(b"P=123456789"));
    assert!(!oversized_lanes(b"p:123456789"));
    assert!(!oversized_lanes(b"$argon2id$v=19$m=19456,t=2,p=1$c29tZXNhbHQ$abcd"));
}

#[test]
fn fresh_hash_has_no_oversized_lanes() {
    let hash = hash_password(&String::from("pw1")).unwrap();
    assert!(!oversized_lanes(hash.as_bytes()));
    assert!(hash.contains(",p=1$"));
}

#[test]
fn hash_with_oversized_lanes_is_denied() {
    let password = String::from("password");
    for lanes in ["536870912", "536870913", "999999999", "4294967295", "123456789"] {
        let hash = format!(
            "$argon2id$v=19$m=65536,t=2,p={}$c29tZXNhbHQ$CTFhFdXPJO1aFaMaO6Mm5c8y7cJHAph8ArZWb2GRPPc",
            lanes
        );
        assert!(!verify_hash(&hash, &password));
    }
    let repeated = "$argon2id$v=19$m=256,t=2,p=1,p=536870912$c29tZXNhbHQ$nf65EOgLrQMR/uIPnA4rEsF5h7TKyQwu9U1bMCHGi/4";
    assert!(!verify_hash(repeated, &password));
}

#[test]
fn hash_with_too_many_lanes_is_denied() {
    let password = String::from("password");
    for lanes in ["16777216", "99999999", "16777215", "0", "33"] {
        let hash = format!(
            "$argon2id$v=19$m=256,t=2,p={}$c29tZXNhbHQ$nf65EOgLrQMR/uIPnA4rEsF5h7TKyQwu9U1bMCHGi/4",
            lanes
        );
        assert!(!verify_hash(&hash, &password));
    }
}

#[test]
fn verdict_admits_only_a_match() {
    assert!(verdict_admits(Some(true)));
    assert!(!verdict_admits(Some(false)));
    assert!(!verdict_admits(None));
}

#[test]
fn hasher_failure_becomes_hashing_failure() {
    let failed = hash_outcome(Err(argon2::password_hash::Error::Password));
    assert_eq!(failed, Err(ApiError { cause: ErrorType::HashingFailure }));
    let made = hash_outcome(Ok(String::from("$argon2id$x")));
    assert_eq!(made, Ok(String::from("$argon2id$x")));
    assert_eq!(
        ApiError::from(argon2::password_hash::Error::Algorithm),
        ApiError { cause: ErrorType::HashingFailure }
    );
}

#[test]
fn validity_window_is_365_days() {
    assert_eq!(TOKEN_VALIDITY_SECS, 60 * 60 * 24 * 365);
    assert_eq!(TOKEN_VALIDITY_SECS, 31_536_000);
}

#[test]
fn issued_token_verifies() {
    let token = create_jwt(42, Some(SECRET), NOW).unwrap();
    assert_eq!(decode_jwt(&token, Some(SECRET), NOW), Some(42));
}

#[test]
fn issued_token_has_three_parts_and_hs512_header() {
    let token = create_jwt(42, Some(SECRET), NOW).unwrap();
    assert_ne!(token, SECRET);
    assert_eq!(token.split('.').count(), 3);
    let header = jsonwebtoken::decode_header(&token).unwrap();
    assert_eq!(header.alg, jsonwebtoken::Algorithm::HS512);
}

#[test]
fn issued_token_carries_uid_and_expiry() {
    let token = create_jwt(7, Some(SECRET), NOW).unwrap();
    let mut validation = jsonwebtoken::Validation::new(jsonwebtoken::Algorithm::HS512);
    validation.validate_exp = false;
    let data = jsonwebtoken::decode::<serde_json::Value>(
        &token,
        &jsonwebtoken::DecodingKey::from_secret(SECRET.as_bytes()),
        &validation,
    )
    .unwrap();
    assert_eq!(data.claims["uid"].as_i64(), Some(7));
    assert_eq!(data.claims["exp"].as_u64(), Some(1_731_536_000));
}

#[test]
fn issuing_is_deterministic() {
    let first = create_jwt(42, Some(SECRET), NOW).unwrap();
    let second = create_jwt(42, Some(SECRET), NOW).unwrap();
    assert_eq!(first, second);
    assert_ne!(first, create_jwt(43, Some(SECRET), NOW).unwrap());
    assert_ne!(first, create_jwt(42, Some(SECRET), NOW + 1).unwrap());
    assert_ne!(first, create_jwt(42, Some("another secret"), NOW).unwrap());
}

#[test]
fn negative_and_extreme_ids_round_trip() {
    for uid in [0, -1, 1, i64::MAX, i64::MIN] {
        let token = create_jwt(uid, Some(SECRET), NOW).unwrap();
        assert_eq!(decode_jwt(&token, Some(SECRET), NOW), Some(uid));
    }
}

#[test]
fn token_is_good_through_its_expiry_and_no_longer() {
    let token = create_jwt(42, Some(SECRET), NOW).unwrap();
    let expiry = NOW + TOKEN_VALIDITY_SECS;
    assert_eq!(decode_jwt(&token, Some(SECRET), expiry - 1), Some(42));
    assert_eq!(decode_jwt(&token, Some(SECRET), expiry), Some(42));
    assert_eq!(decode_jwt(&token, Some(SECRET), expiry + 1), None);
    assert_eq!(decode_jwt(&token, Some(SECRET), u64::MAX), None);
}

#[test]
fn expired_token_is_rejected() {
    let issued_long_ago = create_jwt(42, Some(SECRET), 1_000).unwrap();
    assert_eq!(decode_jwt(&issued_long_ago, Some(SECRET), NOW), None);
    let crafted = signed(
        jsonwebtoken::Algorithm::HS512,
        &[("uid", serde_json::Value::from(42)), ("exp", serde_json::Value::from(NOW - 1))],
        SECRET,
    );
    assert_eq!(decode_jwt(&crafted, Some(SECRET), NOW), None);
    assert_eq!(decode_jwt(&crafted, Some(SECRET), NOW - 1), Some(42));
}

#[test]
fn token_at_the_latest_issuable_instant() {
    let latest = u64::MAX - TOKEN_VALIDITY_SECS;
    let token = create_jwt(5, Some(SECRET), latest).unwrap();
    assert_eq!(decode_jwt(&token, Some(SECRET), latest), Some(5));
    assert_eq!(decode_jwt(&token, Some(SECRET), u64::MAX), Some(5));
}

#[test]
fn token_signed_with_another_secret_is_rejected() {
    let token = create_jwt(42, Some("the first secret"), NOW).unwrap();
    assert_eq!(decode_jwt(&token, Some("the second secret"), NOW), None);
    assert_eq!(decode_jwt(&token, Some(""), NOW), None);
    assert_eq!(decode_jwt(&token, Some("the first secret"), NOW), Some(42));
}

#[test]
fn missing_secret_fails_issuing_and_denies_verifying() {
    assert_eq!(
        create_jwt(42, None, NOW),
        Err(ApiError { cause: ErrorType::ConfigurationMissing })
    );
    let token = create_jwt(42, Some(SECRET), NOW).unwrap();
    assert_eq!(decode_jwt(&token, None, NOW), None);
}

#[test]
fn malformed_token_is_rejected() {
    for text in ["", "abc", "a.b", "a.b.c", "a.b.c.d", "..", "Bearer x", "é.ü.ñ"] {
        assert_eq!(decode_jwt(text, Some(SECRET), NOW), None);
    }
}

#[test]
fn tampered_token_is_rejected() {
    let token = create_jwt(42, Some(SECRET), NOW).unwrap();
    let other = create_jwt(43, Some(SECRET), NOW).unwrap();
    let parts: Vec<&str> = token.split('.').collect();
    let other_parts: Vec<&str> = other.split('.').collect();
    let forged = format!("{}.{}.{}", parts[0], other_parts[1], parts[2]);
    assert_eq!(decode_jwt(&forged, Some(SECRET), NOW), None);
    let truncated = &token[..token.len() - 1];
    assert_eq!(decode_jwt(truncated, Some(SECRET), NOW), None);
}

#[test]
fn token_of_another_algorithm_is_rejected() {
    let claims = [
        ("uid", serde_json::Value::from(42)),
        ("exp", serde_json::Value::from(NOW + 1_000)),
    ];
    let hs256 = signed(jsonwebtoken::Algorithm::HS256, &claims, SECRET);
    let hs384 = signed(jsonwebtoken::Algorithm::HS384, &claims, SECRET);
    let hs512 = signed(jsonwebtoken::Algorithm::HS512, &claims, SECRET);
    assert_eq!(decode_jwt(&hs256, Some(SECRET), NOW), None);
    assert_eq!(decode_jwt(&hs384, Some(SECRET), NOW), None);
    assert_eq!(decode_jwt(&hs512, Some(SECRET), NOW), Some(42));
}

#[test]
fn token_without_the_expected_claims_is_rejected() {
    let no_uid = signed(
        jsonwebtoken::Algorithm::HS512,
        &[("exp", serde_json::Value::from(NOW + 1_000))],
        SECRET,
    );
    let no_exp =
        signed(jsonwebtoken::Algorithm::HS512, &[("uid", serde_json::Value::from(42))], SECRET);
    let text_uid = signed(
        jsonwebtoken::Algorithm::HS512,
        &[("uid", serde_json::Value::from("42")), ("exp", serde_json::Value::from(NOW + 1_000))],
        SECRET,
    );
    assert_eq!(decode_jwt(&no_uid, Some(SECRET), NOW), None);
    assert_eq!(decode_jwt(&no_exp, Some(SECRET), NOW), None);
    assert_eq!(decode_jwt(&text_uid, Some(SECRET), NOW), None);
}

#[test]
fn token_with_further_claims_is_accepted() {
    let token = signed(
        jsonwebtoken::Algorithm::HS512,
        &[
            ("uid", serde_json::Value::from(9)),
            ("exp", serde_json::Value::from(NOW)),
            ("role", serde_json::Value::from("admin")),
        ],
        SECRET,
    );
    assert_eq!(decode_jwt(&token, Some(SECRET), NOW), Some(9));
}

#[test]
fn unexpired_subject_compares_against_the_clock() {
    assert_eq!(unexpired_subject(Some((3, 100)), 99), Some(3));
    assert_eq!(unexpired_subject(Some((3, 100)), 100), Some(3));
    assert_eq!(unexpired_subject(Some((3, 100)), 101), None);
    assert_eq!(unexpired_subject(Some((-3, 0)), 0), Some(-3));
    assert_eq!(unexpired_subject(Some((3, u64::MAX)), u64::MAX), Some(3));
    assert_eq!(unexpired_subject(None, 0), None);
}

#[test]
fn signer_failure_becomes_internal_error() {
    let failure = jsonwebtoken::errors::Error::from(jsonwebtoken::errors::ErrorKind::InvalidAlgorithm);
    assert_eq!(token_outcome(Err(failure)), Err(ApiError { cause: ErrorType::Internal }));
    assert_eq!(token_outcome(Ok(String::from("a.b.c"))), Ok(String::from("a.b.c")));
    let other = jsonwebtoken::errors::Error::from(jsonwebtoken::errors::ErrorKind::InvalidToken);
    assert_eq!(ApiError::from(other), ApiError { cause: ErrorType::Internal });
}

#[test]
fn starts_with_compares_characters() {
    assert!(starts_with("Bearer abc", "Bearer "));
    assert!(starts_with("abc", ""));
    assert!(starts_with("", ""));
    assert!(starts_with("abc", "abc"));
    assert!(!starts_with("abc", "abcd"));
    assert!(!starts_with("", "a"));
    assert!(!starts_with("abd", "abc"));
    assert!(starts_with("über alles", "über"));
    assert!(!starts_with("uber alles", "über"));
}

#[test]
fn bearer_token_is_what_follows_the_prefix() {
    assert_eq!(bearer_token("Bearer abc.def.ghi"), Some("abc.def.ghi"));
    assert_eq!(bearer_token("Bearer "), Some(""));
    assert_eq!(bearer_token("Bearer  two spaces"), Some(" two spaces"));
    assert_eq!(bearer_token("Bearer tökén"), Some("tökén"));
    assert_eq!(bearer_token("Bearer Bearer x"), Some("Bearer x"));
}

#[test]
fn bearer_prefix_is_literal_and_case_sensitive() {
    assert_eq!(bearer_token(""), None);
    assert_eq!(bearer_token("Bearer"), None);
    assert_eq!(bearer_token("bearer abc"), None);
    assert_eq!(bearer_token("BEARER abc"), None);
    assert_eq!(bearer_token(" Bearer abc"), None);
    assert_eq!(bearer_token("Bearer\tabc"), None);
    assert_eq!(bearer_token("Basic dXNlcjpwYXNz"), None);
    assert_eq!(bearer_token("Token abc"), None);
}

#[test]
fn header_text_admits_visible_ascii_space_and_tab() {
    assert_eq!(header_text(b""), Some(""));
    assert_eq!(header_text(b"Bearer abc.def-ghi_jkl"), Some("Bearer abc.def-ghi_jkl"));
    assert_eq!(header_text(b" ~!\"#$%"), Some(" ~!\"#$%"));
    assert_eq!(header_text(b"a\tb"), Some("a\tb"));
    let all: Vec<u8> = (32u8..127).collect();
    assert_eq!(header_text(&all).map(str::as_bytes), Some(&all[..]));
}

#[test]
fn header_text_refuses_other_bytes() {
    assert_eq!(header_text(b"Bearer \xff"), None);
    assert_eq!(header_text(b"\x7f"), None);
    assert_eq!(header_text(b"\x00"), None);
    assert_eq!(header_text(b"a\nb"), None);
    assert_eq!(header_text(b"a\rb"), None);
    assert_eq!(header_text(b"\x1f"), None);
    assert_eq!(header_text(b"\x80"), None);
    assert_eq!(header_text("Bearer tökén".as_bytes()), None);
    assert_eq!(header_text(b"Bearer abc\x01"), None);
}

#[test]
fn header_that_is_no_text_is_malformed() {
    let token = create_jwt(42, Some(SECRET), NOW).unwrap();
    let mut tainted = format!("Bearer {}", token).into_bytes();
    tainted.push(0xff);
    for value in [&b"Bearer \xff"[..], &b"\xff\xfe"[..], &b"Bearer abc\x00"[..], &tainted[..]] {
        assert_eq!(authenticate(Some(value), Some(SECRET), NOW), Err(Rejection::MalformedHeader));
        assert_eq!(
            UserClaims::from_request(Some(value), Some(SECRET), NOW),
            Err(ApiError { cause: ErrorType::BadRequest })
        );
    }
    assert_eq!(
        authenticate(Some("Bearer tökén".as_bytes()), Some(SECRET), NOW),
        Err(Rejection::MalformedHeader)
    );
    assert_eq!(
        authenticate(Some(b"Bearer\tabc"), Some(SECRET), NOW),
        Err(Rejection::MalformedHeader)
    );
    assert_eq!(authenticate(Some(b""), Some(SECRET), NOW), Err(Rejection::MalformedHeader));
}

#[test]
fn token_verdict_maps_subject_to_identity() {
    assert_eq!(token_verdict(Some(12)), Ok(UserClaims { uid: 12 }));
    assert_eq!(token_verdict(None), Err(Rejection::InvalidCredential));
}

#[test]
fn authenticate_classifies_rejections() {
    assert_eq!(authenticate(None, Some(SECRET), NOW), Err(Rejection::MissingCredential));
    assert_eq!(
        authenticate(Some(b"Token abc"), Some(SECRET), NOW),
        Err(Rejection::MalformedHeader)
    );
    assert_eq!(
        authenticate(Some(b"Bearer not-a-token"), Some(SECRET), NOW),
        Err(Rejection::InvalidCredential)
    );
    let token = create_jwt(42, Some(SECRET), NOW).unwrap();
    let header = format!("Bearer {}", token);
    assert_eq!(authenticate(Some(header.as_bytes()), None, NOW), Err(Rejection::InvalidCredential));
    assert_eq!(
        authenticate(Some(header.as_bytes()), Some(SECRET), NOW + TOKEN_VALIDITY_SECS + 1),
        Err(Rejection::InvalidCredential)
    );
    assert_eq!(
        authenticate(Some(header.as_bytes()), Some("another secret"), NOW),
        Err(Rejection::InvalidCredential)
    );
    assert_eq!(authenticate(Some(token.as_bytes()), Some(SECRET), NOW), Err(Rejection::MalformedHeader));
}

#[test]
fn authenticate_accepts_a_bearer_token() {
    let token = create_jwt(42, Some(SECRET), NOW).unwrap();
    let header = format!("Bearer {}", token);
    assert_eq!(authenticate(Some(header.as_bytes()), Some(SECRET), NOW), Ok(UserClaims { uid: 42 }));
    assert_eq!(
        authenticate(Some(header.as_bytes()), Some(SECRET), NOW + TOKEN_VALIDITY_SECS),
        Ok(UserClaims { uid: 42 })
    );
}

#[test]
fn every_rejection_is_the_same_error() {
    let bad_request = ApiError { cause: ErrorType::BadRequest };
    assert_eq!(Rejection::MissingCredential.as_error(), bad_request);
    assert_eq!(Rejection::MalformedHeader.as_error(), bad_request);
    assert_eq!(Rejection::InvalidCredential.as_error(), bad_request);
}

#[test]
fn from_request_rejects_uniformly() {
    let bad_request = Err(ApiError { cause: ErrorType::BadRequest });
    let none = UserClaims::from_request(None, Some(SECRET), NOW);
    let no_prefix = UserClaims::from_request(Some(b"abc.def.ghi"), Some(SECRET), NOW);
    let invalid = UserClaims::from_request(Some(b"Bearer abc.def.ghi"), Some(SECRET), NOW);
    assert_eq!(none, bad_request);
    assert_eq!(no_prefix, bad_request);
    assert_eq!(invalid, bad_request);
    assert_eq!(none, no_prefix);
    assert_eq!(no_prefix, invalid);
    let token = create_jwt(42, Some(SECRET), 1_000).unwrap();
    let header = format!("Bearer {}", token);
    assert_eq!(UserClaims::from_request(Some(header.as_bytes()), Some(SECRET), NOW), bad_request);
    let rendered: Vec<_> = [none, no_prefix, invalid]
        .iter()
        .map(|r| r.unwrap_err().error_response())
        .map(|r| (r.code, r.success, r.error, r.data))
        .collect();
    assert_eq!(rendered[0], rendered[1]);
    assert_eq!(rendered[1], rendered[2]);
}

#[test]
fn from_request_yields_the_identity() {
    let token = create_jwt(42, Some(SECRET), NOW).unwrap();
    let header = format!("Bearer {}", token);
    assert_eq!(
        UserClaims::from_request(Some(header.as_bytes()), Some(SECRET), NOW),
        Ok(UserClaims { uid: 42 })
    );
}
