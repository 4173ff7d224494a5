use base64::Engine;
use ring::rand::SystemRandom;
use ring::signature::{
    EcdsaKeyPair, KeyPair, ECDSA_P256_SHA256_FIXED_SIGNING, ECDSA_P384_SHA384_FIXED_SIGNING,
};
use weatherkit_cli::auth::{
    assets_from_members, claims_at, claims_json, claims_object, encode_as_b64, generate_token,
    generate_token_at, generate_token_for, get_claims, get_token, get_token_assets, header_for,
    parse_token_assets,
    header_json, header_object, join_segments, load_assets, signing_input, token_at, Header,
    SigningAssets, TokenAssets, TokenError, ONE_HOUR,
};
use weatherkit_cli::signer::{finish_token, sign, Algorithm, SignOutcome};

/// A key pair for one test: the private key as PEM text in PKCS#8, and the
/// public key as the uncompressed point.
struct TestKey {
    private_pem: Vec<u8>,
    public_point: Vec<u8>,
}

/// Makes a fresh key pair on curve P-256.
fn fresh_key() -> TestKey {
    let rng = SystemRandom::new();
    let document = EcdsaKeyPair::generate_pkcs8(&ECDSA_P256_SHA256_FIXED_SIGNING, &rng).unwrap();
    let pair =
        EcdsaKeyPair::from_pkcs8(&ECDSA_P256_SHA256_FIXED_SIGNING, document.as_ref(), &rng)
            .unwrap();
    TestKey {
        private_pem: pem::encode(&pem::Pem::new("PRIVATE KEY", document.as_ref())).into_bytes(),
        public_point: pair.public_key().as_ref().to_vec(),
    }
}

/// A well-formed private key on curve P-384, which ES256 does not sign with.
fn other_curve_key() -> Vec<u8> {
    let rng = SystemRandom::new();
    let document = EcdsaKeyPair::generate_pkcs8(&ECDSA_P384_SHA384_FIXED_SIGNING, &rng).unwrap();
    pem::encode(&pem::Pem::new("PRIVATE KEY", document.as_ref())).into_bytes()
}

/// The public key of `key` as PEM text: the fixed head of a P-256 public key
/// in DER, then the point.
fn public_pem(key: &TestKey) -> Vec<u8> {
    let mut der: Vec<u8> = vec![
        0x30, 0x59, 0x30, 0x13, 0x06, 0x07, 0x2a, 0x86, 0x48, 0xce, 0x3d, 0x02, 0x01, 0x06, 0x08,
        0x2a, 0x86, 0x48, 0xce, 0x3d, 0x03, 0x01, 0x07, 0x03, 0x42, 0x00,
    ];
    der.extend_from_slice(&key.public_point);
    pem::encode(&pem::Pem::new("PUBLIC KEY", der)).into_bytes()
}

const IDENTITY: &str =
    "{\"key_id\":\"ABC123\",\"service_id\":\"com.example.weather\",\"team_id\":\"TEAM01\"}";

fn example_assets() -> TokenAssets {
    TokenAssets {
        key_id: "ABC123".to_owned(),
        service_id: "com.example.weather".to_owned(),
        team_id: "TEAM01".to_owned(),
    }
}

fn signing_assets(key: &TestKey) -> SigningAssets {
    SigningAssets { identity: example_assets(), private_key: key.private_pem.clone() }
}

fn decode_segment(segment: &str) -> serde_json::Value {
    let bytes = base64::prelude::BASE64_URL_SAFE_NO_PAD.decode(segment).unwrap();
    serde_json::from_slice(&bytes).unwrap()
}

/// Whether the signature segment of `token` is a signature of its signing
/// input under the public key of `key`.
fn verifies(token: &str, key: &TestKey) -> bool {
    let cut = token.rfind('.').unwrap();
    let from_point = jsonwebtoken::DecodingKey::from_ec_der(&key.public_point);
    let from_pem = jsonwebtoken::DecodingKey::from_ec_pem(&public_pem(key)).unwrap();
    let by_point = jsonwebtoken::crypto::verify(
        &token[cut + 1..],
        token[..cut].as_bytes(),
        &from_point,
        jsonwebtoken::Algorithm::ES256,
    )
    .unwrap();
    let by_pem = jsonwebtoken::crypto::verify(
        &token[cut + 1..],
        token[..cut].as_bytes(),
        &from_pem,
        jsonwebtoken::Algorithm::ES256,
    )
    .unwrap();
    assert_eq!(by_point, by_pem);
    by_point
}

fn object_keys(value: &serde_json::Value) -> Vec<String> {
    let mut keys: Vec<String> = value.as_object().unwrap().keys().cloned().collect();
    keys.sort();
    keys
}

#[test]
fn claims_expire_one_hour_after_issue() {
    let claims = claims_at(&example_assets(), Some(1700000000)).unwrap();
    assert_eq!(claims.iat, 1700000000);
    assert_eq!(claims.exp, 1700003600);
    assert_eq!(claims.exp - claims.iat, 3600);
    assert_eq!(claims.iss, "TEAM01");
    assert_eq!(claims.sub, "com.example.weather");
}

#[test]
fn claims_at_the_epoch() {
    let claims = claims_at(&example_assets(), Some(0)).unwrap();
    assert_eq!(claims.iat, 0);
    assert_eq!(claims.exp, 3600);
}

#[test]
fn claims_at_the_last_instant_that_fits() {
    let claims = claims_at(&example_assets(), Some(u64::MAX - 3600)).unwrap();
    assert_eq!(claims.exp, u64::MAX);
    assert_eq!(claims.exp - claims.iat, 3600);
}

#[test]
fn claims_past_the_range_are_a_clock_error() {
    assert_eq!(claims_at(&example_assets(), Some(u64::MAX - 3599)).unwrap_err(), TokenError::Clock);
    assert_eq!(claims_at(&example_assets(), Some(u64::MAX)).unwrap_err(), TokenError::Clock);
}

#[test]
fn a_clock_before_the_epoch_is_a_clock_error() {
    assert_eq!(claims_at(&example_assets(), None).unwrap_err(), TokenError::Clock);
    assert_eq!(token_at(&example_assets(), None).unwrap_err(), TokenError::Clock);
    assert_eq!(
        generate_token_at(&signing_assets(&fresh_key()), None).unwrap_err(),
        TokenError::Clock
    );
}

#[test]
fn a_token_for_loaded_assets_validates() {
    let key = fresh_key();
    let token = generate_token_for(&signing_assets(&key)).unwrap();
    assert_eq!(token.matches('.').count(), 2);
    assert!(verifies(&token, &key));
}

#[test]
fn claims_issued_now_last_one_hour() {
    let claims = get_claims(&example_assets()).unwrap();
    assert_eq!(claims.exp - claims.iat, 3600);
    assert!(claims.iat > 1_600_000_000);
    assert_eq!(claims.iss, "TEAM01");
    assert_eq!(claims.sub, "com.example.weather");
}

#[test]
fn header_is_derived_from_the_assets() {
    let header = header_for(&example_assets());
    assert_eq!(header.typ, "JWT");
    assert_eq!(header.alg, Algorithm::ES256);
    assert_eq!(header.kid, "ABC123");
    assert_eq!(header.id, "TEAM01.com.example.weather");
}

#[test]
fn the_algorithm_has_its_registered_name() {
    assert_eq!(Algorithm::ES256.name(), "ES256");
}

#[test]
fn header_new_keeps_its_arguments() {
    let header = Header::new("K", "T.S");
    assert_eq!(header.typ, "JWT");
    assert_eq!(header.alg, Algorithm::ES256);
    assert_eq!(header.kid, "K");
    assert_eq!(header.id, "T.S");
}

#[test]
fn token_parts_come_from_one_identity() {
    let token = token_at(&example_assets(), Some(1700000000)).unwrap();
    assert_eq!(token.header.kid, "ABC123");
    assert_eq!(token.header.id, "TEAM01.com.example.weather");
    assert_eq!(token.claims.iss, "TEAM01");
    assert_eq!(token.claims.sub, "com.example.weather");
    assert_eq!(token.claims.iat, 1700000000);
    assert_eq!(token.claims.exp, 1700003600);
    assert_eq!(token_at(&example_assets(), Some(u64::MAX)).unwrap_err(), TokenError::Clock);
}

#[test]
fn token_parts_issued_now() {
    let token = get_token(&example_assets()).unwrap();
    assert_eq!(token.header.kid, "ABC123");
    assert_eq!(token.claims.exp - token.claims.iat, 3600);
}

#[test]
fn header_json_is_exact() {
    let token = token_at(&example_assets(), Some(1700000000)).unwrap();
    assert_eq!(
        header_json(&token.header),
        "{\"typ\":\"JWT\",\"alg\":\"ES256\",\"kid\":\"ABC123\",\"id\":\"TEAM01.com.example.weather\"}"
    );
}

#[test]
fn claims_json_is_exact() {
    let token = token_at(&example_assets(), Some(1700000000)).unwrap();
    assert_eq!(
        claims_json(&token.claims),
        "{\"iss\":\"TEAM01\",\"iat\":1700000000,\"exp\":1700003600,\"sub\":\"com.example.weather\"}"
    );
}

#[test]
fn json_strings_are_escaped() {
    let header = Header::new("a\"b\\c", "line\nbreak");
    let json = header_json(&header);
    assert_eq!(
        json,
        "{\"typ\":\"JWT\",\"alg\":\"ES256\",\"kid\":\"a\\\"b\\\\c\",\"id\":\"line\\nbreak\"}"
    );
    let parsed: serde_json::Value = serde_json::from_str(&json).unwrap();
    assert_eq!(parsed["kid"], "a\"b\\c");
    assert_eq!(parsed["id"], "line\nbreak");
}

#[test]
fn segments_are_unpadded_base64url() {
    assert_eq!(encode_as_b64(""), "");
    assert_eq!(encode_as_b64("f"), "Zg");
    assert_eq!(encode_as_b64("fo"), "Zm8");
    assert_eq!(encode_as_b64("foo"), "Zm9v");
    assert_eq!(encode_as_b64("[1,2]"), "WzEsMl0");
    assert_eq!(encode_as_b64("???"), "Pz8_");
    assert_eq!(encode_as_b64("~~~"), "fn5-");
}

#[test]
fn signing_input_holds_two_objects() {
    let token = token_at(&example_assets(), Some(1700000000)).unwrap();
    let input = signing_input(&token);
    let segments: Vec<&str> = input.split('.').collect();
    assert_eq!(segments.len(), 2);
    assert_eq!(segments[0], encode_as_b64(&header_json(&token.header)));
    assert_eq!(segments[1], encode_as_b64(&claims_json(&token.claims)));
    let header = decode_segment(segments[0]);
    let claims = decode_segment(segments[1]);
    assert_eq!(object_keys(&header), vec!["alg", "id", "kid", "typ"]);
    assert_eq!(object_keys(&claims), vec!["exp", "iat", "iss", "sub"]);
}

#[test]
fn scenario_token_validates() {
    let key = fresh_key();
    let token = generate_token_at(&signing_assets(&key), Some(1700000000)).unwrap();
    let segments: Vec<&str> = token.split('.').collect();
    assert_eq!(segments.len(), 3);
    assert_eq!(token.matches('.').count(), 2);
    for segment in &segments {
        assert!(!segment.is_empty());
        assert!(!segment.contains('='));
    }

    let header = decode_segment(segments[0]);
    let expected_header: serde_json::Value = serde_json::from_str(
        "{\"typ\":\"JWT\",\"alg\":\"ES256\",\"kid\":\"ABC123\",\"id\":\"TEAM01.com.example.weather\"}",
    )
    .unwrap();
    assert_eq!(header, expected_header);

    let claims = decode_segment(segments[1]);
    let expected_claims: serde_json::Value = serde_json::from_str(
        "{\"iss\":\"TEAM01\",\"iat\":1700000000,\"exp\":1700003600,\"sub\":\"com.example.weather\"}",
    )
    .unwrap();
    assert_eq!(claims, expected_claims);

    let signature =
        base64::prelude::BASE64_URL_SAFE_NO_PAD.decode(segments[2]).unwrap();
    assert_eq!(signature.len(), 64);
    assert!(verifies(&token, &key));
}

#[test]
fn a_changed_token_does_not_validate() {
    let key = fresh_key();
    let token = generate_token_at(&signing_assets(&key), Some(1700000000)).unwrap();
    let other = generate_token_at(&signing_assets(&key), Some(1700000001)).unwrap();
    let signature = &token[token.rfind('.').unwrap()..];
    let forged = format!("{}{}", &other[..other.rfind('.').unwrap()], signature);
    assert!(verifies(&other, &key));
    assert!(!verifies(&forged, &key));
    assert!(!verifies(&other, &fresh_key()));
}

#[test]
fn sign_appends_a_valid_signature() {
    let key = fresh_key();
    let token = sign("aGVhZGVy.Y2xhaW1z", &key.private_pem, Algorithm::ES256).unwrap();
    assert!(token.starts_with("aGVhZGVy.Y2xhaW1z."));
    assert_eq!(token.matches('.').count(), 2);
    assert!(verifies(&token, &key));
}

#[test]
fn sign_refuses_what_is_no_key() {
    assert_eq!(
        sign("a.b", b"not a key", Algorithm::ES256).unwrap_err(),
        TokenError::KeyParse
    );
    assert_eq!(sign("a.b", b"", Algorithm::ES256).unwrap_err(), TokenError::KeyParse);
    assert_eq!(
        sign("a.b", &public_pem(&fresh_key()), Algorithm::ES256).unwrap_err(),
        TokenError::KeyParse
    );
}

#[test]
fn sign_refuses_a_key_on_another_curve() {
    assert_eq!(
        sign("a.b", &other_curve_key(), Algorithm::ES256).unwrap_err(),
        TokenError::KeyParse
    );
}

#[test]
fn finish_token_maps_each_outcome() {
    assert_eq!(
        finish_token("head.claims", SignOutcome::Signed("c2ln".to_owned())).unwrap(),
        "head.claims.c2ln"
    );
    assert_eq!(
        finish_token("head.claims", SignOutcome::KeyRejected).unwrap_err(),
        TokenError::KeyParse
    );
    assert_eq!(
        finish_token("head.claims", SignOutcome::Failed).unwrap_err(),
        TokenError::Signing
    );
}

#[test]
fn generation_with_a_bad_key_gives_no_token() {
    let assets =
        SigningAssets { identity: example_assets(), private_key: b"garbage".to_vec() };
    assert_eq!(generate_token_at(&assets, Some(1700000000)).unwrap_err(), TokenError::KeyParse);
    assert_eq!(generate_token_at(&assets, Some(u64::MAX)).unwrap_err(), TokenError::Clock);
}

#[test]
fn identity_document_is_read() {
    let assets = get_token_assets(Some(IDENTITY.as_bytes().to_vec())).unwrap();
    assert_eq!(assets.key_id, "ABC123");
    let assets = parse_token_assets(IDENTITY.as_bytes()).unwrap();
    assert_eq!(assets.key_id, "ABC123");
    assert_eq!(assets.service_id, "com.example.weather");
    assert_eq!(assets.team_id, "TEAM01");
}

#[test]
fn identity_document_may_hold_more() {
    let assets = parse_token_assets(
        b"{ \"team_id\": \"T\", \"note\": 7, \"key_id\": \"K\", \"service_id\": \"S\" }",
    )
    .unwrap();
    assert_eq!(assets.key_id, "K");
    assert_eq!(assets.service_id, "S");
    assert_eq!(assets.team_id, "T");
}

#[test]
fn malformed_identity_is_a_parse_error() {
    let cases: [&[u8]; 8] = [
        b"",
        b"not json",
        b"{\"key_id\":\"ABC123\",\"service_id\":\"com.example.weather\"}",
        b"{\"key_id\":\"ABC123\",\"team_id\":\"TEAM01\"}",
        b"{\"service_id\":\"com.example.weather\",\"team_id\":\"TEAM01\"}",
        b"{\"key_id\":1,\"service_id\":\"s\",\"team_id\":\"t\"}",
        b"[\"ABC123\"]",
        b"{\"key_id\":\"ABC123\",\"service_id\":\"s\",\"team_id\":\"t\"",
    ];
    for document in cases {
        assert_eq!(parse_token_assets(document).unwrap_err(), TokenError::AssetParse);
        assert_eq!(
            get_token_assets(Some(document.to_vec())).unwrap_err(),
            TokenError::AssetParse
        );
    }
}

#[test]
fn corrupted_identity_bytes_are_a_parse_error() {
    let mut bytes = IDENTITY.as_bytes().to_vec();
    for byte in bytes.iter_mut() {
        *byte ^= 0x5a;
    }
    assert_eq!(parse_token_assets(&bytes).unwrap_err(), TokenError::AssetParse);
    assert_eq!(get_token_assets(Some(bytes.clone())).unwrap_err(), TokenError::AssetParse);
    assert_eq!(
        generate_token(Some(bytes), Some(fresh_key().private_pem)).unwrap_err(),
        TokenError::AssetParse
    );
}

#[test]
fn load_assets_reads_both_blobs() {
    let key = fresh_key();
    let assets =
        load_assets(Some(IDENTITY.as_bytes().to_vec()), Some(key.private_pem.clone())).unwrap();
    assert_eq!(assets.identity.key_id, "ABC123");
    assert_eq!(assets.identity.team_id, "TEAM01");
    assert_eq!(assets.identity.service_id, "com.example.weather");
    assert_eq!(assets.private_key, key.private_pem);
}

#[test]
fn undecrypted_blobs_are_a_decryption_error() {
    let identity = || Some(IDENTITY.as_bytes().to_vec());
    let key = || Some(fresh_key().private_pem);
    assert_eq!(load_assets(None, key()).unwrap_err(), TokenError::AssetDecryption);
    assert_eq!(load_assets(identity(), None).unwrap_err(), TokenError::AssetDecryption);
    assert_eq!(load_assets(None, None).unwrap_err(), TokenError::AssetDecryption);
    assert_eq!(
        load_assets(Some(b"junk".to_vec()), None).unwrap_err(),
        TokenError::AssetDecryption
    );
    assert_eq!(load_assets(Some(b"junk".to_vec()), key()).unwrap_err(), TokenError::AssetParse);
    assert_eq!(generate_token(None, key()).unwrap_err(), TokenError::AssetDecryption);
    assert_eq!(generate_token(identity(), None).unwrap_err(), TokenError::AssetDecryption);
}

#[test]
fn generated_token_validates() {
    let key = fresh_key();
    let token =
        generate_token(Some(IDENTITY.as_bytes().to_vec()), Some(key.private_pem.clone()))
            .unwrap();
    let segments: Vec<&str> = token.split('.').collect();
    assert_eq!(segments.len(), 3);
    let header = decode_segment(segments[0]);
    let claims = decode_segment(segments[1]);
    assert_eq!(object_keys(&header), vec!["alg", "id", "kid", "typ"]);
    assert_eq!(object_keys(&claims), vec!["exp", "iat", "iss", "sub"]);
    assert_eq!(header["typ"], "JWT");
    assert_eq!(header["alg"], "ES256");
    assert_eq!(header["kid"], "ABC123");
    assert_eq!(header["id"], "TEAM01.com.example.weather");
    assert_eq!(claims["iss"], "TEAM01");
    assert_eq!(claims["sub"], "com.example.weather");
    assert_eq!(claims["exp"].as_u64().unwrap() - claims["iat"].as_u64().unwrap(), 3600);
    assert!(verifies(&token, &key));
}

#[test]
fn generation_with_a_corrupted_key_gives_no_token() {
    let mut key = fresh_key().private_pem;
    for byte in key.iter_mut() {
        *byte ^= 0x5a;
    }
    assert_eq!(
        generate_token(Some(IDENTITY.as_bytes().to_vec()), Some(key)).unwrap_err(),
        TokenError::KeyParse
    );
}

#[test]
fn objects_are_written_member_by_member() {
    assert_eq!(
        header_object("\"JWT\"", "\"ES256\"", "\"K\"", "\"T.S\""),
        "{\"typ\":\"JWT\",\"alg\":\"ES256\",\"kid\":\"K\",\"id\":\"T.S\"}"
    );
    assert_eq!(
        claims_object("\"T\"", 0, 3600, "\"S\""),
        "{\"iss\":\"T\",\"iat\":0,\"exp\":3600,\"sub\":\"S\"}"
    );
    assert_eq!(
        claims_object("\"T\"", 1700000000, u64::MAX, "\"S\""),
        "{\"iss\":\"T\",\"iat\":1700000000,\"exp\":18446744073709551615,\"sub\":\"S\"}"
    );
}

#[test]
fn segments_are_joined_by_one_dot() {
    assert_eq!(join_segments("aGVh", "Y2xh"), "aGVh.Y2xh");
    assert_eq!(join_segments("", ""), ".");
}

#[test]
fn an_identity_needs_all_three_members() {
    let text = |s: &str| Some(s.to_owned());
    let assets = assets_from_members(text("K"), text("S"), text("T")).unwrap();
    assert_eq!(assets.key_id, "K");
    assert_eq!(assets.service_id, "S");
    assert_eq!(assets.team_id, "T");
    assert_eq!(
        assets_from_members(None, text("S"), text("T")).unwrap_err(),
        TokenError::AssetParse
    );
    assert_eq!(
        assets_from_members(text("K"), None, text("T")).unwrap_err(),
        TokenError::AssetParse
    );
    assert_eq!(
        assets_from_members(text("K"), text("S"), None).unwrap_err(),
        TokenError::AssetParse
    );
    assert_eq!(assets_from_members(None, None, None).unwrap_err(), TokenError::AssetParse);
}

#[test]
fn a_token_lives_one_hour() {
    assert_eq!(ONE_HOUR, 3600);
}

#[test]
fn an_identity_blob_that_was_not_decrypted_is_not_parsed() {
    assert_eq!(get_token_assets(None).unwrap_err(), TokenError::AssetDecryption);
}

#[test]
fn a_refused_key_gives_no_token() {
    let identity = || Some(IDENTITY.as_bytes().to_vec());
    let refused: [Vec<u8>; 3] = [Vec::new(), b"not a key".to_vec(), public_pem(&fresh_key())];
    for key in refused {
        assert_eq!(generate_token(identity(), Some(key.clone())).unwrap_err(), TokenError::KeyParse);
        let assets = SigningAssets { identity: example_assets(), private_key: key };
        assert_eq!(generate_token_for(&assets).unwrap_err(), TokenError::KeyParse);
        assert_eq!(
            generate_token_at(&assets, Some(1700000000)).unwrap_err(),
            TokenError::KeyParse
        );
        assert_eq!(generate_token_at(&assets, None).unwrap_err(), TokenError::Clock);
    }
    let other_curve = SigningAssets { identity: example_assets(), private_key: other_curve_key() };
    assert_eq!(generate_token_for(&other_curve).unwrap_err(), TokenError::KeyParse);
}

#[test]
fn every_segment_is_base64url_text_and_not_empty() {
    let key = fresh_key();
    let token = generate_token_at(&signing_assets(&key), Some(1700000000)).unwrap();
    let segments: Vec<&str> = token.split('.').collect();
    assert_eq!(segments.len(), 3);
    for segment in &segments {
        assert!(!segment.is_empty());
        assert!(segment
            .chars()
            .all(|c| c.is_ascii_alphanumeric() || c == '-' || c == '_'));
    }
    assert_eq!(segments[2].len(), 86);
    let header = header_json(&header_for(&example_assets()));
    assert_eq!(segments[0].len(), (4 * header.len() + 2) / 3);
}

#[test]
fn segment_lengths_follow_the_bytes() {
    assert_eq!(encode_as_b64("").len(), 0);
    assert_eq!(encode_as_b64("a").len(), 2);
    assert_eq!(encode_as_b64("ab").len(), 3);
    assert_eq!(encode_as_b64("abc").len(), 4);
    assert_eq!(encode_as_b64("abcd").len(), 6);
    assert_eq!(encode_as_b64("º").len(), 3);
    let long = "x".repeat(1000);
    assert_eq!(encode_as_b64(&long).len(), 1334);
}
