//! End-to-end tests of document resolution against concrete JSON documents.

use nzcp::document::ResolutionMetadata;
use nzcp::error::DecentralizedIdentifierError;
use nzcp::identifier::DecentralizedIdentifier;
use nzcp::resolve::DocumentOutcome;

fn x_b64() -> &'static str {
    "axfR8uEsQkf4vOblY6RA8ncDfYEt6zOg9KE5RdiYwpY"
}

fn y_b64() -> &'static str {
    "T-NC4v4af5uO5-tKfA-eFivOM1drMV7Oy7ZAaDe_UfU"
}

fn x_bytes() -> Vec<u8> {
    vec![
        107, 23, 209, 242, 225, 44, 66, 71, 248, 188, 230, 229, 99, 164, 64, 242, 119, 3, 125,
        129, 45, 235, 51, 160, 244, 161, 57, 69, 216, 152, 194, 150,
    ]
}

fn y_bytes() -> Vec<u8> {
    vec![
        79, 227, 66, 226, 254, 26, 127, 155, 142, 231, 235, 74, 124, 15, 158, 22, 43, 206, 51,
        87, 107, 49, 94, 206, 203, 182, 64, 104, 55, 191, 81, 245,
    ]
}

fn good_document() -> String {
    format!(
        r#"{{"@context":"https://www.w3.org/ns/did/v1",
            "assertionMethod":["did:web:example.com#key-1"],
            "verificationMethod":[{{"id":"did:web:example.com#key-1",
                "type":"JsonWebKey2020",
                "publicKeyJwk":{{"kty":"EC","crv":"P-256","x":"{}","y":"{}"}}}}]}}"#,
        x_b64(),
        y_b64()
    )
}

fn resolve_with(
    doc: &str,
    kid: &str,
    error: Option<String>,
) -> Result<nzcp::crypto::VerifyingKey, DecentralizedIdentifierError> {
    let id = DecentralizedIdentifier::parse("did:web:example.com").unwrap();
    id.resolve_verifying_key(kid, &ResolutionMetadata { error }, &doc.as_bytes().to_vec())
}

fn resolve(
    doc: &str,
    kid: &str,
) -> Result<nzcp::crypto::VerifyingKey, DecentralizedIdentifierError> {
    resolve_with(doc, kid, None)
}

#[test]
fn empty_bytes_and_no_error_is_empty_document() {
    let id = DecentralizedIdentifier::parse("did:web:example.com").unwrap();
    let r = id.resolve_verifying_key("key-1", &ResolutionMetadata { error: None }, &Vec::new());
    assert_eq!(r.unwrap_err(), DecentralizedIdentifierError::EmptyDocument);
}

#[test]
fn metadata_error_takes_precedence() {
    let r = resolve_with(&good_document(), "key-1", Some("resolver failed".to_string()));
    assert_eq!(
        r.unwrap_err(),
        DecentralizedIdentifierError::ResolutionError("resolver failed".to_string())
    );
}

#[test]
fn metadata_error_with_empty_bytes() {
    let id = DecentralizedIdentifier::parse("did:web:example.com").unwrap();
    let r = id.resolve_verifying_key(
        "key-1",
        &ResolutionMetadata { error: Some("no such domain".to_string()) },
        &Vec::new(),
    );
    assert_eq!(
        r.unwrap_err(),
        DecentralizedIdentifierError::ResolutionError("no such domain".to_string())
    );
}

#[test]
fn malformed_json_is_resolution_error() {
    let r = resolve("{\"@context\": ", "key-1");
    assert!(matches!(
        r.unwrap_err(),
        DecentralizedIdentifierError::ResolutionError(_)
    ));
}

#[test]
fn context_missing_degrades_to_empty_document() {
    let r = resolve(r#"{"assertionMethod":["did:web:example.com#key-1"]}"#, "key-1");
    assert_eq!(r.unwrap_err(), DecentralizedIdentifierError::EmptyDocument);
}

#[test]
fn context_non_string_degrades_to_empty_document() {
    let r = resolve(
        r#"{"@context":["https://www.w3.org/ns/did/v1"],"assertionMethod":[]}"#,
        "key-1",
    );
    assert_eq!(r.unwrap_err(), DecentralizedIdentifierError::EmptyDocument);
}

#[test]
fn missing_assertion_methods_variant() {
    let r = resolve(r#"{"@context":"https://www.w3.org/ns/did/v1"}"#, "key-1");
    assert_eq!(r.unwrap_err(), DecentralizedIdentifierError::MissingAssertionMethods);
}

#[test]
fn missing_assertion_method_names_key() {
    let doc = format!(
        r#"{{"@context":"https://www.w3.org/ns/did/v1",
            "assertionMethod":["did:web:example.com#other"],
            "verificationMethod":[{{"id":"did:web:example.com#key-1",
                "type":"JsonWebKey2020",
                "publicKeyJwk":{{"kty":"EC","crv":"P-256","x":"{}","y":"{}"}}}}]}}"#,
        x_b64(),
        y_b64()
    );
    let r = resolve(&doc, "key-1");
    assert_eq!(
        r.unwrap_err(),
        DecentralizedIdentifierError::MissingAssertionMethod(
            "did:web:example.com#key-1".to_string()
        )
    );
}

#[test]
fn assertion_method_inline_map_matches() {
    let doc = format!(
        r#"{{"@context":"https://www.w3.org/ns/did/v1",
            "assertionMethod":[{{"id":"did:web:example.com#key-1","type":"JsonWebKey2020"}}],
            "verificationMethod":[{{"id":"did:web:example.com#key-1",
                "type":"JsonWebKey2020",
                "publicKeyJwk":{{"kty":"EC","crv":"P-256","x":"{}","y":"{}"}}}}]}}"#,
        x_b64(),
        y_b64()
    );
    assert!(resolve(&doc, "key-1").is_ok());
}

#[test]
fn missing_verification_methods_variant() {
    let r = resolve(
        r#"{"@context":"https://www.w3.org/ns/did/v1",
            "assertionMethod":["did:web:example.com#key-1"]}"#,
        "key-1",
    );
    assert_eq!(r.unwrap_err(), DecentralizedIdentifierError::MissingVerificationMethods);
}

#[test]
fn missing_verification_method_names_key() {
    let doc = format!(
        r#"{{"@context":"https://www.w3.org/ns/did/v1",
            "assertionMethod":["did:web:example.com#key-1"],
            "verificationMethod":[{{"id":"did:web:example.com#other",
                "type":"JsonWebKey2020",
                "publicKeyJwk":{{"kty":"EC","crv":"P-256","x":"{}","y":"{}"}}}}]}}"#,
        x_b64(),
        y_b64()
    );
    let r = resolve(&doc, "key-1");
    assert_eq!(
        r.unwrap_err(),
        DecentralizedIdentifierError::MissingVerificationMethod(
            "did:web:example.com#key-1".to_string()
        )
    );
}

#[test]
fn verification_method_bare_reference_is_skipped() {
    let r = resolve(
        r#"{"@context":"https://www.w3.org/ns/did/v1",
            "assertionMethod":["did:web:example.com#key-1"],
            "verificationMethod":["did:web:example.com#key-1"]}"#,
        "key-1",
    );
    assert_eq!(
        r.unwrap_err(),
        DecentralizedIdentifierError::MissingVerificationMethod(
            "did:web:example.com#key-1".to_string()
        )
    );
}

#[test]
fn not_json_web_key_2020() {
    let doc = format!(
        r#"{{"@context":"https://www.w3.org/ns/did/v1",
            "assertionMethod":["did:web:example.com#key-1"],
            "verificationMethod":[{{"id":"did:web:example.com#key-1",
                "type":"Ed25519VerificationKey2018",
                "publicKeyJwk":{{"kty":"EC","crv":"P-256","x":"{}","y":"{}"}}}}]}}"#,
        x_b64(),
        y_b64()
    );
    let r = resolve(&doc, "key-1");
    assert_eq!(r.unwrap_err(), DecentralizedIdentifierError::NotJsonWebKey2020);
}

#[test]
fn missing_jwk_variant() {
    let r = resolve(
        r#"{"@context":"https://www.w3.org/ns/did/v1",
            "assertionMethod":["did:web:example.com#key-1"],
            "verificationMethod":[{"id":"did:web:example.com#key-1",
                "type":"JsonWebKey2020"}]}"#,
        "key-1",
    );
    assert_eq!(r.unwrap_err(), DecentralizedIdentifierError::MissingJWK);
}

#[test]
fn non_elliptic_curve_jwk_rejected() {
    let doc = format!(
        r#"{{"@context":"https://www.w3.org/ns/did/v1",
            "assertionMethod":["did:web:example.com#key-1"],
            "verificationMethod":[{{"id":"did:web:example.com#key-1",
                "type":"JsonWebKey2020",
                "publicKeyJwk":{{"kty":"OKP","crv":"P-256","x":"{}","y":"{}"}}}}]}}"#,
        x_b64(),
        y_b64()
    );
    let r = resolve(&doc, "key-1");
    assert_eq!(r.unwrap_err(), DecentralizedIdentifierError::JWKNotEllipticCurve);
}

#[test]
fn wrong_curve_p384() {
    let doc = format!(
        r#"{{"@context":"https://www.w3.org/ns/did/v1",
            "assertionMethod":["did:web:example.com#key-1"],
            "verificationMethod":[{{"id":"did:web:example.com#key-1",
                "type":"JsonWebKey2020",
                "publicKeyJwk":{{"kty":"EC","crv":"P-384","x":"{}","y":"{}"}}}}]}}"#,
        x_b64(),
        y_b64()
    );
    let r = resolve(&doc, "key-1");
    assert_eq!(r.unwrap_err(), DecentralizedIdentifierError::JWKWrongCurve);
}

#[test]
fn absent_curve_rejected() {
    let doc = format!(
        r#"{{"@context":"https://www.w3.org/ns/did/v1",
            "assertionMethod":["did:web:example.com#key-1"],
            "verificationMethod":[{{"id":"did:web:example.com#key-1",
                "type":"JsonWebKey2020",
                "publicKeyJwk":{{"kty":"EC","x":"{}","y":"{}"}}}}]}}"#,
        x_b64(),
        y_b64()
    );
    let r = resolve(&doc, "key-1");
    assert_eq!(r.unwrap_err(), DecentralizedIdentifierError::JWKWrongCurve);
}

#[test]
fn missing_x_variant() {
    let doc = format!(
        r#"{{"@context":"https://www.w3.org/ns/did/v1",
            "assertionMethod":["did:web:example.com#key-1"],
            "verificationMethod":[{{"id":"did:web:example.com#key-1",
                "type":"JsonWebKey2020",
                "publicKeyJwk":{{"kty":"EC","crv":"P-256","y":"{}"}}}}]}}"#,
        y_b64()
    );
    let r = resolve(&doc, "key-1");
    assert_eq!(r.unwrap_err(), DecentralizedIdentifierError::JWKMissingX);
}

#[test]
fn missing_y_variant() {
    let doc = format!(
        r#"{{"@context":"https://www.w3.org/ns/did/v1",
            "assertionMethod":["did:web:example.com#key-1"],
            "verificationMethod":[{{"id":"did:web:example.com#key-1",
                "type":"JsonWebKey2020",
                "publicKeyJwk":{{"kty":"EC","crv":"P-256","x":"{}"}}}}]}}"#,
        x_b64()
    );
    let r = resolve(&doc, "key-1");
    assert_eq!(r.unwrap_err(), DecentralizedIdentifierError::JWKMissingY);
}

#[test]
fn wrong_length_coordinate_is_invalid_jwk() {
    let doc = format!(
        r#"{{"@context":"https://www.w3.org/ns/did/v1",
            "assertionMethod":["did:web:example.com#key-1"],
            "verificationMethod":[{{"id":"did:web:example.com#key-1",
                "type":"JsonWebKey2020",
                "publicKeyJwk":{{"kty":"EC","crv":"P-256",
                    "x":"axfR8uEsQkf4vOblY6RA8ncDfYEt6zOg9KE5RdiYwg","y":"{}"}}}}]}}"#,
        y_b64()
    );
    let r = resolve(&doc, "key-1");
    assert_eq!(r.unwrap_err(), DecentralizedIdentifierError::InvalidJWK);
}

#[test]
fn off_curve_point_is_invalid_jwk() {
    let doc = format!(
        r#"{{"@context":"https://www.w3.org/ns/did/v1",
            "assertionMethod":["did:web:example.com#key-1"],
            "verificationMethod":[{{"id":"did:web:example.com#key-1",
                "type":"JsonWebKey2020",
                "publicKeyJwk":{{"kty":"EC","crv":"P-256","x":"{}","y":"{}"}}}}]}}"#,
        x_b64(),
        x_b64()
    );
    let r = resolve(&doc, "key-1");
    assert_eq!(r.unwrap_err(), DecentralizedIdentifierError::InvalidJWK);
}

#[test]
fn resolved_key_matches_direct_reconstruction() {
    let got = resolve(&good_document(), "key-1").unwrap();
    let x = x_bytes();
    let y = y_bytes();
    let point = p256::EncodedPoint::from_affine_coordinates(
        p256::elliptic_curve::generic_array::GenericArray::from_slice(&x),
        p256::elliptic_curve::generic_array::GenericArray::from_slice(&y),
        false,
    );
    let expected = p256::ecdsa::VerifyingKey::from_encoded_point(&point).unwrap();
    assert_eq!(
        got.to_sec1_bytes(),
        expected.to_encoded_point(false).as_bytes().to_vec()
    );
}

#[test]
fn end_to_end_example_document() {
    let doc = format!(
        r#"{{"@context":"https://w3id.org/did/v1",
            "assertionMethod":["did:web:example.com#key-1"],
            "verificationMethod":[{{"id":"did:web:example.com#key-1",
                "type":"JsonWebKey2020",
                "publicKeyJwk":{{"kty":"EC","crv":"P-256","x":"{}","y":"{}"}}}}]}}"#,
        x_b64(),
        y_b64()
    );
    let got = resolve(&doc, "key-1").unwrap();
    let x = x_bytes();
    let y = y_bytes();
    let point = p256::EncodedPoint::from_affine_coordinates(
        p256::elliptic_curve::generic_array::GenericArray::from_slice(&x),
        p256::elliptic_curve::generic_array::GenericArray::from_slice(&y),
        false,
    );
    let expected = p256::ecdsa::VerifyingKey::from_encoded_point(&point).unwrap();
    assert_eq!(
        got.to_sec1_bytes(),
        expected.to_encoded_point(false).as_bytes().to_vec()
    );
}

#[test]
fn decode_stages_are_separately_visible() {
    let absent = nzcp::resolve::decode_document(&Vec::new());
    assert!(matches!(absent, DocumentOutcome::Absent));
    let present = nzcp::resolve::decode_document(&good_document().as_bytes().to_vec());
    assert!(matches!(present, DocumentOutcome::Present(_)));
    let malformed = nzcp::resolve::decode_document(&b"not json".to_vec());
    assert!(matches!(malformed, DocumentOutcome::Malformed(_)));
}

#[test]
fn assertion_method_not_array_is_resolution_error() {
    let r = resolve(
        r#"{"@context":"https://www.w3.org/ns/did/v1","assertionMethod":"did:web:example.com#key-1"}"#,
        "key-1",
    );
    assert!(matches!(
        r.unwrap_err(),
        DecentralizedIdentifierError::ResolutionError(_)
    ));
}

#[test]
fn entry_without_id_is_resolution_error() {
    let r = resolve(
        r#"{"@context":"https://www.w3.org/ns/did/v1",
            "assertionMethod":["did:web:example.com#key-1"],
            "verificationMethod":[{"type":"JsonWebKey2020"}]}"#,
        "key-1",
    );
    assert!(matches!(
        r.unwrap_err(),
        DecentralizedIdentifierError::ResolutionError(_)
    ));
}

#[test]
fn decode_failure_wins_over_metadata_error() {
    let r = resolve_with("not json at all", "key-1", Some("resolver failed".to_string()));
    match r.unwrap_err() {
        DecentralizedIdentifierError::ResolutionError(m) => assert_ne!(m, "resolver failed"),
        other => panic!("expected a resolution error, got {:?}", other),
    }
}

#[test]
fn unknown_key_type_is_resolution_error() {
    let doc = format!(
        r#"{{"@context":"https://www.w3.org/ns/did/v1",
            "assertionMethod":["did:web:example.com#key-1"],
            "verificationMethod":[{{"id":"did:web:example.com#key-1",
                "type":"JsonWebKey2020",
                "publicKeyJwk":{{"kty":"QKD","crv":"P-256","x":"{}","y":"{}"}}}}]}}"#,
        x_b64(),
        y_b64()
    );
    let r = resolve(&doc, "key-1");
    assert!(matches!(
        r.unwrap_err(),
        DecentralizedIdentifierError::ResolutionError(_)
    ));
}
