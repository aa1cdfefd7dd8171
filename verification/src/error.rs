//! The closed error taxonomy of document resolution. Every failure in the
//! resolution pipeline is terminal and reported as one of these variants.

use vstd::prelude::*;

verus! {

/// Errors of resolving an identifier to a verifying key. Each variant
/// carries enough context to be actionable: a wrapped underlying message,
/// or the absolute key that was looked for.
#[derive(Debug, Clone)]
pub enum DecentralizedIdentifierError {
    /// The fetch collaborator reported an error, or the fetched bytes
    /// could not be decoded into a document; carries the detail message.
    ResolutionError(String),
    /// The fetch produced no document and reported no error.
    EmptyDocument,
    /// The document has no `assertionMethod` sequence.
    MissingAssertionMethods,
    /// The `assertionMethod` sequence holds no reference equal to the
    /// absolute key carried here.
    MissingAssertionMethod(String),
    /// The document has no `verificationMethod` sequence.
    MissingVerificationMethods,
    /// No inline `verificationMethod` entry has an id equal to the
    /// absolute key carried here.
    MissingVerificationMethod(String),
    /// The matching entry's type is not `JsonWebKey2020`.
    NotJsonWebKey2020,
    /// The matching entry carries no `publicKeyJwk`.
    MissingJWK,
    /// The JWK is not the elliptic-curve variant.
    JWKNotEllipticCurve,
    /// The JWK has no x coordinate.
    JWKMissingX,
    /// The JWK has no y coordinate.
    JWKMissingY,
    /// The JWK's curve is not `P-256`.
    JWKWrongCurve,
    /// The coordinates do not form a valid P-256 curve point.
    InvalidJWK,
}

impl PartialEq for DecentralizedIdentifierError {
    fn eq(&self, other: &Self) -> (r: bool) {
        match (self, other) {
            (Self::ResolutionError(a), Self::ResolutionError(b)) => crate::strutil::str_eq(a.as_str(), b.as_str()),
            (Self::EmptyDocument, Self::EmptyDocument) => true,
            (Self::MissingAssertionMethods, Self::MissingAssertionMethods) => true,
            (Self::MissingAssertionMethod(a), Self::MissingAssertionMethod(b)) => crate::strutil::str_eq(a.as_str(), b.as_str()),
            (Self::MissingVerificationMethods, Self::MissingVerificationMethods) => true,
            (Self::MissingVerificationMethod(a), Self::MissingVerificationMethod(b)) => crate::strutil::str_eq(a.as_str(), b.as_str()),
            (Self::NotJsonWebKey2020, Self::NotJsonWebKey2020) => true,
            (Self::MissingJWK, Self::MissingJWK) => true,
            (Self::JWKNotEllipticCurve, Self::JWKNotEllipticCurve) => true,
            (Self::JWKMissingX, Self::JWKMissingX) => true,
            (Self::JWKMissingY, Self::JWKMissingY) => true,
            (Self::JWKWrongCurve, Self::JWKWrongCurve) => true,
            (Self::InvalidJWK, Self::InvalidJWK) => true,
            _ => false,
        }
    }
}

impl vstd::std_specs::cmp::PartialEqSpecImpl for DecentralizedIdentifierError {
    open spec fn obeys_eq_spec() -> bool {
        true
    }

    open spec fn eq_spec(&self, other: &Self) -> bool {
        match (self, other) {
            (Self::ResolutionError(a), Self::ResolutionError(b)) => a@ == b@,
            (Self::EmptyDocument, Self::EmptyDocument) => true,
            (Self::MissingAssertionMethods, Self::MissingAssertionMethods) => true,
            (Self::MissingAssertionMethod(a), Self::MissingAssertionMethod(b)) => a@ == b@,
            (Self::MissingVerificationMethods, Self::MissingVerificationMethods) => true,
            (Self::MissingVerificationMethod(a), Self::MissingVerificationMethod(b)) => a@ == b@,
            (Self::NotJsonWebKey2020, Self::NotJsonWebKey2020) => true,
            (Self::MissingJWK, Self::MissingJWK) => true,
            (Self::JWKNotEllipticCurve, Self::JWKNotEllipticCurve) => true,
            (Self::JWKMissingX, Self::JWKMissingX) => true,
            (Self::JWKMissingY, Self::JWKMissingY) => true,
            (Self::JWKWrongCurve, Self::JWKWrongCurve) => true,
            (Self::InvalidJWK, Self::InvalidJWK) => true,
            _ => false,
        }
    }
}

} // verus!
