//! Trusted boundary to the p256 crate: reconstruction of a P-256
//! verifying key from affine coordinates.

use vstd::prelude::*;

verus! {

/// An opaque, validated P-256 public-key point, the artifact that
/// resolution hands to the caller for signature verification. The struct
/// hides p256's key type from the verifier; the functions below are the
/// only window into it.
#[verifier::external_body]
#[derive(Debug)]
pub struct VerifyingKey {
    inner: p256::ecdsa::VerifyingKey,
}

/// Whether p256 accepts the uncompressed point with these affine
/// coordinates (32 bytes each) as a valid public key on the P-256 curve.
pub uninterp spec fn p256_point_valid(x: Seq<u8>, y: Seq<u8>) -> bool;

/// The uncompressed SEC1 encoding of the key's point, as p256 renders it.
pub uninterp spec fn sec1_bytes_of(k: VerifyingKey) -> Seq<u8>;

/// Relies on p256's `EncodedPoint::from_affine_coordinates`, which builds
/// the uncompressed SEC1 encoding `0x04 ++ x ++ y` of the point and panics
/// unless each coordinate is exactly 32 bytes, and on
/// `VerifyingKey::from_encoded_point`, which succeeds exactly when that
/// encoding is a valid curve point and keeps the point unchanged; both
/// outcomes depend on the coordinates alone. A key decoded from canonical
/// coordinates re-encodes to the same bytes.
#[verifier::external_body]
pub(crate) fn p256_key_from_coordinates(x: &[u8], y: &[u8]) -> (r: Option<VerifyingKey>)
    requires
        x@.len() == 32,
        y@.len() == 32,
    ensures
        r is Some <==> p256_point_valid(x@, y@),
        r matches Some(k) ==> sec1_bytes_of(k) == seq![4u8] + x@ + y@,
{
    let point = p256::EncodedPoint::from_affine_coordinates(
        p256::elliptic_curve::generic_array::GenericArray::from_slice(x),
        p256::elliptic_curve::generic_array::GenericArray::from_slice(y),
        false,
    );
    match p256::ecdsa::VerifyingKey::from_encoded_point(&point) {
        Ok(inner) => Some(VerifyingKey { inner }),
        Err(_) => None,
    }
}

impl VerifyingKey {
    /// Relies on p256's `VerifyingKey::to_encoded_point`: the uncompressed
    /// SEC1 encoding of the point, for callers that compare or re-import
    /// the key through p256.
    #[verifier::external_body]
    pub fn to_sec1_bytes(&self) -> (r: Vec<u8>)
        ensures
            r@ == sec1_bytes_of(*self),
    {
        self.inner.to_encoded_point(false).as_bytes().to_vec()
    }
}

} // verus!
