//! The subset of an issuer's DID document that resolution consumes, and
//! the authorization-linkage validation that turns a document into a
//! verifying key. Each executable type has a view over plain sequences,
//! so that the validation verdict can be stated of documents that exist
//! only in specifications (such as the decoding of a byte sequence).

use vstd::prelude::*;

use crate::crypto::{p256_key_from_coordinates, p256_point_valid, sec1_bytes_of, VerifyingKey};
use crate::error::DecentralizedIdentifierError;
use crate::strutil::str_eq;

verus! {

/// Transient result of the fetch step: an optional resolution-level
/// error message reported by the fetch collaborator.
#[derive(Debug, Clone)]
pub struct ResolutionMetadata {
    pub error: Option<String>,
}

/// The elliptic-curve parameters of a JSON Web Key: an optional named
/// curve and optional affine coordinates.
#[derive(Debug, Clone)]
pub struct EcParams {
    pub curve: Option<String>,
    pub x: Option<Vec<u8>>,
    pub y: Option<Vec<u8>>,
}

/// A JSON Web Key: only the elliptic-curve variant carries parameters
/// here; every other recognized key type is rejected by validation.
#[derive(Debug, Clone)]
pub enum JsonWebKey {
    EllipticCurve(EcParams),
    Other,
}

/// One inline entry of a document's `verificationMethod` catalog.
#[derive(Debug, Clone)]
pub struct VerificationMethodEntry {
    pub id: String,
    pub type_: String,
    pub public_key_jwk: Option<JsonWebKey>,
}

/// A reference to a verification method, as both the `assertionMethod`
/// and the `verificationMethod` sequences hold them: either a bare URL
/// reference or an inline entry.
#[derive(Debug, Clone)]
pub enum VerificationMethodRef {
    Reference(String),
    Inline(VerificationMethodEntry),
}

/// The consumed subset of an issuer's DID document.
#[derive(Debug, Clone)]
pub struct Document {
    pub assertion_method: Option<Vec<VerificationMethodRef>>,
    pub verification_method: Option<Vec<VerificationMethodRef>>,
}

/// View of [`EcParams`] over plain sequences.
pub struct EcParamsView {
    pub curve: Option<Seq<char>>,
    pub x: Option<Seq<u8>>,
    pub y: Option<Seq<u8>>,
}

/// View of [`JsonWebKey`].
pub enum JsonWebKeyView {
    EllipticCurve(EcParamsView),
    Other,
}

/// View of [`VerificationMethodEntry`].
pub struct VerificationMethodEntryView {
    pub id: Seq<char>,
    pub type_: Seq<char>,
    pub public_key_jwk: Option<JsonWebKeyView>,
}

/// View of [`VerificationMethodRef`].
pub enum VerificationMethodRefView {
    Reference(Seq<char>),
    Inline(VerificationMethodEntryView),
}

/// View of [`Document`].
pub struct DocumentView {
    pub assertion_method: Option<Seq<VerificationMethodRefView>>,
    pub verification_method: Option<Seq<VerificationMethodRefView>>,
}

impl View for EcParams {
    type V = EcParamsView;

    open spec fn view(&self) -> EcParamsView {
        EcParamsView {
            curve: match self.curve {
                Some(c) => Some(c@),
                None => None,
            },
            x: match self.x {
                Some(b) => Some(b@),
                None => None,
            },
            y: match self.y {
                Some(b) => Some(b@),
                None => None,
            },
        }
    }
}

impl View for JsonWebKey {
    type V = JsonWebKeyView;

    open spec fn view(&self) -> JsonWebKeyView {
        match self {
            JsonWebKey::EllipticCurve(ec) => JsonWebKeyView::EllipticCurve(ec@),
            JsonWebKey::Other => JsonWebKeyView::Other,
        }
    }
}

impl View for VerificationMethodEntry {
    type V = VerificationMethodEntryView;

    open spec fn view(&self) -> VerificationMethodEntryView {
        VerificationMethodEntryView {
            id: self.id@,
            type_: self.type_@,
            public_key_jwk: match self.public_key_jwk {
                Some(jwk) => Some(jwk@),
                None => None,
            },
        }
    }
}

impl View for VerificationMethodRef {
    type V = VerificationMethodRefView;

    open spec fn view(&self) -> VerificationMethodRefView {
        match self {
            VerificationMethodRef::Reference(s) => VerificationMethodRefView::Reference(s@),
            VerificationMethodRef::Inline(m) => VerificationMethodRefView::Inline(m@),
        }
    }
}

/// The views of a sequence of references.
pub open spec fn refs_view(v: Seq<VerificationMethodRef>) -> Seq<VerificationMethodRefView> {
    v.map_values(|r: VerificationMethodRef| r@)
}

impl View for Document {
    type V = DocumentView;

    open spec fn view(&self) -> DocumentView {
        DocumentView {
            assertion_method: match self.assertion_method {
                Some(v) => Some(refs_view(v@)),
                None => None,
            },
            verification_method: match self.verification_method {
                Some(v) => Some(refs_view(v@)),
                None => None,
            },
        }
    }
}

/// Whether a reference equals the absolute key, compared textually:
/// a bare reference by its text, an inline entry by its id.
pub open spec fn ref_matches_key(r: VerificationMethodRefView, key: Seq<char>) -> bool {
    match r {
        VerificationMethodRefView::Reference(s) => s == key,
        VerificationMethodRefView::Inline(m) => m.id == key,
    }
}

/// Whether some entry of the sequence references the absolute key.
pub open spec fn has_assertion_for(
    methods: Seq<VerificationMethodRefView>,
    key: Seq<char>,
) -> bool {
    exists|i: int| 0 <= i < methods.len() && ref_matches_key(methods[i], key)
}

/// Whether a reference is an inline entry whose id equals the key.
pub open spec fn is_inline_match(r: VerificationMethodRefView, key: Seq<char>) -> bool {
    r matches VerificationMethodRefView::Inline(m) && m.id == key
}

/// The first inline entry whose id equals the key, if any.
pub open spec fn spec_find_inline(
    methods: Seq<VerificationMethodRefView>,
    key: Seq<char>,
) -> Option<VerificationMethodEntryView>
    decreases methods.len(),
{
    if methods.len() == 0 {
        None
    } else {
        match methods[0] {
            VerificationMethodRefView::Inline(m) => if m.id == key {
                Some(m)
            } else {
                spec_find_inline(methods.drop_first(), key)
            },
            VerificationMethodRefView::Reference(_) => spec_find_inline(
                methods.drop_first(),
                key,
            ),
        }
    }
}

/// The verdict that validation must reach on a document, stage by stage:
/// one rejection reason, or acceptance of a valid P-256 curve point with
/// the coordinates that the accepted key must be built from.
pub enum Verdict {
    MissingAssertionMethods,
    MissingAssertionMethod,
    MissingVerificationMethods,
    MissingVerificationMethod,
    NotJsonWebKey2020,
    MissingJWK,
    JWKNotEllipticCurve,
    JWKWrongCurve,
    JWKMissingX,
    JWKMissingY,
    InvalidJWK,
    Accepted { x: Seq<u8>, y: Seq<u8> },
}

/// The validation pipeline as a mathematical function of the document and
/// the absolute key `<did>#<kid>`: each stage short-circuits on failure.
pub open spec fn validation_verdict(doc: DocumentView, key: Seq<char>) -> Verdict {
    match doc.assertion_method {
        None => Verdict::MissingAssertionMethods,
        Some(ams) => if !has_assertion_for(ams, key) {
            Verdict::MissingAssertionMethod
        } else {
            match doc.verification_method {
                None => Verdict::MissingVerificationMethods,
                Some(vms) => match spec_find_inline(vms, key) {
                    None => Verdict::MissingVerificationMethod,
                    Some(m) => if m.type_ != "JsonWebKey2020"@ {
                        Verdict::NotJsonWebKey2020
                    } else {
                        match m.public_key_jwk {
                            None => Verdict::MissingJWK,
                            Some(jwk) => match jwk {
                                JsonWebKeyView::Other => Verdict::JWKNotEllipticCurve,
                                JsonWebKeyView::EllipticCurve(ec) => if !(ec.curve matches Some(c)
                                    && c == "P-256"@) {
                                    Verdict::JWKWrongCurve
                                } else {
                                    match ec.x {
                                        None => Verdict::JWKMissingX,
                                        Some(x) => match ec.y {
                                            None => Verdict::JWKMissingY,
                                            Some(y) => if x.len() == 32 && y.len() == 32
                                                && p256_point_valid(x, y) {
                                                Verdict::Accepted { x, y }
                                            } else {
                                                Verdict::InvalidJWK
                                            },
                                        },
                                    }
                                },
                            },
                        }
                    },
                },
            }
        },
    }
}

/// Whether a result reports a verdict faithfully: the matching error
/// variant, carrying the absolute key where the taxonomy does, and on
/// acceptance a key whose SEC1 encoding is the uncompressed point of the
/// accepted coordinates.
pub open spec fn result_matches_verdict(
    r: Result<VerifyingKey, DecentralizedIdentifierError>,
    v: Verdict,
    key: Seq<char>,
) -> bool {
    match v {
        Verdict::MissingAssertionMethods => r == Err::<
            VerifyingKey,
            _,
        >(DecentralizedIdentifierError::MissingAssertionMethods),
        Verdict::MissingAssertionMethod => r matches Err(
            DecentralizedIdentifierError::MissingAssertionMethod(k),
        ) && k@ == key,
        Verdict::MissingVerificationMethods => r == Err::<
            VerifyingKey,
            _,
        >(DecentralizedIdentifierError::MissingVerificationMethods),
        Verdict::MissingVerificationMethod => r matches Err(
            DecentralizedIdentifierError::MissingVerificationMethod(k),
        ) && k@ == key,
        Verdict::NotJsonWebKey2020 => r == Err::<
            VerifyingKey,
            _,
        >(DecentralizedIdentifierError::NotJsonWebKey2020),
        Verdict::MissingJWK => r == Err::<
            VerifyingKey,
            _,
        >(DecentralizedIdentifierError::MissingJWK),
        Verdict::JWKNotEllipticCurve => r == Err::<
            VerifyingKey,
            _,
        >(DecentralizedIdentifierError::JWKNotEllipticCurve),
        Verdict::JWKWrongCurve => r == Err::<
            VerifyingKey,
            _,
        >(DecentralizedIdentifierError::JWKWrongCurve),
        Verdict::JWKMissingX => r == Err::<
            VerifyingKey,
            _,
        >(DecentralizedIdentifierError::JWKMissingX),
        Verdict::JWKMissingY => r == Err::<
            VerifyingKey,
            _,
        >(DecentralizedIdentifierError::JWKMissingY),
        Verdict::InvalidJWK => r == Err::<
            VerifyingKey,
            _,
        >(DecentralizedIdentifierError::InvalidJWK),
        Verdict::Accepted { x, y } => r matches Ok(k) && sec1_bytes_of(k) == seq![4u8] + x + y,
    }
}

proof fn lemma_find_inline_first(ms: Seq<VerificationMethodRefView>, key: Seq<char>, i: int)
    requires
        0 <= i < ms.len(),
        is_inline_match(ms[i], key),
        forall|j: int| 0 <= j < i ==> !is_inline_match(ms[j], key),
    ensures
        spec_find_inline(ms, key) matches Some(m) && ms[i] == VerificationMethodRefView::Inline(
            m,
        ),
    decreases i,
{
    if i == 0 {
    } else {
        assert(!is_inline_match(ms[0], key));
        lemma_find_inline_first(ms.drop_first(), key, i - 1);
        assert(ms.drop_first()[i - 1] == ms[i]);
    }
}

proof fn lemma_find_inline_none(ms: Seq<VerificationMethodRefView>, key: Seq<char>)
    requires
        forall|j: int| 0 <= j < ms.len() ==> !is_inline_match(ms[j], key),
    ensures
        spec_find_inline(ms, key) is None,
    decreases ms.len(),
{
    if ms.len() > 0 {
        assert(!is_inline_match(ms[0], key));
        assert(forall|j: int|
            0 <= j < ms.drop_first().len() ==> ms.drop_first()[j] == ms[j + 1]);
        lemma_find_inline_none(ms.drop_first(), key);
    }
}

/// Validate the authorization chain of a document against the absolute
/// key `<did>#<kid>` and extract its verifying key: the `assertionMethod`
/// sequence must reference the key, the matching inline
/// `verificationMethod` entry must be a `JsonWebKey2020` carrying a P-256
/// JWK with both coordinates, and the coordinates must form a valid curve
/// point. The result is exactly the verdict of [`validation_verdict`],
/// and an accepted key is built from exactly the matched coordinates.
pub fn extract_verifying_key(document: &Document, absolute_key: &String) -> (r: Result<
    VerifyingKey,
    DecentralizedIdentifierError,
>)
    ensures
        result_matches_verdict(r, validation_verdict(document@, absolute_key@), absolute_key@),
        r is Ok <==> validation_verdict(document@, absolute_key@) matches Verdict::Accepted {
            ..
        },
{
    let assertion_methods = match &document.assertion_method {
        None => {
            return Err(DecentralizedIdentifierError::MissingAssertionMethods);
        },
        Some(v) => v,
    };
    let mut found = false;
    let mut i: usize = 0;
    while i < assertion_methods.len()
        invariant
            i <= assertion_methods@.len(),
            !found ==> forall|j: int|
                0 <= j < i ==> !ref_matches_key(assertion_methods@[j]@, absolute_key@),
            found ==> has_assertion_for(refs_view(assertion_methods@), absolute_key@),
        decreases assertion_methods@.len() - i,
    {
        let matched = match &assertion_methods[i] {
            VerificationMethodRef::Reference(s) => str_eq(s.as_str(), absolute_key.as_str()),
            VerificationMethodRef::Inline(m) => str_eq(m.id.as_str(), absolute_key.as_str()),
        };
        if matched {
            found = true;
            proof {
                assert(refs_view(assertion_methods@)[i as int] == assertion_methods@[i as int]@);
                assert(ref_matches_key(refs_view(assertion_methods@)[i as int], absolute_key@));
            }
        }
        i += 1;
    }
    if !found {
        proof {
            assert(forall|j: int|
                0 <= j < refs_view(assertion_methods@).len() ==> refs_view(assertion_methods@)[j]
                    == assertion_methods@[j]@);
            assert(!has_assertion_for(refs_view(assertion_methods@), absolute_key@));
        }
        return Err(DecentralizedIdentifierError::MissingAssertionMethod(absolute_key.clone()));
    }
    let verification_methods = match &document.verification_method {
        None => {
            return Err(DecentralizedIdentifierError::MissingVerificationMethods);
        },
        Some(v) => v,
    };
    let ghost vms = refs_view(verification_methods@);
    proof {
        assert(forall|j: int| 0 <= j < vms.len() ==> vms[j] == verification_methods@[j]@);
    }
    let mut k: usize = 0;
    let mut entry_index: Option<usize> = None;
    while k < verification_methods.len()
        invariant
            k <= verification_methods@.len(),
            vms == refs_view(verification_methods@),
            vms.len() == verification_methods@.len(),
            forall|j: int| 0 <= j < vms.len() ==> vms[j] == verification_methods@[j]@,
            entry_index is None ==> forall|j: int|
                0 <= j < k ==> !is_inline_match(vms[j], absolute_key@),
            entry_index matches Some(e) ==> e < verification_methods@.len() && is_inline_match(
                vms[e as int],
                absolute_key@,
            ) && forall|j: int| 0 <= j < e ==> !is_inline_match(vms[j], absolute_key@),
        decreases verification_methods@.len() - k,
    {
        if entry_index.is_none() {
            let hit = match &verification_methods[k] {
                VerificationMethodRef::Inline(m) => str_eq(m.id.as_str(), absolute_key.as_str()),
                VerificationMethodRef::Reference(_) => false,
            };
            if hit {
                entry_index = Some(k);
            }
        }
        k += 1;
    }
    let idx = match entry_index {
        None => {
            proof {
                lemma_find_inline_none(vms, absolute_key@);
            }
            return Err(
                DecentralizedIdentifierError::MissingVerificationMethod(absolute_key.clone()),
            );
        },
        Some(e) => e,
    };
    let entry = match &verification_methods[idx] {
        VerificationMethodRef::Inline(m) => m,
        VerificationMethodRef::Reference(_) => {
            proof {
                assert(false);
            }
            return Err(
                DecentralizedIdentifierError::MissingVerificationMethod(absolute_key.clone()),
            );
        },
    };
    proof {
        lemma_find_inline_first(vms, absolute_key@, idx as int);
        assert(spec_find_inline(vms, absolute_key@) == Some(entry@));
    }
    if !str_eq(entry.type_.as_str(), "JsonWebKey2020") {
        return Err(DecentralizedIdentifierError::NotJsonWebKey2020);
    }
    let jwk = match &entry.public_key_jwk {
        None => {
            return Err(DecentralizedIdentifierError::MissingJWK);
        },
        Some(j) => j,
    };
    let ec = match jwk {
        JsonWebKey::Other => {
            return Err(DecentralizedIdentifierError::JWKNotEllipticCurve);
        },
        JsonWebKey::EllipticCurve(ec) => ec,
    };
    let curve_ok = match &ec.curve {
        None => false,
        Some(c) => str_eq(c.as_str(), "P-256"),
    };
    if !curve_ok {
        return Err(DecentralizedIdentifierError::JWKWrongCurve);
    }
    let x = match &ec.x {
        None => {
            return Err(DecentralizedIdentifierError::JWKMissingX);
        },
        Some(x) => x,
    };
    let y = match &ec.y {
        None => {
            return Err(DecentralizedIdentifierError::JWKMissingY);
        },
        Some(y) => y,
    };
    if x.len() != 32 || y.len() != 32 {
        return Err(DecentralizedIdentifierError::InvalidJWK);
    }
    match p256_key_from_coordinates(x.as_slice(), y.as_slice()) {
        Some(key) => Ok(key),
        None => Err(DecentralizedIdentifierError::InvalidJWK),
    }
}

/// A document whose `assertionMethod` sequence is present but holds no
/// reference to the absolute key is rejected for exactly that reason.
pub proof fn lemma_missing_assertion_method(doc: DocumentView, key: Seq<char>)
    requires
        doc.assertion_method matches Some(ams) && !has_assertion_for(ams, key),
    ensures
        validation_verdict(doc, key) == Verdict::MissingAssertionMethod,
{
}

/// With a matching assertion method but no inline verification method
/// entry whose id matches, the document is rejected for the missing
/// verification method.
pub proof fn lemma_missing_verification_method(doc: DocumentView, key: Seq<char>)
    requires
        doc.assertion_method matches Some(ams) && has_assertion_for(ams, key),
        doc.verification_method matches Some(vms) && spec_find_inline(vms, key) is None,
    ensures
        validation_verdict(doc, key) == Verdict::MissingVerificationMethod,
{
}

/// A matching verification method entry whose type is not
/// `JsonWebKey2020` is rejected for its type.
pub proof fn lemma_wrong_entry_type(doc: DocumentView, key: Seq<char>)
    requires
        doc.assertion_method matches Some(ams) && has_assertion_for(ams, key),
        doc.verification_method matches Some(vms) && (spec_find_inline(vms, key) matches Some(m)
            && m.type_ != "JsonWebKey2020"@),
    ensures
        validation_verdict(doc, key) == Verdict::NotJsonWebKey2020,
{
}

/// An elliptic-curve JWK whose curve is absent or different from `P-256`
/// is rejected for its curve, whatever its coordinates hold.
pub proof fn lemma_wrong_curve(doc: DocumentView, key: Seq<char>)
    requires
        doc.assertion_method matches Some(ams) && has_assertion_for(ams, key),
        doc.verification_method matches Some(vms) && (spec_find_inline(vms, key) matches Some(m)
            && (m.type_ == "JsonWebKey2020"@ && (m.public_key_jwk matches Some(
            JsonWebKeyView::EllipticCurve(ec),
        ) && !(ec.curve matches Some(c) && c == "P-256"@)))),
    ensures
        validation_verdict(doc, key) == Verdict::JWKWrongCurve,
{
}

} // verus!
