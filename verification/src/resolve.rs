//! Document resolution: decoding fetched bytes into a [`Document`] and
//! driving the validation pipeline to a verifying key. Each decode step
//! has a specification twin over the JSON model of [`crate::json`], so
//! that the public contracts fix which document a byte sequence decodes
//! to and which result resolution must reach on it.

use vstd::prelude::*;
use vstd::string::*;

use crate::crypto::VerifyingKey;
use crate::document::{
    extract_verifying_key, refs_view, result_matches_verdict, validation_verdict, Document,
    DocumentView, EcParams, EcParamsView, JsonWebKey, JsonWebKeyView, ResolutionMetadata,
    VerificationMethodEntry, VerificationMethodEntryView, VerificationMethodRef,
    VerificationMethodRefView,
};
use crate::error::DecentralizedIdentifierError;
use crate::identifier::DecentralizedIdentifier;
use crate::json::{
    base64url_bytes_of, base64url_decode, js_get, json_as_array, json_as_str, json_from_slice,
    json_get, json_parse_of, json_rep, JsonVal,
};
use crate::strutil::str_eq;

verus! {

/// Outcome of decoding the fetched bytes: no document at all, a document
/// that could not be decoded (with the detail message), or a well-formed
/// document.
pub enum DocumentOutcome {
    Absent,
    Malformed(String),
    Present(Document),
}

/// Ghost outcome of decoding a parsed JSON value: the shape of
/// [`DocumentOutcome`] without the detail message.
pub enum SpecOutcome {
    Absent,
    Malformed,
    Present(DocumentView),
}

/// An optional field that must be a string when present.
pub open spec fn spec_decode_opt_text(f: Option<JsonVal>) -> Result<Option<Seq<char>>, ()> {
    match f {
        None => Ok(None),
        Some(JsonVal::Text(s)) => Ok(Some(s)),
        Some(_) => Err(()),
    }
}

/// An optional field that must be a base64url-encoded string when present.
pub open spec fn spec_decode_opt_b64(f: Option<JsonVal>) -> Result<Option<Seq<u8>>, ()> {
    match f {
        None => Ok(None),
        Some(JsonVal::Text(s)) => match base64url_bytes_of(s) {
            Some(b) => Ok(Some(b)),
            None => Err(()),
        },
        Some(_) => Err(()),
    }
}

/// The elliptic-curve parameters of a JWK object: optional `crv` string,
/// optional base64url `x` and `y` coordinate strings.
pub open spec fn spec_decode_ec(v: JsonVal) -> Result<JsonWebKeyView, ()> {
    match spec_decode_opt_text(js_get(v, "crv"@)) {
        Err(_) => Err(()),
        Ok(curve) => match spec_decode_opt_b64(js_get(v, "x"@)) {
            Err(_) => Err(()),
            Ok(x) => match spec_decode_opt_b64(js_get(v, "y"@)) {
                Err(_) => Err(()),
                Ok(y) => Ok(JsonWebKeyView::EllipticCurve(EcParamsView { curve, x, y })),
            },
        },
    }
}

/// A JWK object: the `kty` tag picks the variant. `EC` carries the
/// elliptic-curve parameters; the other recognized key types (`RSA`,
/// `oct`, `OKP`) are kept only as non-elliptic-curve keys; an absent or
/// unrecognized tag is a malformed key.
pub open spec fn spec_decode_jwk(v: JsonVal) -> Result<JsonWebKeyView, ()> {
    match js_get(v, "kty"@) {
        Some(JsonVal::Text(kty)) => if kty == "EC"@ {
            spec_decode_ec(v)
        } else if kty == "RSA"@ || kty == "oct"@ || kty == "OKP"@ {
            Ok(JsonWebKeyView::Other)
        } else {
            Err(())
        },
        _ => Err(()),
    }
}

/// An inline verification method entry: `id` and `type` must be strings,
/// `publicKeyJwk` is optional.
pub open spec fn spec_decode_entry(v: JsonVal) -> Result<VerificationMethodEntryView, ()> {
    match js_get(v, "id"@) {
        Some(JsonVal::Text(id)) => match js_get(v, "type"@) {
            Some(JsonVal::Text(type_)) => match js_get(v, "publicKeyJwk"@) {
                None => Ok(
                    VerificationMethodEntryView { id, type_, public_key_jwk: None },
                ),
                Some(jv) => match spec_decode_jwk(jv) {
                    Ok(j) => Ok(
                        VerificationMethodEntryView { id, type_, public_key_jwk: Some(j) },
                    ),
                    Err(_) => Err(()),
                },
            },
            _ => Err(()),
        },
        _ => Err(()),
    }
}

/// One element of a reference sequence: a bare string reference, or an
/// inline entry object.
pub open spec fn spec_decode_ref(v: JsonVal) -> Result<VerificationMethodRefView, ()> {
    match v {
        JsonVal::Text(s) => Ok(VerificationMethodRefView::Reference(s)),
        _ => match spec_decode_entry(v) {
            Ok(m) => Ok(VerificationMethodRefView::Inline(m)),
            Err(_) => Err(()),
        },
    }
}

/// A whole reference sequence: every element must decode.
pub open spec fn spec_decode_refs(elems: Seq<JsonVal>) -> Result<
    Seq<VerificationMethodRefView>,
    (),
> {
    if forall|i: int| 0 <= i < elems.len() ==> (#[trigger] spec_decode_ref(elems[i])) is Ok {
        Ok(Seq::new(elems.len(), |i: int| spec_decode_ref(elems[i])->Ok_0))
    } else {
        Err(())
    }
}

/// A reference-sequence field must be a JSON array.
pub open spec fn spec_decode_list(v: JsonVal) -> Result<Seq<VerificationMethodRefView>, ()> {
    match v {
        JsonVal::Arr(elems) => spec_decode_refs(elems),
        _ => Err(()),
    }
}

/// An optional reference-sequence field.
pub open spec fn spec_decode_field_refs(f: Option<JsonVal>) -> Result<
    Option<Seq<VerificationMethodRefView>>,
    (),
> {
    match f {
        None => Ok(None),
        Some(v) => match spec_decode_list(v) {
            Ok(rs) => Ok(Some(rs)),
            Err(_) => Err(()),
        },
    }
}

/// The structured document shape of a JSON value: optional
/// `assertionMethod` and `verificationMethod` sequences; unknown fields
/// are ignored.
pub open spec fn spec_decode_document_value(v: JsonVal) -> Result<DocumentView, ()> {
    match spec_decode_field_refs(js_get(v, "assertionMethod"@)) {
        Err(_) => Err(()),
        Ok(am) => match spec_decode_field_refs(js_get(v, "verificationMethod"@)) {
            Err(_) => Err(()),
            Ok(vm) => Ok(DocumentView { assertion_method: am, verification_method: vm }),
        },
    }
}

/// What a parsed JSON value decodes to: an absent or non-string
/// `@context` degrades to no document; a string `@context` (normalized to
/// the canonical DID-core context, whose value the shape ignores) leads
/// to the structured decode, whose failure is a malformed document.
pub open spec fn spec_decode_value(v: JsonVal) -> SpecOutcome {
    match js_get(v, "@context"@) {
        None => SpecOutcome::Absent,
        Some(ctx) => match ctx {
            JsonVal::Text(_) => match spec_decode_document_value(v) {
                Ok(dv) => SpecOutcome::Present(dv),
                Err(_) => SpecOutcome::Malformed,
            },
            _ => SpecOutcome::Absent,
        },
    }
}

/// Whether an execution outcome reports the ghost outcome, with the
/// document pinned on the present side.
pub open spec fn outcome_matches_spec(r: DocumentOutcome, s: SpecOutcome) -> bool {
    match s {
        SpecOutcome::Absent => r is Absent,
        SpecOutcome::Malformed => r matches DocumentOutcome::Malformed(_),
        SpecOutcome::Present(dv) => r matches DocumentOutcome::Present(d) && d@ == dv,
    }
}

/// Decode one JWK object, as [`spec_decode_jwk`] states.
fn decode_jwk(value: &serde_json::Value) -> (r: Result<JsonWebKey, String>)
    ensures
        match spec_decode_jwk(json_rep(*value)) {
            Ok(jv) => r matches Ok(j) && j@ == jv,
            Err(_) => r is Err,
        },
{
    let kty = match json_get(value, "kty") {
        Some(v) => match json_as_str(v) {
            Some(s) => s,
            None => {
                return Err(String::from_str("publicKeyJwk 'kty' is not a string"));
            },
        },
        None => {
            return Err(String::from_str("publicKeyJwk has no 'kty'"));
        },
    };
    if !str_eq(kty, "EC") {
        if str_eq(kty, "RSA") || str_eq(kty, "oct") || str_eq(kty, "OKP") {
            return Ok(JsonWebKey::Other);
        }
        return Err(String::from_str("publicKeyJwk 'kty' is not a recognized key type"));
    }
    let curve = match json_get(value, "crv") {
        None => None,
        Some(v) => match json_as_str(v) {
            Some(s) => Some(s.to_owned()),
            None => {
                return Err(String::from_str("publicKeyJwk 'crv' is not a string"));
            },
        },
    };
    let x = match json_get(value, "x") {
        None => None,
        Some(v) => match json_as_str(v) {
            Some(s) => match base64url_decode(s) {
                Some(bytes) => Some(bytes),
                None => {
                    return Err(String::from_str("publicKeyJwk 'x' is not base64url"));
                },
            },
            None => {
                return Err(String::from_str("publicKeyJwk 'x' is not a string"));
            },
        },
    };
    let y = match json_get(value, "y") {
        None => None,
        Some(v) => match json_as_str(v) {
            Some(s) => match base64url_decode(s) {
                Some(bytes) => Some(bytes),
                None => {
                    return Err(String::from_str("publicKeyJwk 'y' is not base64url"));
                },
            },
            None => {
                return Err(String::from_str("publicKeyJwk 'y' is not a string"));
            },
        },
    };
    Ok(JsonWebKey::EllipticCurve(EcParams { curve, x, y }))
}

/// Decode one inline verification method entry, as [`spec_decode_entry`]
/// states.
fn decode_entry(value: &serde_json::Value) -> (r: Result<VerificationMethodEntry, String>)
    ensures
        match spec_decode_entry(json_rep(*value)) {
            Ok(ev) => r matches Ok(e) && e@ == ev,
            Err(_) => r is Err,
        },
{
    let id = match json_get(value, "id") {
        Some(v) => match json_as_str(v) {
            Some(s) => s.to_owned(),
            None => {
                return Err(String::from_str("verification method 'id' is not a string"));
            },
        },
        None => {
            return Err(String::from_str("verification method has no 'id'"));
        },
    };
    let type_ = match json_get(value, "type") {
        Some(v) => match json_as_str(v) {
            Some(s) => s.to_owned(),
            None => {
                return Err(String::from_str("verification method 'type' is not a string"));
            },
        },
        None => {
            return Err(String::from_str("verification method has no 'type'"));
        },
    };
    let public_key_jwk = match json_get(value, "publicKeyJwk") {
        None => None,
        Some(v) => match decode_jwk(v) {
            Ok(jwk) => Some(jwk),
            Err(m) => {
                return Err(m);
            },
        },
    };
    Ok(VerificationMethodEntry { id, type_, public_key_jwk })
}

/// Decode a sequence of verification method references, as
/// [`spec_decode_list`] states.
fn decode_method_refs(value: &serde_json::Value) -> (r: Result<Vec<VerificationMethodRef>, String>)
    ensures
        match spec_decode_list(json_rep(*value)) {
            Ok(rs) => r matches Ok(out) && refs_view(out@) == rs,
            Err(_) => r is Err,
        },
{
    let items = match json_as_array(value) {
        Some(v) => v,
        None => {
            return Err(String::from_str("verification method list is not an array"));
        },
    };
    let ghost elems = json_rep(*value)->Arr_0;
    let mut out: Vec<VerificationMethodRef> = Vec::new();
    let mut i: usize = 0;
    while i < items.len()
        invariant
            i <= items@.len(),
            items@.len() == elems.len(),
            json_rep(*value) == JsonVal::Arr(elems),
            forall|j: int| 0 <= j < elems.len() ==> json_rep(items@[j]) == elems[j],
            out@.len() == i,
            forall|j: int| 0 <= j < i ==> (#[trigger] spec_decode_ref(elems[j])) is Ok,
            forall|j: int| 0 <= j < i ==> out@[j]@ == spec_decode_ref(#[trigger] elems[j])->Ok_0,
        decreases items@.len() - i,
    {
        let item = &items[i];
        match json_as_str(item) {
            Some(s) => {
                out.push(VerificationMethodRef::Reference(s.to_owned()));
            },
            None => {
                match decode_entry(item) {
                    Ok(entry) => {
                        out.push(VerificationMethodRef::Inline(entry));
                    },
                    Err(m) => {
                        proof {
                            assert(!(spec_decode_ref(elems[i as int]) is Ok));
                        }
                        return Err(m);
                    },
                }
            },
        }
        i += 1;
    }
    proof {
        let rs = spec_decode_refs(elems)->Ok_0;
        assert(refs_view(out@) =~= rs);
    }
    Ok(out)
}

/// Decode the untyped JSON value into the structured document shape, as
/// [`spec_decode_document_value`] states.
fn decode_document_value(value: &serde_json::Value) -> (r: Result<Document, String>)
    ensures
        match spec_decode_document_value(json_rep(*value)) {
            Ok(dv) => r matches Ok(d) && d@ == dv,
            Err(_) => r is Err,
        },
{
    let assertion_method = match json_get(value, "assertionMethod") {
        None => None,
        Some(v) => match decode_method_refs(v) {
            Ok(refs) => Some(refs),
            Err(m) => {
                return Err(m);
            },
        },
    };
    let verification_method = match json_get(value, "verificationMethod") {
        None => None,
        Some(v) => match decode_method_refs(v) {
            Ok(refs) => Some(refs),
            Err(m) => {
                return Err(m);
            },
        },
    };
    Ok(Document { assertion_method, verification_method })
}

/// Decode fetched bytes into a document outcome. Empty bytes mean no
/// document. Non-empty bytes are parsed as JSON; a parse failure is a
/// malformed document carrying the parse error's message; a parsed value
/// decodes as [`spec_decode_value`] states: an absent or non-string
/// `@context` degrades to no document rather than an error, a string
/// `@context` is normalized (the structured decode ignores its value, so
/// the rewrite has no effect beyond this shape check), and the document
/// shape is then extracted.
pub fn decode_document(doc_data: &Vec<u8>) -> (r: DocumentOutcome)
    ensures
        doc_data@.len() == 0 ==> r is Absent,
        doc_data@.len() > 0 ==> (json_parse_of(doc_data@) matches Err(m) ==> (r matches
            DocumentOutcome::Malformed(s) && s@ == m)),
        doc_data@.len() > 0 ==> (json_parse_of(doc_data@) matches Ok(v) ==> outcome_matches_spec(
            r,
            spec_decode_value(v),
        )),
{
    if doc_data.len() == 0 {
        return DocumentOutcome::Absent;
    }
    let value = match json_from_slice(doc_data.as_slice()) {
        Ok(v) => v,
        Err(m) => {
            return DocumentOutcome::Malformed(m);
        },
    };
    match json_get(&value, "@context") {
        Some(ctx) => {
            if json_as_str(ctx).is_none() {
                return DocumentOutcome::Absent;
            }
        },
        None => {
            return DocumentOutcome::Absent;
        },
    }
    match decode_document_value(&value) {
        Ok(doc) => DocumentOutcome::Present(doc),
        Err(m) => DocumentOutcome::Malformed(m),
    }
}

/// Combine the decode outcome with the fetch metadata, in the pipeline's
/// order: a malformed document fails first with its own detail; then a
/// metadata error fails with the collaborator's message even when a
/// document was produced; then an absent document is an empty-document
/// failure; what remains is a well-formed document.
pub fn resolve_document(metadata: &ResolutionMetadata, outcome: DocumentOutcome) -> (r: Result<
    Document,
    DecentralizedIdentifierError,
>)
    ensures
        outcome matches DocumentOutcome::Malformed(m) ==> (r matches Err(
            DecentralizedIdentifierError::ResolutionError(e),
        ) && e@ == m@),
        !(outcome matches DocumentOutcome::Malformed(_)) ==> (metadata.error matches Some(e)
            ==> (r matches Err(DecentralizedIdentifierError::ResolutionError(m)) && m@ == e@)),
        metadata.error is None && outcome is Absent ==> r == Err::<
            Document,
            _,
        >(DecentralizedIdentifierError::EmptyDocument),
        metadata.error is None ==> (outcome matches DocumentOutcome::Present(d) ==> r == Ok::<
            _,
            DecentralizedIdentifierError,
        >(d)),
{
    let document = match outcome {
        DocumentOutcome::Malformed(m) => {
            return Err(DecentralizedIdentifierError::ResolutionError(m));
        },
        DocumentOutcome::Absent => None,
        DocumentOutcome::Present(doc) => Some(doc),
    };
    match &metadata.error {
        Some(error) => Err(DecentralizedIdentifierError::ResolutionError(error.clone())),
        None => match document {
            Some(doc) => Ok(doc),
            None => Err(DecentralizedIdentifierError::EmptyDocument),
        },
    }
}

impl DecentralizedIdentifier {
    /// Resolve this identifier to the verifying key named by `kid`, given
    /// the fetch collaborator's outcome for the identifier's canonical
    /// string: its resolution metadata and the raw document bytes. The
    /// bytes are decoded, the fetch outcome checked, and the document
    /// validated against the absolute key `<did>#<kid>`; on a well-formed
    /// document with no metadata error the result is exactly the verdict
    /// of [`validation_verdict`] on the decoded document.
    pub fn resolve_verifying_key(
        &self,
        kid: &str,
        metadata: &ResolutionMetadata,
        doc_data: &Vec<u8>,
    ) -> (r: Result<VerifyingKey, DecentralizedIdentifierError>)
        ensures
            doc_data@.len() == 0 && metadata.error is None ==> r == Err::<
                VerifyingKey,
                _,
            >(DecentralizedIdentifierError::EmptyDocument),
            doc_data@.len() == 0 ==> (metadata.error matches Some(e) ==> (r matches Err(
                DecentralizedIdentifierError::ResolutionError(m),
            ) && m@ == e@)),
            doc_data@.len() > 0 ==> (json_parse_of(doc_data@) matches Err(pe) ==> (r matches Err(
                DecentralizedIdentifierError::ResolutionError(m),
            ) && m@ == pe)),
            metadata.error is Some ==> r matches Err(
                DecentralizedIdentifierError::ResolutionError(_),
            ),
            doc_data@.len() > 0 ==> (json_parse_of(doc_data@) matches Ok(v) ==> (metadata.error
                is None && spec_decode_value(v) is Absent ==> r == Err::<
                VerifyingKey,
                _,
            >(DecentralizedIdentifierError::EmptyDocument))),
            doc_data@.len() > 0 ==> (json_parse_of(doc_data@) matches Ok(v) ==> (
            spec_decode_value(v) matches SpecOutcome::Malformed ==> r matches Err(
                DecentralizedIdentifierError::ResolutionError(_),
            ))),
            doc_data@.len() > 0 ==> (json_parse_of(doc_data@) matches Ok(v) ==> (metadata.error
                is None ==> (spec_decode_value(v) matches SpecOutcome::Present(dv)
                ==> result_matches_verdict(
                r,
                validation_verdict(dv, self.spec_absolute_key(kid@)),
                self.spec_absolute_key(kid@),
            )))),
    {
        let outcome = decode_document(doc_data);
        let document = match resolve_document(metadata, outcome) {
            Ok(doc) => doc,
            Err(e) => {
                return Err(e);
            },
        };
        let did = self.did();
        let absolute_key = did.concat("#").concat(kid);
        extract_verifying_key(&document, &absolute_key)
    }
}

} // verus!
