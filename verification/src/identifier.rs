//! Parsed representation of a `did:web:<domain>` decentralized identifier.

use vstd::prelude::*;
use vstd::string::*;

verus! {

/// The method prefix that every supported identifier begins with: `did:web:`.
pub open spec fn did_web_prefix() -> Seq<char> {
    seq!['d', 'i', 'd', ':', 'w', 'e', 'b', ':']
}

/// Whether `s` begins with the literal `did:web:` prefix.
pub open spec fn has_did_web_prefix(s: Seq<char>) -> bool {
    s.len() >= 8 && s.subrange(0, 8) == did_web_prefix()
}

/// A parsed decentralized identifier. Only the `web` DID method is
/// supported: the variant holds the domain component, i.e. everything
/// after the literal `did:web:` prefix of the original text.
#[derive(Debug, Clone)]
pub enum DecentralizedIdentifier {
    Web(String),
}

/// Error returned when identifier text does not begin with `did:web:`.
#[derive(Debug, Clone, Copy, PartialEq, Eq, Structural)]
pub struct InvalidDid;

impl DecentralizedIdentifier {
    /// The domain component of the identifier.
    pub open spec fn spec_domain(self) -> Seq<char> {
        match self {
            DecentralizedIdentifier::Web(domain) => domain@,
        }
    }

    /// The canonical string form: `did:web:` followed by the domain.
    pub open spec fn spec_did(self) -> Seq<char> {
        did_web_prefix() + self.spec_domain()
    }

    /// The absolute key `<did>#<kid>` that resolution validates against.
    pub open spec fn spec_absolute_key(self, kid: Seq<char>) -> Seq<char> {
        self.spec_did() + "#"@ + kid
    }

    /// Parse identifier text: succeeds exactly on text beginning with
    /// `did:web:`, keeping everything after the prefix as the domain.
    pub fn parse(text: &str) -> (r: Result<Self, InvalidDid>)
        ensures
            r is Ok <==> has_did_web_prefix(text@),
            r matches Ok(id) ==> id.spec_domain() == text@.subrange(8, text@.len() as int),
            r matches Ok(id) ==> id.spec_did() == text@,
    {
        let n = text.unicode_len();
        if n < 8 {
            return Err(InvalidDid);
        }
        let prefix_chars: [char; 8] = ['d', 'i', 'd', ':', 'w', 'e', 'b', ':'];
        let mut i: usize = 0;
        while i < 8
            invariant
                i <= 8,
                n == text@.len(),
                n >= 8,
                prefix_chars@ == did_web_prefix(),
                forall|j: int| 0 <= j < i ==> text@[j] == did_web_prefix()[j],
            decreases 8 - i,
        {
            if text.get_char(i) != prefix_chars[i] {
                proof {
                    assert(text@.subrange(0, 8)[i as int] != did_web_prefix()[i as int]);
                }
                return Err(InvalidDid);
            }
            i += 1;
        }
        let domain = text.substring_char(8, n);
        proof {
            assert(text@.subrange(0, 8) =~= did_web_prefix());
            assert(did_web_prefix() + text@.subrange(8, text@.len() as int) =~= text@);
        }
        Ok(DecentralizedIdentifier::Web(domain.to_owned()))
    }

    /// Render the canonical string form, `did:web:` + domain.
    pub fn did(&self) -> (r: String)
        ensures
            r@ == self.spec_did(),
    {
        match self {
            DecentralizedIdentifier::Web(domain) => {
                proof {
                    reveal_strlit("did:web:");
                    assert("did:web:"@ =~= did_web_prefix());
                }
                let s = String::from_str("did:web:");
                s.concat(domain.as_str())
            }
        }
    }
}

impl PartialEq for DecentralizedIdentifier {
    fn eq(&self, other: &Self) -> (r: bool) {
        match (self, other) {
            (DecentralizedIdentifier::Web(a), DecentralizedIdentifier::Web(b)) => {
                crate::strutil::str_eq(a.as_str(), b.as_str())
            },
        }
    }
}

impl vstd::std_specs::cmp::PartialEqSpecImpl for DecentralizedIdentifier {
    open spec fn obeys_eq_spec() -> bool {
        true
    }

    open spec fn eq_spec(&self, other: &Self) -> bool {
        self.spec_domain() == other.spec_domain()
    }
}

/// Round-trip law: text of the form `did:web:` + domain parses back to an
/// identifier whose domain is exactly that suffix, and whose canonical form
/// (as rendered by [`DecentralizedIdentifier::did`]) is the original text.
/// Together with the contracts of `parse` and `did`, this states that
/// `parse("did:web:" + d)` succeeds and renders back to `"did:web:" + d`.
pub proof fn lemma_parse_did_round_trip(domain: Seq<char>)
    ensures
        has_did_web_prefix(did_web_prefix() + domain),
        (did_web_prefix() + domain).subrange(8, (did_web_prefix() + domain).len() as int)
            == domain,
{
    let text = did_web_prefix() + domain;
    assert(text.subrange(0, 8) =~= did_web_prefix());
    assert(text.subrange(8, text.len() as int) =~= domain);
}

} // verus!
