//! Verification keys as the key source publishes them.

use vstd::prelude::*;
use crate::error::RestError;
use crate::text::{lemma_position_unique, position, str_eq};

verus! {

/// The signature algorithms that a key or a token can declare.
#[derive(Debug, Clone, Copy, PartialEq, Eq, Structural)]
pub enum AlgorithmName {
    HS256,
    HS384,
    HS512,
    ES256,
    ES384,
    RS256,
    RS384,
    RS512,
    PS256,
    PS384,
    PS512,
    EdDSA,
}

impl AlgorithmName {
    /// Whether the algorithm signs with an RSA key.
    pub open spec fn rsa(self) -> bool {
        self == AlgorithmName::RS256 || self == AlgorithmName::RS384 || self
            == AlgorithmName::RS512 || self == AlgorithmName::PS256 || self
            == AlgorithmName::PS384 || self == AlgorithmName::PS512
    }

    /// Whether the algorithm signs with an RSA key.
    pub fn is_rsa(&self) -> (rsa: bool)
        ensures
            rsa == self.rsa(),
    {
        match self {
            AlgorithmName::RS256 => true,
            AlgorithmName::RS384 => true,
            AlgorithmName::RS512 => true,
            AlgorithmName::PS256 => true,
            AlgorithmName::PS384 => true,
            AlgorithmName::PS512 => true,
            _ => false,
        }
    }
}

/// Which of the signature algorithms an `Algorithm` of the token library is:
/// the variant of the same name.
pub uninterp spec fn algorithm_name(algorithm: jsonwebtoken::Algorithm) -> AlgorithmName;

/// Tells the variants of `jsonwebtoken::Algorithm` apart, each by the variant
/// of the same name. The outcome is named `algorithm_name`.
#[verifier::external_body]
pub(crate) fn name_of(algorithm: jsonwebtoken::Algorithm) -> (name: AlgorithmName)
    ensures
        name == algorithm_name(algorithm),
{
    match algorithm {
        jsonwebtoken::Algorithm::HS256 => AlgorithmName::HS256,
        jsonwebtoken::Algorithm::HS384 => AlgorithmName::HS384,
        jsonwebtoken::Algorithm::HS512 => AlgorithmName::HS512,
        jsonwebtoken::Algorithm::ES256 => AlgorithmName::ES256,
        jsonwebtoken::Algorithm::ES384 => AlgorithmName::ES384,
        jsonwebtoken::Algorithm::RS256 => AlgorithmName::RS256,
        jsonwebtoken::Algorithm::RS384 => AlgorithmName::RS384,
        jsonwebtoken::Algorithm::RS512 => AlgorithmName::RS512,
        jsonwebtoken::Algorithm::PS256 => AlgorithmName::PS256,
        jsonwebtoken::Algorithm::PS384 => AlgorithmName::PS384,
        jsonwebtoken::Algorithm::PS512 => AlgorithmName::PS512,
        jsonwebtoken::Algorithm::EdDSA => AlgorithmName::EdDSA,
    }
}

/// The algorithm family of a key, with the public parameters of an RSA key:
/// modulus and exponent, each in URL-safe base64.
#[derive(Debug, Clone, PartialEq, Eq)]
pub enum KeyParams {
    Rsa { n: String, e: String },
    EllipticCurve,
    OctetKey,
    OctetKeyPair,
}

pub enum KeyParamsView {
    Rsa { n: Seq<char>, e: Seq<char> },
    EllipticCurve,
    OctetKey,
    OctetKeyPair,
}

impl View for KeyParams {
    type V = KeyParamsView;

    open spec fn view(&self) -> KeyParamsView {
        match self {
            KeyParams::Rsa { n, e } => KeyParamsView::Rsa { n: n@, e: e@ },
            KeyParams::EllipticCurve => KeyParamsView::EllipticCurve,
            KeyParams::OctetKey => KeyParamsView::OctetKey,
            KeyParams::OctetKeyPair => KeyParamsView::OctetKeyPair,
        }
    }
}

/// One verification key.
#[derive(Debug, Clone, PartialEq, Eq)]
pub struct Key {
    /// The identifier by which a token names this key.
    pub kid: Option<String>,
    /// The signature algorithm that the key is declared for.
    pub alg: Option<jsonwebtoken::Algorithm>,
    pub params: KeyParams,
}

pub struct KeyView {
    pub kid: Option<Seq<char>>,
    pub alg: Option<jsonwebtoken::Algorithm>,
    pub params: KeyParamsView,
}

impl View for Key {
    type V = KeyView;

    open spec fn view(&self) -> KeyView {
        KeyView {
            kid: match self.kid {
                Some(kid) => Some(kid@),
                None => None,
            },
            alg: self.alg,
            params: self.params@,
        }
    }
}

/// The keys currently published, in the order of publication.
#[derive(Debug, Clone, PartialEq, Eq)]
pub struct KeySet {
    pub keys: Vec<Key>,
}

impl View for KeySet {
    type V = Seq<KeyView>;

    open spec fn view(&self) -> Seq<KeyView> {
        Seq::new(self.keys@.len(), |i: int| self.keys@[i]@)
    }
}

/// The identifiers of a sequence of keys.
pub open spec fn key_ids(keys: Seq<KeyView>) -> Seq<Option<Seq<char>>> {
    Seq::new(keys.len(), |i: int| keys[i].kid)
}

/// The key that `kid` names: the first one that carries this identifier.
pub open spec fn find_key(keys: Seq<KeyView>, kid: Seq<char>) -> Option<KeyView> {
    let at = position(key_ids(keys), Some(kid));
    if at < keys.len() {
        Some(keys[at])
    } else {
        None
    }
}

/// The keys that a `JwkSet` holds, in its order: of each its identifier, its
/// declared algorithm and its family, with modulus and exponent where the
/// family is RSA.
pub uninterp spec fn jwk_keys(set: jsonwebtoken::jwk::JwkSet) -> Seq<KeyView>;

/// What `serde_json::from_slice` makes of a document when asked for a
/// `JwkSet`: the keys of the set that it returns, or `None` where it fails.
pub uninterp spec fn jwk_set_of(body: Seq<u8>) -> Option<Seq<KeyView>>;

/// Calls `serde_json::from_slice::<JwkSet>` on `body`. The outcome is a
/// function of the bytes alone, named `jwk_set_of`.
#[verifier::external_body]
fn read_jwk_set(body: &[u8]) -> (read: Result<jsonwebtoken::jwk::JwkSet, serde_json::Error>)
    ensures
        match read {
            Ok(set) => jwk_set_of(body@) == Some(jwk_keys(set)),
            Err(_) => jwk_set_of(body@) is None,
        },
{
    serde_json::from_slice::<jsonwebtoken::jwk::JwkSet>(body)
}

/// The length of the public field `keys` of a `JwkSet`.
#[verifier::external_body]
fn jwk_count(set: &jsonwebtoken::jwk::JwkSet) -> (count: usize)
    ensures
        count == jwk_keys(*set).len(),
{
    set.keys.len()
}

/// Hands out the key at `index` of a `JwkSet`: the fields `key_id` and
/// `algorithm` of its common parameters, the variant of its algorithm
/// parameters, and `n` and `e` of an RSA key.
#[verifier::external_body]
fn jwk_at(set: &jsonwebtoken::jwk::JwkSet, index: usize) -> (key: Key)
    requires
        index < jwk_keys(*set).len(),
    ensures
        key@ == jwk_keys(*set)[index as int],
{
    let jwk = &set.keys[index];
    let params = match &jwk.algorithm {
        jsonwebtoken::jwk::AlgorithmParameters::RSA(rsa) => KeyParams::Rsa {
            n: rsa.n.clone(),
            e: rsa.e.clone(),
        },
        jsonwebtoken::jwk::AlgorithmParameters::EllipticCurve(_) => KeyParams::EllipticCurve,
        jsonwebtoken::jwk::AlgorithmParameters::OctetKey(_) => KeyParams::OctetKey,
        jsonwebtoken::jwk::AlgorithmParameters::OctetKeyPair(_) => KeyParams::OctetKeyPair,
    };
    Key { kid: jwk.common.key_id.clone(), alg: jwk.common.algorithm, params }
}

impl KeySet {
    /// Reads a key set from the body of the key source's answer.
    pub fn parse(body: &[u8]) -> (parsed: Result<KeySet, RestError>)
        ensures
            match parsed {
                Ok(set) => jwk_set_of(body@) == Some(set@),
                Err(e) => e == RestError::KeySourceUnavailable && jwk_set_of(body@) is None,
            },
    {
        let set = match read_jwk_set(body) {
            Ok(set) => set,
            Err(_) => {
                return Err(RestError::KeySourceUnavailable);
            },
        };
        let count = jwk_count(&set);
        let mut keys: Vec<Key> = Vec::new();
        let mut i: usize = 0;
        while i < count
            invariant
                i <= count,
                count == jwk_keys(set).len(),
                keys@.len() == i,
                forall|k: int| 0 <= k < i ==> keys@[k]@ == jwk_keys(set)[k],
            decreases count - i,
        {
            keys.push(jwk_at(&set, i));
            i += 1;
        }
        let parsed = KeySet { keys };
        Ok(parsed)
    }

    /// The key that a token's key identifier names, if the set holds one.
    pub fn find(&self, kid: &str) -> (found: Option<&Key>)
        ensures
            match found {
                Some(key) => find_key(self@, kid@) == Some(key@),
                None => find_key(self@, kid@) is None,
            },
    {
        let mut i: usize = 0;
        while i < self.keys.len()
            invariant
                i <= self.keys.len(),
                forall|k: int| 0 <= k < i ==> key_ids(self@)[k] != Some(kid@),
            decreases self.keys.len() - i,
        {
            let named = match &self.keys[i].kid {
                Some(id) => str_eq(id.as_str(), kid),
                None => false,
            };
            if named {
                proof {
                    lemma_position_unique(key_ids(self@), Some(kid@), i as int);
                }
                return Some(&self.keys[i]);
            }
            i += 1;
        }
        proof {
            lemma_position_unique(key_ids(self@), Some(kid@), i as int);
        }
        None
    }
}

} // verus!
