//! Bearer tokens: from the `Authorization` header to the claims of a token
//! whose signature and validity the token library has confirmed.

use vstd::prelude::*;
use crate::claims::{Claims, ClaimsView};
use crate::error::RestError;
use crate::text::{after, before, field_end, lemma_field, slice_of, to_chars};

verus! {

/// The token of an `Authorization` header value: what stands between its
/// first space and the next one (or the end). `None` for a value without a
/// space.
pub open spec fn bearer_token(header: Seq<char>) -> Option<Seq<char>> {
    match after(header, ' ') {
        Some(rest) => Some(before(rest, ' ')),
        None => None,
    }
}

/// Splits the token off an `Authorization` header value.
pub fn split_bearer(header: &str) -> (token: Option<String>)
    ensures
        match token {
            Some(t) => bearer_token(header@) == Some(t@),
            None => bearer_token(header@) is None,
        },
{
    let chars = to_chars(header);
    let n = chars.len();
    proof {
        assert(header@.subrange(0, n as int) =~= header@);
        lemma_field(header@, 0, n as int, ' ');
    }
    let space = field_end(&chars, 0, n, ' ');
    if space >= n {
        return None;
    }
    proof {
        lemma_field(header@, space + 1, n as int, ' ');
    }
    let end = field_end(&chars, space + 1, n, ' ');
    Some(slice_of(header, space + 1, end))
}

/// What `jsonwebtoken::decode_header` finds in a token: `None` where it
/// fails, else the key identifier of the header, which may be absent, and
/// the algorithm that the header declares.
pub uninterp spec fn token_header(token: Seq<char>) -> Option<
    (Option<Seq<char>>, jsonwebtoken::Algorithm),
>;

/// The key identifier in the header of a token: `None` where the header
/// cannot be read, `Some(None)` where it names no key.
pub open spec fn header_key_id(token: Seq<char>) -> Option<Option<Seq<char>>> {
    match token_header(token) {
        Some(header) => Some(header.0),
        None => None,
    }
}

/// The algorithm that the header of a token declares: `None` where the
/// header cannot be read.
pub open spec fn header_algorithm(token: Seq<char>) -> Option<jsonwebtoken::Algorithm> {
    match token_header(token) {
        Some(header) => Some(header.1),
        None => None,
    }
}

/// The checks that `Validation::new` makes for one algorithm, once the
/// switches for expiry and not-before are set and `set_audience` has been
/// given the one audience. Two such values built from the same four
/// arguments are equal by the `==` of `Validation`.
pub uninterp spec fn checks_for(
    algorithm: jsonwebtoken::Algorithm,
    check_expiry: bool,
    check_not_before: bool,
    audience: Seq<char>,
) -> jsonwebtoken::Validation;

/// The claims document that a token carries: what `jsonwebtoken::decode`
/// hands out as the claims of a token that it accepts. It reads them from the
/// token's second part alone, so they are a function of the token.
pub uninterp spec fn token_document(token: Seq<char>) -> Option<serde_json::Value>;

/// What `DecodingKey::from_rsa_components` makes of a modulus and an
/// exponent: `None` where it refuses them.
pub uninterp spec fn rsa_key(n: Seq<char>, e: Seq<char>) -> Option<jsonwebtoken::DecodingKey>;

/// What `Value::get` finds in a JSON document under a string key.
pub uninterp spec fn json_member(doc: serde_json::Value, key: Seq<char>) -> Option<
    serde_json::Value,
>;

/// What `Value::as_str` makes of a JSON value: its text, if it is a string.
pub uninterp spec fn json_text(value: serde_json::Value) -> Option<Seq<char>>;

/// What `Value::as_i64` makes of a JSON value: the number, if it is an
/// integer that fits.
pub uninterp spec fn json_integer(value: serde_json::Value) -> Option<i64>;

/// What `Value::as_array` makes of a JSON value: its items, if it is an
/// array.
pub uninterp spec fn json_items(value: serde_json::Value) -> Option<Seq<serde_json::Value>>;

/// Calls `jsonwebtoken::decode_header` and picks the fields `kid` and `alg`
/// of the header. The outcome is a function of the token alone, named
/// `token_header`.
#[verifier::external_body]
pub(crate) fn read_header(token: &str) -> (read: Result<
    (Option<String>, jsonwebtoken::Algorithm),
    jsonwebtoken::errors::Error,
>)
    ensures
        match read {
            Ok((Some(kid), algorithm)) => token_header(token@) == Some((Some(kid@), algorithm)),
            Ok((None, algorithm)) => token_header(token@) == Some(
                (None::<Seq<char>>, algorithm),
            ),
            Err(_) => token_header(token@) is None,
        },
{
    jsonwebtoken::decode_header(token).map(|header| (header.kid, header.alg))
}

/// Calls `DecodingKey::from_rsa_components`, which decodes both strings from
/// URL-safe base64. The outcome is a function of the two, named `rsa_key`.
#[verifier::external_body]
pub(crate) fn rsa_decoding_key(n: &str, e: &str) -> (made: Result<
    jsonwebtoken::DecodingKey,
    jsonwebtoken::errors::Error,
>)
    ensures
        match made {
            Ok(key) => rsa_key(n@, e@) == Some(key),
            Err(_) => rsa_key(n@, e@) is None,
        },
{
    jsonwebtoken::DecodingKey::from_rsa_components(n, e)
}

/// Builds the checks for `jsonwebtoken::decode`: `Validation::new` for the
/// one algorithm, the two public switches for expiry and not-before, and
/// `set_audience` with the one audience. The outcome is a function of the
/// four arguments, named `checks_for`.
#[verifier::external_body]
pub(crate) fn validation_for(
    algorithm: jsonwebtoken::Algorithm,
    check_expiry: bool,
    check_not_before: bool,
    audience: &str,
) -> (made: jsonwebtoken::Validation)
    ensures
        made == checks_for(algorithm, check_expiry, check_not_before, audience@),
{
    let mut validation = jsonwebtoken::Validation::new(algorithm);
    validation.validate_exp = check_expiry;
    validation.validate_nbf = check_not_before;
    validation.set_audience(&[audience]);
    validation
}

/// Calls `jsonwebtoken::decode` and hands out the claims of the token as a
/// JSON document. Whether it accepts the token depends on the signature and
/// on the system clock, so nothing is claimed of that. Where it does, the
/// document is the one that the token carries, named `token_document`. The
/// call takes the clock to stand more than a minute after the Unix epoch.
#[verifier::external_body]
pub(crate) fn decode_payload(
    token: &str,
    key: &jsonwebtoken::DecodingKey,
    validation: &jsonwebtoken::Validation,
) -> (decoded: Result<serde_json::Value, jsonwebtoken::errors::Error>)
    ensures
        decoded matches Ok(doc) ==> token_document(token@) == Some(doc),
{
    jsonwebtoken::decode::<serde_json::Value>(token, key, validation).map(|data| data.claims)
}

/// Calls `Value::get` with a string key, which finds the member of that name
/// in a JSON object and nothing in any other value. The outcome is a function
/// of document and key, named `json_member`.
#[verifier::external_body]
fn member<'a>(doc: &'a serde_json::Value, key: &str) -> (found: Option<&'a serde_json::Value>)
    ensures
        match found {
            Some(value) => json_member(*doc, key@) == Some(*value),
            None => json_member(*doc, key@) is None,
        },
{
    doc.get(key)
}

/// Calls `Value::as_str`, which hands out the text of a JSON string and
/// nothing for any other value. The outcome is named `json_text`.
#[verifier::external_body]
fn text_of(value: &serde_json::Value) -> (text: Option<&str>)
    ensures
        match text {
            Some(t) => json_text(*value) == Some(t@),
            None => json_text(*value) is None,
        },
{
    value.as_str()
}

/// Calls `Value::as_i64`, which hands out a JSON number that is an integer
/// within `i64` and nothing for any other value. The outcome is named
/// `json_integer`.
#[verifier::external_body]
fn integer_of(value: &serde_json::Value) -> (number: Option<i64>)
    ensures
        number == json_integer(*value),
{
    value.as_i64()
}

/// Calls `Value::as_array`, which hands out the items of a JSON array and
/// nothing for any other value. The outcome is named `json_items`.
#[verifier::external_body]
fn items_of(value: &serde_json::Value) -> (items: Option<&Vec<serde_json::Value>>)
    ensures
        match items {
            Some(list) => json_items(*value) == Some(list@),
            None => json_items(*value) is None,
        },
{
    value.as_array()
}

/// The text under `key` of a JSON document, if it holds a string there.
pub open spec fn text_member(doc: serde_json::Value, key: Seq<char>) -> Option<Seq<char>> {
    match json_member(doc, key) {
        Some(value) => json_text(value),
        None => None,
    }
}

/// The integer under `key` of a JSON document, if it holds one there.
pub open spec fn integer_member(doc: serde_json::Value, key: Seq<char>) -> Option<i64> {
    match json_member(doc, key) {
        Some(value) => json_integer(value),
        None => None,
    }
}

/// The texts of a list of JSON values, if every one of them is a string.
pub open spec fn texts(items: Seq<serde_json::Value>) -> Option<Seq<Seq<char>>> {
    if forall|i: int| 0 <= i < items.len() ==> (#[trigger] json_text(items[i])) is Some {
        Some(Seq::new(items.len(), |i: int| json_text(items[i]).unwrap()))
    } else {
        None
    }
}

/// The texts under `key` of a JSON document, if it holds an array of strings
/// there.
pub open spec fn text_list_member(doc: serde_json::Value, key: Seq<char>) -> Option<
    Seq<Seq<char>>,
> {
    match json_member(doc, key) {
        Some(value) => match json_items(value) {
            Some(items) => texts(items),
            None => None,
        },
        None => None,
    }
}

/// The claim set that a token's claims document holds: subject, audience,
/// issuer and token identifier as strings, the expiry as an integer, the
/// permission strings as an array of strings. `None` where one of the six is
/// missing or of another type.
pub open spec fn payload_claims(doc: serde_json::Value) -> Option<ClaimsView> {
    match (
        text_member(doc, "sub"@),
        integer_member(doc, "exp"@),
        text_member(doc, "aud"@),
        text_member(doc, "iss"@),
        text_member(doc, "jti"@),
        text_list_member(doc, "scp"@),
    ) {
        (Some(sub), Some(exp), Some(aud), Some(iss), Some(jti), Some(scp)) => Some(
            ClaimsView { sub, exp: exp as int, aud, iss, jti, scp },
        ),
        _ => None,
    }
}

/// Reads the string under `key` of a JSON document.
fn read_text(doc: &serde_json::Value, key: &str) -> (text: Option<String>)
    ensures
        match text {
            Some(t) => text_member(*doc, key@) == Some(t@),
            None => text_member(*doc, key@) is None,
        },
{
    match member(doc, key) {
        Some(value) => match text_of(value) {
            Some(t) => Some(t.to_owned()),
            None => None,
        },
        None => None,
    }
}

/// Reads the integer under `key` of a JSON document.
fn read_integer(doc: &serde_json::Value, key: &str) -> (number: Option<i64>)
    ensures
        number == integer_member(*doc, key@),
{
    match member(doc, key) {
        Some(value) => integer_of(value),
        None => None,
    }
}

/// Reads the array of strings under `key` of a JSON document.
#[verifier::loop_isolation(false)]
fn read_text_list(doc: &serde_json::Value, key: &str) -> (list: Option<Vec<String>>)
    ensures
        match list {
            Some(l) => text_list_member(*doc, key@) == Some(l.deep_view()),
            None => text_list_member(*doc, key@) is None,
        },
{
    let items = match member(doc, key) {
        Some(value) => match items_of(value) {
            Some(items) => items,
            None => {
                return None;
            },
        },
        None => {
            return None;
        },
    };
    let mut list: Vec<String> = Vec::new();
    let mut i: usize = 0;
    while i < items.len()
        invariant
            i <= items.len(),
            list@.len() == i,
            forall|k: int| 0 <= k < i ==> #[trigger] json_text(items@[k]) == Some(list@[k]@),
        decreases items.len() - i,
    {
        match text_of(&items[i]) {
            Some(t) => {
                list.push(t.to_owned());
            },
            None => {
                return None;
            },
        }
        i += 1;
    }
    Some(list)
}

impl Claims {
    /// Reads the claim set out of the claims document of a token.
    pub fn from_payload(doc: &serde_json::Value) -> (read: Result<Claims, RestError>)
        ensures
            match read {
                Ok(claims) => payload_claims(*doc) == Some(claims@),
                Err(e) => e == RestError::InvalidToken && payload_claims(*doc) is None,
            },
    {
        let sub = read_text(doc, "sub");
        let exp = read_integer(doc, "exp");
        let aud = read_text(doc, "aud");
        let iss = read_text(doc, "iss");
        let jti = read_text(doc, "jti");
        let scp = read_text_list(doc, "scp");
        match (sub, exp, aud, iss, jti, scp) {
            (Some(sub), Some(exp), Some(aud), Some(iss), Some(jti), Some(scp)) => Ok(
                Claims { sub, exp, aud, iss, jti, scp },
            ),
            _ => Err(RestError::InvalidToken),
        }
    }
}

/// What a verification returns once the token library has spoken: the claim
/// set of the claims document that it handed out, and `InvalidToken` where it
/// refused the token or where the document is no claim set.
pub open spec fn verdict_on(
    decoded: Result<serde_json::Value, jsonwebtoken::errors::Error>,
) -> Result<ClaimsView, RestError> {
    match decoded {
        Ok(doc) => match payload_claims(doc) {
            Some(claims) => Ok(claims),
            None => Err(RestError::InvalidToken),
        },
        Err(_) => Err(RestError::InvalidToken),
    }
}

/// Turns the token library's answer into the outcome of the verification.
pub fn accept_decoded(
    decoded: Result<serde_json::Value, jsonwebtoken::errors::Error>,
) -> (outcome: Result<Claims, RestError>)
    ensures
        match outcome {
            Ok(claims) => verdict_on(decoded) == Ok::<ClaimsView, RestError>(claims@),
            Err(e) => verdict_on(decoded) == Err::<ClaimsView, RestError>(e),
        },
{
    match decoded {
        Ok(doc) => Claims::from_payload(&doc),
        Err(_) => Err(RestError::InvalidToken),
    }
}

} // verus!
