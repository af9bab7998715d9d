//! The key set cache, token verification against it, and the decision that
//! the gateway takes on each request.
//!
//! Nothing here waits or fetches. The cache says when a fetch is due and
//! takes the answer of the key source as plain values; who owns the cache
//! does the fetching.

use vstd::prelude::*;
use crate::claims::{Claims, ClaimsView};
use crate::config::Args;
use crate::error::RestError;
use crate::keys::{
    algorithm_name, find_key, jwk_set_of, name_of, KeyParams, KeyParamsView, KeySet, KeyView,
};
use crate::scopes::AuthorizeScope;
use crate::table::clone_names;
use crate::token::{
    accept_decoded, bearer_token, checks_for, decode_payload, header_algorithm, header_key_id,
    payload_claims, read_header, rsa_decoding_key, rsa_key, split_bearer, token_document,
    validation_for,
};

verus! {

/// Age in seconds from which a key set counts as stale.
pub const REFRESH_AFTER: i64 = 360;

/// How often an empty cache is filled from the key source before a request
/// is given up.
pub const FIRST_FETCH_ATTEMPTS: usize = 3;

/// The status with which a request without valid authentication is refused.
pub const UNAUTHORIZED: u16 = 401;

/// Whether a key set fetched at `last_fetch` is stale at `now`.
pub open spec fn is_stale(last_fetch: int, now: int) -> bool {
    now - last_fetch >= REFRESH_AFTER
}

/// The time of the last fetch once a fetch at `now` has succeeded: it never
/// moves backwards.
pub open spec fn refreshed_at(last_fetch: int, now: int) -> int {
    if now >= last_fetch {
        now
    } else {
        last_fetch
    }
}

/// The key that verifies the token of an `Authorization` header value, or
/// the failure that ends the verification before any signature is looked at.
pub open spec fn key_for(keys: Option<Seq<KeyView>>, header: Seq<char>) -> Result<
    KeyView,
    RestError,
> {
    match bearer_token(header) {
        None => Err(RestError::MalformedToken),
        Some(token) => match keys {
            None => Err(RestError::KeySourceUnavailable),
            Some(set) => match header_key_id(token) {
                Some(Some(kid)) => match find_key(set, kid) {
                    Some(key) => if key.params is Rsa {
                        Ok(key)
                    } else {
                        Err(RestError::UnsupportedAlgorithm)
                    },
                    None => Err(RestError::UnknownKey),
                },
                _ => Err(RestError::MalformedToken),
            },
        },
    }
}

/// The algorithm that a token is verified under: the one that the key
/// declares; for a key that declares none, the one that the header of the
/// token declares, if that one signs with an RSA key.
pub open spec fn verifying_algorithm(key: KeyView, token: Seq<char>) -> Option<
    jsonwebtoken::Algorithm,
> {
    match key.alg {
        Some(algorithm) => Some(algorithm),
        None => match header_algorithm(token) {
            Some(algorithm) => if algorithm_name(algorithm).rsa() {
                Some(algorithm)
            } else {
                None
            },
            None => None,
        },
    }
}

/// The claim set that the token of an `Authorization` header value carries,
/// whether or not the token is valid; `None` where there is no token, or no
/// claim set in it.
pub open spec fn carried_claims(header: Seq<char>) -> Option<ClaimsView> {
    match bearer_token(header) {
        Some(token) => match token_document(token) {
            Some(doc) => payload_claims(doc),
            None => None,
        },
        None => None,
    }
}

/// What the owner of an empty or filled cache does next.
#[derive(Debug, Clone, Copy, PartialEq, Eq, Structural)]
pub enum KeysStep {
    /// The cache holds a key set: go on with the request.
    Ready,
    /// The cache is empty: fetch the key set, record the answer, ask again.
    Fetch,
    /// The cache is still empty after the last attempt: give the request up.
    GiveUp,
}

/// The published keys as last fetched, and when that was.
#[derive(Debug)]
pub struct JwksKeys {
    uri: Option<String>,
    audience: Option<String>,
    jwks: Option<KeySet>,
    last_read: i64,
}

impl JwksKeys {
    /// The current key set; `None` until the first fetch has succeeded.
    pub closed spec fn key_set(&self) -> Option<Seq<KeyView>> {
        match self.jwks {
            Some(set) => Some(set@),
            None => None,
        }
    }

    /// When the key set was last fetched, in seconds since the Unix epoch; 0
    /// before the first fetch.
    pub closed spec fn last_fetch(&self) -> int {
        self.last_read as int
    }

    /// Where the key set is published.
    pub closed spec fn source(&self) -> Option<Seq<char>> {
        match self.uri {
            Some(uri) => Some(uri@),
            None => None,
        }
    }

    /// The audience that tokens must be issued for.
    pub closed spec fn expected_audience(&self) -> Option<Seq<char>> {
        match self.audience {
            Some(audience) => Some(audience@),
            None => None,
        }
    }

    /// Whether a token can be handed to the token library, and the failure
    /// that ends the verification where it cannot: the failures of `key_for`;
    /// `InvalidToken` for an RSA key whose modulus or exponent cannot be
    /// decoded; `UnsupportedAlgorithm` where there is no RSA algorithm to
    /// verify under; `InvalidToken` where no audience is configured to hold
    /// the token to.
    pub open spec fn ready_to_decode(&self, header: Seq<char>) -> Result<(), RestError> {
        match key_for(self.key_set(), header) {
            Err(e) => Err(e),
            Ok(key) => match (key.params, bearer_token(header)) {
                (KeyParamsView::Rsa { n, e }, Some(token)) => if rsa_key(n, e) is None {
                    Err(RestError::InvalidToken)
                } else if verifying_algorithm(key, token) is None {
                    Err(RestError::UnsupportedAlgorithm)
                } else if self.expected_audience() is None {
                    Err(RestError::InvalidToken)
                } else {
                    Ok(())
                },
                _ => Err(RestError::UnsupportedAlgorithm),
            },
        }
    }

    /// An empty cache for the key source and the audience of `args`.
    pub fn new(args: Args) -> (made: Result<Self, RestError>)
        ensures
            made matches Ok(cache) && cache.key_set() is None && cache.last_fetch() == 0
                && cache.source() == match args.jwks {
                Some(uri) => Some(uri@),
                None => None,
            } && cache.expected_audience() == match args.audience {
                Some(audience) => Some(audience@),
                None => None,
            },
    {
        Ok(JwksKeys { uri: args.jwks, audience: args.audience, jwks: None, last_read: 0 })
    }

    /// Where to fetch the key set from.
    pub fn uri(&self) -> (uri: Option<&str>)
        ensures
            match uri {
                Some(u) => self.source() == Some(u@),
                None => self.source() is None,
            },
    {
        match &self.uri {
            Some(uri) => Some(uri.as_str()),
            None => None,
        }
    }

    /// The current key set, or `KeySourceUnavailable` while the cache is
    /// empty.
    pub fn keys(&self) -> (current: Result<&KeySet, RestError>)
        ensures
            match current {
                Ok(set) => self.key_set() == Some(set@),
                Err(e) => e == RestError::KeySourceUnavailable && self.key_set() is None,
            },
    {
        match &self.jwks {
            Some(set) => Ok(set),
            None => Err(RestError::KeySourceUnavailable),
        }
    }

    /// What to do before the keys are read, after `fetches` attempts to fill
    /// the cache for this request.
    pub fn keys_step(&self, fetches: usize) -> (step: KeysStep)
        ensures
            step == if self.key_set() is Some {
                KeysStep::Ready
            } else if fetches < FIRST_FETCH_ATTEMPTS {
                KeysStep::Fetch
            } else {
                KeysStep::GiveUp
            },
    {
        if self.jwks.is_some() {
            KeysStep::Ready
        } else if fetches < FIRST_FETCH_ATTEMPTS {
            KeysStep::Fetch
        } else {
            KeysStep::GiveUp
        }
    }

    /// Records the answer of the key source to a fetch that ended at `now`.
    ///
    /// A 200 whose body is a key set replaces the cached key set and moves
    /// the time of the last fetch to `now`, unless that would move it
    /// backwards. Any other answer is a failure and leaves the cache as it
    /// was: a cache that holds keys is never emptied.
    pub fn get_keys(&mut self, status: u16, body: &[u8], now: i64) -> (recorded: Result<
        (),
        RestError,
    >)
        ensures
            final(self).source() == old(self).source(),
            final(self).expected_audience() == old(self).expected_audience(),
            final(self).last_fetch() >= old(self).last_fetch(),
            old(self).key_set() is Some ==> final(self).key_set() is Some,
            match recorded {
                Ok(_) => {
                    &&& status == 200
                    &&& final(self).key_set() is Some
                    &&& final(self).key_set() == jwk_set_of(body@)
                    &&& final(self).last_fetch() == refreshed_at(old(self).last_fetch(), now as int)
                },
                Err(e) => {
                    &&& final(self).key_set() == old(self).key_set()
                    &&& final(self).last_fetch() == old(self).last_fetch()
                    &&& status != 200 ==> e == RestError::BadStatusCode
                    &&& status == 200 ==> e == RestError::KeySourceUnavailable && jwk_set_of(body@)
                        is None
                },
            },
    {
        if status != 200 {
            return Err(RestError::BadStatusCode);
        }
        let set = match KeySet::parse(body) {
            Ok(set) => set,
            Err(e) => {
                return Err(e);
            },
        };
        self.jwks = Some(set);
        if now > self.last_read {
            self.last_read = now;
        }
        Ok(())
    }

    /// Whether the key set is stale at `now`, so that a fetch is to be
    /// started in the background.
    pub fn renew(&self, now: i64) -> (due: bool)
        ensures
            due == is_stale(self.last_fetch(), now as int),
    {
        now as i128 - self.last_read as i128 >= REFRESH_AFTER as i128
    }

    /// Prepares the call of the token library for the token of an
    /// `Authorization` header value: the token, the key that its key
    /// identifier names, and the checks of algorithm, expiry, not-before and
    /// the configured audience. Where the token cannot be handed over, the
    /// failure of `ready_to_decode`.
    pub fn decode_call(&self, header: &str) -> (call: Result<
        (String, jsonwebtoken::DecodingKey, jsonwebtoken::Validation),
        RestError,
    >)
        ensures
            match self.ready_to_decode(header@) {
                Err(e) => call == Err::<
                    (String, jsonwebtoken::DecodingKey, jsonwebtoken::Validation),
                    RestError,
                >(e),
                Ok(_) => call matches Ok(made) && bearer_token(header@) == Some(made.0@)
                    && (key_for(self.key_set(), header@) matches Ok(key) && (key.params
                    matches KeyParamsView::Rsa { n, e } && rsa_key(n, e) == Some(made.1)
                    && (verifying_algorithm(key, made.0@) matches Some(algorithm) && (
                self.expected_audience() matches Some(audience) && made.2 == checks_for(
                    algorithm,
                    true,
                    true,
                    audience,
                ))))),
            },
    {
        let token = match split_bearer(header) {
            Some(token) => token,
            None => {
                return Err(RestError::MalformedToken);
            },
        };
        let set = match &self.jwks {
            Some(set) => set,
            None => {
                return Err(RestError::KeySourceUnavailable);
            },
        };
        let (kid, declared) = match read_header(token.as_str()) {
            Ok((Some(kid), declared)) => (kid, declared),
            _ => {
                return Err(RestError::MalformedToken);
            },
        };
        let key = match set.find(kid.as_str()) {
            Some(key) => key,
            None => {
                return Err(RestError::UnknownKey);
            },
        };
        let decoding_key = match &key.params {
            KeyParams::Rsa { n, e } => match rsa_decoding_key(n.as_str(), e.as_str()) {
                Ok(decoding_key) => decoding_key,
                Err(_) => {
                    return Err(RestError::InvalidToken);
                },
            },
            _ => {
                return Err(RestError::UnsupportedAlgorithm);
            },
        };
        let algorithm = match key.alg {
            Some(algorithm) => algorithm,
            None => {
                if !name_of(declared).is_rsa() {
                    return Err(RestError::UnsupportedAlgorithm);
                }
                declared
            },
        };
        let audience = match &self.audience {
            Some(audience) => audience,
            None => {
                return Err(RestError::InvalidToken);
            },
        };
        let validation = validation_for(algorithm, true, true, audience.as_str());
        Ok((token, decoding_key, validation))
    }

    /// Verifies the token of an `Authorization` header value against the
    /// cached key set and returns its claims.
    pub fn scopes(&self, header: &str) -> (verified: Result<Claims, RestError>)
        ensures
            match self.ready_to_decode(header@) {
                Err(e) => verified == Err::<Claims, RestError>(e),
                Ok(_) => match verified {
                    Ok(claims) => carried_claims(header@) == Some(claims@),
                    Err(e) => e == RestError::InvalidToken,
                },
            },
    {
        let (token, key, validation) = match self.decode_call(header) {
            Ok(call) => call,
            Err(e) => {
                return Err(e);
            },
        };
        accept_decoded(decode_payload(token.as_str(), &key, &validation))
    }
}

/// The names under which this server's cluster is known: the configured
/// override first, then the name that the data store reports.
pub open spec fn cluster_names(configured: Option<Seq<char>>, reported: Option<Seq<char>>) -> Option<
    Seq<Seq<char>>,
> {
    match (configured, reported) {
        (Some(a), Some(b)) => Some(seq![a, b]),
        (Some(a), None) => Some(seq![a]),
        (None, Some(b)) => Some(seq![b]),
        (None, None) => None,
    }
}

/// What the gateway decides requests by: whether authentication is on, the
/// names of this server's cluster, and the key set cache.
#[derive(Debug)]
pub struct AuthJwks {
    replicaset: Option<Vec<String>>,
    noauth: bool,
    keys: JwksKeys,
}

impl AuthJwks {
    /// Whether requests are served without authentication.
    pub closed spec fn is_noauth(&self) -> bool {
        self.noauth
    }

    /// The names under which this server's cluster is known.
    pub closed spec fn cluster_ids(&self) -> Option<Seq<Seq<char>>> {
        match self.replicaset {
            Some(ids) => Some(ids.deep_view()),
            None => None,
        }
    }

    /// The key set cache.
    pub closed spec fn cache(&self) -> JwksKeys {
        self.keys
    }

    /// The state of a gateway started with `args`, on a data store that
    /// reports the cluster name `set`.
    pub fn new(args: Args, set: Option<String>) -> (made: Result<Self, RestError>)
        ensures
            made matches Ok(state) && state.is_noauth() == args.noauth && state.cluster_ids()
                == cluster_names(
                match args.replicaset {
                    Some(name) => Some(name@),
                    None => None,
                },
                match set {
                    Some(name) => Some(name@),
                    None => None,
                },
            ) && state.cache().key_set() is None && state.cache().last_fetch() == 0
                && state.cache().source() == match args.jwks {
                Some(uri) => Some(uri@),
                None => None,
            } && state.cache().expected_audience() == match args.audience {
                Some(audience) => Some(audience@),
                None => None,
            },
    {
        let mut args = args;
        let noauth = args.noauth;
        let configured = args.replicaset.take();
        let keys = match JwksKeys::new(args) {
            Ok(keys) => keys,
            Err(e) => {
                return Err(e);
            },
        };
        let mut names: Vec<String> = Vec::new();
        if let Some(name) = configured {
            names.push(name);
        }
        if let Some(name) = set {
            names.push(name);
        }
        let replicaset = if names.len() > 0 {
            Some(names)
        } else {
            None
        };
        Ok(AuthJwks { replicaset, noauth, keys })
    }

    /// Whether requests are served without authentication.
    pub fn noauth(&self) -> (noauth: bool)
        ensures
            noauth == self.is_noauth(),
    {
        self.noauth
    }

    /// The key set cache, to ask it whether a fetch is due.
    pub fn jwks(&self) -> (cache: &JwksKeys)
        ensures
            *cache == self.cache(),
    {
        &self.keys
    }

    /// The current key set, or `KeySourceUnavailable` while the cache is
    /// empty.
    pub fn keys(&self) -> (current: Result<&KeySet, RestError>)
        ensures
            match current {
                Ok(set) => self.cache().key_set() == Some(set@),
                Err(e) => e == RestError::KeySourceUnavailable && self.cache().key_set() is None,
            },
    {
        self.keys.keys()
    }

    /// Records the answer of the key source in the cache, as
    /// `JwksKeys::get_keys` does, and leaves everything else as it was.
    pub fn get_keys(&mut self, status: u16, body: &[u8], now: i64) -> (recorded: Result<
        (),
        RestError,
    >)
        ensures
            final(self).is_noauth() == old(self).is_noauth(),
            final(self).cluster_ids() == old(self).cluster_ids(),
            final(self).cache().source() == old(self).cache().source(),
            final(self).cache().expected_audience() == old(self).cache().expected_audience(),
            final(self).cache().last_fetch() >= old(self).cache().last_fetch(),
            match recorded {
                Ok(_) => {
                    &&& status == 200
                    &&& final(self).cache().key_set() is Some
                    &&& final(self).cache().key_set() == jwk_set_of(body@)
                    &&& final(self).cache().last_fetch() == refreshed_at(
                        old(self).cache().last_fetch(),
                        now as int,
                    )
                },
                Err(e) => {
                    &&& final(self).cache().key_set() == old(self).cache().key_set()
                    &&& final(self).cache().last_fetch() == old(self).cache().last_fetch()
                    &&& status != 200 ==> e == RestError::BadStatusCode
                    &&& status == 200 ==> e == RestError::KeySourceUnavailable && jwk_set_of(body@)
                        is None
                },
            },
    {
        self.keys.get_keys(status, body, now)
    }

    /// Verifies the token of an `Authorization` header value and builds the
    /// context of the request from its claims.
    pub fn scopes(&self, header: &str) -> (built: Result<AuthorizeScope, RestError>)
        ensures
            match self.cache().ready_to_decode(header@) {
                Err(e) => built == Err::<AuthorizeScope, RestError>(e),
                Ok(_) => match built {
                    Ok(ctx) => self.cluster_ids() matches Some(ids) && carried_claims(header@)
                        matches Some(claims) && ctx.built_from(ids, claims),
                    Err(e) => e == RestError::InvalidToken || e == RestError::UnauthorizedClient,
                },
            },
    {
        let claims = match self.keys.scopes(header) {
            Ok(claims) => claims,
            Err(e) => {
                return Err(e);
            },
        };
        let cluster = match &self.replicaset {
            Some(ids) => Some(clone_names(ids)),
            None => None,
        };
        AuthorizeScope::new(cluster, claims)
    }
}

/// What becomes of a request once its token has been judged: the context is
/// attached, or the request is refused as unauthenticated whatever the
/// failure was.
pub fn decide(judged: Result<AuthorizeScope, RestError>) -> (decision: Result<AuthorizeScope, u16>)
    ensures
        decision == match judged {
            Ok(ctx) => Ok::<AuthorizeScope, u16>(ctx),
            Err(_) => Err::<AuthorizeScope, u16>(UNAUTHORIZED),
        },
{
    match judged {
        Ok(ctx) => Ok(ctx),
        Err(_) => Err(UNAUTHORIZED),
    }
}

/// Decides one request: the context to attach to it, or the status with
/// which it is refused.
///
/// Without authentication every request gets the no-auth context. Otherwise
/// a request without an `Authorization` header is refused, and so is one
/// whose token fails verification or is not allowed on this cluster.
pub fn auth(state: &AuthJwks, header: Option<&str>) -> (decision: Result<AuthorizeScope, u16>)
    ensures
        state.is_noauth() ==> (decision matches Ok(ctx) && ctx.is_noauth() && ctx.subject()
            == "noauth"@ && ctx.token_id().len() == 0 && ctx.table().len() == 0),
        !state.is_noauth() ==> match header {
            None => decision == Err::<AuthorizeScope, u16>(UNAUTHORIZED),
            Some(h) => match decision {
                Ok(ctx) => {
                    &&& state.cache().ready_to_decode(h@) is Ok
                    &&& state.cluster_ids() matches Some(ids) && carried_claims(h@) matches Some(
                        claims,
                    ) && ctx.built_from(ids, claims)
                },
                Err(status) => status == UNAUTHORIZED,
            },
        },
{
    if state.noauth {
        return Ok(AuthorizeScope::default());
    }
    match header {
        Some(h) => decide(state.scopes(h)),
        None => Err(UNAUTHORIZED),
    }
}

/// A token whose key identifier names no key of the current key set is
/// refused: as `UnknownKey`, or as `KeySourceUnavailable` where there is no
/// key set at all.
pub proof fn lemma_unknown_key_refused(
    cache: JwksKeys,
    header: Seq<char>,
    token: Seq<char>,
    kid: Seq<char>,
)
    requires
        bearer_token(header) == Some(token),
        header_key_id(token) == Some(Some(kid)),
        cache.key_set() matches Some(set) ==> find_key(set, kid) is None,
    ensures
        cache.ready_to_decode(header) == Err::<(), RestError>(
            if cache.key_set() is Some {
                RestError::UnknownKey
            } else {
                RestError::KeySourceUnavailable
            },
        ),
{
}

/// A token whose key identifier names a key of another family than RSA is
/// refused as `UnsupportedAlgorithm`, before its signature is looked at.
pub proof fn lemma_other_family_refused(
    cache: JwksKeys,
    header: Seq<char>,
    token: Seq<char>,
    kid: Seq<char>,
)
    requires
        bearer_token(header) == Some(token),
        header_key_id(token) == Some(Some(kid)),
        cache.key_set() matches Some(set) && find_key(set, kid) matches Some(key) && !(key.params
            is Rsa),
    ensures
        cache.ready_to_decode(header) == Err::<(), RestError>(RestError::UnsupportedAlgorithm),
{
}

/// Once a fetch has been recorded at `fetched`, no further fetch is due at
/// any moment less than `REFRESH_AFTER` seconds later, and one is due at
/// every moment from then on.
pub proof fn lemma_refresh_window(last_fetch: int, fetched: int, now: int)
    ensures
        now - fetched < REFRESH_AFTER ==> !is_stale(refreshed_at(last_fetch, fetched), now),
        now >= refreshed_at(last_fetch, fetched) + REFRESH_AFTER ==> is_stale(
            refreshed_at(last_fetch, fetched),
            now,
        ),
{
}

/// A token that declares an algorithm of another family than RSA, under a
/// key that declares none, is refused as `UnsupportedAlgorithm`, before its
/// signature is looked at.
pub proof fn lemma_other_algorithm_refused(
    cache: JwksKeys,
    header: Seq<char>,
    token: Seq<char>,
    n: Seq<char>,
    e: Seq<char>,
)
    requires
        bearer_token(header) == Some(token),
        key_for(cache.key_set(), header) matches Ok(key) && key.alg is None && key.params
            == (KeyParamsView::Rsa { n, e }),
        rsa_key(n, e) is Some,
        header_algorithm(token) matches Some(algorithm) && !algorithm_name(algorithm).rsa(),
    ensures
        cache.ready_to_decode(header) == Err::<(), RestError>(RestError::UnsupportedAlgorithm),
{
}

} // verus!
