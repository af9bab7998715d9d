//! The claim set of a verified bearer token.

use vstd::prelude::*;

verus! {

/// What a verified token says of its bearer.
#[derive(Debug, Clone, PartialEq, Eq)]
pub struct Claims {
    /// Subject: who the token was issued to.
    pub sub: String,
    /// Expiry, in seconds since the Unix epoch.
    pub exp: i64,
    /// Audience that the token is meant for.
    pub aud: String,
    /// Issuer of the token.
    pub iss: String,
    /// Identifier of the token itself.
    pub jti: String,
    /// Permission strings, in the order in which the token lists them.
    pub scp: Vec<String>,
}

/// The mathematical content of a claim set.
pub struct ClaimsView {
    pub sub: Seq<char>,
    pub exp: int,
    pub aud: Seq<char>,
    pub iss: Seq<char>,
    pub jti: Seq<char>,
    pub scp: Seq<Seq<char>>,
}

impl View for Claims {
    type V = ClaimsView;

    open spec fn view(&self) -> ClaimsView {
        ClaimsView {
            sub: self.sub@,
            exp: self.exp as int,
            aud: self.aud@,
            iss: self.iss@,
            jti: self.jti@,
            scp: self.scp.deep_view(),
        }
    }
}

} // verus!
