//! What the gateway is started with.

use vstd::prelude::*;

verus! {

/// The settings of one gateway process.
#[derive(Debug, Clone)]
pub struct Args {
    /// Port to listen on.
    pub port: u16,
    /// Connection string of the data store.
    pub uri: String,
    /// User name for the data store.
    pub username: Option<String>,
    /// Password of that user.
    pub password: Option<String>,
    /// Whether every changing operation is refused.
    pub readonly: bool,
    /// Where the key set is published.
    pub jwks: Option<String>,
    /// The audience that tokens must be issued for.
    pub audience: Option<String>,
    /// A cluster name to accept besides the one that the data store reports.
    pub replicaset: Option<String>,
    /// Whether requests are served without authentication.
    pub noauth: bool,
}

} // verus!
