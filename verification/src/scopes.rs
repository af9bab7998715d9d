//! The authorization context of a request: the decision object that the
//! handlers ask before they touch a resource.

use vstd::prelude::*;
use vstd::string::StringExecFns;
use crate::capability::Capability;
use crate::claims::{Claims, ClaimsView};
use crate::clock::{format_utc, unix_now, utc_text};
use crate::error::RestError;
use crate::grammar::{cluster_grant, lemma_kinds_differ, parse_scope, scope_fields, ScopeEntry};
use crate::table::{
    cluster_allowed, clone_table, contains_name, find_resource, grant_role, grants_cluster,
    lemma_cluster_allowed_push, lemma_filter_distinct, lemma_resources_distinct,
    lemma_role_table_push,
    lemma_table_lookup, lookup, resources_of, role_resources, role_table, roles_for, RoleTable,
};
use crate::text::{lemma_position, position, str_eq};

verus! {

/// Whether `name` is a key that the role table keeps for its own use: the
/// `admin` resource and the `cluster` entry.
pub open spec fn is_bookkeeping(name: Seq<char>) -> bool {
    name == "admin"@ || name == "cluster"@
}

/// The texts `parts` in a row, with `sep` between each two.
pub open spec fn joined(parts: Seq<Seq<char>>, sep: Seq<char>) -> Seq<char>
    decreases parts.len(),
{
    if parts.len() == 0 {
        Seq::empty()
    } else if parts.len() == 1 {
        parts[0]
    } else {
        joined(parts.drop_last(), sep) + sep + parts.last()
    }
}

/// One entry of a role table as text: the resource, then each role behind a
/// colon.
pub open spec fn entry_text(entry: (Seq<char>, Seq<Seq<char>>)) -> Seq<char> {
    entry.0 + ":"@ + joined(entry.1, ":"@)
}

/// A role table as text: its entries with commas between them.
pub open spec fn table_text(table: RoleTable) -> Seq<char> {
    joined(Seq::new(table.len(), |i: int| entry_text(table[i])), ","@)
}

/// Writes `parts` in a row, with `sep` between each two.
fn join(parts: &Vec<String>, sep: &str) -> (text: String)
    ensures
        text@ == joined(parts.deep_view(), sep@),
{
    let mut text = String::new();
    let mut i: usize = 0;
    let ghost all = parts.deep_view();
    while i < parts.len()
        invariant
            i <= parts.len(),
            all == parts.deep_view(),
            text@ == joined(all.take(i as int), sep@),
        decreases parts.len() - i,
    {
        if i > 0 {
            text.append(sep);
        }
        text.append(parts[i].as_str());
        proof {
            assert(all.take(i + 1).drop_last() =~= all.take(i as int));
        }
        i += 1;
    }
    assert(all.take(i as int) =~= all);
    text
}

/// The test that a resource name passes if it may be listed to a caller.
pub open spec fn listed() -> spec_fn(Seq<char>) -> bool {
    |name: Seq<char>| !is_bookkeeping(name)
}

/// The answer to a caller who asks which databases there are.
#[derive(Debug, Clone, PartialEq, Eq)]
pub enum DbListing {
    /// Every database of the data store.
    Everything,
    /// These databases and no others.
    Only(Vec<String>),
}

/// The decision object of one request: who asks, and what roles the token
/// grants on which resource.
#[derive(Debug)]
pub struct AuthorizeScope {
    noauth: bool,
    sub: String,
    exp: i64,
    jti: String,
    roles: Vec<(String, Vec<String>)>,
}

impl Clone for AuthorizeScope {
    fn clone(&self) -> (copy: Self)
        ensures
            copy.is_noauth() == self.is_noauth(),
            copy.subject() == self.subject(),
            copy.token_id() == self.token_id(),
            copy.expiry() == self.expiry(),
            copy.table() == self.table(),
    {
        proof {
            use_type_invariant(self);
        }
        let roles = clone_table(&self.roles);
        AuthorizeScope {
            noauth: self.noauth,
            sub: self.sub.clone(),
            exp: self.exp,
            jti: self.jti.clone(),
            roles,
        }
    }
}

impl AuthorizeScope {
    #[verifier::type_invariant]
    spec fn inv(&self) -> bool {
        &&& resources_of(self.roles.deep_view()).no_duplicates()
        &&& self.noauth ==> self.roles@.len() == 0
    }

    /// Whether authentication is switched off for this context.
    pub closed spec fn is_noauth(&self) -> bool {
        self.noauth
    }

    /// The subject of the token.
    pub closed spec fn subject(&self) -> Seq<char> {
        self.sub@
    }

    /// The identifier of the token.
    pub closed spec fn token_id(&self) -> Seq<char> {
        self.jti@
    }

    /// The token's expiry, in seconds since the Unix epoch.
    pub closed spec fn expiry(&self) -> int {
        self.exp as int
    }

    /// The role table, in the order in which its resources were first named.
    pub closed spec fn table(&self) -> RoleTable {
        self.roles.deep_view()
    }

    /// The roles held on `resource`.
    pub open spec fn roles_of(&self, resource: Seq<char>) -> Seq<Seq<char>> {
        lookup(self.table(), resource)
    }

    /// The rule of every capability check: access is granted without
    /// authentication, by a role on `admin` from the capability's admin-scope
    /// set, or by a role on the resource from its resource-scope set.
    pub open spec fn permits(&self, capability: Capability, resource: Seq<char>) -> bool {
        ||| self.is_noauth()
        ||| capability.by_admin(self.roles_of("admin"@))
        ||| capability.by_resource(self.roles_of(resource))
    }

    /// The resources that a caller may see listed: those of the table but
    /// for its bookkeeping keys, in the table's order.
    pub open spec fn visible_resources(&self) -> Seq<Seq<char>> {
        resources_of(self.table()).filter(listed())
    }

    /// Whether this is the context of a request whose token carries `claims`,
    /// on a server whose cluster is known as `ids`: the token is allowed on
    /// one of them, and the context holds its subject, identifier, expiry and
    /// role table.
    pub open spec fn built_from(&self, ids: Seq<Seq<char>>, claims: ClaimsView) -> bool {
        &&& cluster_allowed(ids, claims.scp)
        &&& !self.is_noauth()
        &&& self.subject() == claims.sub
        &&& self.token_id() == claims.jti
        &&& self.expiry() == claims.exp
        &&& self.table() == role_table(claims.scp)
    }

    /// The context of a server that runs without authentication: every
    /// capability check on it succeeds.
    pub fn default() -> (ctx: Self)
        ensures
            ctx.is_noauth(),
            ctx.subject() == "noauth"@,
            ctx.token_id() == Seq::<char>::empty(),
            ctx.table() == Seq::<(Seq<char>, Seq<Seq<char>>)>::empty(),
    {
        let ctx = AuthorizeScope {
            noauth: true,
            sub: String::from_str("noauth"),
            exp: unix_now(),
            jti: String::new(),
            roles: Vec::new(),
        };
        ctx
    }

    /// Builds the context of an authenticated request from the claims of its
    /// token.
    ///
    /// `cluster` holds the names under which this server's cluster is known.
    /// The request is refused unless the token allows one of them.
    pub fn new(cluster: Option<Vec<String>>, claims: Claims) -> (built: Result<Self, RestError>)
        ensures
            match built {
                Ok(ctx) => cluster matches Some(ids) && ctx.built_from(ids.deep_view(), claims@),
                Err(e) => {
                    &&& e == RestError::UnauthorizedClient
                    &&& !(cluster matches Some(ids) && cluster_allowed(
                        ids.deep_view(),
                        claims@.scp,
                    ))
                },
            },
    {
        let ids = match cluster {
            Some(ids) => ids,
            None => {
                return Err(RestError::UnauthorizedClient);
            },
        };
        let Claims { sub, exp, aud: _, iss: _, jti, scp } = claims;
        let ghost scopes = scp.deep_view();
        let mut table: Vec<(String, Vec<String>)> = Vec::new();
        let mut allowed = false;
        let mut i: usize = 0;
        while i < scp.len()
            invariant
                i <= scp.len(),
                scopes == scp.deep_view(),
                table.deep_view() == role_table(scopes.take(i as int)),
                allowed == cluster_allowed(ids.deep_view(), scopes.take(i as int)),
            decreases scp.len() - i,
        {
            proof {
                assert(scopes.take(i + 1) =~= scopes.take(i as int).push(scopes[i as int]));
                lemma_role_table_push(scopes.take(i as int), scopes[i as int]);
                lemma_cluster_allowed_push(
                    ids.deep_view(),
                    scopes.take(i as int),
                    scopes[i as int],
                );
                lemma_kinds_differ();
            }
            match parse_scope(scp[i].as_str()) {
                Some(entry) => {
                    let ScopeEntry { kind, value, action } = entry;
                    if str_eq(kind.as_str(), "role") {
                        grant_role(&mut table, value, action);
                    } else if str_eq(kind.as_str(), "cluster") && str_eq(action.as_str(), "allow") {
                        if contains_name(&ids, value.as_str()) {
                            allowed = true;
                        }
                    }
                },
                None => {},
            }
            i += 1;
        }
        assert(scopes.take(i as int) =~= scopes);
        if !allowed {
            return Err(RestError::UnauthorizedClient);
        }
        proof {
            lemma_resources_distinct(scopes);
        }
        Ok(AuthorizeScope { noauth: false, sub, exp, jti, roles: table })
    }

    /// One line that says what this context holds: subject, token
    /// identifier, expiry as a UTC date and time, and the role table. `None`
    /// where the expiry lies outside the years that the calendar can name.
    pub open spec fn text(&self) -> Option<Seq<char>> {
        match utc_text(self.expiry() as i64) {
            Some(expiry) => Some(
                "sub="@ + self.subject() + ", jti="@ + self.token_id() + ", exp="@ + expiry
                    + ", roles="@ + table_text(self.table()),
            ),
            None => None,
        }
    }

    /// Writes the context out in one line, for the record of a login.
    pub fn to_text(&self) -> (text: Option<String>)
        ensures
            match text {
                Some(t) => self.text() == Some(t@),
                None => self.text() is None,
            },
    {
        let expiry = match format_utc(self.exp) {
            Some(expiry) => expiry,
            None => {
                return None;
            },
        };
        let mut entries: Vec<String> = Vec::new();
        let mut i: usize = 0;
        while i < self.roles.len()
            invariant
                i <= self.roles.len(),
                entries@.len() == i,
                forall|k: int|
                    0 <= k < i ==> #[trigger] entries@[k]@ == entry_text(self.roles.deep_view()[k]),
            decreases self.roles.len() - i,
        {
            let mut entry = self.roles[i].0.clone();
            entry.append(":");
            let roles = join(&self.roles[i].1, ":");
            entry.append(roles.as_str());
            entries.push(entry);
            i += 1;
        }
        assert(entries.deep_view() =~= Seq::new(
            self.table().len(),
            |i: int| entry_text(self.table()[i]),
        ));
        let table = join(&entries, ",");
        let mut text = String::from_str("sub=");
        text.append(self.sub.as_str());
        text.append(", jti=");
        text.append(self.jti.as_str());
        text.append(", exp=");
        text.append(expiry.as_str());
        text.append(", roles=");
        text.append(table.as_str());
        Some(text)
    }

    /// Whether this is the context of a server without authentication.
    pub fn noauth(&self) -> (noauth: bool)
        ensures
            noauth == self.is_noauth(),
    {
        self.noauth
    }

    /// The subject of the token.
    pub fn sub(&self) -> (sub: &str)
        ensures
            sub@ == self.subject(),
    {
        self.sub.as_str()
    }

    /// The identifier of the token.
    pub fn jti(&self) -> (jti: &str)
        ensures
            jti@ == self.token_id(),
    {
        self.jti.as_str()
    }

    /// The token's expiry, in seconds since the Unix epoch.
    pub fn exp(&self) -> (exp: i64)
        ensures
            exp == self.expiry(),
    {
        self.exp
    }

    /// The raw role table: each resource with the roles granted on it. No
    /// resource stands in it twice.
    pub fn roles(&self) -> (table: Vec<(String, Vec<String>)>)
        ensures
            table.deep_view() == self.table(),
            resources_of(self.table()).no_duplicates(),
    {
        proof {
            use_type_invariant(self);
        }
        clone_table(&self.roles)
    }

    /// The resources that the caller may see listed: every key of the role
    /// table but `admin` and `cluster`.
    pub fn authorized_dbs(&self) -> (dbs: Vec<String>)
        ensures
            dbs.deep_view() == self.visible_resources(),
            dbs.deep_view().no_duplicates(),
    {
        let ghost names = resources_of(self.table());
        proof {
            use_type_invariant(self);
            lemma_filter_distinct(names, listed());
        }
        let mut dbs: Vec<String> = Vec::new();
        let mut i: usize = 0;
        proof {
            reveal(Seq::filter);
        }
        while i < self.roles.len()
            invariant
                i <= self.roles.len(),
                names == resources_of(self.table()),
                names.len() == self.roles.len(),
                dbs@.len() == dbs.deep_view().len(),
                dbs.deep_view() == names.take(i as int).filter(listed()),
            decreases self.roles.len() - i,
        {
            let name = &self.roles[i].0;
            let ghost earlier = dbs;
            proof {
                reveal(Seq::filter);
                assert(names.take(i + 1).drop_last() =~= names.take(i as int));
            }
            if !(str_eq(name.as_str(), "admin") || str_eq(name.as_str(), "cluster")) {
                dbs.push(name.clone());
                assert(dbs.deep_view() =~= earlier.deep_view().push(name@));
            }
            i += 1;
        }
        assert(names.take(i as int) =~= names);
        dbs
    }

    /// What a caller gets who asks for the databases: all of them if the
    /// caller may read `admin`, else those that the caller may see listed.
    pub fn listing(&self) -> (listing: DbListing)
        ensures
            match listing {
                DbListing::Everything => self.permits(Capability::Read, "admin"@),
                DbListing::Only(dbs) => {
                    &&& !self.permits(Capability::Read, "admin"@)
                    &&& dbs.deep_view() == self.visible_resources()
                    &&& dbs.deep_view().no_duplicates()
                },
            },
    {
        match self.check(Capability::Read, "admin") {
            Ok(_) => DbListing::Everything,
            Err(_) => DbListing::Only(self.authorized_dbs()),
        }
    }

    /// Decides one capability check.
    fn check(&self, capability: Capability, db: &str) -> (verdict: Result<(), RestError>)
        ensures
            verdict == if self.permits(capability, db@) {
                Ok::<(), RestError>(())
            } else {
                Err::<(), RestError>(RestError::UnauthorizedClient)
            },
    {
        if self.noauth {
            return Ok(());
        }
        proof {
            lemma_position(resources_of(self.table()), "admin"@);
            lemma_position(resources_of(self.table()), db@);
        }
        let admin = find_resource(&self.roles, "admin");
        if admin < self.roles.len() && capability.held_in(&self.roles[admin].1, true) {
            return Ok(());
        }
        let own = find_resource(&self.roles, db);
        if own < self.roles.len() && capability.held_in(&self.roles[own].1, false) {
            return Ok(());
        }
        Err(RestError::UnauthorizedClient)
    }

    /// Whether the caller may read `db`.
    pub fn read(&self, db: &str) -> (verdict: Result<(), RestError>)
        ensures
            verdict == if self.permits(Capability::Read, db@) {
                Ok::<(), RestError>(())
            } else {
                Err::<(), RestError>(RestError::UnauthorizedClient)
            },
    {
        self.check(Capability::Read, db)
    }

    /// Whether the caller may write to `db`.
    pub fn write(&self, db: &str) -> (verdict: Result<(), RestError>)
        ensures
            verdict == if self.permits(Capability::Write, db@) {
                Ok::<(), RestError>(())
            } else {
                Err::<(), RestError>(RestError::UnauthorizedClient)
            },
    {
        self.check(Capability::Write, db)
    }

    /// Whether the caller may read the statistics and state of `db`.
    pub fn monitor(&self, db: &str) -> (verdict: Result<(), RestError>)
        ensures
            verdict == if self.permits(Capability::Monitor, db@) {
                Ok::<(), RestError>(())
            } else {
                Err::<(), RestError>(RestError::UnauthorizedClient)
            },
    {
        self.check(Capability::Monitor, db)
    }

    /// Whether the caller may administer `db`.
    pub fn dbadmin(&self, db: &str) -> (verdict: Result<(), RestError>)
        ensures
            verdict == if self.permits(Capability::DbAdmin, db@) {
                Ok::<(), RestError>(())
            } else {
                Err::<(), RestError>(RestError::UnauthorizedClient)
            },
    {
        self.check(Capability::DbAdmin, db)
    }
}

/// Without authentication every capability check succeeds, for every
/// resource name and whatever the role table holds.
pub proof fn lemma_noauth_permits_all(
    ctx: AuthorizeScope,
    capability: Capability,
    resource: Seq<char>,
)
    requires
        ctx.is_noauth(),
    ensures
        ctx.permits(capability, resource),
{
}

/// A role on `admin` from a capability's admin-scope set gives that
/// capability on every resource, also on one that no permission string names.
pub proof fn lemma_admin_grant_reaches_all(
    ctx: AuthorizeScope,
    scopes: Seq<Seq<char>>,
    capability: Capability,
    resource: Seq<char>,
)
    requires
        ctx.table() == role_table(scopes),
        capability.by_admin(roles_for(scopes, "admin"@)),
    ensures
        ctx.permits(capability, resource),
{
    lemma_table_lookup(scopes, "admin"@);
}

/// A token whose permission strings hold no entry of kind `cluster` is
/// allowed on no cluster, whatever this server's cluster is called.
pub proof fn lemma_no_cluster_entry_refused(ids: Seq<Seq<char>>, scopes: Seq<Seq<char>>)
    requires
        forall|i: int|
            0 <= i < scopes.len() ==> !(#[trigger] scope_fields(scopes[i]) matches Some(f)
                && f.kind == "cluster"@),
    ensures
        !cluster_allowed(ids, scopes),
{
    if cluster_allowed(ids, scopes) {
        let j = choose|j: int| 0 <= j < ids.len() && grants_cluster(scopes, #[trigger] ids[j]);
        let i = choose|i: int|
            0 <= i < scopes.len() && #[trigger] cluster_grant(scopes[i]) == Some(ids[j]);
    }
}

/// A token is allowed on none of this server's clusters if none of them is
/// among the clusters that its permission strings allow.
pub proof fn lemma_disjoint_clusters_refused(ids: Seq<Seq<char>>, scopes: Seq<Seq<char>>)
    requires
        forall|j: int| 0 <= j < ids.len() ==> !grants_cluster(scopes, #[trigger] ids[j]),
    ensures
        !cluster_allowed(ids, scopes),
{
}

} // verus!
