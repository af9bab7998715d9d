use gateway_auth::claims::Claims;
use gateway_auth::error::RestError;
use gateway_auth::grammar::{parse_scope, ScopeEntry};
use gateway_auth::scopes::{AuthorizeScope, DbListing};

fn claims(scopes: &[&str]) -> Claims {
    Claims {
        sub: "alice".to_string(),
        exp: 4102444800,
        aud: "gateway".to_string(),
        iss: "https://issuer.example".to_string(),
        jti: "token-1".to_string(),
        scp: scopes.iter().map(|s| s.to_string()).collect(),
    }
}

fn cluster(names: &[&str]) -> Option<Vec<String>> {
    Some(names.iter().map(|s| s.to_string()).collect())
}

fn context(names: &[&str], scopes: &[&str]) -> AuthorizeScope {
    match AuthorizeScope::new(cluster(names), claims(scopes)) {
        Ok(ctx) => ctx,
        Err(e) => panic!("refused: {:?}", e),
    }
}

fn refusal(names: Option<Vec<String>>, scopes: &[&str]) -> RestError {
    match AuthorizeScope::new(names, claims(scopes)) {
        Ok(_) => panic!("a context was built"),
        Err(e) => e,
    }
}

fn entry(kind: &str, value: &str, action: &str) -> Option<ScopeEntry> {
    Some(ScopeEntry { kind: kind.to_string(), value: value.to_string(), action: action.to_string() })
}

#[test]
fn read_role_on_one_database() {
    let ctx = context(&["rs0"], &["ns.role.sales:read", "ns.cluster.rs0:allow"]);
    assert_eq!(ctx.read("sales"), Ok(()));
    assert_eq!(ctx.write("sales"), Err(RestError::UnauthorizedClient));
    assert_eq!(ctx.read("other"), Err(RestError::UnauthorizedClient));
}

#[test]
fn admin_read_role_reaches_every_database() {
    let ctx = context(&["rs0"], &["ns.role.admin:readAny", "ns.cluster.rs0:allow"]);
    for db in ["sales", "never-mentioned", "", "admin", "cluster", "données"] {
        assert_eq!(ctx.read(db), Ok(()));
    }
    assert_eq!(ctx.write("sales"), Err(RestError::UnauthorizedClient));
    assert_eq!(ctx.monitor("sales"), Err(RestError::UnauthorizedClient));
    assert_eq!(ctx.dbadmin("sales"), Err(RestError::UnauthorizedClient));
}

#[test]
fn no_cluster_entry_is_refused() {
    assert_eq!(refusal(cluster(&["rs0"]), &["ns.role.sales:read"]), RestError::UnauthorizedClient);
    assert_eq!(refusal(cluster(&["rs0"]), &[]), RestError::UnauthorizedClient);
}

#[test]
fn other_cluster_is_refused() {
    assert_eq!(refusal(cluster(&["rs0"]), &["ns.cluster.rs1:allow"]), RestError::UnauthorizedClient);
}

#[test]
fn unknown_server_cluster_is_refused() {
    assert_eq!(refusal(None, &["ns.cluster.rs0:allow"]), RestError::UnauthorizedClient);
    assert_eq!(refusal(cluster(&[]), &["ns.cluster.rs0:allow"]), RestError::UnauthorizedClient);
}

#[test]
fn cluster_entry_needs_the_allow_action() {
    assert_eq!(refusal(cluster(&["rs0"]), &["ns.cluster.rs0:deny"]), RestError::UnauthorizedClient);
    assert_eq!(refusal(cluster(&["rs0"]), &["ns.cluster.rs0:Allow"]), RestError::UnauthorizedClient);
}

#[test]
fn any_of_the_server_names_is_enough() {
    let ctx = context(&["override", "rs0"], &["ns.cluster.rs0:allow"]);
    assert!(!ctx.noauth());
    let ctx = context(&["override", "rs0"], &["ns.cluster.rs7:allow", "ns.cluster.override:allow"]);
    assert!(!ctx.noauth());
}

#[test]
fn authorized_dbs_leaves_out_bookkeeping_keys() {
    let ctx = context(
        &["rs0"],
        &[
            "ns.role.admin:readAny",
            "ns.role.sales:read",
            "ns.role.cluster:anything",
            "ns.cluster.rs0:allow",
        ],
    );
    assert_eq!(ctx.authorized_dbs(), vec!["sales".to_string()]);
}

#[test]
fn authorized_dbs_keeps_the_order_of_first_mention() {
    let ctx = context(
        &["rs0"],
        &[
            "ns.role.zeta:read",
            "ns.role.admin:clusterMonitor",
            "ns.role.alpha:read",
            "ns.role.zeta:readWrite",
            "ns.cluster.rs0:allow",
        ],
    );
    assert_eq!(ctx.authorized_dbs(), vec!["zeta".to_string(), "alpha".to_string()]);
}

#[test]
fn noauth_context_allows_everything() {
    let ctx = AuthorizeScope::default();
    assert!(ctx.noauth());
    assert_eq!(ctx.sub(), "noauth");
    assert_eq!(ctx.jti(), "");
    assert!(ctx.roles().is_empty());
    assert!(ctx.authorized_dbs().is_empty());
    for db in ["sales", "admin", "", "no such thing"] {
        assert_eq!(ctx.read(db), Ok(()));
        assert_eq!(ctx.write(db), Ok(()));
        assert_eq!(ctx.monitor(db), Ok(()));
        assert_eq!(ctx.dbadmin(db), Ok(()));
    }
}

#[test]
fn noauth_context_expires_now() {
    let exp = AuthorizeScope::default().exp();
    assert!(exp > 1_600_000_000);
    assert!(exp < 32_503_680_000);
}

#[test]
fn context_carries_the_claims() {
    let ctx = context(&["rs0"], &["ns.cluster.rs0:allow"]);
    assert_eq!(ctx.sub(), "alice");
    assert_eq!(ctx.jti(), "token-1");
    assert_eq!(ctx.exp(), 4102444800);
    assert!(!ctx.noauth());
    assert!(ctx.roles().is_empty());
}

#[test]
fn roles_collects_by_resource() {
    let ctx = context(
        &["rs0"],
        &[
            "ns.role.sales:read",
            "ns.role.hr:readWrite",
            "ns.role.sales:dbAdmin",
            "ns.role.sales:read",
            "ns.cluster.rs0:allow",
        ],
    );
    assert_eq!(
        ctx.roles(),
        vec![
            (
                "sales".to_string(),
                vec!["read".to_string(), "dbAdmin".to_string(), "read".to_string()]
            ),
            ("hr".to_string(), vec!["readWrite".to_string()]),
        ]
    );
}

#[test]
fn clone_keeps_the_context() {
    let ctx = context(&["rs0"], &["ns.role.sales:read", "ns.cluster.rs0:allow"]);
    let copy = ctx.clone();
    assert_eq!(copy.sub(), ctx.sub());
    assert_eq!(copy.jti(), ctx.jti());
    assert_eq!(copy.exp(), ctx.exp());
    assert_eq!(copy.noauth(), ctx.noauth());
    assert_eq!(copy.roles(), ctx.roles());
    assert_eq!(copy.read("sales"), Ok(()));
}

fn verdicts(role_on: &str, role: &str, db: &str) -> [bool; 4] {
    let grant = format!("ns.role.{}:{}", role_on, role);
    let ctx = context(&["rs0"], &[grant.as_str(), "ns.cluster.rs0:allow"]);
    [ctx.read(db).is_ok(), ctx.write(db).is_ok(), ctx.monitor(db).is_ok(), ctx.dbadmin(db).is_ok()]
}

#[test]
fn admin_scope_roles() {
    assert_eq!(verdicts("admin", "readAny", "sales"), [true, false, false, false]);
    assert_eq!(verdicts("admin", "readWriteAny", "sales"), [true, true, false, false]);
    assert_eq!(verdicts("admin", "dbAdminAny", "sales"), [true, true, false, true]);
    assert_eq!(verdicts("admin", "clusterAdmin", "sales"), [true, true, true, true]);
    assert_eq!(verdicts("admin", "clusterMonitor", "sales"), [false, false, true, false]);
    assert_eq!(verdicts("admin", "unheard-of", "sales"), [false, false, false, false]);
}

#[test]
fn resource_scope_roles() {
    assert_eq!(verdicts("sales", "read", "sales"), [true, false, true, false]);
    assert_eq!(verdicts("sales", "readWrite", "sales"), [true, true, true, false]);
    assert_eq!(verdicts("sales", "dbAdmin", "sales"), [true, true, true, true]);
    assert_eq!(verdicts("sales", "readAny", "sales"), [false, false, false, false]);
    assert_eq!(verdicts("sales", "clusterAdmin", "sales"), [false, false, false, false]);
    assert_eq!(verdicts("sales", "dbAdmin", "hr"), [false, false, false, false]);
}

#[test]
fn resource_scope_roles_on_admin_itself() {
    assert_eq!(verdicts("admin", "read", "admin"), [true, false, true, false]);
    assert_eq!(verdicts("admin", "read", "sales"), [false, false, false, false]);
    assert_eq!(verdicts("admin", "dbAdmin", "admin"), [true, true, true, true]);
}

#[test]
fn role_names_are_case_sensitive() {
    assert_eq!(verdicts("sales", "Read", "sales"), [false, false, false, false]);
    assert_eq!(verdicts("sales", "readwrite", "sales"), [false, false, false, false]);
    assert_eq!(verdicts("admin", "readany", "sales"), [false, false, false, false]);
    assert_eq!(verdicts("Admin", "readAny", "sales"), [false, false, false, false]);
}

#[test]
fn one_matching_role_among_many_is_enough() {
    let ctx = context(
        &["rs0"],
        &["ns.role.sales:audit", "ns.role.sales:export", "ns.role.sales:readWrite", "ns.cluster.rs0:allow"],
    );
    assert_eq!(ctx.write("sales"), Ok(()));
    assert_eq!(ctx.dbadmin("sales"), Err(RestError::UnauthorizedClient));
}

#[test]
fn parse_scope_reads_the_fields() {
    assert_eq!(parse_scope("ns.role.sales:read"), entry("role", "sales", "read"));
    assert_eq!(parse_scope("ns.cluster.rs0:allow"), entry("cluster", "rs0", "allow"));
    assert_eq!(parse_scope("ns.other.thing:do"), entry("other", "thing", "do"));
}

#[test]
fn parse_scope_skips_malformed_entries() {
    assert_eq!(parse_scope(""), None);
    assert_eq!(parse_scope("ns.role.sales"), None);
    assert_eq!(parse_scope("ns.role:read"), None);
    assert_eq!(parse_scope("ns:read"), None);
    assert_eq!(parse_scope(":read"), None);
    assert_eq!(parse_scope("nsrolesales:read"), None);
    assert_eq!(parse_scope("ns.role:sales.read"), None);
}

#[test]
fn parse_scope_skips_other_namespaces() {
    assert_eq!(parse_scope("other.role.sales:read"), None);
    assert_eq!(parse_scope("NS.role.sales:read"), None);
    assert_eq!(parse_scope("n.role.sales:read"), None);
    assert_eq!(parse_scope(".role.sales:read"), None);
    assert_eq!(parse_scope("nss.role.sales:read"), None);
}

#[test]
fn parse_scope_cuts_at_the_next_separator() {
    assert_eq!(parse_scope("ns.role.sales.eu.west:read"), entry("role", "sales", "read"));
    assert_eq!(parse_scope("ns.role.sales:read:write"), entry("role", "sales", "read"));
    assert_eq!(parse_scope("ns.role.sales:read.all"), entry("role", "sales", "read.all"));
}

#[test]
fn parse_scope_accepts_empty_fields() {
    assert_eq!(parse_scope("ns.role.:read"), entry("role", "", "read"));
    assert_eq!(parse_scope("ns.role.sales:"), entry("role", "sales", ""));
    assert_eq!(parse_scope("ns..sales:read"), entry("", "sales", "read"));
    assert_eq!(parse_scope("ns..:"), entry("", "", ""));
}

#[test]
fn parse_scope_counts_characters_not_bytes() {
    assert_eq!(parse_scope("ns.role.données:lire"), entry("role", "données", "lire"));
    assert_eq!(parse_scope("ns.rôle.データ:読む:x"), entry("rôle", "データ", "読む"));
}

#[test]
fn malformed_entries_do_not_stop_the_others() {
    let ctx = context(
        &["rs0"],
        &["garbage", "ns.role.sales", "x.role.hr:read", "ns.role.sales:read", "ns.cluster.rs0:allow"],
    );
    assert_eq!(ctx.roles(), vec![("sales".to_string(), vec!["read".to_string()])]);
    assert_eq!(ctx.read("hr"), Err(RestError::UnauthorizedClient));
}

#[test]
fn unknown_kinds_grant_nothing() {
    let ctx = context(&["rs0"], &["ns.roles.sales:read", "ns.cluster.rs0:allow"]);
    assert!(ctx.roles().is_empty());
    assert_eq!(refusal(cluster(&["rs0"]), &["ns.clusters.rs0:allow"]), RestError::UnauthorizedClient);
}

#[test]
fn to_text_writes_one_line() {
    let ctx = context(
        &["rs0"],
        &[
            "ns.role.sales:read",
            "ns.role.hr:readWrite",
            "ns.role.sales:dbAdmin",
            "ns.cluster.rs0:allow",
        ],
    );
    assert_eq!(
        ctx.to_text(),
        Some(
            "sub=alice, jti=token-1, exp=2100-01-01 00:00:00 UTC, roles=sales:read:dbAdmin,hr:readWrite"
                .to_string()
        )
    );
}

#[test]
fn to_text_without_roles() {
    let ctx = context(&["rs0"], &["ns.cluster.rs0:allow"]);
    assert_eq!(
        ctx.to_text(),
        Some("sub=alice, jti=token-1, exp=2100-01-01 00:00:00 UTC, roles=".to_string())
    );
    let text = AuthorizeScope::default().to_text().unwrap();
    assert!(text.starts_with("sub=noauth, jti=, exp=2"));
    assert!(text.ends_with(" UTC, roles="));
}

#[test]
fn to_text_needs_an_expiry_that_the_calendar_can_name() {
    let mut given = claims(&["ns.cluster.rs0:allow"]);
    given.exp = i64::MAX;
    let ctx = AuthorizeScope::new(cluster(&["rs0"]), given).unwrap();
    assert_eq!(ctx.exp(), i64::MAX);
    assert_eq!(ctx.to_text(), None);
    let mut given = claims(&["ns.cluster.rs0:allow"]);
    given.exp = -1;
    let ctx = AuthorizeScope::new(cluster(&["rs0"]), given).unwrap();
    assert_eq!(
        ctx.to_text(),
        Some("sub=alice, jti=token-1, exp=1969-12-31 23:59:59 UTC, roles=".to_string())
    );
}

#[test]
fn listing_is_everything_for_a_reader_of_admin() {
    let ctx = context(&["rs0"], &["ns.role.admin:readAny", "ns.role.sales:read", "ns.cluster.rs0:allow"]);
    assert_eq!(ctx.listing(), DbListing::Everything);
    let ctx = context(&["rs0"], &["ns.role.admin:read", "ns.cluster.rs0:allow"]);
    assert_eq!(ctx.listing(), DbListing::Everything);
    assert_eq!(AuthorizeScope::default().listing(), DbListing::Everything);
}

#[test]
fn listing_is_the_authorized_databases_for_everyone_else() {
    let ctx = context(
        &["rs0"],
        &["ns.role.admin:clusterMonitor", "ns.role.sales:read", "ns.role.hr:dbAdmin", "ns.cluster.rs0:allow"],
    );
    assert_eq!(ctx.listing(), DbListing::Only(vec!["sales".to_string(), "hr".to_string()]));
    let ctx = context(&["rs0"], &["ns.cluster.rs0:allow"]);
    assert_eq!(ctx.listing(), DbListing::Only(vec![]));
}

#[test]
fn no_resource_is_listed_twice() {
    let ctx = context(
        &["rs0"],
        &[
            "ns.role.sales:read",
            "ns.role.hr:read",
            "ns.role.sales:readWrite",
            "ns.role.hr:read",
            "ns.role.sales:read",
            "ns.cluster.rs0:allow",
        ],
    );
    assert_eq!(ctx.authorized_dbs(), vec!["sales".to_string(), "hr".to_string()]);
    let names: Vec<String> = ctx.roles().into_iter().map(|entry| entry.0).collect();
    assert_eq!(names, vec!["sales".to_string(), "hr".to_string()]);
}
