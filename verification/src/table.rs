//! Role tables: which roles a token grants on which resource, and on which
//! clusters it may be used.

use vstd::prelude::*;
use crate::grammar::{cluster_grant, role_grant};
use crate::text::{lemma_position, lemma_position_unique, position, str_eq};

verus! {

/// A role table: resource names, each with the roles granted on it.
pub type RoleTable = Seq<(Seq<char>, Seq<Seq<char>>)>;

/// The roles that `scopes` grant on `resource`, in the order of the entries
/// that grant them; a role granted twice stands twice.
pub open spec fn roles_for(scopes: Seq<Seq<char>>, resource: Seq<char>) -> Seq<Seq<char>>
    decreases scopes.len(),
{
    if scopes.len() == 0 {
        Seq::empty()
    } else {
        let earlier = roles_for(scopes.drop_last(), resource);
        match role_grant(scopes.last()) {
            Some((r, role)) => if r == resource {
                earlier.push(role)
            } else {
                earlier
            },
            None => earlier,
        }
    }
}

/// The resources on which `scopes` grant a role, each once, in the order in
/// which they are first named.
pub open spec fn role_resources(scopes: Seq<Seq<char>>) -> Seq<Seq<char>>
    decreases scopes.len(),
{
    if scopes.len() == 0 {
        Seq::empty()
    } else {
        let earlier = role_resources(scopes.drop_last());
        match role_grant(scopes.last()) {
            Some((r, _)) => if earlier.contains(r) {
                earlier
            } else {
                earlier.push(r)
            },
            None => earlier,
        }
    }
}

/// The role table that `scopes` describe.
pub open spec fn role_table(scopes: Seq<Seq<char>>) -> RoleTable {
    let names = role_resources(scopes);
    Seq::new(names.len(), |i: int| (names[i], roles_for(scopes, names[i])))
}

/// The resource names of a role table, in its order.
pub open spec fn resources_of(table: RoleTable) -> Seq<Seq<char>> {
    Seq::new(table.len(), |i: int| table[i].0)
}

/// The roles that a table holds for `resource`: those of the first entry of
/// that name, none where there is no such entry.
pub open spec fn lookup(table: RoleTable, resource: Seq<char>) -> Seq<Seq<char>> {
    let at = position(resources_of(table), resource);
    if at < table.len() {
        table[at].1
    } else {
        Seq::empty()
    }
}

/// Whether `scopes` allow the token on cluster `id`.
pub open spec fn grants_cluster(scopes: Seq<Seq<char>>, id: Seq<char>) -> bool {
    exists|i: int| 0 <= i < scopes.len() && #[trigger] cluster_grant(scopes[i]) == Some(id)
}

/// Whether `scopes` allow the token on one of the clusters `ids`.
pub open spec fn cluster_allowed(ids: Seq<Seq<char>>, scopes: Seq<Seq<char>>) -> bool {
    exists|j: int| 0 <= j < ids.len() && grants_cluster(scopes, #[trigger] ids[j])
}

/// A resource is in `role_resources` exactly if some role is granted on it.
pub proof fn lemma_resource_has_roles(scopes: Seq<Seq<char>>, resource: Seq<char>)
    ensures
        role_resources(scopes).contains(resource) <==> roles_for(scopes, resource).len() > 0,
    decreases scopes.len(),
{
    if scopes.len() > 0 {
        let earlier = role_resources(scopes.drop_last());
        lemma_resource_has_roles(scopes.drop_last(), resource);
        match role_grant(scopes.last()) {
            Some((r, _)) => {
                if !earlier.contains(r) {
                    let now = earlier.push(r);
                    assert(now[earlier.len() as int] == r);
                    assert(forall|k: int| 0 <= k < earlier.len() ==> now[k] == earlier[k]);
                }
            },
            None => {},
        }
    }
}

/// No resource stands twice in `role_resources`.
pub proof fn lemma_resources_distinct(scopes: Seq<Seq<char>>)
    ensures
        role_resources(scopes).no_duplicates(),
    decreases scopes.len(),
{
    if scopes.len() > 0 {
        lemma_resources_distinct(scopes.drop_last());
    }
}

/// A role table after one more grant: the role joins the entry of its
/// resource, or opens a new entry at the end.
pub open spec fn with_grant(table: RoleTable, resource: Seq<char>, role: Seq<char>) -> RoleTable {
    let at = position(resources_of(table), resource);
    if at < table.len() {
        table.update(at, (resource, table[at].1.push(role)))
    } else {
        table.push((resource, seq![role]))
    }
}

/// One more permission string changes the role table by the grant it makes,
/// and not at all if it makes none.
pub proof fn lemma_role_table_push(scopes: Seq<Seq<char>>, s: Seq<char>)
    ensures
        role_table(scopes.push(s)) == match role_grant(s) {
            Some((resource, role)) => with_grant(role_table(scopes), resource, role),
            None => role_table(scopes),
        },
{
    let longer = scopes.push(s);
    assert(longer.drop_last() =~= scopes);
    let names = role_resources(scopes);
    let table = role_table(scopes);
    assert(resources_of(table) =~= names);
    match role_grant(s) {
        Some((resource, role)) => {
            lemma_position(names, resource);
            lemma_resources_distinct(scopes);
            lemma_resource_has_roles(scopes, resource);
            if position(names, resource) >= names.len() {
                assert(roles_for(scopes, resource) =~= Seq::empty());
            }
        },
        None => {},
    }
}

/// One more permission string allows the token on `ids` if the earlier ones
/// did, or if it names one of `ids` itself.
pub proof fn lemma_cluster_allowed_push(ids: Seq<Seq<char>>, scopes: Seq<Seq<char>>, s: Seq<char>)
    ensures
        cluster_allowed(ids, scopes.push(s)) <==> cluster_allowed(ids, scopes) || match cluster_grant(
            s,
        ) {
            Some(id) => ids.contains(id),
            None => false,
        },
{
    let longer = scopes.push(s);
    if cluster_allowed(ids, scopes) {
        let j = choose|j: int| 0 <= j < ids.len() && grants_cluster(scopes, #[trigger] ids[j]);
        let i = choose|i: int|
            0 <= i < scopes.len() && #[trigger] cluster_grant(scopes[i]) == Some(ids[j]);
        assert(longer[i] == scopes[i]);
        assert(grants_cluster(longer, ids[j]));
    }
    if let Some(id) = cluster_grant(s) {
        if ids.contains(id) {
            let j = choose|j: int| 0 <= j < ids.len() && ids[j] == id;
            assert(longer[scopes.len() as int] == s);
            assert(grants_cluster(longer, ids[j]));
        }
    }
    if cluster_allowed(ids, longer) {
        let j = choose|j: int| 0 <= j < ids.len() && grants_cluster(longer, #[trigger] ids[j]);
        let i = choose|i: int|
            0 <= i < longer.len() && #[trigger] cluster_grant(longer[i]) == Some(ids[j]);
        if i < scopes.len() {
            assert(longer[i] == scopes[i]);
            assert(grants_cluster(scopes, ids[j]));
        } else {
            assert(longer[i] == s);
            assert(ids.contains(ids[j]));
        }
    }
}

/// A copy of `names`.
pub(crate) fn clone_names(names: &Vec<String>) -> (copy: Vec<String>)
    ensures
        copy.deep_view() == names.deep_view(),
{
    let mut copy: Vec<String> = Vec::new();
    let mut i: usize = 0;
    while i < names.len()
        invariant
            i <= names.len(),
            copy@.len() == i,
            copy.deep_view() == names.deep_view().take(i as int),
        decreases names.len() - i,
    {
        let ghost earlier = copy;
        let name = names[i].clone();
        copy.push(name);
        assert forall|k: int| 0 <= k <= i implies copy.deep_view()[k] == names.deep_view()[k] by {
            if k < i {
                assert(earlier.deep_view()[k] == names.deep_view().take(i as int)[k]);
            }
        }
        i += 1;
    }
    copy
}

/// A copy of a role table.
pub(crate) fn clone_table(table: &Vec<(String, Vec<String>)>) -> (copy: Vec<(String, Vec<String>)>)
    ensures
        copy.deep_view() == table.deep_view(),
{
    let mut copy: Vec<(String, Vec<String>)> = Vec::new();
    let mut i: usize = 0;
    while i < table.len()
        invariant
            i <= table.len(),
            copy@.len() == i,
            copy.deep_view() == table.deep_view().take(i as int),
        decreases table.len() - i,
    {
        let ghost earlier = copy;
        let name = table[i].0.clone();
        let roles = clone_names(&table[i].1);
        copy.push((name, roles));
        assert forall|k: int| 0 <= k <= i implies copy.deep_view()[k] == table.deep_view()[k] by {
            if k < i {
                assert(earlier.deep_view()[k] == table.deep_view().take(i as int)[k]);
            }
        }
        i += 1;
    }
    copy
}

/// Index of the entry for `name`, or the table's length where it has none.
pub(crate) fn find_resource(table: &Vec<(String, Vec<String>)>, name: &str) -> (at: usize)
    ensures
        at == position(resources_of(table.deep_view()), name@),
        at <= table.len(),
{
    let mut i: usize = 0;
    while i < table.len() && !str_eq(table[i].0.as_str(), name)
        invariant
            i <= table.len(),
            forall|k: int| 0 <= k < i ==> table@[k].0@ != name@,
        decreases table.len() - i,
    {
        i += 1;
    }
    proof {
        let names = resources_of(table.deep_view());
        lemma_position_unique(names, name@, i as int);
    }
    i
}

/// Whether `name` is one of `names`.
pub(crate) fn contains_name(names: &Vec<String>, name: &str) -> (found: bool)
    ensures
        found == names.deep_view().contains(name@),
{
    let mut i: usize = 0;
    while i < names.len()
        invariant
            i <= names.len(),
            forall|k: int| 0 <= k < i ==> names@[k]@ != name@,
        decreases names.len() - i,
    {
        if str_eq(names[i].as_str(), name) {
            assert(names.deep_view()[i as int] == name@);
            return true;
        }
        i += 1;
    }
    false
}

/// Records one grant in a role table.
pub(crate) fn grant_role(table: &mut Vec<(String, Vec<String>)>, resource: String, role: String)
    ensures
        final(table).deep_view() == with_grant(old(table).deep_view(), resource@, role@),
{
    let at = find_resource(table, resource.as_str());
    let ghost before = old(table).deep_view();
    proof {
        lemma_position(resources_of(before), resource@);
    }
    if at < table.len() {
        table[at].1.push(role);
        let ghost wanted = with_grant(before, resource@, role@);
        assert forall|k: int| 0 <= k < wanted.len() implies table.deep_view()[k] == wanted[k] by {}
    } else {
        let mut roles: Vec<String> = Vec::new();
        roles.push(role);
        table.push((resource, roles));
        let ghost wanted = with_grant(before, resource@, role@);
        assert forall|k: int| 0 <= k < wanted.len() implies table.deep_view()[k] == wanted[k] by {}
    }
}

/// The role table of a token holds, for each resource, exactly the roles
/// that its permission strings grant on it.
pub proof fn lemma_table_lookup(scopes: Seq<Seq<char>>, resource: Seq<char>)
    ensures
        lookup(role_table(scopes), resource) == roles_for(scopes, resource),
{
    let names = role_resources(scopes);
    assert(resources_of(role_table(scopes)) =~= names);
    lemma_position(names, resource);
    lemma_resource_has_roles(scopes, resource);
}

/// No resource stands twice in the role table of a token.
pub proof fn lemma_role_table_distinct(scopes: Seq<Seq<char>>)
    ensures
        resources_of(role_table(scopes)).no_duplicates(),
{
    lemma_resources_distinct(scopes);
    assert(resources_of(role_table(scopes)) =~= role_resources(scopes));
}

/// What is kept of a sequence without duplicates has none either, and holds
/// nothing that the sequence did not hold.
pub proof fn lemma_filter_distinct<A>(s: Seq<A>, keep: spec_fn(A) -> bool)
    requires
        s.no_duplicates(),
    ensures
        s.filter(keep).no_duplicates(),
        forall|x: A| s.filter(keep).contains(x) ==> s.contains(x),
    decreases s.len(),
{
    reveal(Seq::filter);
    if s.len() > 0 {
        let front = s.drop_last();
        let kept = front.filter(keep);
        lemma_filter_distinct(front, keep);
        assert forall|x: A| front.contains(x) implies s.contains(x) by {
            let i = choose|i: int| 0 <= i < front.len() && front[i] == x;
            assert(s[i] == x);
        }
        if keep(s.last()) {
            let all = kept.push(s.last());
            assert(!front.contains(s.last())) by {
                if front.contains(s.last()) {
                    let i = choose|i: int| 0 <= i < front.len() && front[i] == s.last();
                    assert(s[i] == s[s.len() - 1]);
                }
            }
            assert forall|x: A| all.contains(x) implies s.contains(x) by {
                let i = choose|i: int| 0 <= i < all.len() && all[i] == x;
                if i < kept.len() {
                    assert(kept.contains(kept[i]));
                } else {
                    assert(s[s.len() - 1] == x);
                }
            }
            assert forall|i: int, j: int| 0 <= i < all.len() && 0 <= j < all.len() && i != j
                implies all[i] != all[j] by {
                if i < kept.len() && j < kept.len() {
                } else if i < kept.len() {
                    assert(kept.contains(kept[i]));
                } else {
                    assert(kept.contains(kept[j]));
                }
            }
        }
    }
}

} // verus!
