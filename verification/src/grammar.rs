//! The grammar of permission strings.
//!
//! A permission string has the form `<namespace>.<kind>.<value>:<action>`.
//! Entries of kind `role` grant a role on a resource; entries of kind
//! `cluster` with action `allow` name a cluster on which the token may be
//! used. Entries of another namespace, and malformed ones, count for nothing.

use vstd::prelude::*;
use crate::text::{after, before, field_end, lemma_field, slice_of, str_eq, to_chars};

verus! {

/// The three fields that a well-formed permission string of this system's
/// namespace carries.
pub struct ScopeFields {
    pub kind: Seq<char>,
    pub value: Seq<char>,
    pub action: Seq<char>,
}

/// A permission string after tokenizing.
#[derive(Debug, Clone, PartialEq, Eq)]
pub struct ScopeEntry {
    pub kind: String,
    pub value: String,
    pub action: String,
}

impl View for ScopeEntry {
    type V = ScopeFields;

    open spec fn view(&self) -> ScopeFields {
        ScopeFields { kind: self.kind@, value: self.value@, action: self.action@ }
    }
}

/// The namespace that marks a permission string as one of this system's.
pub open spec fn namespace() -> Seq<char> {
    "ns"@
}

/// Reads one permission string.
///
/// The action is what stands between the first colon and the next one (or the
/// end). What stands before the first colon is cut at its dots: the first
/// field is the namespace, the second the kind, the third the value; further
/// fields are ignored. The result is `None` for a string without a colon,
/// with fewer than three fields before it, or of another namespace.
pub open spec fn scope_fields(s: Seq<char>) -> Option<ScopeFields> {
    let head = before(s, ':');
    match (after(s, ':'), after(head, '.')) {
        (Some(tail), Some(past_namespace)) => match after(past_namespace, '.') {
            Some(past_kind) => if before(head, '.') == namespace() {
                Some(
                    ScopeFields {
                        kind: before(past_namespace, '.'),
                        value: before(past_kind, '.'),
                        action: before(tail, ':'),
                    },
                )
            } else {
                None
            },
            None => None,
        },
        _ => None,
    }
}

/// Tokenizes one permission string; `None` for a malformed entry and for one
/// of another namespace.
pub fn parse_scope(scope: &str) -> (entry: Option<ScopeEntry>)
    ensures
        match entry {
            Some(e) => scope_fields(scope@) == Some(e@),
            None => scope_fields(scope@) is None,
        },
{
    let chars = to_chars(scope);
    let n = chars.len();
    let ghost s = scope@;
    proof {
        assert(s.subrange(0, n as int) =~= s);
        lemma_field(s, 0, n as int, ':');
    }
    let colon = field_end(&chars, 0, n, ':');
    if colon >= n {
        return None;
    }
    proof {
        lemma_field(s, colon + 1, n as int, ':');
        lemma_field(s, 0, colon as int, '.');
    }
    let action_end = field_end(&chars, colon + 1, n, ':');
    let first_dot = field_end(&chars, 0, colon, '.');
    if first_dot >= colon {
        return None;
    }
    proof {
        lemma_field(s, first_dot + 1, colon as int, '.');
    }
    let second_dot = field_end(&chars, first_dot + 1, colon, '.');
    if second_dot >= colon {
        return None;
    }
    proof {
        lemma_field(s, second_dot + 1, colon as int, '.');
    }
    let value_end = field_end(&chars, second_dot + 1, colon, '.');
    let found = slice_of(scope, 0, first_dot);
    if !str_eq(found.as_str(), "ns") {
        return None;
    }
    let kind = slice_of(scope, first_dot + 1, second_dot);
    let value = slice_of(scope, second_dot + 1, value_end);
    let action = slice_of(scope, colon + 1, action_end);
    Some(ScopeEntry { kind, value, action })
}

/// The role grant that a permission string makes: the resource and the role
/// granted on it.
pub open spec fn role_grant(s: Seq<char>) -> Option<(Seq<char>, Seq<char>)> {
    match scope_fields(s) {
        Some(f) => if f.kind == "role"@ {
            Some((f.value, f.action))
        } else {
            None
        },
        None => None,
    }
}

/// The cluster on which a permission string allows the token to be used.
pub open spec fn cluster_grant(s: Seq<char>) -> Option<Seq<char>> {
    match scope_fields(s) {
        Some(f) => if f.kind == "cluster"@ && f.action == "allow"@ {
            Some(f.value)
        } else {
            None
        },
        None => None,
    }
}

/// The two kinds of permission string have different names.
pub proof fn lemma_kinds_differ()
    ensures
        "role"@ != "cluster"@,
{
    reveal_strlit("role");
    reveal_strlit("cluster");
    assert("role"@.len() != "cluster"@.len());
}

} // verus!
