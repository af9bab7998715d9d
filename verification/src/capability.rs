//! The four capabilities and the roles that give them.

use vstd::prelude::*;
use crate::text::str_eq;

verus! {

/// What a caller may ask to do with a resource.
#[derive(Debug, Clone, Copy, PartialEq, Eq, Structural)]
pub enum Capability {
    Read,
    Write,
    Monitor,
    DbAdmin,
}

impl Capability {
    /// Whether `role`, held on the `admin` resource, gives this capability on
    /// every resource.
    pub open spec fn admin_scope(self, role: Seq<char>) -> bool {
        match self {
            Capability::Read => role == "readAny"@ || role == "readWriteAny"@ || role
                == "dbAdminAny"@ || role == "clusterAdmin"@,
            Capability::Write => role == "readWriteAny"@ || role == "dbAdminAny"@ || role
                == "clusterAdmin"@,
            Capability::Monitor => role == "clusterAdmin"@ || role == "clusterMonitor"@,
            Capability::DbAdmin => role == "dbAdminAny"@ || role == "clusterAdmin"@,
        }
    }

    /// Whether `role`, held on a resource, gives this capability on that
    /// resource.
    pub open spec fn resource_scope(self, role: Seq<char>) -> bool {
        match self {
            Capability::Read => role == "read"@ || role == "readWrite"@ || role == "dbAdmin"@,
            Capability::Write => role == "readWrite"@ || role == "dbAdmin"@,
            Capability::Monitor => role == "read"@ || role == "readWrite"@ || role == "dbAdmin"@,
            Capability::DbAdmin => role == "dbAdmin"@,
        }
    }

    /// Whether one of `roles`, held on the `admin` resource, gives this
    /// capability everywhere.
    pub open spec fn by_admin(self, roles: Seq<Seq<char>>) -> bool {
        exists|i: int| 0 <= i < roles.len() && self.admin_scope(#[trigger] roles[i])
    }

    /// Whether one of `roles`, held on a resource, gives this capability on
    /// it.
    pub open spec fn by_resource(self, roles: Seq<Seq<char>>) -> bool {
        exists|i: int| 0 <= i < roles.len() && self.resource_scope(#[trigger] roles[i])
    }

    fn is_admin_role(self, role: &str) -> (accepted: bool)
        ensures
            accepted == self.admin_scope(role@),
    {
        match self {
            Capability::Read => str_eq(role, "readAny") || str_eq(role, "readWriteAny") || str_eq(
                role,
                "dbAdminAny",
            ) || str_eq(role, "clusterAdmin"),
            Capability::Write => str_eq(role, "readWriteAny") || str_eq(role, "dbAdminAny")
                || str_eq(role, "clusterAdmin"),
            Capability::Monitor => str_eq(role, "clusterAdmin") || str_eq(role, "clusterMonitor"),
            Capability::DbAdmin => str_eq(role, "dbAdminAny") || str_eq(role, "clusterAdmin"),
        }
    }

    fn is_resource_role(self, role: &str) -> (accepted: bool)
        ensures
            accepted == self.resource_scope(role@),
    {
        match self {
            Capability::Read => str_eq(role, "read") || str_eq(role, "readWrite") || str_eq(
                role,
                "dbAdmin",
            ),
            Capability::Write => str_eq(role, "readWrite") || str_eq(role, "dbAdmin"),
            Capability::Monitor => str_eq(role, "read") || str_eq(role, "readWrite") || str_eq(
                role,
                "dbAdmin",
            ),
            Capability::DbAdmin => str_eq(role, "dbAdmin"),
        }
    }

    /// Scans `roles` for one that gives this capability, by the admin-scope
    /// set if `admin` is set and by the resource-scope set otherwise.
    pub(crate) fn held_in(self, roles: &Vec<String>, admin: bool) -> (held: bool)
        ensures
            held == if admin {
                self.by_admin(roles.deep_view())
            } else {
                self.by_resource(roles.deep_view())
            },
    {
        let mut i: usize = 0;
        while i < roles.len()
            invariant
                i <= roles.len(),
                forall|k: int|
                    0 <= k < i ==> !(if admin {
                        self.admin_scope(#[trigger] roles.deep_view()[k])
                    } else {
                        self.resource_scope(roles.deep_view()[k])
                    }),
            decreases roles.len() - i,
        {
            let accepted = if admin {
                self.is_admin_role(roles[i].as_str())
            } else {
                self.is_resource_role(roles[i].as_str())
            };
            if accepted {
                assert(roles.deep_view()[i as int] == roles@[i as int]@);
                return true;
            }
            i += 1;
        }
        false
    }
}

} // verus!
