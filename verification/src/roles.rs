//! The documents by which roles of the data store are named and created.

use vstd::prelude::*;

verus! {

/// The parameters of a route that names a role.
#[derive(Debug, Clone)]
pub struct QueriesName {
    pub name: String,
}

/// A role to create, with what it may do and where it may be used from.
#[derive(Debug, Clone)]
pub struct CreateRole {
    pub create_role: String,
    pub privileges: Vec<Privileges>,
    pub roles: Vec<Roles>,
    pub authentication_restrictions: Option<Vec<Restrictions>>,
}

/// Actions allowed on one resource.
#[derive(Debug, Clone)]
pub struct Privileges {
    pub resource: String,
    pub actions: Vec<String>,
}

/// A role of some database that another role inherits from.
#[derive(Debug, Clone)]
pub struct Roles {
    pub role: String,
    pub db: String,
}

/// The addresses from and to which a role may connect.
#[derive(Debug, Clone)]
pub struct Restrictions {
    pub client_source: Vec<String>,
    pub server_address: Vec<String>,
}

} // verus!
