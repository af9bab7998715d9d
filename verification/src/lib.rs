//! The authentication and authorization core of an HTTP gateway to a
//! document store.
//!
//! A request carries a bearer token. The gateway verifies it against the keys
//! that the issuer publishes, reads the permission strings among its claims
//! into a role table, and asks that table before it touches a database.
//!
//! * `auth`: the key set cache, token verification, the decision on a request
//! * `keys`, `token`, `claims`: published keys, bearer tokens and their claims
//! * `grammar`, `table`, `capability`, `scopes`: permission strings, role
//!   tables, capabilities, and the authorization context built from them
//! * `error`, `config`, `queries`, `roles`, `store`: failures, settings and
//!   the parameters of the gateway's routes
//! * `text`, `clock`, `outside`: strings, time, and the types of other crates
//!
//! Fetching, waiting and serving are left to the program around this crate.

pub mod auth;
pub mod capability;
pub mod claims;
pub mod clock;
pub mod config;
pub mod error;
pub mod grammar;
pub mod keys;
pub mod outside;
pub mod queries;
pub mod roles;
pub mod scopes;
pub mod store;
pub mod table;
pub mod text;
pub mod token;
