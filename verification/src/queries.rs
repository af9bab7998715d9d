//! The query parameters that the gateway's routes take.

use vstd::prelude::*;
use vstd::string::StringExecFns;

verus! {

/// The JSON dialect of an answer: relaxed or canonical extended JSON.
#[derive(Debug, Clone, Copy, PartialEq, Eq, Structural)]
pub enum Formats {
    Json,
    Ejson,
}

impl Default for Formats {
    fn default() -> (format: Self)
        ensures
            format == Formats::Json,
    {
        Formats::Json
    }
}

/// How much an explanation of a query is to tell.
#[derive(Debug, Clone)]
pub struct ExplainVerbosity {
    pub verbosity: String,
}

/// The parameters of a route that explains a query.
#[derive(Debug, Clone)]
pub struct ExplainFormat {
    pub format: Option<Formats>,
    pub verbosity: Option<String>,
}

impl Default for ExplainFormat {
    fn default() -> (query: Self)
        ensures
            query.format == Some(Formats::Json),
            query.verbosity matches Some(v) && v@ == "allPlansExecution"@,
    {
        ExplainFormat {
            format: Some(Formats::Json),
            verbosity: Some(String::from_str("allPlansExecution")),
        }
    }
}

/// The parameters of a route that answers with documents.
#[derive(Debug, Clone)]
pub struct QueriesFormat {
    pub format: Option<Formats>,
}

impl Default for QueriesFormat {
    fn default() -> (query: Self)
        ensures
            query.format == Some(Formats::Json),
    {
        QueriesFormat { format: Some(Formats::Json) }
    }
}

/// The parameters of a route that deletes something by name.
#[derive(Debug, Clone)]
pub struct QueriesDelete {
    pub name: String,
}

} // verus!
