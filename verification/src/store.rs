//! The two rules that every operation on the data store goes by: a read-only
//! deployment changes nothing, and the caller picks the JSON dialect.

use vstd::prelude::*;
use crate::error::RestError;
use crate::queries::Formats;

verus! {

/// Whether an operation may run: one that makes changes is refused on a
/// read-only deployment.
pub fn check_writable(readonly: bool, makes_changes: bool) -> (verdict: Result<(), RestError>)
    ensures
        verdict == if readonly && makes_changes {
            Err::<(), RestError>(RestError::ReadOnly)
        } else {
            Ok::<(), RestError>(())
        },
{
    if readonly && makes_changes {
        Err(RestError::ReadOnly)
    } else {
        Ok(())
    }
}

/// Whether documents go out in canonical extended JSON; relaxed extended JSON
/// is the dialect where nothing else was asked for.
pub fn is_canonical(format: &Option<Formats>) -> (canonical: bool)
    ensures
        canonical == (*format == Some(Formats::Ejson)),
{
    match format {
        Some(Formats::Ejson) => true,
        _ => false,
    }
}

} // verus!
