//! The deploy directory is emptied before each generation: removed, then
//! created again.

use vstd::prelude::*;

verus! {

/// How removing the deploy directory ended.
#[derive(Debug, Clone, PartialEq, Eq)]
pub enum RemovalOutcome {
    /// It was removed with all it held.
    Removed,
    /// There was nothing to remove.
    NotFound,
    /// Any other failure, with its diagnostic.
    Failed(String),
}

/// Whether generation may go on after the deploy directory's removal ended
/// with `outcome`: it may, and the directory is then created anew, unless
/// the removal failed for another reason than a missing directory.
pub fn after_removal(outcome: RemovalOutcome) -> (r: Result<(), String>)
    ensures
        r is Ok <==> !(outcome is Failed),
        r matches Err(detail) ==> outcome == RemovalOutcome::Failed(detail),
{
    match outcome {
        RemovalOutcome::Failed(detail) => Err(detail),
        _ => Ok(()),
    }
}

} // verus!
