//! An invocation of an external executable.

use vstd::prelude::*;

verus! {

/// An executable and the arguments it is to be run with.
#[derive(Debug, Clone, PartialEq, Eq)]
pub struct ExecuteCommand {
    pub program: String,
    pub args: Vec<String>,
}

/// The views of a list of strings.
pub open spec fn strings(v: Seq<String>) -> Seq<Seq<char>> {
    v.map_values(|s: String| s@)
}

} // verus!
