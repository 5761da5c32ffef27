//! File names and paths of the generated artifacts.

use vstd::prelude::*;

verus! {

/// `dir/name`.
pub open spec fn joined(dir: Seq<char>, name: Seq<char>) -> Seq<char> {
    dir + seq!['/'] + name
}

/// `.{set}.env`: the file that holds the environment-file set named `set`.
pub open spec fn env_file_name(set: Seq<char>) -> Seq<char> {
    seq!['.'] + set + seq!['.', 'e', 'n', 'v']
}

/// Builds `dir/name`.
pub fn join_path(dir: &String, name: &String) -> (r: String)
    ensures
        r@ == joined(dir@, name@),
{
    let mut r = dir.clone();
    r.append("/");
    r.append(name.as_str());
    proof {
        reveal_strlit("/");
    }
    r
}

/// Builds `.{set}.env`.
pub fn env_file_name_of(set: &String) -> (r: String)
    ensures
        r@ == env_file_name(set@),
{
    let mut r = String::from_str(".");
    r.append(set.as_str());
    r.append(".env");
    proof {
        reveal_strlit(".");
        reveal_strlit(".env");
    }
    assert(r@ =~= env_file_name(set@));
    r
}

} // verus!
