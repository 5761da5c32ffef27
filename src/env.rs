//! Environment-file sets and the dotenv files written for them.

use vstd::prelude::*;
use crate::ordered_map::{entries_from, OrderedMap};
use crate::paths::{env_file_name, env_file_name_of, join_path, joined};

verus! {

/// The error of serde-envfile's serializer (`serde_envfile::Error`), carried
/// as it is in `EnvFileError`.
#[verifier::external_type_specification]
#[verifier::external_body]
pub struct ExEnvfileError(serde_envfile::Error);

/// The dotenv text that serde-envfile writes for the variables `vars`, or
/// none when it refuses them.
pub uninterp spec fn dotenv_text(vars: Seq<(Seq<char>, Seq<char>)>) -> Option<Seq<char>>;

/// Relies on `serde_envfile::to_string`, handed the variables as a
/// `BTreeMap`: one `NAME="value"` line for each variable (the name
/// upper-cased), in key order, or an error for a name it cannot write. Both
/// depend on the variables alone.
#[verifier::external_body]
fn render_dotenv(vars: &OrderedMap<String>) -> (r: Result<String, serde_envfile::Error>)
    requires
        vars.wf(),
    ensures
        r matches Ok(text) ==> dotenv_text(vars@) == Some(text@),
        r is Err ==> dotenv_text(vars@) is None,
{
    let map: std::collections::BTreeMap<String, String> = vars.entries.iter().cloned().collect();
    serde_envfile::to_string(&map)
}

/// One variable of a set.
#[derive(Debug, Clone, PartialEq, Eq)]
pub struct EnvironmentVar {
    pub name: String,
    pub value: String,
}

/// A named set of variables, written to `.{name}.env`.
#[derive(Debug, Clone, PartialEq, Eq)]
pub struct EnvironmentFile {
    pub name: String,
    pub values: Vec<EnvironmentVar>,
}

/// The file generated for a set: where it goes and what it holds.
#[derive(Debug, Clone, PartialEq, Eq)]
pub struct RenderedEnvFile {
    pub path: String,
    pub contents: String,
}

/// A set whose variables could not be written as a dotenv file.
#[derive(Debug)]
pub struct EnvFileError {
    /// Name of the set.
    pub set: String,
    pub cause: serde_envfile::Error,
}

/// The (name, value) pairs of a set's variables, in order.
pub open spec fn var_pairs(values: Seq<EnvironmentVar>) -> Seq<(Seq<char>, Seq<char>)> {
    values.map_values(|v: EnvironmentVar| (v.name@, v.value@))
}

/// The variables of a set with repeated names collapsed: each name once, in
/// order of first appearance, with the value it was given last.
pub open spec fn collapsed(values: Seq<EnvironmentVar>) -> Seq<(Seq<char>, Seq<char>)> {
    entries_from(var_pairs(values))
}

/// serde-envfile accepts the variables of `set`.
pub open spec fn renders(set: EnvironmentFile) -> bool {
    dotenv_text(collapsed(set.values@)) is Some
}

/// Path of the file of the set named `set` in `deploy_dir`.
pub open spec fn env_file_path(deploy_dir: Seq<char>, set: Seq<char>) -> Seq<char> {
    joined(deploy_dir, env_file_name(set))
}

impl EnvironmentFile {
    /// The variables of this set, each name once, with its last value.
    pub fn variables(&self) -> (r: OrderedMap<String>)
        ensures
            r.wf(),
            r@ == collapsed(self.values@),
    {
        let ghost pairs = var_pairs(self.values@);
        let mut vars: OrderedMap<String> = OrderedMap::new();
        let mut i: usize = 0;
        while i < self.values.len()
            invariant
                i <= self.values.len(),
                pairs == var_pairs(self.values@),
                vars.wf(),
                vars@ == entries_from(pairs.subrange(0, i as int)),
            decreases self.values.len() - i,
        {
            assert(pairs.subrange(0, i as int + 1).drop_last() =~= pairs.subrange(0, i as int));
            let item = &self.values[i];
            vars.insert(item.name.clone(), item.value.clone());
            i = i + 1;
        }
        assert(pairs.subrange(0, self.values.len() as int) =~= pairs);
        vars
    }

    /// The files of the sets `env_files`, in order: for each set, the file
    /// `deploy_dir/.{name}.env` holding its collapsed variables as dotenv
    /// text. Fails on the first set whose variables cannot be written.
    pub fn generate(env_files: &Vec<EnvironmentFile>, deploy_dir: &String) -> (r: Result<Vec<RenderedEnvFile>, EnvFileError>)
        ensures
            r is Ok <==> forall|i: int|
                0 <= i < env_files.len() ==> (#[trigger] renders(env_files[i])),
            r matches Ok(files) ==> {
                &&& files.len() == env_files.len()
                &&& forall|i: int|
                    0 <= i < files.len() ==> {
                        &&& (#[trigger] files[i]).path@ == env_file_path(deploy_dir@, env_files[i].name@)
                        &&& dotenv_text(collapsed(env_files[i].values@)) == Some(files[i].contents@)
                    }
            },
            r matches Err(e) ==> exists|i: int|
                0 <= i < env_files.len() && #[trigger] env_files[i].name@ == e.set@
                    && !renders(env_files[i])
                    && forall|k: int| 0 <= k < i ==> #[trigger] renders(env_files[k]),
    {
        let mut files: Vec<RenderedEnvFile> = Vec::new();
        let mut i: usize = 0;
        while i < env_files.len()
            invariant
                i <= env_files.len(),
                files.len() == i,
                forall|k: int|
                    0 <= k < i ==> {
                        &&& (#[trigger] files[k]).path@ == env_file_path(deploy_dir@, env_files[k].name@)
                        &&& dotenv_text(collapsed(env_files[k].values@)) == Some(files[k].contents@)
                    },
                forall|k: int| 0 <= k < i ==> #[trigger] renders(env_files@[k]),
            decreases env_files.len() - i,
        {
            let set = &env_files[i];
            let vars = set.variables();
            assert(set == env_files@[i as int]);
            match render_dotenv(&vars) {
                Ok(contents) => {
                    assert(renders(env_files@[i as int]));
                    let path = join_path(deploy_dir, &env_file_name_of(&set.name));
                    files.push(RenderedEnvFile { path, contents });
                },
                Err(cause) => {
                    assert(env_files@[i as int].name@ == set.name@);
                    assert(!renders(env_files@[i as int]));
                    return Err(EnvFileError { set: set.name.clone(), cause });
                },
            }
            i = i + 1;
        }
        assert(forall|k: int| 0 <= k < env_files.len() ==> #[trigger] renders(env_files@[k]));
        Ok(files)
    }
}

} // verus!
