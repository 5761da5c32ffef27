//! Source-code repositories cloned into the services directory and mounted
//! into services.

use vstd::prelude::*;
use crate::paths::{joined, join_path};

verus! {

/// A repository to clone, and where its working copy is mounted.
#[derive(Debug, Clone, PartialEq, Eq)]
pub struct Repository {
    /// Hostname of the service the working copy is mounted into; empty for none.
    pub service: String,
    /// Path inside the container at which the working copy is mounted.
    pub mount_target: String,
    /// Name of the directory of the working copy.
    pub name: String,
    /// Remote URL.
    pub url: String,
    /// Branch to clone.
    pub branch: String,
    /// Whether the repository is cloned (and mounted) at all.
    pub clone: bool,
}

/// Model of a repository.
pub struct RepositoryView {
    pub service: Seq<char>,
    pub mount_target: Seq<char>,
    pub name: Seq<char>,
    pub url: Seq<char>,
    pub branch: Seq<char>,
    pub clone: bool,
}

impl View for Repository {
    type V = RepositoryView;

    open spec fn view(&self) -> RepositoryView {
        RepositoryView {
            service: self.service@,
            mount_target: self.mount_target@,
            name: self.name@,
            url: self.url@,
            branch: self.branch@,
            clone: self.clone,
        }
    }
}

/// The models of a list of repositories.
pub open spec fn repository_views(v: Seq<Repository>) -> Seq<RepositoryView> {
    v.map_values(|r: Repository| r@)
}

/// A clone to perform: which repository, at which branch, into which directory.
#[derive(Debug, Clone, PartialEq, Eq)]
pub struct FetchRequest {
    pub name: String,
    pub url: String,
    pub branch: String,
    pub path: String,
}

/// Model of a clone to perform: name, URL, branch and directory.
pub open spec fn request_view(r: FetchRequest) -> (Seq<char>, Seq<char>, Seq<char>, Seq<char>) {
    (r.name@, r.url@, r.branch@, r.path@)
}

/// The clones that `repos` ask for, in order: one for each repository that
/// is cloned, into `services_dir/name`, whether or not it names a service.
pub open spec fn fetch_requests(
    repos: Seq<RepositoryView>,
    services_dir: Seq<char>,
) -> Seq<(Seq<char>, Seq<char>, Seq<char>, Seq<char>)>
    decreases repos.len(),
{
    if repos.len() == 0 {
        Seq::empty()
    } else {
        let rest = fetch_requests(repos.drop_last(), services_dir);
        let r = repos.last();
        if r.clone {
            rest.push((r.name, r.url, r.branch, joined(services_dir, r.name)))
        } else {
            rest
        }
    }
}

/// How an attempt to clone into a working-copy directory ended.
#[derive(Debug, Clone, PartialEq, Eq)]
pub enum CloneOutcome {
    /// The repository was cloned.
    Cloned,
    /// The directory already holds a working copy.
    AlreadyExists,
    /// Any other failure, with its diagnostic.
    Failed(String),
}

/// A clone that failed for another reason than an existing working copy.
#[derive(Debug, Clone, PartialEq, Eq)]
pub struct FetchError {
    /// Name of the repository.
    pub repository: String,
    /// The clone's diagnostic.
    pub detail: String,
}

/// The working copy that a fetch of `name` into `services_dir` yields after
/// `outcome`: its path, or none when the clone failed.
pub open spec fn fetched_path(name: Seq<char>, services_dir: Seq<char>, outcome: CloneOutcome) -> Option<Seq<char>> {
    match outcome {
        CloneOutcome::Failed(_) => None,
        _ => Some(joined(services_dir, name)),
    }
}

impl Repository {
    /// The directory of the working copy of `name`: `services_dir/name`.
    pub fn local_path(name: &String, services_dir: &String) -> (r: String)
        ensures
            r@ == joined(services_dir@, name@),
    {
        join_path(services_dir, name)
    }

    /// The clones that `repositories` ask for (see `fetch_requests`).
    pub fn fetch_plan(repositories: &Vec<Repository>, services_dir: &String) -> (r: Vec<FetchRequest>)
        ensures
            r@.map_values(|q: FetchRequest| request_view(q)) == fetch_requests(
                repository_views(repositories@),
                services_dir@,
            ),
    {
        let ghost repos = repository_views(repositories@);
        let mut r: Vec<FetchRequest> = Vec::new();
        let mut i: usize = 0;
        while i < repositories.len()
            invariant
                i <= repositories.len(),
                repos == repository_views(repositories@),
                r@.map_values(|q: FetchRequest| request_view(q)) == fetch_requests(
                    repos.subrange(0, i as int),
                    services_dir@,
                ),
            decreases repositories.len() - i,
        {
            let repo = &repositories[i];
            assert(repos.subrange(0, i as int + 1).drop_last() =~= repos.subrange(0, i as int));
            if repo.clone {
                let request = FetchRequest {
                    name: repo.name.clone(),
                    url: repo.url.clone(),
                    branch: repo.branch.clone(),
                    path: Self::local_path(&repo.name, services_dir),
                };
                let ghost prev = r@;
                r.push(request);
                assert(r@.map_values(|q: FetchRequest| request_view(q)) =~= prev.map_values(
                    |q: FetchRequest| request_view(q),
                ).push(request_view(request)));
            }
            i = i + 1;
        }
        assert(repos.subrange(0, repositories.len() as int) =~= repos);
        r
    }

    /// The result of fetching `name` into `services_dir` once the clone has
    /// ended with `outcome`: the working copy's path when it was cloned or
    /// was already there, an error naming the repository otherwise.
    pub fn finish_fetch(name: &String, services_dir: &String, outcome: CloneOutcome) -> (r: Result<String, FetchError>)
        ensures
            r is Ok <==> fetched_path(name@, services_dir@, outcome) is Some,
            r matches Ok(path) ==> fetched_path(name@, services_dir@, outcome) == Some(path@),
            r matches Err(e) ==> e.repository@ == name@ && outcome == CloneOutcome::Failed(e.detail),
    {
        match outcome {
            CloneOutcome::Failed(detail) => Err(FetchError { repository: name.clone(), detail }),
            _ => Ok(Self::local_path(name, services_dir)),
        }
    }
}

/// Fetching a repository again, once its working copy is in place, succeeds
/// with the path that the first fetch returned: the working copy's path
/// depends on its name and the services directory alone.
pub proof fn lemma_refetch_same_path(name: Seq<char>, services_dir: Seq<char>, first: CloneOutcome)
    requires
        fetched_path(name, services_dir, first) is Some,
    ensures
        fetched_path(name, services_dir, CloneOutcome::AlreadyExists) == fetched_path(name, services_dir, first),
{
}

} // verus!
