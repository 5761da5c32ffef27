//! Properties that relate several functions of the library.

use vstd::prelude::*;
use crate::compose::{
    bind_mount, mounts_for, network_pairs, repository_mounts, volume_pairs, Compose, Network,
    ServiceVolumeView, Volume,
};
use crate::config::{Config, ReferenceKind};
use crate::ordered_map::entries_from;
use crate::paths::joined;
use crate::repository::RepositoryView;

verus! {

/// The bind mounts of the repositories of `repos` that are cloned for the
/// service `hostname`, in declaration order.
pub open spec fn cloned_for(
    repos: Seq<RepositoryView>,
    services_dir: Seq<char>,
    hostname: Seq<char>,
) -> Seq<ServiceVolumeView>
    decreases repos.len(),
{
    if repos.len() == 0 {
        Seq::empty()
    } else {
        let rest = cloned_for(repos.drop_last(), services_dir, hostname);
        let r = repos.last();
        if r.clone && r.service.len() > 0 && r.service == hostname {
            rest.push(bind_mount(joined(services_dir, r.name), r.mount_target))
        } else {
            rest
        }
    }
}

/// The mounts that a service receives from the repositories are exactly the
/// bind mounts of the repositories cloned for its hostname, one for each such
/// repository, in declaration order.
pub proof fn lemma_repository_mounts_by_service(
    repos: Seq<RepositoryView>,
    services_dir: Seq<char>,
    hostname: Seq<char>,
)
    ensures
        mounts_for(repository_mounts(repos, services_dir), hostname) == cloned_for(
            repos,
            services_dir,
            hostname,
        ),
    decreases repos.len(),
{
    if repos.len() > 0 {
        lemma_repository_mounts_by_service(repos.drop_last(), services_dir, hostname);
        let pending = repository_mounts(repos, services_dir);
        let rest = repository_mounts(repos.drop_last(), services_dir);
        if pending.len() > rest.len() {
            assert(pending.drop_last() =~= rest);
        } else {
            assert(pending == rest);
        }
    }
}

/// A repository that names no service adds a mount to no service: removing
/// it from the declarations changes the mounts of no hostname.
pub proof fn lemma_unattached_repository_mounts_nothing(
    repos: Seq<RepositoryView>,
    services_dir: Seq<char>,
    r: RepositoryView,
    hostname: Seq<char>,
)
    requires
        r.service.len() == 0,
    ensures
        mounts_for(repository_mounts(repos.push(r), services_dir), hostname) == mounts_for(
            repository_mounts(repos, services_dir),
            hostname,
        ),
{
    assert(repos.push(r).drop_last() =~= repos);
}

/// A manifest assembled from no network and no volume declarations has empty
/// network and volume maps, so that neither key is written.
pub proof fn lemma_no_declarations_no_maps(c: Compose, networks: Seq<Network>, volumes: Seq<Volume>)
    requires
        networks.len() == 0,
        volumes.len() == 0,
        c.networks@ == entries_from(network_pairs(networks)),
        c.volumes@ == entries_from(volume_pairs(volumes)),
    ensures
        c.networks@.len() == 0,
        c.volumes@.len() == 0,
{
}

/// A configuration with a dangling reference does not pass validation's
/// condition, so that `validate` fails on it.
pub proof fn lemma_dangling_fails_validation(
    config: Config,
    hostname: Seq<char>,
    reference: Seq<char>,
    kind: ReferenceKind,
)
    requires
        config.dangling(hostname, reference, kind),
    ensures
        !config.references_resolve(),
{
    let i = choose|i: int|
        0 <= i < config.services.len() && #[trigger] config.services@[i].hostname@ == hostname
            && match kind {
            ReferenceKind::Network => {
                &&& exists|j: int|
                    0 <= j < config.services@[i].networks.len()
                        && #[trigger] config.services@[i].networks@[j]@ == reference
                &&& !crate::config::declares_network(config.networks@, reference)
            },
            ReferenceKind::EnvironmentFile => {
                &&& exists|j: int|
                    0 <= j < config.services@[i].env_file.len()
                        && #[trigger] config.services@[i].env_file@[j]@ == reference
                &&& !crate::config::declares_env_file(config.env_files@, reference)
            },
        };
    assert(!crate::config::service_resolves(config.services@[i], config.networks@, config.env_files@));
}

} // verus!
