//! The manifest: services, networks and volumes keyed by name, and its
//! assembly from a configuration.

use vstd::prelude::*;
use crate::execute_command::{strings, ExecuteCommand};
use crate::ordered_map::{entries_from, insert_entry, OrderedMap};
use crate::paths::{env_file_name, env_file_name_of, join_path, joined};
use crate::config::Config;
use crate::repository::{repository_views, Repository, RepositoryView};

verus! {

/// A mount clause of a service.
#[derive(Debug, Clone, PartialEq, Eq)]
pub struct ServiceVolume {
    /// "bind" or "volume"; written under the key `type`.
    pub kind: String,
    pub source: String,
    pub target: String,
    pub read_only: bool,
}

/// Model of a mount clause.
pub struct ServiceVolumeView {
    pub kind: Seq<char>,
    pub source: Seq<char>,
    pub target: Seq<char>,
    pub read_only: bool,
}

impl View for ServiceVolume {
    type V = ServiceVolumeView;

    open spec fn view(&self) -> ServiceVolumeView {
        ServiceVolumeView {
            kind: self.kind@,
            source: self.source@,
            target: self.target@,
            read_only: self.read_only,
        }
    }
}

/// The models of a list of mount clauses.
pub open spec fn mount_views(v: Seq<ServiceVolume>) -> Seq<ServiceVolumeView> {
    v.map_values(|m: ServiceVolume| m@)
}

/// A deployable unit: one container.
#[derive(Debug, Clone, PartialEq, Eq)]
pub struct Service {
    pub hostname: String,
    pub image: String,
    pub ports: Vec<String>,
    pub tty: bool,
    pub environment: OrderedMap<String>,
    /// Names of environment-file sets; in the manifest, names of env files.
    pub env_file: Vec<String>,
    pub networks: Vec<String>,
    pub volumes: Vec<ServiceVolume>,
    pub depends_on: Vec<String>,
    pub restart: String,
}

/// Model of a service.
pub struct ServiceView {
    pub hostname: Seq<char>,
    pub image: Seq<char>,
    pub ports: Seq<Seq<char>>,
    pub tty: bool,
    pub environment: Seq<(Seq<char>, Seq<char>)>,
    pub env_file: Seq<Seq<char>>,
    pub networks: Seq<Seq<char>>,
    pub volumes: Seq<ServiceVolumeView>,
    pub depends_on: Seq<Seq<char>>,
    pub restart: Seq<char>,
}

impl View for Service {
    type V = ServiceView;

    open spec fn view(&self) -> ServiceView {
        ServiceView {
            hostname: self.hostname@,
            image: self.image@,
            ports: strings(self.ports@),
            tty: self.tty,
            environment: self.environment@,
            env_file: strings(self.env_file@),
            networks: strings(self.networks@),
            volumes: mount_views(self.volumes@),
            depends_on: strings(self.depends_on@),
            restart: self.restart@,
        }
    }
}

/// A network declaration.
#[derive(Debug, Clone, PartialEq, Eq)]
pub struct Network {
    pub name: String,
    /// Empty for the orchestrator's default.
    pub driver: String,
    /// Pre-existing, not created.
    pub external: bool,
    pub labels: OrderedMap<String>,
}

/// Model of a network or volume declaration.
pub struct DeclarationView {
    pub name: Seq<char>,
    pub driver: Seq<char>,
    pub external: bool,
    pub labels: Seq<(Seq<char>, Seq<char>)>,
}

impl View for Network {
    type V = DeclarationView;

    open spec fn view(&self) -> DeclarationView {
        DeclarationView {
            name: self.name@,
            driver: self.driver@,
            external: self.external,
            labels: self.labels@,
        }
    }
}

/// A volume declaration.
#[derive(Debug, Clone, PartialEq, Eq)]
pub struct Volume {
    pub name: String,
    /// Empty for the orchestrator's default.
    pub driver: String,
    /// Pre-existing, not created.
    pub external: bool,
    pub labels: OrderedMap<String>,
}

impl View for Volume {
    type V = DeclarationView;

    open spec fn view(&self) -> DeclarationView {
        DeclarationView {
            name: self.name@,
            driver: self.driver@,
            external: self.external,
            labels: self.labels@,
        }
    }
}

/// The manifest. `executable`, `file` and `detached` only drive the
/// orchestrator and are not part of the written manifest.
#[derive(Debug, Clone, PartialEq, Eq)]
pub struct Compose {
    pub services: OrderedMap<Service>,
    pub networks: OrderedMap<Network>,
    pub volumes: OrderedMap<Volume>,
    pub executable: String,
    pub file: String,
    pub detached: bool,
}

/// The bind mount of a repository's working copy.
pub open spec fn bind_mount(source: Seq<char>, target: Seq<char>) -> ServiceVolumeView {
    ServiceVolumeView { kind: "bind"@, source, target, read_only: false }
}

/// The mounts that repositories contribute, in declaration order, each with
/// the hostname of its service: one for each repository that is cloned and
/// names a service.
pub open spec fn repository_mounts(
    repos: Seq<RepositoryView>,
    services_dir: Seq<char>,
) -> Seq<(Seq<char>, ServiceVolumeView)>
    decreases repos.len(),
{
    if repos.len() == 0 {
        Seq::empty()
    } else {
        let rest = repository_mounts(repos.drop_last(), services_dir);
        let r = repos.last();
        if r.clone && r.service.len() > 0 {
            rest.push((r.service, bind_mount(joined(services_dir, r.name), r.mount_target)))
        } else {
            rest
        }
    }
}

/// The mounts of `pending` meant for `hostname`, in order.
pub open spec fn mounts_for(
    pending: Seq<(Seq<char>, ServiceVolumeView)>,
    hostname: Seq<char>,
) -> Seq<ServiceVolumeView>
    decreases pending.len(),
{
    if pending.len() == 0 {
        Seq::empty()
    } else {
        let rest = mounts_for(pending.drop_last(), hostname);
        if pending.last().0 == hostname {
            rest.push(pending.last().1)
        } else {
            rest
        }
    }
}

/// A service with the mounts of `pending` meant for it appended to its own.
pub open spec fn merged_service(
    s: ServiceView,
    pending: Seq<(Seq<char>, ServiceVolumeView)>,
) -> ServiceView {
    ServiceView { volumes: s.volumes + mounts_for(pending, s.hostname), ..s }
}

/// A service as the manifest holds it: its environment-file sets replaced by
/// the names of their files.
pub open spec fn manifest_service(s: ServiceView) -> ServiceView {
    ServiceView { env_file: s.env_file.map_values(|f: Seq<char>| env_file_name(f)), ..s }
}

/// The services of a manifest, keyed by hostname, before insertion.
pub open spec fn service_pairs(
    services: Seq<Service>,
    pending: Seq<(Seq<char>, ServiceVolumeView)>,
) -> Seq<(Seq<char>, ServiceView)> {
    services.map_values(
        |s: Service| (s.hostname@, manifest_service(merged_service(s@, pending))),
    )
}

/// Network declarations keyed by name.
pub open spec fn network_pairs(networks: Seq<Network>) -> Seq<(Seq<char>, DeclarationView)> {
    networks.map_values(|n: Network| (n.name@, n@))
}

/// Volume declarations keyed by name.
pub open spec fn volume_pairs(volumes: Seq<Volume>) -> Seq<(Seq<char>, DeclarationView)> {
    volumes.map_values(|v: Volume| (v.name@, v@))
}

/// Arguments that start the stack described by the manifest file `file`.
pub open spec fn up_args(file: Seq<char>, detached: bool) -> Seq<Seq<char>> {
    let args = seq!["-f"@, file, "up"@];
    if detached {
        args.push("-d"@)
    } else {
        args
    }
}

/// Arguments that stop the stack described by the manifest file `file`.
pub open spec fn down_args(file: Seq<char>) -> Seq<Seq<char>> {
    seq!["-f"@, file, "down"@]
}

/// Pending mounts as models.
pub open spec fn pending_views(v: Seq<(String, ServiceVolume)>) -> Seq<(Seq<char>, ServiceVolumeView)> {
    v.map_values(|p: (String, ServiceVolume)| (p.0@, p.1@))
}

impl ServiceVolume {
    /// A mount clause.
    pub fn new(kind: String, source: String, target: String, read_only: bool) -> (r: Self)
        ensures
            r.kind == kind,
            r.source == source,
            r.target == target,
            r.read_only == read_only,
    {
        ServiceVolume { kind, source, target, read_only }
    }

    /// A copy of this mount clause.
    pub fn duplicate(&self) -> (r: Self)
        ensures
            r@ == self@,
    {
        ServiceVolume::new(self.kind.clone(), self.source.clone(), self.target.clone(), self.read_only)
    }
}

impl Default for Compose {
    /// A manifest with no entries.
    fn default() -> (r: Self)
        ensures
            r.wf(),
            r.services@.len() == 0,
            r.networks@.len() == 0,
            r.volumes@.len() == 0,
            r.executable@.len() == 0,
            r.file@.len() == 0,
            !r.detached,
    {
        Compose {
            services: OrderedMap::new(),
            networks: OrderedMap::new(),
            volumes: OrderedMap::new(),
            executable: String::new(),
            file: String::new(),
            detached: false,
        }
    }
}

impl Compose {
    /// Its three maps have unique keys.
    pub open spec fn wf(&self) -> bool {
        &&& self.services.wf()
        &&& self.networks.wf()
        &&& self.volumes.wf()
    }

    /// The mounts that `repositories` contribute, each with the hostname of
    /// its service: for each repository that is cloned and names a service,
    /// in order, a bind mount of `services_dir/name` at its mount target.
    pub fn pending_mounts(repositories: &Vec<Repository>, services_dir: &String) -> (r: Vec<(String, ServiceVolume)>)
        ensures
            pending_views(r@) == repository_mounts(repository_views(repositories@), services_dir@),
    {
        let ghost repos = repository_views(repositories@);
        let mut r: Vec<(String, ServiceVolume)> = Vec::new();
        let mut i: usize = 0;
        while i < repositories.len()
            invariant
                i <= repositories.len(),
                repos == repository_views(repositories@),
                pending_views(r@) == repository_mounts(repos.subrange(0, i as int), services_dir@),
            decreases repositories.len() - i,
        {
            let repo = &repositories[i];
            assert(repos.subrange(0, i as int + 1).drop_last() =~= repos.subrange(0, i as int));
            if repo.clone && !repo.service.as_str().is_empty() {
                let source = join_path(services_dir, &repo.name);
                let mount = ServiceVolume::new(
                    String::from_str("bind"),
                    source,
                    repo.mount_target.clone(),
                    false,
                );
                let ghost prev = r@;
                r.push((repo.service.clone(), mount));
                assert(pending_views(r@) =~= pending_views(prev).push((repo.service@, mount@)));
            }
            i = i + 1;
        }
        assert(repos.subrange(0, repositories.len() as int) =~= repos);
        r
    }

    /// `service` with the mounts of `pending` meant for it (by hostname)
    /// appended to its own, in order.
    pub fn merge_mounts(service: Service, pending: &Vec<(String, ServiceVolume)>) -> (r: Service)
        ensures
            r@ == merged_service(service@, pending_views(pending@)),
    {
        let mut service = service;
        let ghost s0 = service@;
        let ghost pv = pending_views(pending@);
        let mut j: usize = 0;
        while j < pending.len()
            invariant
                j <= pending.len(),
                pv == pending_views(pending@),
                service@ == (ServiceView {
                    volumes: s0.volumes + mounts_for(pv.subrange(0, j as int), s0.hostname),
                    ..s0
                }),
            decreases pending.len() - j,
        {
            assert(pv.subrange(0, j as int + 1).drop_last() =~= pv.subrange(0, j as int));
            if pending[j].0 == service.hostname {
                let ghost prev = service.volumes@;
                service.volumes.push(pending[j].1.duplicate());
                assert(mount_views(service.volumes@) =~= mount_views(prev).push(pending@[j as int].1@));
            }
            j = j + 1;
            assert(s0.volumes + mounts_for(pv.subrange(0, j as int), s0.hostname) =~= mount_views(service.volumes@));
        }
        assert(pv.subrange(0, pending.len() as int) =~= pv);
        service
    }

    /// Assembles a manifest. Repository mounts (see `pending_mounts`) are
    /// appended to the services they name; each service, its environment-file
    /// sets rewritten to file names, goes under its hostname, each network and
    /// volume under its name, a later one replacing an earlier one with the
    /// same key. The manifest is to be written to `deploy_dir/file_name`.
    pub fn generate(
        services: Vec<Service>,
        networks: Vec<Network>,
        volumes: Vec<Volume>,
        repositories: &Vec<Repository>,
        file_name: String,
        deploy_dir: &String,
        services_dir: &String,
    ) -> (r: Self)
        ensures
            r.wf(),
            r.services@ == entries_from(
                service_pairs(
                    services@,
                    repository_mounts(repository_views(repositories@), services_dir@),
                ),
            ),
            r.networks@ == entries_from(network_pairs(networks@)),
            r.volumes@ == entries_from(volume_pairs(volumes@)),
            r.file@ == joined(deploy_dir@, file_name@),
            r.executable@.len() == 0,
            !r.detached,
    {
        let pending = Self::pending_mounts(repositories, services_dir);
        let ghost pv = pending_views(pending@);
        let ghost all_services = service_pairs(services@, pv);
        let ghost all_networks = network_pairs(networks@);
        let ghost all_volumes = volume_pairs(volumes@);
        let mut compose = Self::default();
        assert(all_services.subrange(0, 0) =~= Seq::<(Seq<char>, ServiceView)>::empty());
        for service in it: services.into_iter()
            invariant
                compose.wf(),
                pv == pending_views(pending@),
                it.seq() == services@,
                all_services == service_pairs(services@, pv),
                compose.services@ == entries_from(all_services.subrange(0, it.index())),
                compose.networks@.len() == 0,
                compose.volumes@.len() == 0,
                compose.executable@.len() == 0,
                compose.file@.len() == 0,
                !compose.detached,
        {
            assert(all_services.subrange(0, it.index() + 1).drop_last() =~= all_services.subrange(0, it.index()));
            let hostname = service.hostname.clone();
            let merged = Self::merge_mounts(service, &pending);
            compose.insert_service(hostname, merged);
        }
        assert(all_services.subrange(0, all_services.len() as int) =~= all_services);
        assert(all_networks.subrange(0, 0) =~= Seq::<(Seq<char>, DeclarationView)>::empty());
        for network in it: networks.into_iter()
            invariant
                compose.wf(),
                it.seq() == networks@,
                all_networks == network_pairs(networks@),
                compose.services@ == entries_from(all_services),
                compose.networks@ == entries_from(all_networks.subrange(0, it.index())),
                compose.volumes@.len() == 0,
                compose.executable@.len() == 0,
                compose.file@.len() == 0,
                !compose.detached,
        {
            assert(all_networks.subrange(0, it.index() + 1).drop_last() =~= all_networks.subrange(0, it.index()));
            let name = network.name.clone();
            compose.insert_network(name, network);
        }
        assert(all_networks.subrange(0, all_networks.len() as int) =~= all_networks);
        assert(all_volumes.subrange(0, 0) =~= Seq::<(Seq<char>, DeclarationView)>::empty());
        for volume in it: volumes.into_iter()
            invariant
                compose.wf(),
                it.seq() == volumes@,
                all_volumes == volume_pairs(volumes@),
                compose.services@ == entries_from(all_services),
                compose.networks@ == entries_from(all_networks),
                compose.volumes@ == entries_from(all_volumes.subrange(0, it.index())),
                compose.executable@.len() == 0,
                compose.file@.len() == 0,
                !compose.detached,
        {
            assert(all_volumes.subrange(0, it.index() + 1).drop_last() =~= all_volumes.subrange(0, it.index()));
            let name = volume.name.clone();
            compose.insert_volume(name, volume);
        }
        assert(all_volumes.subrange(0, all_volumes.len() as int) =~= all_volumes);
        compose.file = join_path(deploy_dir, &file_name);
        compose
    }

    /// Assembles the manifest of `config` (see `generate`), to be written to
    /// the manifest file of its deploy directory and run with its executable.
    pub fn new(config: Config) -> (r: Self)
        ensures
            r.wf(),
            r.services@ == entries_from(
                service_pairs(
                    config.services@,
                    repository_mounts(
                        repository_views(config.repositories@),
                        joined(config.settings.base_dir@, config.settings.services_dir@),
                    ),
                ),
            ),
            r.networks@ == entries_from(network_pairs(config.networks@)),
            r.volumes@ == entries_from(volume_pairs(config.volumes@)),
            r.file@ == joined(
                joined(config.settings.base_dir@, config.settings.deploy_dir@),
                config.settings.compose_file@,
            ),
            r.executable@ == config.settings.compose_executable@,
            r.detached == config.settings.compose_detached,
    {
        let deploy_dir = config.settings.deploy_path();
        let services_dir = config.settings.services_path();
        let Config { settings, services, env_files: _, networks, volumes, repositories } = config;
        let mut compose = Self::generate(
            services,
            networks,
            volumes,
            &repositories,
            settings.compose_file,
            &deploy_dir,
            &services_dir,
        );
        compose.executable = settings.compose_executable;
        compose.detached = settings.compose_detached;
        compose
    }

    /// The command that starts the stack: `executable -f file up`, with `-d`
    /// when detached.
    pub fn up(&self) -> (r: ExecuteCommand)
        ensures
            r.program@ == self.executable@,
            strings(r.args@) == up_args(self.file@, self.detached),
    {
        let mut args: Vec<String> = Vec::new();
        args.push(String::from_str("-f"));
        args.push(self.file.clone());
        args.push(String::from_str("up"));
        if self.detached {
            args.push(String::from_str("-d"));
        }
        assert(strings(args@) =~= up_args(self.file@, self.detached));
        ExecuteCommand { program: self.executable.clone(), args }
    }

    /// The command that stops the stack: `executable -f file down`.
    pub fn down(&self) -> (r: ExecuteCommand)
        ensures
            r.program@ == self.executable@,
            strings(r.args@) == down_args(self.file@),
    {
        let mut args: Vec<String> = Vec::new();
        args.push(String::from_str("-f"));
        args.push(self.file.clone());
        args.push(String::from_str("down"));
        assert(strings(args@) =~= down_args(self.file@));
        ExecuteCommand { program: self.executable.clone(), args }
    }

    /// Adds a service under `name`, its environment-file sets rewritten to
    /// the names of their files; a service already under `name` is replaced.
    pub fn insert_service(&mut self, name: String, data: Service)
        requires
            old(self).wf(),
        ensures
            final(self).wf(),
            final(self).services@ == insert_entry(old(self).services@, name@, manifest_service(data@)),
            final(self).networks == old(self).networks,
            final(self).volumes == old(self).volumes,
            final(self).executable == old(self).executable,
            final(self).file == old(self).file,
            final(self).detached == old(self).detached,
    {
        let mut data = data;
        let ghost before = data@;
        let mut files: Vec<String> = Vec::new();
        let mut i: usize = 0;
        while i < data.env_file.len()
            invariant
                i <= data.env_file.len(),
                files.len() == i,
                data@ == before,
                strings(files@) =~= before.env_file.subrange(0, i as int).map_values(
                    |f: Seq<char>| env_file_name(f),
                ),
            decreases data.env_file.len() - i,
        {
            let name = env_file_name_of(&data.env_file[i]);
            assert(data.env_file@[i as int]@ == before.env_file[i as int]);
            let ghost prev = files@;
            files.push(name);
            i = i + 1;
            let ghost expected = before.env_file.subrange(0, i as int).map_values(
                |f: Seq<char>| env_file_name(f),
            );
            assert forall|k: int| 0 <= k < i implies #[trigger] strings(files@)[k] == expected[k] by {
                if k < i - 1 {
                    assert(files@[k] == prev[k]);
                    assert(strings(prev)[k] == files@[k]@);
                }
            }
            assert(strings(files@) =~= expected);
        }
        assert(before.env_file.subrange(0, before.env_file.len() as int) =~= before.env_file);
        data.env_file = files;
        assert(data@ == manifest_service(before));
        self.services.insert(name, data);
    }

    /// Adds a network under `name`, replacing one already there.
    pub fn insert_network(&mut self, name: String, data: Network)
        requires
            old(self).wf(),
        ensures
            final(self).wf(),
            final(self).networks@ == insert_entry(old(self).networks@, name@, data@),
            final(self).services == old(self).services,
            final(self).volumes == old(self).volumes,
            final(self).executable == old(self).executable,
            final(self).file == old(self).file,
            final(self).detached == old(self).detached,
    {
        self.networks.insert(name, data);
    }

    /// Adds a volume under `name`, replacing one already there.
    pub fn insert_volume(&mut self, name: String, data: Volume)
        requires
            old(self).wf(),
        ensures
            final(self).wf(),
            final(self).volumes@ == insert_entry(old(self).volumes@, name@, data@),
            final(self).services == old(self).services,
            final(self).networks == old(self).networks,
            final(self).executable == old(self).executable,
            final(self).file == old(self).file,
            final(self).detached == old(self).detached,
    {
        self.volumes.insert(name, data);
    }
}

} // verus!
