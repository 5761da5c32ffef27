use compose_launcher::compose::{Compose, Network, Service, ServiceVolume, Volume};
use compose_launcher::config::Config;
use compose_launcher::env::{EnvironmentFile, EnvironmentVar};
use compose_launcher::ordered_map::OrderedMap;
use compose_launcher::predicates::{is_compose_networks_empty, is_compose_volumes_empty};
use compose_launcher::repository::Repository;
use compose_launcher::settings::Settings;

fn s(v: &str) -> String {
    v.to_string()
}

fn service(hostname: &str) -> Service {
    Service {
        hostname: s(hostname),
        image: s("nginx:latest"),
        ports: vec![],
        tty: false,
        environment: OrderedMap::new(),
        env_file: vec![],
        networks: vec![],
        volumes: vec![],
        depends_on: vec![],
        restart: s(""),
    }
}

fn network(name: &str) -> Network {
    Network { name: s(name), driver: s(""), external: false, labels: OrderedMap::new() }
}

fn volume(name: &str) -> Volume {
    Volume { name: s(name), driver: s(""), external: false, labels: OrderedMap::new() }
}

fn repository(name: &str, service: &str, target: &str, clone: bool) -> Repository {
    Repository {
        service: s(service),
        mount_target: s(target),
        name: s(name),
        url: format!("https://example.org/{}.git", name),
        branch: s("main"),
        clone,
    }
}

fn bind(source: &str, target: &str) -> ServiceVolume {
    ServiceVolume::new(s("bind"), s(source), s(target), false)
}

#[test]
fn repository_mounts_go_to_their_services_in_order() {
    let services = vec![service("a"), service("b")];
    let repos = vec![
        repository("r1", "a", "/one", true),
        repository("r2", "a", "/two", true),
        repository("r3", "b", "/three", true),
        repository("r4", "", "/four", true),
    ];
    let compose = Compose::generate(
        services,
        vec![],
        vec![],
        &repos,
        s("compose.yaml"),
        &s("deploy"),
        &s("services"),
    );
    let a = compose.services.get(&s("a")).unwrap();
    assert_eq!(a.volumes, vec![bind("services/r1", "/one"), bind("services/r2", "/two")]);
    let b = compose.services.get(&s("b")).unwrap();
    assert_eq!(b.volumes, vec![bind("services/r3", "/three")]);
    assert_eq!(compose.services.len(), 2);
}

#[test]
fn repository_mounts_follow_existing_volumes() {
    let mut web = service("web");
    web.volumes.push(ServiceVolume::new(s("volume"), s("data"), s("/data"), true));
    let repos = vec![repository("site", "web", "/srv", true), repository("skip", "web", "/x", false)];
    let compose = Compose::generate(vec![web], vec![], vec![], &repos, s("c.yaml"), &s("d"), &s("svc"));
    let web = compose.services.get(&s("web")).unwrap();
    assert_eq!(
        web.volumes,
        vec![ServiceVolume::new(s("volume"), s("data"), s("/data"), true), bind("svc/site", "/srv")]
    );
}

#[test]
fn duplicate_repository_entries_give_duplicate_mounts() {
    let repos = vec![repository("site", "web", "/srv", true), repository("site", "web", "/srv", true)];
    let compose = Compose::generate(vec![service("web")], vec![], vec![], &repos, s("c.yaml"), &s("d"), &s("svc"));
    let web = compose.services.get(&s("web")).unwrap();
    assert_eq!(web.volumes, vec![bind("svc/site", "/srv"), bind("svc/site", "/srv")]);
}

#[test]
fn no_networks_or_volumes_leave_both_maps_empty() {
    let compose = Compose::generate(vec![service("web")], vec![], vec![], &vec![], s("c.yaml"), &s("d"), &s("svc"));
    assert!(is_compose_networks_empty(&compose.networks));
    assert!(is_compose_volumes_empty(&compose.volumes));
}

#[test]
fn declared_networks_and_volumes_are_kept_by_name() {
    let compose = Compose::generate(
        vec![],
        vec![network("front"), network("back")],
        vec![volume("data")],
        &vec![],
        s("c.yaml"),
        &s("d"),
        &s("svc"),
    );
    assert!(!is_compose_networks_empty(&compose.networks));
    assert!(!is_compose_volumes_empty(&compose.volumes));
    assert_eq!(compose.networks.entries[0].0, "front");
    assert_eq!(compose.networks.entries[1].0, "back");
    assert_eq!(compose.volumes.get(&s("data")).unwrap(), &volume("data"));
}

#[test]
fn later_service_with_same_hostname_wins() {
    let mut first = service("web");
    first.image = s("first");
    let mut second = service("web");
    second.image = s("second");
    let compose = Compose::generate(vec![first, second, service("db")], vec![], vec![], &vec![], s("c.yaml"), &s("d"), &s("svc"));
    assert_eq!(compose.services.len(), 2);
    assert_eq!(compose.services.entries[0].0, "web");
    assert_eq!(compose.services.entries[0].1.image, "second");
    assert_eq!(compose.services.entries[1].0, "db");
}

#[test]
fn env_file_references_become_file_names() {
    let mut web = service("web");
    web.env_file = vec![s("app"), s("db")];
    let mut compose = Compose::default();
    compose.insert_service(s("web"), web);
    let web = compose.services.get(&s("web")).unwrap();
    assert_eq!(web.env_file, vec![s(".app.env"), s(".db.env")]);
}

#[test]
fn manifest_file_is_in_the_deploy_directory() {
    let compose = Compose::generate(vec![], vec![], vec![], &vec![], s("docker-compose.yaml"), &s("/tmp/deploy"), &s("svc"));
    assert_eq!(compose.file, "/tmp/deploy/docker-compose.yaml");
    assert_eq!(compose.executable, "");
    assert!(!compose.detached);
}

#[test]
fn up_and_down_commands() {
    let mut compose = Compose::default();
    compose.executable = s("docker-compose");
    compose.file = s("deploy/compose.yaml");
    let up = compose.up();
    assert_eq!(up.program, "docker-compose");
    assert_eq!(up.args, vec![s("-f"), s("deploy/compose.yaml"), s("up")]);
    compose.detached = true;
    assert_eq!(compose.up().args, vec![s("-f"), s("deploy/compose.yaml"), s("up"), s("-d")]);
    let down = compose.down();
    assert_eq!(down.program, "docker-compose");
    assert_eq!(down.args, vec![s("-f"), s("deploy/compose.yaml"), s("down")]);
}

fn settings() -> Settings {
    Settings {
        name: s("launcher"),
        author: s("someone"),
        description: s("test"),
        base_dir: s("/opt/app"),
        deploy_dir: s("deploy"),
        services_dir: s("services"),
        compose_executable: s("podman-compose"),
        compose_file: s("compose.yaml"),
        compose_detached: true,
    }
}

#[test]
fn end_to_end_scenario() {
    let mut web = service("web");
    web.networks = vec![s("net1")];
    web.env_file = vec![s("app")];
    let config = Config {
        settings: settings(),
        services: vec![web],
        env_files: vec![EnvironmentFile {
            name: s("app"),
            values: vec![EnvironmentVar { name: s("FOO"), value: s("bar") }],
        }],
        networks: vec![network("net1")],
        volumes: vec![],
        repositories: vec![Repository {
            service: s("web"),
            mount_target: s("/srv"),
            name: s("site"),
            url: s("https://example.org/site.git"),
            branch: s("main"),
            clone: true,
        }],
    };
    assert!(config.validate().is_ok());
    let deploy_dir = config.settings.deploy_path();
    let files = EnvironmentFile::generate(&config.env_files, &deploy_dir).unwrap();
    assert_eq!(files.len(), 1);
    assert_eq!(files[0].path, "/opt/app/deploy/.app.env");
    assert_eq!(files[0].contents, "FOO=\"bar\"");
    let compose = Compose::new(config);
    let web = compose.services.get(&s("web")).unwrap();
    assert_eq!(web.volumes.len(), 1);
    assert_eq!(web.volumes[0].kind, "bind");
    assert_eq!(web.volumes[0].target, "/srv");
    assert_eq!(web.volumes[0].source, "/opt/app/services/site");
    assert_eq!(web.env_file, vec![s(".app.env")]);
    assert_eq!(compose.file, "/opt/app/deploy/compose.yaml");
    assert_eq!(compose.executable, "podman-compose");
    assert!(compose.detached);
    assert!(compose.networks.get(&s("net1")).is_some());
}
