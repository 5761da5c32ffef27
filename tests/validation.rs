use compose_launcher::compose::{Network, Service};
use compose_launcher::config::{Config, ReferenceKind};
use compose_launcher::env::EnvironmentFile;
use compose_launcher::ordered_map::OrderedMap;
use compose_launcher::settings::Settings;

fn s(v: &str) -> String {
    v.to_string()
}

fn service(hostname: &str, networks: &[&str], env_files: &[&str]) -> Service {
    Service {
        hostname: s(hostname),
        image: s("alpine"),
        ports: vec![],
        tty: true,
        environment: OrderedMap::new(),
        env_file: env_files.iter().map(|n| s(n)).collect(),
        networks: networks.iter().map(|n| s(n)).collect(),
        volumes: vec![],
        depends_on: vec![],
        restart: s("always"),
    }
}

fn config(services: Vec<Service>, networks: &[&str], env_files: &[&str]) -> Config {
    Config {
        settings: Settings {
            name: s("launcher"),
            author: s("someone"),
            description: s("test"),
            base_dir: s("."),
            deploy_dir: s("deploy"),
            services_dir: s("services"),
            compose_executable: s("docker-compose"),
            compose_file: s("docker-compose.yaml"),
            compose_detached: false,
        },
        services,
        env_files: env_files.iter().map(|n| EnvironmentFile { name: s(n), values: vec![] }).collect(),
        networks: networks
            .iter()
            .map(|n| Network { name: s(n), driver: s(""), external: false, labels: OrderedMap::new() })
            .collect(),
        volumes: vec![],
        repositories: vec![],
    }
}

#[test]
fn resolving_references_pass() {
    let c = config(
        vec![service("web", &["front", "back"], &["app"]), service("db", &["back"], &[])],
        &["front", "back"],
        &["app", "unused"],
    );
    assert_eq!(c.validate(), Ok(()));
}

#[test]
fn no_services_pass() {
    assert_eq!(config(vec![], &[], &[]).validate(), Ok(()));
}

#[test]
fn dangling_network_is_reported() {
    let c = config(vec![service("web", &["front", "missing"], &["app"])], &["front"], &["app"]);
    let e = c.validate().unwrap_err();
    assert_eq!(e.reference, "missing");
    assert_eq!(e.service, "web");
    assert_eq!(e.kind, ReferenceKind::Network);
}

#[test]
fn dangling_env_file_is_reported() {
    let c = config(vec![service("web", &[], &[]), service("api", &["front"], &["secrets"])], &["front"], &["app"]);
    let e = c.validate().unwrap_err();
    assert_eq!(e.reference, "secrets");
    assert_eq!(e.service, "api");
    assert_eq!(e.kind, ReferenceKind::EnvironmentFile);
}

#[test]
fn names_match_exactly() {
    let c = config(vec![service("web", &["Front"], &[])], &["front"], &[]);
    assert_eq!(c.validate().unwrap_err().reference, "Front");
}
