use compose_launcher::env::{EnvironmentFile, EnvironmentVar};

fn s(v: &str) -> String {
    v.to_string()
}

fn var(name: &str, value: &str) -> EnvironmentVar {
    EnvironmentVar { name: s(name), value: s(value) }
}

#[test]
fn test_env_file() {
    let env_files = vec![
        EnvironmentFile { name: s("web"), values: vec![var("MYVAR1", "MyVAL1"), var("MYVAR2", "MyVAL2")] },
        EnvironmentFile { name: s("db"), values: vec![var("POSTGRES_USER", "app")] },
    ];
    let deploy_dir: String = format!("{}/{}", ".", "deploy");
    let env_file_paths = EnvironmentFile::generate(&env_files, &deploy_dir).unwrap();
    assert_eq!(env_file_paths.len() > 0, true);
}

#[test]
fn env_files_are_named_after_their_sets() {
    let env_files = vec![
        EnvironmentFile { name: s("app"), values: vec![var("FOO", "bar")] },
        EnvironmentFile { name: s("db"), values: vec![] },
    ];
    let files = EnvironmentFile::generate(&env_files, &s("out")).unwrap();
    assert_eq!(files[0].path, "out/.app.env");
    assert_eq!(files[1].path, "out/.db.env");
    assert_eq!(files[1].contents, "");
    let again = EnvironmentFile::generate(&env_files, &s("out")).unwrap();
    assert_eq!(files, again);
}

#[test]
fn repeated_variables_keep_their_last_value() {
    let set = EnvironmentFile { name: s("app"), values: vec![var("A", "1"), var("B", "2"), var("A", "3")] };
    let vars = set.variables();
    assert_eq!(vars.entries, vec![(s("A"), s("3")), (s("B"), s("2"))]);
    let files = EnvironmentFile::generate(&vec![set], &s("d")).unwrap();
    assert_eq!(files[0].contents, "A=\"3\"\nB=\"2\"");
}

#[test]
fn values_are_quoted_and_escaped() {
    let set = EnvironmentFile { name: s("app"), values: vec![var("GREETING", "say \"hi\"")] };
    let files = EnvironmentFile::generate(&vec![set], &s("d")).unwrap();
    assert_eq!(files[0].contents, "GREETING=\"say \\\"hi\\\"\"");
}

#[test]
fn invalid_variable_name_fails_with_the_set() {
    let env_files = vec![
        EnvironmentFile { name: s("good"), values: vec![var("OK", "1")] },
        EnvironmentFile { name: s("bad"), values: vec![var("NOT OK", "1")] },
    ];
    let e = EnvironmentFile::generate(&env_files, &s("d")).unwrap_err();
    assert_eq!(e.set, "bad");
}
