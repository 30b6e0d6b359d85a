use restic_watcher::config::{load_settings, ConfigError, ConfigValue};

fn text(s: &str) -> ConfigValue {
    ConfigValue::Text(s.to_string())
}

fn table(entries: Vec<(&str, ConfigValue)>) -> ConfigValue {
    ConfigValue::Table(entries.into_iter().map(|(k, v)| (k.to_string(), v)).collect())
}

fn dir(name: &str, path: &str, throttle: ConfigValue) -> ConfigValue {
    table(vec![("name", text(name)), ("path", text(path)), ("throttle", throttle)])
}

fn document(dirs: ConfigValue) -> Vec<(&'static str, ConfigValue)> {
    vec![
        ("repo", text("/srv/repo")),
        ("exclude-file", text("/etc/excludes")),
        ("password-command", text("cat /etc/pw")),
        ("logfile", text("/var/log/w.log")),
        ("env-path", text("/usr/bin")),
        ("restic-path", text("/usr/bin/restic")),
        ("dirs", dirs),
    ]
}

#[test]
fn loads_a_full_document() {
    let dirs = ConfigValue::List(vec![
        dir("docs", "/data/docs", ConfigValue::Integer(5)),
        dir("photos", "/data/photos", ConfigValue::Integer(60)),
    ]);
    let s = load_settings(&table(document(dirs))).unwrap();
    assert_eq!(s.config.repo, "/srv/repo");
    assert_eq!(s.config.exclude_file, "/etc/excludes");
    assert_eq!(s.config.password_command, "cat /etc/pw");
    assert_eq!(s.config.logfile, "/var/log/w.log");
    assert_eq!(s.config.env_path, "/usr/bin");
    assert_eq!(s.config.restic_path, "/usr/bin/restic");
    assert_eq!(s.jobs.len(), 2);
    assert_eq!(s.jobs[0].name, "docs");
    assert_eq!(s.jobs[0].path, "/data/docs");
    assert_eq!(s.jobs[0].throttle, 5);
    assert_eq!(s.jobs[1].name, "photos");
    assert_eq!(s.jobs[1].throttle, 60);
}

#[test]
fn empty_dirs_gives_no_jobs() {
    let s = load_settings(&table(document(ConfigValue::List(vec![])))).unwrap();
    assert_eq!(s.jobs.len(), 0);
}

#[test]
fn first_missing_setting_is_named() {
    let mut d = document(ConfigValue::List(vec![]));
    d.remove(3);
    d.remove(1);
    match load_settings(&table(d)) {
        Err(ConfigError::MissingField { key }) => assert_eq!(key, "exclude-file"),
        other => panic!("unexpected {:?}", other),
    }
}

#[test]
fn dirs_must_be_a_list() {
    match load_settings(&table(document(text("docs")))) {
        Err(ConfigError::MissingField { key }) => assert_eq!(key, "dirs"),
        other => panic!("unexpected {:?}", other),
    }
}

#[test]
fn a_non_table_document_misses_repo() {
    match load_settings(&ConfigValue::Other) {
        Err(ConfigError::MissingField { key }) => assert_eq!(key, "repo"),
        other => panic!("unexpected {:?}", other),
    }
}

#[test]
fn negative_throttle_is_refused() {
    let dirs = ConfigValue::List(vec![
        dir("docs", "/data/docs", ConfigValue::Integer(5)),
        dir("tmp", "/tmp", ConfigValue::Integer(-1)),
    ]);
    match load_settings(&table(document(dirs))) {
        Err(ConfigError::BadDir { index }) => assert_eq!(index, 1),
        other => panic!("unexpected {:?}", other),
    }
}

#[test]
fn dir_without_path_is_refused() {
    let dirs = ConfigValue::List(vec![table(vec![("name", text("docs")), ("throttle", ConfigValue::Integer(1))])]);
    match load_settings(&table(document(dirs))) {
        Err(ConfigError::BadDir { index }) => assert_eq!(index, 0),
        other => panic!("unexpected {:?}", other),
    }
}

#[test]
fn first_of_repeated_keys_wins() {
    let mut d = document(ConfigValue::List(vec![]));
    d.push(("repo", text("/other")));
    let s = load_settings(&table(d)).unwrap();
    assert_eq!(s.config.repo, "/srv/repo");
}
