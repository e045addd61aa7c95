use uni_runtime::config::{Config, Environment, LoadError, LooseEnv};
use uni_runtime::distro::Distro;

fn env(name: &str, distro: Distro, state: &str) -> Environment {
    Environment {
        name: name.to_string(),
        distro,
        created: "2024-01-01T00:00:00+00:00".to_string(),
        state: state.to_string(),
        rootfs_path: format!("/tmp/uni-runtime/envs/{}", name),
        memory_limit: None,
        cpu_limit: None,
    }
}

fn sample() -> Config {
    let mut c = Config::default();
    c.add_env(env("dev", Distro::Ubuntu2204, "stopped"));
    c.add_env(env("arch", Distro::Archlinux, "running"));
    c.add_env(env("dev", Distro::Fedora40, "second"));
    c
}

#[test]
fn paths_of_the_configuration() {
    assert_eq!(Config::config_path(), "/tmp/uni-runtime/config.json");
    assert_eq!(Config::envs_dir(), "/tmp/uni-runtime/envs");
    assert_eq!(Config::env_root("dev"), "/tmp/uni-runtime/envs/dev");
    assert_eq!(Config::env_root("/abs"), "/abs");
}

#[test]
fn default_configuration_is_empty() {
    let c = Config::default();
    assert!(c.environments.is_empty());
    assert!(c.default_env.is_none());
    assert!(c.get_default_env().is_none());
}

#[test]
fn lookup_finds_the_first_of_a_name() {
    let c = sample();
    let e = c.get_env("dev").unwrap();
    assert_eq!(e.state, "stopped");
    assert_eq!(e.distro, Distro::Ubuntu2204);
    assert!(c.get_env("nope").is_none());
    assert!(c.get_env("").is_none());
}

#[test]
fn added_environment_is_found() {
    let mut c = sample();
    c.add_env(env("fresh", Distro::Debian12, "stopped"));
    assert_eq!(c.environments.len(), 4);
    assert_eq!(c.get_env("fresh").unwrap().distro, Distro::Debian12);
    assert_eq!(c.get_env("arch").unwrap().state, "running");
}

#[test]
fn lookup_for_change_edits_in_place() {
    let mut c = sample();
    {
        let e = c.get_env_mut("arch").unwrap();
        e.state = "running-again".to_string();
    }
    assert_eq!(c.environments[1].state, "running-again");
    assert_eq!(c.environments[0].state, "stopped");
    assert!(c.get_env_mut("missing").is_none());
}

#[test]
fn removal_drops_every_environment_of_the_name() {
    let mut c = sample();
    c.default_env = Some("arch".to_string());
    c.remove_env("dev");
    assert_eq!(c.environments.len(), 1);
    assert_eq!(c.environments[0].name, "arch");
    assert!(c.get_env("dev").is_none());
    assert_eq!(c.default_env.as_deref(), Some("arch"));
    c.remove_env("dev");
    assert_eq!(c.environments.len(), 1);
}

#[test]
fn removing_the_default_unsets_it() {
    let mut c = sample();
    c.default_env = Some("arch".to_string());
    assert_eq!(c.get_default_env().unwrap().name, "arch");
    c.remove_env("arch");
    assert!(c.default_env.is_none());
    assert!(c.get_default_env().is_none());
    assert_eq!(c.environments.len(), 2);
}

#[test]
fn default_naming_a_missing_environment_gives_none() {
    let mut c = sample();
    c.default_env = Some("ghost".to_string());
    assert!(c.get_default_env().is_none());
}

#[test]
fn loose_entries_become_environments() {
    let records = vec![
        LooseEnv {
            name: Some("a".to_string()),
            distro: Some("archlinux".to_string()),
            created: None,
            state: None,
        },
        LooseEnv {
            name: Some("b".to_string()),
            distro: Some("beos".to_string()),
            created: Some("x".to_string()),
            state: Some("running".to_string()),
        },
        LooseEnv { name: None, distro: Some("debian-12".to_string()), created: None, state: Some("up".to_string()) },
    ];
    let c = Config::from_loose_records(&records, Some("a".to_string()));
    assert_eq!(c.environments.len(), 2);
    assert_eq!(c.environments[0].name, "a");
    assert_eq!(c.environments[0].distro, Distro::Archlinux);
    assert_eq!(c.environments[0].state, "stopped");
    assert_eq!(c.environments[0].created, "");
    assert_eq!(c.environments[0].rootfs_path, "/tmp/uni-runtime/envs/a");
    assert_eq!(c.environments[1].name, "");
    assert_eq!(c.environments[1].state, "up");
    assert_eq!(c.environments[1].rootfs_path, "/tmp/uni-runtime/envs/");
    assert_eq!(c.default_env.as_deref(), Some("a"));
}

#[test]
fn lenient_load_reads_old_files() {
    let text = r#"{"environments":[{"name":"old","distro":"fedora-39","created":"then"},
        {"name":"bad","distro":7},{"name":"x","distro":"rhel-9","state":"running","cpu_limit":"two"}],
        "default_env":"old"}"#;
    let c = Config::load_lenient(text).unwrap();
    assert_eq!(c.environments.len(), 2);
    assert_eq!(c.environments[0].name, "old");
    assert_eq!(c.environments[0].distro, Distro::Fedora39);
    assert_eq!(c.environments[0].created, "then");
    assert_eq!(c.environments[0].state, "stopped");
    assert_eq!(c.environments[1].state, "running");
    assert_eq!(c.environments[1].cpu_limit, None);
    assert_eq!(c.default_env.as_deref(), Some("old"));
}

#[test]
fn lenient_load_of_other_shapes() {
    let c = Config::load_lenient("[1, 2]").unwrap();
    assert!(c.environments.is_empty());
    assert!(c.default_env.is_none());
    let c = Config::load_lenient(r#"{"environments": {"a": 1}, "default_env": 3}"#).unwrap();
    assert!(c.environments.is_empty());
    assert!(c.default_env.is_none());
}

#[test]
fn lenient_load_refuses_text_that_is_not_json() {
    match Config::load_lenient("{not json") {
        Err(LoadError::InvalidJson(_)) => {}
        Ok(_) => panic!("accepted text that is not JSON"),
    }
}

#[test]
fn loading_picks_the_right_source() {
    let c = Config::load_from(None, None).unwrap();
    assert!(c.environments.is_empty());
    let strict = sample();
    let c = Config::load_from(Some("ignored"), Some(strict)).unwrap();
    assert_eq!(c.environments.len(), 3);
    let c = Config::load_from(Some(r#"{"default_env":"z"}"#), None).unwrap();
    assert_eq!(c.default_env.as_deref(), Some("z"));
    assert!(Config::load_from(Some("nope"), None).is_err());
}

#[test]
fn lenient_load_reads_the_named_members_only() {
    let text = r#"{"environment":[{"name":"a","distro":"archlinux"}],
        "environments":[{"name":"b","distro":"archlinux","state":5},{"nam":"c","distro":"debian-12"}],
        "default":"a","default_env":"b"}"#;
    let c = Config::load_lenient(text).unwrap();
    assert_eq!(c.environments.len(), 2);
    assert_eq!(c.environments[0].name, "b");
    assert_eq!(c.environments[0].state, "stopped");
    assert_eq!(c.environments[1].name, "");
    assert_eq!(c.environments[1].distro, Distro::Debian12);
    assert_eq!(c.default_env.as_deref(), Some("b"));
}
