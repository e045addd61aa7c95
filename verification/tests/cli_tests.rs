use uni_runtime::cli::{
    cmd_create, cmd_delete, cmd_exec, cmd_info, cmd_list, cmd_ps, cmd_restore, cmd_run,
    cmd_set_default, cmd_snapshot, cmd_start, cmd_stop, cmd_unset_default, get_target_env,
    finish_set_default, snapshot_path, CliError, SetDefaultPlan,
};
use uni_runtime::config::{Config, Environment};
use uni_runtime::distro::Distro;

fn env(name: &str, distro: Distro) -> Environment {
    Environment {
        name: name.to_string(),
        distro,
        created: "2024-05-01T10:00:00+00:00".to_string(),
        state: "stopped".to_string(),
        rootfs_path: format!("/tmp/uni-runtime/envs/{}", name),
        memory_limit: None,
        cpu_limit: None,
    }
}

fn sample() -> Config {
    let mut c = Config::default();
    c.add_env(env("my-ubuntu", Distro::Ubuntu2204));
    c.add_env(env("my-arch", Distro::Archlinux));
    c.default_env = Some("my-arch".to_string());
    c
}

#[test]
fn create_checks() {
    let c = sample();
    match cmd_create(&c, "new", "gentoo") {
        Err(e) => assert_eq!(e.message(), "Unsupported distribution: gentoo"),
        Ok(d) => panic!("{:?}", d),
    }
    match cmd_create(&c, "my-arch", "debian-12") {
        Err(e) => assert_eq!(e.message(), "Environment 'my-arch' already exists"),
        Ok(d) => panic!("{:?}", d),
    }
    assert_eq!(cmd_create(&c, "my-fedora", "fedora-40").unwrap(), Distro::Fedora40);
}

#[test]
fn list_output() {
    let c = sample();
    assert_eq!(
        cmd_list(&c),
        vec![
            "Environment list:",
            "  my-ubuntu",
            "    Distribution: ubuntu-22.04",
            "    Created: 2024-05-01T10:00:00+00:00",
            "    State: stopped",
            "    Path: /tmp/uni-runtime/envs/my-ubuntu",
            "  my-arch *",
            "    Distribution: archlinux",
            "    Created: 2024-05-01T10:00:00+00:00",
            "    State: stopped",
            "    Path: /tmp/uni-runtime/envs/my-arch",
        ]
    );
    assert_eq!(
        cmd_list(&Config::default()),
        vec!["Environment list:", "(No environments created)"]
    );
}

#[test]
fn lookups_of_missing_environments() {
    let c = sample();
    let e = cmd_delete(&c, "ghost").unwrap_err();
    assert_eq!(e.message(), "Environment 'ghost' not found");
    assert!(cmd_start(&c, "ghost").is_err());
    assert!(cmd_stop(&c, "ghost").is_err());
    assert!(cmd_snapshot(&c, "ghost", "s").is_err());
    assert!(cmd_restore(&c, "ghost", "s", true).is_err());
    assert_eq!(cmd_delete(&c, "my-arch").unwrap().distro, Distro::Archlinux);
}

#[test]
fn command_lines() {
    let c = sample();
    assert_eq!(
        cmd_start(&c, "my-ubuntu").unwrap(),
        vec!["Starting environment 'my-ubuntu'...", "Root directory: /tmp/uni-runtime/envs/my-ubuntu"]
    );
    assert_eq!(cmd_stop(&c, "my-ubuntu").unwrap(), vec!["Stopping environment 'my-ubuntu'..."]);
    assert_eq!(cmd_ps(&c), vec!["Running environments:"]);
    let (lines, plan) = cmd_snapshot(&c, "my-arch", "before-upgrade").unwrap();
    assert_eq!(
        lines,
        vec![
            "Creating snapshot 'before-upgrade' for environment 'my-arch'...",
            "Source directory: /tmp/uni-runtime/envs/my-arch"
        ]
    );
    assert_eq!(plan.source, "/tmp/uni-runtime/envs/my-arch");
    assert_eq!(plan.target, "/tmp/uni-runtime/snapshots/my-arch/before-upgrade");
    let (lines, back) = cmd_restore(&c, "my-arch", "before-upgrade", true).unwrap();
    assert_eq!(
        lines,
        vec![
            "Restoring snapshot 'before-upgrade' to environment 'my-arch'...",
            "Target directory: /tmp/uni-runtime/envs/my-arch"
        ]
    );
    assert_eq!(back.source, plan.target);
    assert_eq!(back.target, plan.source);
}

#[test]
fn set_default_decisions() {
    let mut c = sample();
    match cmd_set_default(&mut c, None, Some("debian-12".to_string())).unwrap() {
        SetDefaultPlan::CreateAndSet { name, distro, create_env } => {
            assert_eq!(name, "default-debian-12");
            assert_eq!(distro, Distro::Debian12);
            assert!(create_env);
        }
        other => panic!("{:?}", other),
    }
    let mut c2 = sample();
    c2.add_env(env("default-archlinux", Distro::Archlinux));
    match cmd_set_default(&mut c2, Some("my-ubuntu".to_string()), Some("archlinux".to_string())).unwrap() {
        SetDefaultPlan::CreateAndSet { name, create_env, .. } => {
            assert_eq!(name, "default-archlinux");
            assert!(!create_env);
        }
        other => panic!("{:?}", other),
    }
    assert_eq!(c.default_env.as_deref(), Some("my-arch"));
    assert_eq!(c2.default_env.as_deref(), Some("my-arch"));
    match cmd_set_default(&mut c, Some("my-ubuntu".to_string()), None).unwrap() {
        SetDefaultPlan::UseExisting { name } => assert_eq!(name, "my-ubuntu"),
        other => panic!("{:?}", other),
    }
    assert_eq!(c.default_env.as_deref(), Some("my-ubuntu"));
    assert_eq!(c.environments.len(), 2);
    assert_eq!(get_target_env(&c, None).unwrap().name, "my-ubuntu");
    let e = cmd_set_default(&mut c, Some("ghost".to_string()), None).unwrap_err();
    assert_eq!(e.message(), "Environment 'ghost' not found");
    let e = cmd_set_default(&mut c, None, None).unwrap_err();
    assert_eq!(e.message(), "Please specify environment name or use --create option");
    let e = cmd_set_default(&mut c, None, Some("beos".to_string())).unwrap_err();
    assert_eq!(e.message(), "Unsupported distribution: beos");
    assert_eq!(c.default_env.as_deref(), Some("my-ubuntu"));
}

#[test]
fn finishing_set_create() {
    let mut c = sample();
    finish_set_default(&mut c, "default-debian-12".to_string(), Some(env("default-debian-12", Distro::Debian12)));
    assert_eq!(c.environments.len(), 3);
    assert_eq!(c.environments[2].name, "default-debian-12");
    assert_eq!(c.default_env.as_deref(), Some("default-debian-12"));
    assert_eq!(get_target_env(&c, None).unwrap().distro, Distro::Debian12);
    finish_set_default(&mut c, "my-ubuntu".to_string(), None);
    assert_eq!(c.environments.len(), 3);
    assert_eq!(c.default_env.as_deref(), Some("my-ubuntu"));
}

#[test]
fn unset_default() {
    let mut c = sample();
    assert!(cmd_unset_default(&mut c));
    assert!(c.default_env.is_none());
    assert!(!cmd_unset_default(&mut c));
    assert_eq!(c.environments.len(), 2);
}

#[test]
fn target_environment() {
    let c = sample();
    assert_eq!(get_target_env(&c, Some("my-ubuntu".to_string())).unwrap().name, "my-ubuntu");
    assert_eq!(get_target_env(&c, None).unwrap().name, "my-arch");
    let mut c2 = sample();
    c2.default_env = None;
    let e = get_target_env(&c2, None).unwrap_err();
    assert_eq!(
        e.message(),
        "No default environment set, please specify environment name or set a default first"
    );
    assert!(matches!(get_target_env(&c, Some("x".to_string())), Err(CliError::NotFound(_))));
    assert_eq!(cmd_run(&c, None).unwrap().name, "my-arch");
}

#[test]
fn exec_needs_a_command_first() {
    let mut c = sample();
    c.default_env = None;
    let e = cmd_exec(&c, Some("ghost".to_string()), &[]).unwrap_err();
    assert_eq!(e.message(), "Please specify command (use -- to separate)");
    let cmd = vec!["apt".to_string(), "update".to_string()];
    assert_eq!(cmd_exec(&c, Some("my-ubuntu".to_string()), &cmd).unwrap().name, "my-ubuntu");
    assert!(matches!(cmd_exec(&c, None, &cmd), Err(CliError::NoDefault)));
}

#[test]
fn info_lines() {
    let mut c = sample();
    c.environments[1].memory_limit = Some("2G".to_string());
    c.environments[1].cpu_limit = Some(4);
    assert_eq!(
        cmd_info(&c, "default").unwrap(),
        vec![
            "Environment info:",
            "  Name: my-arch",
            "  Distribution: archlinux",
            "  Package Manager: pacman",
            "  Created: 2024-05-01T10:00:00+00:00",
            "  State: stopped",
            "  Root path: /tmp/uni-runtime/envs/my-arch",
            "  Memory limit: 2G",
            "  CPU limit: 4 cores",
            "  (Current default environment)",
        ]
    );
    assert_eq!(cmd_info(&c, "my-ubuntu").unwrap().len(), 7);
    assert!(cmd_info(&c, "ghost").is_err());
    c.default_env = None;
    assert_eq!(cmd_info(&c, "default").unwrap(), vec!["No default environment set"]);
}

#[test]
fn snapshot_names_and_missing_snapshots() {
    let c = sample();
    for bad in ["", ".", "..", "a/b", "/etc"] {
        let e = cmd_snapshot(&c, "my-arch", bad).unwrap_err();
        assert_eq!(e.message(), format!("Invalid snapshot name: {}", bad));
        assert!(matches!(cmd_restore(&c, "my-arch", bad, true), Err(CliError::InvalidSnapshotName(_))));
    }
    let e = cmd_restore(&c, "my-arch", "never", false).unwrap_err();
    assert_eq!(e.message(), "Snapshot 'never' not found for environment 'my-arch'");
    assert_eq!(snapshot_path("my-arch", "s1"), "/tmp/uni-runtime/snapshots/my-arch/s1");
    assert_ne!(snapshot_path("my-arch", "s1"), snapshot_path("my-arch", "s2"));
}
