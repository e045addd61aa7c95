use uni_runtime::config::Environment;
use uni_runtime::distro::Distro;
use uni_runtime::runner::{
    which_candidates, CreateProgress, RunError, Runner, SetupStep, ShellInput, ShellPlan,
};

fn env() -> Environment {
    Environment {
        name: "box".to_string(),
        distro: Distro::Ubuntu2204,
        created: "now".to_string(),
        state: "stopped".to_string(),
        rootfs_path: "/tmp/uni-runtime/envs/box".to_string(),
        memory_limit: None,
        cpu_limit: None,
    }
}

#[test]
fn new_environment_records() {
    match Runner::check_new_env("box", true) {
        Err(RunError::EnvExists(n)) => assert_eq!(n, "box"),
        other => panic!("{:?}", other),
    }
    assert_eq!(Runner::check_new_env("box", false).unwrap(), "/tmp/uni-runtime/envs/box");
    let e = Runner::create_env_record("box", Distro::Archlinux, "2025-02-03T04:05:06+00:00".to_string());
    assert_eq!(e.name, "box");
    assert_eq!(e.distro, Distro::Archlinux);
    assert_eq!(e.state, "stopped");
    assert_eq!(e.rootfs_path, "/tmp/uni-runtime/envs/box");
    assert_eq!(e.created, "2025-02-03T04:05:06+00:00");
    assert!(e.memory_limit.is_none() && e.cpu_limit.is_none());
}

#[test]
fn lightweight_layout() {
    assert_eq!(
        Runner::skeleton_dirs(),
        vec!["bin", "etc", "usr/bin", "usr/lib", "var", "home", "tmp", "proc", "sys", "dev"]
    );
    assert_eq!(Runner::hosts_file("box"), "127.0.0.1 localhost\n127.0.0.1 box\n");
    assert_eq!(
        Runner::pkg_manager_stub_path("/r", &Distro::OpensuseLeap),
        "/r/usr/bin/zypper"
    );
}

#[test]
fn setup_steps() {
    assert_eq!(Runner::setup_env(&Distro::Archlinux), SetupStep::Archlinux);
    assert_eq!(Runner::setup_env(&Distro::Ubuntu2404), SetupStep::Ubuntu);
    assert_eq!(Runner::setup_env(&Distro::Debian12), SetupStep::Debian);
    assert_eq!(Runner::setup_env(&Distro::Fedora39), SetupStep::Fedora);
    assert_eq!(Runner::setup_env(&Distro::Rhel9), SetupStep::Nothing);
    assert_eq!(Runner::setup_env(&Distro::OpensuseTumbleweed), SetupStep::Nothing);
    assert_eq!(SetupStep::Archlinux.file(), Some("etc/pacman.conf"));
    assert_eq!(SetupStep::Nothing.file(), None);
}

#[test]
fn pacman_conf_set_up() {
    let before = "[options]\n#Color\n#ParallelDownloads = 5\nCheckSpace\n";
    assert_eq!(
        Runner::setup_archlinux(before),
        "[options]\nColor\nParallelDownloads = 10\nCheckSpace\n"
    );
}

#[test]
fn sources_filled_once() {
    let filled = Runner::setup_ubuntu("").unwrap();
    assert!(filled.starts_with("deb http://archive.ubuntu.com/ubuntu/ jammy main"));
    assert_eq!(Runner::setup_ubuntu(&filled), None);
    let filled = Runner::setup_debian("").unwrap();
    assert!(filled.contains("bookworm-updates"));
    assert_eq!(Runner::setup_debian(&filled), None);
}

#[test]
fn dnf_conf_changed_once() {
    let once = Runner::setup_fedora("[main]\ngpgcheck=1").unwrap();
    assert_eq!(once, "[main]\ngpgcheck=1\nfastestmirror=True\n");
    assert_eq!(Runner::setup_fedora(&once), None);
}

#[test]
fn exec_plans() {
    let e = env();
    let cmd = vec!["apt".to_string(), "update".to_string()];
    match Runner::exec_plan(&e, &cmd, false, true, "/bin") {
        Err(RunError::RootMissing(p)) => assert_eq!(p, "/tmp/uni-runtime/envs/box"),
        other => panic!("{:?}", other),
    }
    assert!(matches!(Runner::exec_plan(&e, &[], true, true, "/bin"), Err(RunError::EmptyCommand)));
    let p = Runner::exec_plan(&e, &cmd, true, true, "/bin").unwrap();
    assert_eq!(p.program, "proot");
    assert_eq!(
        p.args,
        vec![
            "-R",
            "/tmp/uni-runtime/envs/box",
            "-b",
            "/etc/resolv.conf:/etc/resolv.conf",
            "-b",
            "/proc:/proc",
            "-b",
            "/sys:/sys",
            "-b",
            "/dev:/dev",
            "--",
            "/bin/sh",
            "-c",
            "apt update"
        ]
    );
    assert!(p.current_dir.is_none() && p.path_var.is_none());
    let p = Runner::exec_plan(&e, &cmd, true, false, "/usr/bin:/bin").unwrap();
    assert_eq!(p.program, "/bin/sh");
    assert_eq!(p.args, vec!["-c", "apt update"]);
    assert_eq!(p.current_dir.as_deref(), Some("/tmp/uni-runtime/envs/box"));
    assert_eq!(
        p.path_var.as_deref(),
        Some("PATH=/tmp/uni-runtime/envs/box/usr/bin:/tmp/uni-runtime/envs/box/bin:/usr/bin:/bin")
    );
    assert_eq!(
        p.ld_library_path.as_deref(),
        Some("/tmp/uni-runtime/envs/box/usr/lib:/tmp/uni-runtime/envs/box/lib")
    );
}

#[test]
fn outcomes_and_messages() {
    assert!(Runner::command_outcome(true, Some(0)).is_ok());
    let e = Runner::command_outcome(false, Some(2)).unwrap_err();
    assert_eq!(e.message(), "Command failed with exit code: 2");
    let e = Runner::command_outcome(false, None).unwrap_err();
    assert_eq!(e.message(), "Command failed with exit code: -1");
    let e = Runner::shell_outcome(false, Some(130)).unwrap_err();
    assert_eq!(e.message(), "Shell exited with code: 130");
    assert!(Runner::shell_outcome(true, None).is_ok());
    assert_eq!(RunError::EnvExists("a".to_string()).message(), "Environment 'a' already exists");
    assert_eq!(
        RunError::RootMissing("/r".to_string()).message(),
        "Environment directory does not exist: /r"
    );
    assert_eq!(RunError::EmptyCommand.message(), "Please specify a command to execute");
}

#[test]
fn shell_plans_and_lines() {
    let e = env();
    assert!(matches!(Runner::run_plan(&e, false, true), Err(RunError::RootMissing(_))));
    assert!(matches!(Runner::run_plan(&e, true, false), Ok(ShellPlan::LineByLine)));
    match Runner::run_plan(&e, true, true) {
        Ok(ShellPlan::Proot(p)) => {
            assert_eq!(p.program, "proot");
            assert_eq!(p.args.last().map(|s| s.as_str()), Some("/bin/bash"));
            assert_eq!(p.args.len(), 12);
        }
        other => panic!("{:?}", other),
    }
    assert_eq!(
        Runner::shell_banner(&e),
        vec![
            "Entering interactive shell for environment 'box'...",
            "Distribution: ubuntu-22.04",
            "Type 'exit' to quit"
        ]
    );
    assert_eq!(Runner::shell_prompt("box"), "box@uni-runtime:~$ ");
    assert!(matches!(Runner::shell_step("  exit\n"), ShellInput::Exit));
    assert!(matches!(Runner::shell_step(" \n"), ShellInput::Empty));
    assert!(matches!(Runner::shell_step("exit now"), ShellInput::Command(_)));
    match Runner::shell_step(" ls  -la /\n") {
        ShellInput::Command(w) => assert_eq!(w, vec!["ls", "-la", "/"]),
        other => panic!("{:?}", other),
    }
}

#[test]
fn binary_lookup_candidates() {
    assert_eq!(
        which_candidates("/usr/bin:/bin", "proot"),
        vec!["/usr/bin/proot", "/bin/proot"]
    );
    assert_eq!(which_candidates("", "sh"), vec!["sh"]);
    assert_eq!(which_candidates("/x/:", "sh"), vec!["/x/sh", "sh"]);
}

#[test]
fn listing_returns_all_environments() {
    let mut c = uni_runtime::config::Config::default();
    c.add_env(env());
    let envs = Runner::list_envs(c);
    assert_eq!(envs.len(), 1);
    assert_eq!(envs[0].name, "box");
}

#[test]
fn creation_falls_back_once() {
    assert_eq!(Runner::create_progress(true, None), CreateProgress::Created);
    assert_eq!(Runner::create_progress(false, None), CreateProgress::TryProot);
    assert_eq!(Runner::create_progress(false, Some(true)), CreateProgress::Created);
    assert_eq!(Runner::create_progress(false, Some(false)), CreateProgress::Failed);
}

#[test]
fn shell_chosen_for_lightweight_trees() {
    let c = Runner::shell_copy(Some("/usr/bin/bash".to_string()), Some("/bin/sh".to_string())).unwrap();
    assert_eq!((c.source.as_str(), c.target.as_str(), c.link_bash), ("/usr/bin/bash", "bin/bash", false));
    let c = Runner::shell_copy(None, Some("/bin/sh".to_string())).unwrap();
    assert_eq!((c.source.as_str(), c.target.as_str(), c.link_bash), ("/bin/sh", "bin/sh", true));
    assert!(Runner::shell_copy(None, None).is_none());
}
