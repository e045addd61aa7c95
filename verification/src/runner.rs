use vstd::prelude::*;

use crate::config::{env_root_of, Config, Environment};
use crate::distro::{
    begins_with, distro_name, distro_pkg_manager, lemma_family_tells_pkg_manager, Distro,
};
use crate::text::{
    concatenate, has_substring, i64_to_decimal, join, joined, occurs_at, path_join, path_joined,
    replace_all, replaced, signed_decimal, split_chars, split_on, split_whitespace, str_eq, trim,
    trimmed, views, words,
};

verus! {

/// The program that creates, enters and removes environments.
pub struct Runner;

/// What went wrong while creating or running an environment.
#[derive(Debug, Clone)]
pub enum RunError {
    /// An environment's root directory already exists.
    EnvExists(String),
    /// An environment's root directory is missing.
    RootMissing(String),
    /// No command was given to run.
    EmptyCommand,
    /// A command ended with a failure exit code.
    CommandFailed(i32),
    /// The interactive shell ended with a failure exit code.
    ShellFailed(i32),
}

/// The message shown for a run error.
pub open spec fn run_error_message(e: RunError) -> Seq<char> {
    match e {
        RunError::EnvExists(n) => "Environment '"@ + n@ + "' already exists"@,
        RunError::RootMissing(p) => "Environment directory does not exist: "@ + p@,
        RunError::EmptyCommand => "Please specify a command to execute"@,
        RunError::CommandFailed(c) => "Command failed with exit code: "@ + signed_decimal(c as int),
        RunError::ShellFailed(c) => "Shell exited with code: "@ + signed_decimal(c as int),
    }
}

impl RunError {
    /// The message shown for this error.
    pub fn message(&self) -> (m: String)
        ensures
            m@ == run_error_message(*self),
    {
        match self {
            RunError::EnvExists(n) => concatenate(
                concatenate("Environment '", n.as_str()).as_str(),
                "' already exists",
            ),
            RunError::RootMissing(p) => concatenate("Environment directory does not exist: ", p.as_str()),
            RunError::EmptyCommand => "Please specify a command to execute".to_owned(),
            RunError::CommandFailed(c) => concatenate(
                "Command failed with exit code: ",
                i64_to_decimal(*c as i64).as_str(),
            ),
            RunError::ShellFailed(c) => concatenate(
                "Shell exited with code: ",
                i64_to_decimal(*c as i64).as_str(),
            ),
        }
    }
}


/// Which distribution-specific set-up a freshly extracted root file system
/// gets.
#[derive(Clone, Copy, Debug, PartialEq, Eq, Structural)]
pub enum SetupStep {
    /// Enable colour and more parallel downloads in `etc/pacman.conf` and make
    /// sure `etc/pacman.d/gnupg` exists.
    Archlinux,
    /// Fill an empty `etc/apt/sources.list` with Ubuntu's archive.
    Ubuntu,
    /// Fill an empty `etc/apt/sources.list` with Debian's archive.
    Debian,
    /// Turn on `fastestmirror` in `etc/dnf/dnf.conf`.
    Fedora,
    /// Nothing to set up.
    Nothing,
}

/// The set-up step of each distribution.
pub open spec fn setup_step_of(d: Distro) -> SetupStep {
    match d {
        Distro::Archlinux => SetupStep::Archlinux,
        Distro::Ubuntu2204 | Distro::Ubuntu2404 => SetupStep::Ubuntu,
        Distro::Debian12 => SetupStep::Debian,
        Distro::Fedora39 | Distro::Fedora40 => SetupStep::Fedora,
        _ => SetupStep::Nothing,
    }
}

/// The file a set-up step edits, relative to the root file system.
pub open spec fn setup_file_of(step: SetupStep) -> Option<Seq<char>> {
    match step {
        SetupStep::Archlinux => Some("etc/pacman.conf"@),
        SetupStep::Ubuntu | SetupStep::Debian => Some("etc/apt/sources.list"@),
        SetupStep::Fedora => Some("etc/dnf/dnf.conf"@),
        SetupStep::Nothing => None,
    }
}

/// The package sources written into an empty Ubuntu `sources.list`.
pub open spec fn ubuntu_sources() -> Seq<char> {
    "deb http://archive.ubuntu.com/ubuntu/ jammy main restricted universe multiverse\ndeb http://archive.ubuntu.com/ubuntu/ jammy-updates main restricted universe multiverse\n"@
}

/// The package sources written into an empty Debian `sources.list`.
pub open spec fn debian_sources() -> Seq<char> {
    "deb http://deb.debian.org/debian/ bookworm main\ndeb http://deb.debian.org/debian/ bookworm-updates main\n"@
}

/// `pacman.conf` with colour on and ten parallel downloads.
pub open spec fn pacman_conf_after(content: Seq<char>) -> Seq<char> {
    replaced(
        replaced(content, "#Color"@, "Color"@),
        "#ParallelDownloads = 5"@,
        "ParallelDownloads = 10"@,
    )
}

/// A `sources.list` after set-up: an empty one gets `sources`, any other is
/// left alone (`None`: nothing to write).
pub open spec fn sources_after(content: Seq<char>, sources: Seq<char>) -> Option<Seq<char>> {
    if content.len() == 0 {
        Some(sources)
    } else {
        None
    }
}

/// A `dnf.conf` after set-up: one that does not mention `fastestmirror`
/// gets it turned on at the end, any other is left alone.
pub open spec fn dnf_conf_after(content: Seq<char>) -> Option<Seq<char>> {
    if has_substring(content, "fastestmirror"@) {
        None
    } else {
        Some(content + "\nfastestmirror=True\n"@)
    }
}

/// The directories laid out in a lightweight environment.
pub open spec fn skeleton() -> Seq<Seq<char>> {
    seq![
        "bin"@,
        "etc"@,
        "usr/bin"@,
        "usr/lib"@,
        "var"@,
        "home"@,
        "tmp"@,
        "proc"@,
        "sys"@,
        "dev"@,
    ]
}

/// The `/etc/hosts` of a lightweight environment called `name`.
pub open spec fn hosts_file_of(name: Seq<char>) -> Seq<char> {
    "127.0.0.1 localhost\n127.0.0.1 "@ + name + "\n"@
}

/// The candidate paths of `binary` in the directories of a `PATH` value, in
/// order.
pub open spec fn candidates_of(dirs: Seq<Seq<char>>, binary: Seq<char>) -> Seq<Seq<char>> {
    dirs.map_values(|d: Seq<char>| path_joined(d, binary))
}

impl SetupStep {
    /// The file this step edits, relative to the root file system.
    pub fn file(&self) -> (f: Option<&'static str>)
        ensures
            match f {
                Some(t) => setup_file_of(*self) == Some(t@),
                None => setup_file_of(*self) is None,
            },
    {
        match self {
            SetupStep::Archlinux => Some("etc/pacman.conf"),
            SetupStep::Ubuntu | SetupStep::Debian => Some("etc/apt/sources.list"),
            SetupStep::Fedora => Some("etc/dnf/dnf.conf"),
            SetupStep::Nothing => None,
        }
    }
}

impl Runner {
    /// Checks that the environment called `name` can be created, given
    /// whether its root directory already exists; gives that directory.
    pub fn check_new_env(name: &str, root_exists: bool) -> (r: Result<String, RunError>)
        ensures
            root_exists ==> (r matches Err(RunError::EnvExists(n)) && n@ == name@),
            !root_exists ==> (r matches Ok(p) && p@ == env_root_of(name@)),
    {
        if root_exists {
            Err(RunError::EnvExists(name.to_owned()))
        } else {
            Ok(Config::env_root(name))
        }
    }

    /// The record of a freshly created environment called `name`, created at
    /// the time written `created`: stopped, rooted under the environments'
    /// directory, without limits.
    pub fn create_env_record(name: &str, distro: Distro, created: String) -> (e: Environment)
        ensures
            e@.name == name@,
            e@.distro == distro,
            e@.created == created@,
            e@.state == "stopped"@,
            e@.rootfs_path == env_root_of(name@),
            e@.memory_limit is None,
            e@.cpu_limit is None,
    {
        Environment {
            name: name.to_owned(),
            distro,
            created,
            state: "stopped".to_owned(),
            rootfs_path: Config::env_root(name),
            memory_limit: None,
            cpu_limit: None,
        }
    }

    /// The directories laid out in a lightweight environment, relative to its
    /// root.
    pub fn skeleton_dirs() -> (ds: Vec<&'static str>)
        ensures
            ds@.map_values(|d: &'static str| d@) == skeleton(),
    {
        let ds = vec!["bin", "etc", "usr/bin", "usr/lib", "var", "home", "tmp", "proc", "sys", "dev"];
        assert(ds@.map_values(|d: &'static str| d@) =~= skeleton());
        ds
    }

    /// The `/etc/hosts` of a lightweight environment called `name`.
    pub fn hosts_file(name: &str) -> (h: String)
        ensures
            h@ == hosts_file_of(name@),
    {
        concatenate(concatenate("127.0.0.1 localhost\n127.0.0.1 ", name).as_str(), "\n")
    }

    /// Where the package manager's stand-in script goes in a lightweight
    /// environment rooted at `env_root`.
    pub fn pkg_manager_stub_path(env_root: &str, distro: &Distro) -> (p: String)
        ensures
            p@ == path_joined(path_joined(env_root@, "usr/bin"@), distro_pkg_manager(*distro)),
    {
        let bin = path_join(env_root, "usr/bin");
        path_join(bin.as_str(), distro.pkg_manager())
    }

    /// The set-up step a distribution's root file system gets.
    pub fn setup_env(distro: &Distro) -> (step: SetupStep)
        ensures
            step == setup_step_of(*distro),
    {
        match distro {
            Distro::Archlinux => SetupStep::Archlinux,
            Distro::Ubuntu2204 | Distro::Ubuntu2404 => SetupStep::Ubuntu,
            Distro::Debian12 => SetupStep::Debian,
            Distro::Fedora39 | Distro::Fedora40 => SetupStep::Fedora,
            _ => SetupStep::Nothing,
        }
    }

    /// `pacman.conf` after set-up.
    pub fn setup_archlinux(content: &str) -> (out: String)
        ensures
            out@ == pacman_conf_after(content@),
    {
        proof {
            reveal_strlit("#Color");
            reveal_strlit("#ParallelDownloads = 5");
        }
        let step = replace_all(content, "#Color", "Color");
        replace_all(step.as_str(), "#ParallelDownloads = 5", "ParallelDownloads = 10")
    }

    /// Ubuntu's `sources.list` after set-up, `None` when it stays as it is.
    pub fn setup_ubuntu(content: &str) -> (out: Option<String>)
        ensures
            match out {
                Some(t) => sources_after(content@, ubuntu_sources()) == Some(t@),
                None => sources_after(content@, ubuntu_sources()) is None,
            },
    {
        if content.is_empty() {
            Some("deb http://archive.ubuntu.com/ubuntu/ jammy main restricted universe multiverse\ndeb http://archive.ubuntu.com/ubuntu/ jammy-updates main restricted universe multiverse\n".to_owned())
        } else {
            None
        }
    }

    /// Debian's `sources.list` after set-up, `None` when it stays as it is.
    pub fn setup_debian(content: &str) -> (out: Option<String>)
        ensures
            match out {
                Some(t) => sources_after(content@, debian_sources()) == Some(t@),
                None => sources_after(content@, debian_sources()) is None,
            },
    {
        if content.is_empty() {
            Some("deb http://deb.debian.org/debian/ bookworm main\ndeb http://deb.debian.org/debian/ bookworm-updates main\n".to_owned())
        } else {
            None
        }
    }

    /// Fedora's `dnf.conf` after set-up, `None` when it stays as it is.
    pub fn setup_fedora(content: &str) -> (out: Option<String>)
        ensures
            match out {
                Some(t) => dnf_conf_after(content@) == Some(t@),
                None => dnf_conf_after(content@) is None,
            },
    {
        if crate::text::contains(content, "fastestmirror") {
            None
        } else {
            Some(concatenate(content, "\nfastestmirror=True\n"))
        }
    }

    /// The environments of a configuration.
    pub fn list_envs(config: Config) -> (envs: Vec<Environment>)
        ensures
            envs@ == config.environments@,
    {
        config.environments
    }
}

/// The paths at which `binary` is looked for, one per directory of the `PATH`
/// value `path_var`, in order.
pub fn which_candidates(path_var: &str, binary: &str) -> (ps: Vec<String>)
    ensures
        views(ps@) == candidates_of(split_chars(path_var@, ':'), binary@),
{
    let dirs = split_on(path_var, ':');
    let mut out: Vec<String> = Vec::new();
    let mut i: usize = 0;
    while i < dirs.len()
        invariant
            i <= dirs@.len(),
            views(out@) == candidates_of(views(dirs@).take(i as int), binary@),
        decreases dirs@.len() - i,
    {
        let p = path_join(dirs[i].as_str(), binary);
        let ghost before = out@;
        out.push(p);
        proof {
            assert(views(dirs@).take(i + 1) =~= views(dirs@).take(i as int).push(dirs@[i as int]@));
            assert(views(out@) =~= views(before).push(p@));
        }
        i = i + 1;
    }
    assert(views(dirs@).take(dirs@.len() as int) =~= views(dirs@));
    out
}

/// A `sources.list` that set-up filled is not filled again.
pub proof fn lemma_sources_setup_once(content: Seq<char>)
    ensures
        sources_after(content, ubuntu_sources()) matches Some(t) ==> sources_after(
            t,
            ubuntu_sources(),
        ) is None,
        sources_after(content, debian_sources()) matches Some(t) ==> sources_after(
            t,
            debian_sources(),
        ) is None,
{
    reveal_strlit("deb http://archive.ubuntu.com/ubuntu/ jammy main restricted universe multiverse\ndeb http://archive.ubuntu.com/ubuntu/ jammy-updates main restricted universe multiverse\n");
    reveal_strlit("deb http://deb.debian.org/debian/ bookworm main\ndeb http://deb.debian.org/debian/ bookworm-updates main\n");
}

/// A `dnf.conf` that set-up changed is not changed again.
pub proof fn lemma_dnf_setup_once(content: Seq<char>)
    ensures
        dnf_conf_after(content) matches Some(t) ==> dnf_conf_after(t) is None,
{
    if let Some(t) = dnf_conf_after(content) {
        reveal_strlit("\nfastestmirror=True\n");
        reveal_strlit("fastestmirror");
        let i: int = content.len() as int + 1;
        assert(t.subrange(i, i + 13) =~= "fastestmirror"@);
        assert(occurs_at(t, "fastestmirror"@, i));
    }
}


/// A process to start: the program, its arguments, the directory it starts
/// in (`None`: the current one) and the values of `PATH` and
/// `LD_LIBRARY_PATH` it gets (`None`: inherited).
#[derive(Clone, Debug)]
pub struct CommandPlan {
    pub program: String,
    pub args: Vec<String>,
    pub current_dir: Option<String>,
    pub path_var: Option<String>,
    pub ld_library_path: Option<String>,
}

/// A process to start, as plain values.
pub struct CommandPlanView {
    pub program: Seq<char>,
    pub args: Seq<Seq<char>>,
    pub current_dir: Option<Seq<char>>,
    pub path_var: Option<Seq<char>>,
    pub ld_library_path: Option<Seq<char>>,
}

impl View for CommandPlan {
    type V = CommandPlanView;

    open spec fn view(&self) -> CommandPlanView {
        CommandPlanView {
            program: self.program@,
            args: views(self.args@),
            current_dir: crate::config::opt_view(self.current_dir),
            path_var: crate::config::opt_view(self.path_var),
            ld_library_path: crate::config::opt_view(self.ld_library_path),
        }
    }
}

/// The arguments that make `proot` run `tail` inside the root file system
/// `root`, with the host's resolver configuration and kernel file systems
/// bound in.
pub open spec fn proot_args(root: Seq<char>, tail: Seq<Seq<char>>) -> Seq<Seq<char>> {
    seq![
        "-R"@,
        root,
        "-b"@,
        "/etc/resolv.conf:/etc/resolv.conf"@,
        "-b"@,
        "/proc:/proc"@,
        "-b"@,
        "/sys:/sys"@,
        "-b"@,
        "/dev:/dev"@,
        "--"@,
    ] + tail
}

/// The process that runs the shell command `cmd` in the environment rooted
/// at `root`: under `proot` when it is available, else with the host's
/// `/bin/sh` started in the root directory with the environment's binaries
/// and libraries searched first (`host_path` is the host's `PATH`).
pub open spec fn exec_plan_of(
    root: Seq<char>,
    cmd: Seq<char>,
    use_proot: bool,
    host_path: Seq<char>,
) -> CommandPlanView {
    if use_proot {
        CommandPlanView {
            program: "proot"@,
            args: proot_args(root, seq!["/bin/sh"@, "-c"@, cmd]),
            current_dir: None,
            path_var: None,
            ld_library_path: None,
        }
    } else {
        CommandPlanView {
            program: "/bin/sh"@,
            args: seq!["-c"@, cmd],
            current_dir: Some(root),
            path_var: Some("PATH="@ + root + "/usr/bin:"@ + root + "/bin:"@ + host_path),
            ld_library_path: Some(root + "/usr/lib:"@ + root + "/lib"@),
        }
    }
}

/// The process that opens an interactive shell in the environment rooted at
/// `root` under `proot`.
pub open spec fn shell_plan_of(root: Seq<char>) -> CommandPlanView {
    CommandPlanView {
        program: "proot"@,
        args: proot_args(root, seq!["/bin/bash"@]),
        current_dir: None,
        path_var: None,
        ld_library_path: None,
    }
}

/// How an interactive shell is opened.
#[derive(Clone, Debug)]
pub enum ShellPlan {
    /// Start this process.
    Proot(CommandPlan),
    /// Read commands line by line and run each.
    LineByLine,
}

/// What one line typed into the line-by-line shell asks for.
#[derive(Clone, Debug)]
pub enum ShellInput {
    /// Leave the shell.
    Exit,
    /// Nothing: ask again.
    Empty,
    /// Run this command.
    Command(Vec<String>),
}

/// The result of a process that ended with `success` and exit `code`; a
/// failure without a code counts as code -1.
pub open spec fn exit_code_of(code: Option<i32>) -> i32 {
    match code {
        Some(c) => c,
        None => -1i32,
    }
}

fn push_str(v: &mut Vec<String>, s: &str)
    ensures
        views(final(v)@) == views(old(v)@).push(s@),
{
    let ghost before = v@;
    v.push(s.to_owned());
    assert(views(v@) =~= views(before).push(s@));
}

fn proot_prefix(root: &str) -> (v: Vec<String>)
    ensures
        views(v@) == proot_args(root@, Seq::<Seq<char>>::empty()),
{
    let mut v: Vec<String> = Vec::new();
    push_str(&mut v, "-R");
    push_str(&mut v, root);
    push_str(&mut v, "-b");
    push_str(&mut v, "/etc/resolv.conf:/etc/resolv.conf");
    push_str(&mut v, "-b");
    push_str(&mut v, "/proc:/proc");
    push_str(&mut v, "-b");
    push_str(&mut v, "/sys:/sys");
    push_str(&mut v, "-b");
    push_str(&mut v, "/dev:/dev");
    push_str(&mut v, "--");
    assert(views(v@) =~= proot_args(root@, Seq::<Seq<char>>::empty()));
    v
}

impl Runner {
    /// How to run `command` in `env`, given whether its root directory exists,
    /// whether `proot` is available and the host's `PATH`: the words of the
    /// command are joined with spaces into one shell command line.
    pub fn exec_plan(
        env: &Environment,
        command: &[String],
        root_exists: bool,
        use_proot: bool,
        host_path: &str,
    ) -> (r: Result<CommandPlan, RunError>)
        ensures
            !root_exists ==> (r matches Err(RunError::RootMissing(p)) && p@ == env@.rootfs_path),
            root_exists && command@.len() == 0 ==> r matches Err(RunError::EmptyCommand),
            root_exists && command@.len() > 0 ==> (r matches Ok(plan) && plan@ == exec_plan_of(
                env@.rootfs_path,
                joined(views(command@), " "@),
                use_proot,
                host_path@,
            )),
    {
        if !root_exists {
            return Err(RunError::RootMissing(env.rootfs_path.clone()));
        }
        if command.len() == 0 {
            return Err(RunError::EmptyCommand);
        }
        let cmd = join(command, " ");
        let root = env.rootfs_path.as_str();
        if use_proot {
            let mut args = proot_prefix(root);
            push_str(&mut args, "/bin/sh");
            push_str(&mut args, "-c");
            push_str(&mut args, cmd.as_str());
            let plan = CommandPlan {
                program: "proot".to_owned(),
                args,
                current_dir: None,
                path_var: None,
                ld_library_path: None,
            };
            assert(plan@.args =~= proot_args(root@, seq!["/bin/sh"@, "-c"@, cmd@]));
            Ok(plan)
        } else {
            let mut args: Vec<String> = Vec::new();
            push_str(&mut args, "-c");
            push_str(&mut args, cmd.as_str());
            let path_var = concatenate(
                concatenate(
                    concatenate(concatenate(concatenate("PATH=", root).as_str(), "/usr/bin:").as_str(), root).as_str(),
                    "/bin:",
                ).as_str(),
                host_path,
            );
            let ld = concatenate(concatenate(concatenate(root, "/usr/lib:").as_str(), root).as_str(), "/lib");
            let plan = CommandPlan {
                program: "/bin/sh".to_owned(),
                args,
                current_dir: Some(root.to_owned()),
                path_var: Some(path_var),
                ld_library_path: Some(ld),
            };
            assert(plan@.args =~= seq!["-c"@, cmd@]);
            Ok(plan)
        }
    }

    /// The outcome of a command that ended with `success` and exit `code`.
    pub fn command_outcome(success: bool, code: Option<i32>) -> (r: Result<(), RunError>)
        ensures
            success ==> r is Ok,
            !success ==> r == Err::<(), RunError>(RunError::CommandFailed(exit_code_of(code))),
    {
        if success {
            Ok(())
        } else {
            Err(RunError::CommandFailed(
                match code {
                    Some(c) => c,
                    None => -1,
                },
            ))
        }
    }

    /// How to open an interactive shell in `env`, given whether its root
    /// directory exists and whether `proot` is available.
    pub fn run_plan(env: &Environment, root_exists: bool, use_proot: bool) -> (r: Result<
        ShellPlan,
        RunError,
    >)
        ensures
            !root_exists ==> (r matches Err(RunError::RootMissing(p)) && p@ == env@.rootfs_path),
            root_exists && use_proot ==> (r matches Ok(ShellPlan::Proot(plan)) && plan@
                == shell_plan_of(env@.rootfs_path)),
            root_exists && !use_proot ==> r matches Ok(ShellPlan::LineByLine),
    {
        if !root_exists {
            return Err(RunError::RootMissing(env.rootfs_path.clone()));
        }
        if use_proot {
            let mut args = proot_prefix(env.rootfs_path.as_str());
            push_str(&mut args, "/bin/bash");
            let plan = CommandPlan {
                program: "proot".to_owned(),
                args,
                current_dir: None,
                path_var: None,
                ld_library_path: None,
            };
            assert(plan@.args =~= proot_args(env@.rootfs_path, seq!["/bin/bash"@]));
            Ok(ShellPlan::Proot(plan))
        } else {
            Ok(ShellPlan::LineByLine)
        }
    }

    /// The outcome of an interactive shell that ended with `success` and exit
    /// `code`.
    pub fn shell_outcome(success: bool, code: Option<i32>) -> (r: Result<(), RunError>)
        ensures
            success ==> r is Ok,
            !success ==> r == Err::<(), RunError>(RunError::ShellFailed(exit_code_of(code))),
    {
        if success {
            Ok(())
        } else {
            Err(RunError::ShellFailed(
                match code {
                    Some(c) => c,
                    None => -1,
                },
            ))
        }
    }

    /// The lines shown when an interactive shell is opened in `env`.
    pub fn shell_banner(env: &Environment) -> (lines: Vec<String>)
        ensures
            views(lines@) == seq![
                "Entering interactive shell for environment '"@ + env@.name + "'..."@,
                "Distribution: "@ + distro_name(env.distro),
                "Type 'exit' to quit"@,
            ],
    {
        let mut lines: Vec<String> = Vec::new();
        let first = concatenate(
            concatenate("Entering interactive shell for environment '", env.name.as_str()).as_str(),
            "'...",
        );
        push_str(&mut lines, first.as_str());
        let second = concatenate("Distribution: ", env.distro.as_str());
        push_str(&mut lines, second.as_str());
        push_str(&mut lines, "Type 'exit' to quit");
        assert(views(lines@) =~= seq![first@, second@, "Type 'exit' to quit"@]);
        lines
    }

    /// The prompt of the line-by-line shell of the environment called `name`.
    pub fn shell_prompt(name: &str) -> (p: String)
        ensures
            p@ == name@ + "@uni-runtime:~$ "@,
    {
        concatenate(name, "@uni-runtime:~$ ")
    }

    /// What a line typed into the line-by-line shell asks for: `exit` alone
    /// leaves, a blank line asks again, anything else runs its words.
    pub fn shell_step(line: &str) -> (input: ShellInput)
        ensures
            trimmed(line@) == "exit"@ ==> input matches ShellInput::Exit,
            trimmed(line@) != "exit"@ && trimmed(line@).len() == 0 ==> input matches ShellInput::Empty,
            trimmed(line@) != "exit"@ && trimmed(line@).len() > 0 ==> (input matches ShellInput::Command(ws)
                && views(ws@) == words(trimmed(line@))),
    {
        let t = trim(line);
        if str_eq(t.as_str(), "exit") {
            ShellInput::Exit
        } else if t.as_str().is_empty() {
            ShellInput::Empty
        } else {
            ShellInput::Command(split_whitespace(t.as_str()))
        }
    }
}


/// Where creating an environment stands after its methods have run.
#[derive(Clone, Copy, Debug, PartialEq, Eq, Structural)]
pub enum CreateProgress {
    /// The root file system is in place.
    Created,
    /// The container method failed: build a lightweight tree instead.
    TryProot,
    /// Both methods failed.
    Failed,
}

/// A host shell to copy into a lightweight environment: the binary at
/// `source` goes to `target` (relative to the root), and when `link_bash`
/// holds, `bin/bash` becomes a link to `sh`.
#[derive(Clone, Debug)]
pub struct ShellCopy {
    pub source: String,
    pub target: String,
    pub link_bash: bool,
}

impl Runner {
    /// Where creation stands, given whether the container method succeeded
    /// and, once it has run, whether the lightweight method did (`None`: not
    /// run): the lightweight method runs exactly when the container method
    /// failed, and creation succeeds exactly when one of them did.
    pub fn create_progress(docker_ok: bool, proot_ok: Option<bool>) -> (p: CreateProgress)
        ensures
            docker_ok ==> p == CreateProgress::Created,
            !docker_ok && proot_ok is None ==> p == CreateProgress::TryProot,
            !docker_ok && proot_ok == Some(true) ==> p == CreateProgress::Created,
            !docker_ok && proot_ok == Some(false) ==> p == CreateProgress::Failed,
    {
        if docker_ok {
            CreateProgress::Created
        } else {
            match proot_ok {
                None => CreateProgress::TryProot,
                Some(true) => CreateProgress::Created,
                Some(false) => CreateProgress::Failed,
            }
        }
    }

    /// The shell copied into a lightweight environment, given where the
    /// host's `bash` and `sh` are, if found: `bash` when there is one, else
    /// `sh` with `bin/bash` linked to it, else none.
    pub fn shell_copy(bash: Option<String>, sh: Option<String>) -> (c: Option<ShellCopy>)
        ensures
            bash matches Some(b) ==> (c matches Some(sc) && sc.source@ == b@
                && sc.target@ == "bin/bash"@ && !sc.link_bash),
            bash is None && sh is Some ==> (c matches Some(sc) && sc.source@ == sh->0@
                && sc.target@ == "bin/sh"@ && sc.link_bash),
            bash is None && sh is None ==> c is None,
    {
        match bash {
            Some(b) => Some(ShellCopy { source: b, target: "bin/bash".to_owned(), link_bash: false }),
            None => match sh {
                Some(s) => Some(ShellCopy { source: s, target: "bin/sh".to_owned(), link_bash: true }),
                None => None,
            },
        }
    }
}


/// Every release of a family gets its family's set-up, and the set-up edits
/// the configuration of the distribution's own package manager: Ubuntu and
/// Debian releases their apt sources, Fedora releases `dnf.conf`, Arch Linux
/// `pacman.conf`; RHEL and openSUSE releases are left as they are.
pub proof fn lemma_setup_by_family(d: Distro)
    ensures
        begins_with(distro_name(d), "ubuntu-"@) ==> setup_step_of(d) == SetupStep::Ubuntu,
        begins_with(distro_name(d), "debian-"@) ==> setup_step_of(d) == SetupStep::Debian,
        begins_with(distro_name(d), "fedora-"@) ==> setup_step_of(d) == SetupStep::Fedora,
        distro_name(d) == "archlinux"@ ==> setup_step_of(d) == SetupStep::Archlinux,
        begins_with(distro_name(d), "rhel-"@) || begins_with(distro_name(d), "opensuse-"@)
            ==> setup_step_of(d) == SetupStep::Nothing,
        distro_pkg_manager(d) == "apt"@ ==> setup_file_of(setup_step_of(d)) == Some(
            "etc/apt/sources.list"@,
        ),
        distro_pkg_manager(d) == "pacman"@ ==> setup_file_of(setup_step_of(d)) == Some(
            "etc/pacman.conf"@,
        ),
        distro_pkg_manager(d) == "zypper"@ ==> setup_file_of(setup_step_of(d)) is None,
        setup_file_of(setup_step_of(d)) == Some("etc/dnf/dnf.conf"@) ==> distro_pkg_manager(d)
            == "dnf"@,
{
    lemma_family_tells_pkg_manager(d);
    reveal_strlit("apt");
    reveal_strlit("dnf");
    reveal_strlit("pacman");
    reveal_strlit("zypper");
    reveal_strlit("etc/apt/sources.list");
    reveal_strlit("etc/pacman.conf");
    reveal_strlit("etc/dnf/dnf.conf");
    assert("apt"@[0] == 'a' && "dnf"@[0] == 'd' && "pacman"@[0] == 'p' && "zypper"@[0] == 'z');
    assert("etc/apt/sources.list"@.len() == 20 && "etc/pacman.conf"@.len() == 15
        && "etc/dnf/dnf.conf"@.len() == 16);
    reveal_strlit("ubuntu-22.04");
    reveal_strlit("ubuntu-24.04");
    reveal_strlit("debian-12");
    reveal_strlit("fedora-39");
    reveal_strlit("fedora-40");
    reveal_strlit("rhel-9");
    reveal_strlit("archlinux");
    reveal_strlit("opensuse-tumbleweed");
    reveal_strlit("opensuse-leap");
    reveal_strlit("ubuntu-");
    reveal_strlit("debian-");
    reveal_strlit("fedora-");
    reveal_strlit("rhel-");
    reveal_strlit("opensuse-");
    let n = distro_name(d);
    match d {
        Distro::Ubuntu2204 | Distro::Ubuntu2404 => {
            assert(n.take(7)[0] != "debian-"@[0]);
            assert(n.take(7)[0] != "fedora-"@[0]);
            assert(n.take(5)[0] != "rhel-"@[0]);
            assert(n.take(9)[0] != "opensuse-"@[0]);
        },
        Distro::Debian12 => {
            assert(n.take(7)[0] != "ubuntu-"@[0]);
            assert(n.take(7)[0] != "fedora-"@[0]);
            assert(n.take(5)[0] != "rhel-"@[0]);
            assert(n.take(9)[0] != "opensuse-"@[0]);
        },
        Distro::Fedora39 | Distro::Fedora40 => {
            assert(n.take(7)[0] != "ubuntu-"@[0]);
            assert(n.take(7)[0] != "debian-"@[0]);
            assert(n.take(5)[0] != "rhel-"@[0]);
            assert(n.take(9)[0] != "opensuse-"@[0]);
        },
        Distro::Archlinux => {
            assert(n.take(7)[0] != "ubuntu-"@[0]);
            assert(n.take(7)[0] != "debian-"@[0]);
            assert(n.take(7)[0] != "fedora-"@[0]);
            assert(n.take(5)[0] != "rhel-"@[0]);
            assert(n.take(9)[0] != "opensuse-"@[0]);
        },
        _ => {
            assert(n.len() < 7 || n.take(7)[0] != "ubuntu-"@[0]);
            assert(n.len() < 7 || n.take(7)[0] != "debian-"@[0]);
            assert(n.len() < 7 || n.take(7)[0] != "fedora-"@[0]);
            assert(n[0] != 'a');
        },
    }
}

} // verus!
