use vstd::prelude::*;

use crate::config::{first_named, has_named, Config, ConfigView, EnvView, Environment};
use crate::distro::{distro_name, distro_named, distro_pkg_manager, Distro};
use crate::text::{concatenate, decimal, path_join, path_joined, str_eq, u64_to_decimal, views};

verus! {

/// The command line: one subcommand.
#[derive(Debug)]
pub struct Cli {
    pub command: Commands,
}

/// The subcommands.
#[derive(Debug)]
pub enum Commands {
    /// Create a new environment.
    Create { name: String, distro: String },
    /// List the environments.
    List,
    /// Delete an environment.
    Delete { name: String },
    /// Start an environment.
    Start { name: String },
    /// Stop an environment.
    Stop { name: String },
    /// Show the running environments.
    Ps,
    /// Set the default environment, or create one and make it the default.
    SetDefault { name: Option<String>, create: Option<String> },
    /// Unset the default environment.
    UnsetDefault,
    /// Run a command in an environment (the default one when no name is given).
    Exec { name: Option<String>, command: Vec<String> },
    /// Open an interactive shell in an environment (the default one when no
    /// name is given).
    Run { name: Option<String> },
    /// Create a snapshot.
    Snapshot { name: String, snapshot_name: String },
    /// Restore a snapshot.
    Restore { name: String, snapshot_name: String },
    /// Show an environment's details (`default` for the default environment).
    Info { name: String },
    /// Run the feature test.
    Test,
}

/// Why a command was refused.
#[derive(Debug, Clone)]
pub enum CliError {
    /// The distribution is not one of the supported ones.
    UnsupportedDistro(String),
    /// An environment of that name already exists.
    AlreadyExists(String),
    /// No environment has that name.
    NotFound(String),
    /// No environment was named and no default one is set.
    NoDefault,
    /// Neither an environment nor a distribution to create one from was given.
    NoTarget,
    /// No command was given.
    NoCommand,
    /// A snapshot name that is empty, `.`, `..` or holds a `/`.
    InvalidSnapshotName(String),
    /// The environment has no snapshot of that name.
    SnapshotNotFound { env: String, snapshot: String },
}

/// The message shown for a refused command.
pub open spec fn cli_error_message(e: CliError) -> Seq<char> {
    match e {
        CliError::UnsupportedDistro(d) => "Unsupported distribution: "@ + d@,
        CliError::AlreadyExists(n) => "Environment '"@ + n@ + "' already exists"@,
        CliError::NotFound(n) => "Environment '"@ + n@ + "' not found"@,
        CliError::NoDefault => "No default environment set, please specify environment name or set a default first"@,
        CliError::NoTarget => "Please specify environment name or use --create option"@,
        CliError::NoCommand => "Please specify command (use -- to separate)"@,
        CliError::InvalidSnapshotName(n) => "Invalid snapshot name: "@ + n@,
        CliError::SnapshotNotFound { env, snapshot } => "Snapshot '"@ + snapshot@
            + "' not found for environment '"@ + env@ + "'"@,
    }
}

impl CliError {
    /// The message shown for this error.
    pub fn message(&self) -> (m: String)
        ensures
            m@ == cli_error_message(*self),
    {
        match self {
            CliError::UnsupportedDistro(d) => concatenate("Unsupported distribution: ", d.as_str()),
            CliError::AlreadyExists(n) => concatenate(
                concatenate("Environment '", n.as_str()).as_str(),
                "' already exists",
            ),
            CliError::NotFound(n) => concatenate(
                concatenate("Environment '", n.as_str()).as_str(),
                "' not found",
            ),
            CliError::NoDefault => "No default environment set, please specify environment name or set a default first".to_owned(),
            CliError::NoTarget => "Please specify environment name or use --create option".to_owned(),
            CliError::NoCommand => "Please specify command (use -- to separate)".to_owned(),
            CliError::InvalidSnapshotName(n) => concatenate("Invalid snapshot name: ", n.as_str()),
            CliError::SnapshotNotFound { env, snapshot } => concatenate(
                concatenate(
                    concatenate(
                        concatenate("Snapshot '", snapshot.as_str()).as_str(),
                        "' not found for environment '",
                    ).as_str(),
                    env.as_str(),
                ).as_str(),
                "'",
            ),
        }
    }
}

/// The error for a name no environment has.
pub open spec fn not_found(e: CliError, name: Seq<char>) -> bool {
    e matches CliError::NotFound(n) && n@ == name
}

fn push_str(v: &mut Vec<String>, s: &str)
    ensures
        views(final(v)@) == views(old(v)@).push(s@),
{
    let ghost before = v@;
    v.push(s.to_owned());
    assert(views(v@) =~= views(before).push(s@));
}

/// The environment called `name`, or the error that names it.
fn require_env<'a>(config: &'a Config, name: &str) -> (r: Result<&'a Environment, CliError>)
    ensures
        match first_named(config@.environments, name@) {
            Some(i) => r == Ok::<&Environment, CliError>(&config.environments@[i]),
            None => r matches Err(e) && not_found(e, name@),
        },
{
    match config.get_env(name) {
        Some(e) => Ok(e),
        None => Err(CliError::NotFound(name.to_owned())),
    }
}

/// Checks a request to create the environment `name` from the distribution
/// named `distro_str`: the distribution must be supported and the name free.
pub fn cmd_create(config: &Config, name: &str, distro_str: &str) -> (r: Result<Distro, CliError>)
    ensures
        distro_named(distro_str@) is None ==> (r matches Err(CliError::UnsupportedDistro(d))
            && d@ == distro_str@),
        distro_named(distro_str@) is Some && has_named(config@.environments, name@) ==> (r matches Err(
            CliError::AlreadyExists(n),
        ) && n@ == name@),
        distro_named(distro_str@) is Some && !has_named(config@.environments, name@) ==> r == Ok::<
            Distro,
            CliError,
        >(distro_named(distro_str@)->0),
{
    proof {
        crate::config::lemma_first_named(config@.environments, name@);
    }
    let distro = match Distro::from_str(distro_str) {
        Some(d) => d,
        None => {
            return Err(CliError::UnsupportedDistro(distro_str.to_owned()));
        },
    };
    if config.get_env(name).is_some() {
        return Err(CliError::AlreadyExists(name.to_owned()));
    }
    Ok(distro)
}

/// The lines describing one environment in the list; the default one is
/// marked with ` *`.
pub open spec fn env_list_lines(e: EnvView, default_env: Option<Seq<char>>) -> Seq<Seq<char>> {
    let marker = if default_env == Some(e.name) {
        " *"@
    } else {
        ""@
    };
    seq![
        "  "@ + e.name + marker,
        "    Distribution: "@ + distro_name(e.distro),
        "    Created: "@ + e.created,
        "    State: "@ + e.state,
        "    Path: "@ + e.rootfs_path,
    ]
}

/// The lines describing environments, in order.
pub open spec fn envs_list_lines(envs: Seq<EnvView>, default_env: Option<Seq<char>>) -> Seq<
    Seq<char>,
>
    decreases envs.len(),
{
    if envs.len() == 0 {
        Seq::<Seq<char>>::empty()
    } else {
        envs_list_lines(envs.drop_last(), default_env) + env_list_lines(envs.last(), default_env)
    }
}

/// The output of `list`.
pub open spec fn list_output(c: ConfigView) -> Seq<Seq<char>> {
    if c.environments.len() == 0 {
        seq!["Environment list:"@, "(No environments created)"@]
    } else {
        seq!["Environment list:"@] + envs_list_lines(c.environments, c.default_env)
    }
}

fn push_env_lines(out: &mut Vec<String>, e: &Environment, default_env: &Option<String>)
    ensures
        views(final(out)@) == views(old(out)@) + env_list_lines(
            e@,
            crate::config::opt_view(*default_env),
        ),
{
    let is_default = match default_env {
        Some(d) => str_eq(d.as_str(), e.name.as_str()),
        None => false,
    };
    let marker = if is_default {
        " *"
    } else {
        ""
    };
    let ghost before = views(out@);
    let l1 = concatenate(concatenate("  ", e.name.as_str()).as_str(), marker);
    push_str(out, l1.as_str());
    let l2 = concatenate("    Distribution: ", e.distro.as_str());
    push_str(out, l2.as_str());
    let l3 = concatenate("    Created: ", e.created.as_str());
    push_str(out, l3.as_str());
    let l4 = concatenate("    State: ", e.state.as_str());
    push_str(out, l4.as_str());
    let l5 = concatenate("    Path: ", e.rootfs_path.as_str());
    push_str(out, l5.as_str());
    assert(views(out@) =~= before + env_list_lines(e@, crate::config::opt_view(*default_env)));
}

/// The lines `list` prints.
pub fn cmd_list(config: &Config) -> (lines: Vec<String>)
    ensures
        views(lines@) == list_output(config@),
{
    let mut out: Vec<String> = Vec::new();
    push_str(&mut out, "Environment list:");
    if config.environments.len() == 0 {
        push_str(&mut out, "(No environments created)");
        assert(views(out@) =~= list_output(config@));
        return out;
    }
    let mut i: usize = 0;
    assert(config@.environments.take(0) =~= Seq::<EnvView>::empty());
    while i < config.environments.len()
        invariant
            i <= config.environments@.len(),
            views(out@) == seq!["Environment list:"@] + envs_list_lines(
                config@.environments.take(i as int),
                config@.default_env,
            ),
        decreases config.environments@.len() - i,
    {
        push_env_lines(&mut out, &config.environments[i], &config.default_env);
        proof {
            let t = config@.environments.take(i + 1);
            assert(t.drop_last() =~= config@.environments.take(i as int));
            assert(t.last() == config.environments@[i as int]@);
            assert(views(out@) =~= seq!["Environment list:"@] + envs_list_lines(
                t,
                config@.default_env,
            ));
        }
        i = i + 1;
    }
    assert(config@.environments.take(config@.environments.len() as int) =~= config@.environments);
    out
}

/// Checks a request to delete the environment `name`: it must exist.
pub fn cmd_delete<'a>(config: &'a Config, name: &str) -> (r: Result<&'a Environment, CliError>)
    ensures
        match first_named(config@.environments, name@) {
            Some(i) => r == Ok::<&Environment, CliError>(&config.environments@[i]),
            None => r matches Err(e) && not_found(e, name@),
        },
{
    require_env(config, name)
}

/// The lines `start` prints for the environment `name`.
pub fn cmd_start(config: &Config, name: &str) -> (r: Result<Vec<String>, CliError>)
    ensures
        match first_named(config@.environments, name@) {
            Some(i) => r matches Ok(lines) && views(lines@) == seq![
                "Starting environment '"@ + name@ + "'..."@,
                "Root directory: "@ + config@.environments[i].rootfs_path,
            ],
            None => r matches Err(e) && not_found(e, name@),
        },
{
    let env = require_env(config, name)?;
    let mut out: Vec<String> = Vec::new();
    let l1 = concatenate(concatenate("Starting environment '", name).as_str(), "'...");
    push_str(&mut out, l1.as_str());
    let l2 = concatenate("Root directory: ", env.rootfs_path.as_str());
    push_str(&mut out, l2.as_str());
    assert(views(out@) =~= seq![l1@, l2@]);
    Ok(out)
}

/// The lines `stop` prints for the environment `name`.
pub fn cmd_stop(config: &Config, name: &str) -> (r: Result<Vec<String>, CliError>)
    ensures
        match first_named(config@.environments, name@) {
            Some(i) => r matches Ok(lines) && views(lines@) == seq![
                "Stopping environment '"@ + name@ + "'..."@,
            ],
            None => r matches Err(e) && not_found(e, name@),
        },
{
    let _env = require_env(config, name)?;
    let mut out: Vec<String> = Vec::new();
    let l1 = concatenate(concatenate("Stopping environment '", name).as_str(), "'...");
    push_str(&mut out, l1.as_str());
    assert(views(out@) =~= seq![l1@]);
    Ok(out)
}

/// The lines `ps` prints.
pub fn cmd_ps(_config: &Config) -> (lines: Vec<String>)
    ensures
        views(lines@) == seq!["Running environments:"@],
{
    let mut out: Vec<String> = Vec::new();
    push_str(&mut out, "Running environments:");
    out
}

/// What `set` is to do.
#[derive(Debug, Clone)]
pub enum SetDefaultPlan {
    /// Make `name` the default, first creating it from `distro` when
    /// `create_env` holds.
    CreateAndSet { name: String, distro: Distro, create_env: bool },
    /// Make the existing environment `name` the default.
    UseExisting { name: String },
}

/// Decides what `set` does: with `--create DISTRO`, the environment
/// `default-DISTRO` (created unless it exists) is to become the default, which
/// `finish_set_default` completes, and the configuration is left as it is;
/// else the named environment, which must exist, becomes the default at once.
/// A refused request leaves the configuration as it is.
pub fn cmd_set_default(config: &mut Config, name: Option<String>, create: Option<String>) -> (r: Result<
    SetDefaultPlan,
    CliError,
>)
    ensures
        match create {
            Some(d) => *final(config) == *old(config) && match distro_named(d@) {
                Some(distro) => r matches Ok(SetDefaultPlan::CreateAndSet { name: n, distro: dd, create_env: c })
                    && n@ == "default-"@ + d@ && dd == distro && c == !has_named(
                    old(config)@.environments,
                    "default-"@ + d@,
                ),
                None => r matches Err(CliError::UnsupportedDistro(u)) && u@ == d@,
            },
            None => match name {
                Some(t) => if has_named(old(config)@.environments, t@) {
                    &&& r matches Ok(SetDefaultPlan::UseExisting { name: n }) && n@ == t@
                    &&& final(config)@.default_env == Some(t@)
                    &&& final(config).environments == old(config).environments
                } else {
                    r matches Err(e) && not_found(e, t@) && *final(config) == *old(config)
                },
                None => r matches Err(CliError::NoTarget) && *final(config) == *old(config),
            },
        },
{
    match create {
        Some(distro_str) => {
            let distro = match Distro::from_str(distro_str.as_str()) {
                Some(d) => d,
                None => {
                    return Err(CliError::UnsupportedDistro(distro_str));
                },
            };
            let default_name = concatenate("default-", distro_str.as_str());
            proof {
                crate::config::lemma_first_named(config@.environments, default_name@);
            }
            let create_env = config.get_env(default_name.as_str()).is_none();
            Ok(SetDefaultPlan::CreateAndSet { name: default_name, distro, create_env })
        },
        None => match name {
            Some(target) => {
                proof {
                    crate::config::lemma_first_named(config@.environments, target@);
                }
                if config.get_env(target.as_str()).is_none() {
                    return Err(CliError::NotFound(target));
                }
                let planned = target.clone();
                config.default_env = Some(target);
                Ok(SetDefaultPlan::UseExisting { name: planned })
            },
            None => Err(CliError::NoTarget),
        },
    }
}

/// Completes `set --create`: the environment created for it, if one was,
/// is added after the others, and `name` becomes the default.
pub fn finish_set_default(config: &mut Config, name: String, created: Option<Environment>)
    ensures
        final(config)@.default_env == Some(name@),
        final(config)@.environments == match created {
            Some(e) => old(config)@.environments.push(e@),
            None => old(config)@.environments,
        },
{
    match created {
        Some(e) => config.add_env(e),
        None => {},
    }
    config.default_env = Some(name);
}

/// Once the default names an environment that exists, commands given no
/// environment act on the first environment of that name.
pub proof fn lemma_default_is_target(c: ConfigView, t: Seq<char>)
    requires
        c.default_env == Some(t),
        has_named(c.environments, t),
    ensures
        first_named(c.environments, t) matches Some(i) && 0 <= i < c.environments.len()
            && c.environments[i].name == t,
{
    crate::config::lemma_first_named(c.environments, t);
}

/// Unsets the default environment; tells whether one was set.
pub fn cmd_unset_default(config: &mut Config) -> (was_set: bool)
    ensures
        was_set == old(config)@.default_env is Some,
        final(config)@.default_env is None,
        final(config).environments == old(config).environments,
{
    if config.default_env.is_none() {
        return false;
    }
    config.default_env = None;
    true
}

/// The environment a command acts on: the named one, or the default one
/// when no name is given.
pub fn get_target_env<'a>(config: &'a Config, name: Option<String>) -> (r: Result<
    &'a Environment,
    CliError,
>)
    ensures
        match name {
            Some(n) => match first_named(config@.environments, n@) {
                Some(i) => r == Ok::<&Environment, CliError>(&config.environments@[i]),
                None => r matches Err(e) && not_found(e, n@),
            },
            None => match config@.default_env {
                Some(d) => match first_named(config@.environments, d) {
                    Some(i) => r == Ok::<&Environment, CliError>(&config.environments@[i]),
                    None => r matches Err(CliError::NoDefault),
                },
                None => r matches Err(CliError::NoDefault),
            },
        },
{
    match name {
        Some(n) => require_env(config, n.as_str()),
        None => match config.get_default_env() {
            Some(e) => Ok(e),
            None => Err(CliError::NoDefault),
        },
    }
}

/// Checks a request to run `command`: a command must be given, then the
/// target environment is chosen as for every command.
pub fn cmd_exec<'a>(config: &'a Config, name: Option<String>, command: &[String]) -> (r: Result<
    &'a Environment,
    CliError,
>)
    ensures
        command@.len() == 0 ==> r matches Err(CliError::NoCommand),
        command@.len() > 0 ==> match name {
            Some(n) => match first_named(config@.environments, n@) {
                Some(i) => r == Ok::<&Environment, CliError>(&config.environments@[i]),
                None => r matches Err(e) && not_found(e, n@),
            },
            None => match config@.default_env {
                Some(d) => match first_named(config@.environments, d) {
                    Some(i) => r == Ok::<&Environment, CliError>(&config.environments@[i]),
                    None => r matches Err(CliError::NoDefault),
                },
                None => r matches Err(CliError::NoDefault),
            },
        },
{
    if command.len() == 0 {
        return Err(CliError::NoCommand);
    }
    get_target_env(config, name)
}

/// The environment `run` opens a shell in.
pub fn cmd_run<'a>(config: &'a Config, name: Option<String>) -> (r: Result<
    &'a Environment,
    CliError,
>)
    ensures
        match name {
            Some(n) => match first_named(config@.environments, n@) {
                Some(i) => r == Ok::<&Environment, CliError>(&config.environments@[i]),
                None => r matches Err(e) && not_found(e, n@),
            },
            None => match config@.default_env {
                Some(d) => match first_named(config@.environments, d) {
                    Some(i) => r == Ok::<&Environment, CliError>(&config.environments@[i]),
                    None => r matches Err(CliError::NoDefault),
                },
                None => r matches Err(CliError::NoDefault),
            },
        },
{
    get_target_env(config, name)
}

/// The directory under which snapshots are kept.
pub open spec fn snapshots_directory() -> Seq<char> {
    "/tmp/uni-runtime/snapshots"@
}

/// Where the snapshot `snapshot` of the environment `env` is kept.
pub open spec fn snapshot_path_of(env: Seq<char>, snapshot: Seq<char>) -> Seq<char> {
    path_joined(path_joined(snapshots_directory(), env), snapshot)
}

/// A snapshot name names one directory entry: it is not empty, not `.` or
/// `..`, and holds no `/`.
pub open spec fn valid_snapshot_name(s: Seq<char>) -> bool {
    &&& s.len() > 0
    &&& !s.contains('/')
    &&& s != "."@
    &&& s != ".."@
}

/// A tree copy: the directory tree at `target` is replaced by a copy of the
/// tree at `source`.
#[derive(Clone, Debug)]
pub struct CopyPlan {
    pub source: String,
    pub target: String,
}

/// A tree copy as plain values.
pub struct CopyPlanView {
    pub source: Seq<char>,
    pub target: Seq<char>,
}

impl View for CopyPlan {
    type V = CopyPlanView;

    open spec fn view(&self) -> CopyPlanView {
        CopyPlanView { source: self.source@, target: self.target@ }
    }
}

/// The copy that takes the snapshot `snapshot` of the environment `env`
/// rooted at `root`.
pub open spec fn snapshot_copy_of(root: Seq<char>, env: Seq<char>, snapshot: Seq<char>) -> CopyPlanView {
    CopyPlanView { source: root, target: snapshot_path_of(env, snapshot) }
}

/// The copy that restores the snapshot `snapshot` of the environment `env`
/// rooted at `root`.
pub open spec fn restore_copy_of(root: Seq<char>, env: Seq<char>, snapshot: Seq<char>) -> CopyPlanView {
    CopyPlanView { source: snapshot_path_of(env, snapshot), target: root }
}

fn is_valid_snapshot_name(s: &str) -> (r: bool)
    ensures
        r == valid_snapshot_name(s@),
{
    let cs = crate::text::chars_of(s);
    if cs.len() == 0 || str_eq(s, ".") || str_eq(s, "..") {
        return false;
    }
    let mut i: usize = 0;
    while i < cs.len()
        invariant
            i <= cs@.len(),
            cs@ == s@,
            forall|j: int| 0 <= j < i ==> cs@[j] != '/',
        decreases cs@.len() - i,
    {
        if cs[i] == '/' {
            assert(s@.contains('/')) by {
                assert(s@[i as int] == '/');
            }
            return false;
        }
        i = i + 1;
    }
    true
}

/// Where the snapshot `snapshot_name` of the environment `name` is kept.
pub fn snapshot_path(name: &str, snapshot_name: &str) -> (p: String)
    ensures
        p@ == snapshot_path_of(name@, snapshot_name@),
{
    let env_dir = path_join("/tmp/uni-runtime/snapshots", name);
    path_join(env_dir.as_str(), snapshot_name)
}

/// Takes the snapshot `snapshot_name` of the environment `name`: the lines to
/// print and the copy of its root tree into the snapshot's place.
pub fn cmd_snapshot(config: &Config, name: &str, snapshot_name: &str) -> (r: Result<
    (Vec<String>, CopyPlan),
    CliError,
>)
    ensures
        match first_named(config@.environments, name@) {
            Some(i) => if valid_snapshot_name(snapshot_name@) {
                r matches Ok((lines, plan)) && views(lines@) == seq![
                    "Creating snapshot '"@ + snapshot_name@ + "' for environment '"@ + name@
                        + "'..."@,
                    "Source directory: "@ + config@.environments[i].rootfs_path,
                ] && plan@ == snapshot_copy_of(
                    config@.environments[i].rootfs_path,
                    name@,
                    snapshot_name@,
                )
            } else {
                r matches Err(CliError::InvalidSnapshotName(n)) && n@ == snapshot_name@
            },
            None => r matches Err(e) && not_found(e, name@),
        },
{
    let env = require_env(config, name)?;
    if !is_valid_snapshot_name(snapshot_name) {
        return Err(CliError::InvalidSnapshotName(snapshot_name.to_owned()));
    }
    let mut out: Vec<String> = Vec::new();
    let l1 = concatenate(
        concatenate(
            concatenate(concatenate("Creating snapshot '", snapshot_name).as_str(), "' for environment '").as_str(),
            name,
        ).as_str(),
        "'...",
    );
    push_str(&mut out, l1.as_str());
    let l2 = concatenate("Source directory: ", env.rootfs_path.as_str());
    push_str(&mut out, l2.as_str());
    assert(views(out@) =~= seq![l1@, l2@]);
    let plan = CopyPlan { source: env.rootfs_path.clone(), target: snapshot_path(name, snapshot_name) };
    Ok((out, plan))
}

/// Restores the snapshot `snapshot_name` of the environment `name`, given
/// whether that snapshot is kept: the lines to print and the copy of the
/// snapshot over the environment's root tree.
pub fn cmd_restore(config: &Config, name: &str, snapshot_name: &str, snapshot_exists: bool) -> (r: Result<
    (Vec<String>, CopyPlan),
    CliError,
>)
    ensures
        match first_named(config@.environments, name@) {
            Some(i) => if !valid_snapshot_name(snapshot_name@) {
                r matches Err(CliError::InvalidSnapshotName(n)) && n@ == snapshot_name@
            } else if !snapshot_exists {
                r matches Err(CliError::SnapshotNotFound { env, snapshot }) && env@ == name@
                    && snapshot@ == snapshot_name@
            } else {
                r matches Ok((lines, plan)) && views(lines@) == seq![
                    "Restoring snapshot '"@ + snapshot_name@ + "' to environment '"@ + name@
                        + "'..."@,
                    "Target directory: "@ + config@.environments[i].rootfs_path,
                ] && plan@ == restore_copy_of(
                    config@.environments[i].rootfs_path,
                    name@,
                    snapshot_name@,
                )
            },
            None => r matches Err(e) && not_found(e, name@),
        },
{
    let env = require_env(config, name)?;
    if !is_valid_snapshot_name(snapshot_name) {
        return Err(CliError::InvalidSnapshotName(snapshot_name.to_owned()));
    }
    if !snapshot_exists {
        return Err(
            CliError::SnapshotNotFound { env: name.to_owned(), snapshot: snapshot_name.to_owned() },
        );
    }
    let mut out: Vec<String> = Vec::new();
    let l1 = concatenate(
        concatenate(
            concatenate(concatenate("Restoring snapshot '", snapshot_name).as_str(), "' to environment '").as_str(),
            name,
        ).as_str(),
        "'...",
    );
    push_str(&mut out, l1.as_str());
    let l2 = concatenate("Target directory: ", env.rootfs_path.as_str());
    push_str(&mut out, l2.as_str());
    assert(views(out@) =~= seq![l1@, l2@]);
    let plan = CopyPlan { source: snapshot_path(name, snapshot_name), target: env.rootfs_path.clone() };
    Ok((out, plan))
}

/// Restoring a snapshot copies back from exactly the place taking it copied
/// to, onto exactly the tree it copied from.
pub proof fn lemma_snapshot_restore_round_trip(root: Seq<char>, env: Seq<char>, snapshot: Seq<char>)
    ensures
        restore_copy_of(root, env, snapshot).source == snapshot_copy_of(root, env, snapshot).target,
        restore_copy_of(root, env, snapshot).target == snapshot_copy_of(root, env, snapshot).source,
{
}

/// Two snapshots of one environment under different valid names are kept
/// in different places.
pub proof fn lemma_snapshots_apart(env: Seq<char>, s1: Seq<char>, s2: Seq<char>)
    requires
        valid_snapshot_name(s1),
        valid_snapshot_name(s2),
        s1 != s2,
    ensures
        snapshot_path_of(env, s1) != snapshot_path_of(env, s2),
{
    let base = path_joined(snapshots_directory(), env);
    assert(s1[0] != '/');
    assert(s2[0] != '/');
    let pre = if base.len() == 0 || base.last() == '/' {
        base
    } else {
        base + seq!['/']
    };
    assert(snapshot_path_of(env, s1) == pre + s1);
    assert(snapshot_path_of(env, s2) == pre + s2);
    if pre + s1 == pre + s2 {
        assert((pre + s1).skip(pre.len() as int) =~= s1);
        assert((pre + s2).skip(pre.len() as int) =~= s2);
    }
}

/// The lines describing an environment in detail.
pub open spec fn info_lines(e: EnvView, default_env: Option<Seq<char>>) -> Seq<Seq<char>> {
    let base = seq![
        "Environment info:"@,
        "  Name: "@ + e.name,
        "  Distribution: "@ + distro_name(e.distro),
        "  Package Manager: "@ + distro_pkg_manager(e.distro),
        "  Created: "@ + e.created,
        "  State: "@ + e.state,
        "  Root path: "@ + e.rootfs_path,
    ];
    let mem = match e.memory_limit {
        Some(m) => seq!["  Memory limit: "@ + m],
        None => Seq::<Seq<char>>::empty(),
    };
    let cpu = match e.cpu_limit {
        Some(c) => seq!["  CPU limit: "@ + decimal(c as nat) + " cores"@],
        None => Seq::<Seq<char>>::empty(),
    };
    let mark = if default_env == Some(e.name) {
        seq!["  (Current default environment)"@]
    } else {
        Seq::<Seq<char>>::empty()
    };
    base + mem + cpu + mark
}

fn push_info_lines(out: &mut Vec<String>, e: &Environment, default_env: &Option<String>)
    ensures
        views(final(out)@) == views(old(out)@) + info_lines(
            e@,
            crate::config::opt_view(*default_env),
        ),
{
    let ghost before = views(out@);
    push_str(out, "Environment info:");
    let l = concatenate("  Name: ", e.name.as_str());
    push_str(out, l.as_str());
    let l = concatenate("  Distribution: ", e.distro.as_str());
    push_str(out, l.as_str());
    let l = concatenate("  Package Manager: ", e.distro.pkg_manager());
    push_str(out, l.as_str());
    let l = concatenate("  Created: ", e.created.as_str());
    push_str(out, l.as_str());
    let l = concatenate("  State: ", e.state.as_str());
    push_str(out, l.as_str());
    let l = concatenate("  Root path: ", e.rootfs_path.as_str());
    push_str(out, l.as_str());
    let ghost base = views(out@);
    match &e.memory_limit {
        Some(m) => {
            let l = concatenate("  Memory limit: ", m.as_str());
            push_str(out, l.as_str());
        },
        None => {},
    }
    let ghost with_mem = views(out@);
    match e.cpu_limit {
        Some(c) => {
            let l = concatenate(concatenate("  CPU limit: ", u64_to_decimal(c as u64).as_str()).as_str(), " cores");
            push_str(out, l.as_str());
        },
        None => {},
    }
    let ghost with_cpu = views(out@);
    let is_default = match default_env {
        Some(d) => str_eq(d.as_str(), e.name.as_str()),
        None => false,
    };
    if is_default {
        push_str(out, "  (Current default environment)");
    }
    assert(views(out@) =~= before + info_lines(e@, crate::config::opt_view(*default_env)));
}

/// The lines `info` prints for `name`; `default` stands for the default
/// environment, and when none is set there is a single line saying so.
pub fn cmd_info(config: &Config, name: &str) -> (r: Result<Vec<String>, CliError>)
    ensures
        name@ == "default"@ ==> match config@.default_env {
            Some(d) => match first_named(config@.environments, d) {
                Some(i) => r matches Ok(lines) && views(lines@) == info_lines(
                    config@.environments[i],
                    config@.default_env,
                ),
                None => r matches Ok(lines) && views(lines@) == seq!["No default environment set"@],
            },
            None => r matches Ok(lines) && views(lines@) == seq!["No default environment set"@],
        },
        name@ != "default"@ ==> match first_named(config@.environments, name@) {
            Some(i) => r matches Ok(lines) && views(lines@) == info_lines(
                config@.environments[i],
                config@.default_env,
            ),
            None => r matches Err(e) && not_found(e, name@),
        },
{
    let env = if str_eq(name, "default") {
        match config.get_default_env() {
            Some(d) => {
                proof {
                    crate::config::lemma_first_named(config@.environments, d@.name);
                    crate::config::lemma_first_named(config@.environments, config@.default_env->0);
                }
                require_env(config, d.name.as_str())?
            },
            None => {
                let mut out: Vec<String> = Vec::new();
                push_str(&mut out, "No default environment set");
                assert(views(out@) =~= seq!["No default environment set"@]);
                return Ok(out);
            },
        }
    } else {
        require_env(config, name)?
    };
    let mut out: Vec<String> = Vec::new();
    push_info_lines(&mut out, env, &config.default_env);
    assert(views(out@) =~= info_lines(env@, config@.default_env));
    Ok(out)
}


/// Snapshot and restore accept exactly the names made of at least one
/// character, none of them `/`, other than `.` and `..`: `v1.0`, `before
/// upgrade` and `.hidden` are accepted alike.
pub proof fn lemma_snapshot_names(s: Seq<char>)
    ensures
        valid_snapshot_name(s) <==> (s.len() > 0 && (forall|i: int| 0 <= i < s.len() ==> s[i] != '/')
            && s != seq!['.'] && s != seq!['.', '.']),
{
    reveal_strlit(".");
    reveal_strlit("..");
    assert("."@ =~= seq!['.']);
    assert(".."@ =~= seq!['.', '.']);
    if s.contains('/') {
        let k = choose|k: int| 0 <= k < s.len() && s[k] == '/';
        assert(s[k] == '/');
    }
}

} // verus!
