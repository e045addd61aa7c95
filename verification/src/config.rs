use vstd::prelude::*;

use crate::distro::{distro_named, Distro};
use crate::json::{
    docs_view, json_parse, json_parsed, lemma_docs_view, view_as_array, view_as_text, view_member,
    JsonDoc, JsonView,
};
use crate::text::{path_join, path_joined, str_eq};

verus! {

/// Where the configuration file lives.
pub open spec fn config_file_path() -> Seq<char> {
    "/tmp/uni-runtime/config.json"@
}

/// The directory under which every environment's root file system lives.
pub open spec fn envs_directory() -> Seq<char> {
    "/tmp/uni-runtime/envs"@
}

/// The root file system path of the environment called `name`.
pub open spec fn env_root_of(name: Seq<char>) -> Seq<char> {
    path_joined(envs_directory(), name)
}

/// An environment: an isolated root file system of one distribution.
#[derive(Clone, Debug)]
pub struct Environment {
    pub name: String,
    pub distro: Distro,
    pub created: String,
    pub state: String,
    pub rootfs_path: String,
    pub memory_limit: Option<String>,
    pub cpu_limit: Option<u32>,
}

/// An environment as plain values.
pub struct EnvView {
    pub name: Seq<char>,
    pub distro: Distro,
    pub created: Seq<char>,
    pub state: Seq<char>,
    pub rootfs_path: Seq<char>,
    pub memory_limit: Option<Seq<char>>,
    pub cpu_limit: Option<u32>,
}

/// The view of an optional string.
pub open spec fn opt_view(s: Option<String>) -> Option<Seq<char>> {
    match s {
        Some(t) => Some(t@),
        None => None,
    }
}

impl View for Environment {
    type V = EnvView;

    open spec fn view(&self) -> EnvView {
        EnvView {
            name: self.name@,
            distro: self.distro,
            created: self.created@,
            state: self.state@,
            rootfs_path: self.rootfs_path@,
            memory_limit: opt_view(self.memory_limit),
            cpu_limit: self.cpu_limit,
        }
    }
}

/// The views of a sequence of environments.
pub open spec fn env_views(envs: Seq<Environment>) -> Seq<EnvView> {
    envs.map_values(|e: Environment| e@)
}

/// The set of environments and the default one.
#[derive(Clone, Debug)]
pub struct Config {
    pub environments: Vec<Environment>,
    pub default_env: Option<String>,
}

/// A configuration as plain values.
pub struct ConfigView {
    pub environments: Seq<EnvView>,
    pub default_env: Option<Seq<char>>,
}

impl View for Config {
    type V = ConfigView;

    open spec fn view(&self) -> ConfigView {
        ConfigView {
            environments: env_views(self.environments@),
            default_env: opt_view(self.default_env),
        }
    }
}

/// `i` is the first position of `envs` whose environment is called `name`.
pub open spec fn is_first_named(envs: Seq<EnvView>, name: Seq<char>, i: int) -> bool {
    &&& 0 <= i < envs.len()
    &&& envs[i].name == name
    &&& forall|j: int| 0 <= j < i ==> envs[j].name != name
}

/// Some environment in `envs` is called `name`.
pub open spec fn has_named(envs: Seq<EnvView>, name: Seq<char>) -> bool {
    exists|i: int| 0 <= i < envs.len() && envs[i].name == name
}

/// The first position of `envs` whose environment is called `name`, if any.
pub open spec fn first_named(envs: Seq<EnvView>, name: Seq<char>) -> Option<int> {
    if exists|i: int| is_first_named(envs, name, i) {
        Some(choose|i: int| is_first_named(envs, name, i))
    } else {
        None
    }
}

/// `envs` without the environments called `name`, the others in their order.
pub open spec fn without_named(envs: Seq<EnvView>, name: Seq<char>) -> Seq<EnvView>
    decreases envs.len(),
{
    if envs.len() == 0 {
        envs
    } else if envs.last().name == name {
        without_named(envs.drop_last(), name)
    } else {
        without_named(envs.drop_last(), name).push(envs.last())
    }
}

/// The first position holding `name` is the one `first_named` gives, and there
/// is one exactly when some environment holds that name.
pub proof fn lemma_first_named(envs: Seq<EnvView>, name: Seq<char>)
    ensures
        first_named(envs, name) is Some <==> has_named(envs, name),
        forall|i: int| is_first_named(envs, name, i) ==> first_named(envs, name) == Some(i),
        first_named(envs, name) matches Some(i) ==> is_first_named(envs, name, i),
{
    if has_named(envs, name) {
        let k = choose|k: int| 0 <= k < envs.len() && envs[k].name == name;
        lemma_least_named(envs, name, k);
    }
    assert forall|i: int| is_first_named(envs, name, i) implies first_named(envs, name) == Some(
        i,
    ) by {
        let c = choose|c: int| is_first_named(envs, name, c);
        if c < i {
            assert(envs[c].name != name);
        } else if i < c {
            assert(envs[i].name != name);
        }
    }
}

proof fn lemma_least_named(envs: Seq<EnvView>, name: Seq<char>, k: int)
    requires
        0 <= k < envs.len(),
        envs[k].name == name,
    ensures
        exists|i: int| is_first_named(envs, name, i),
    decreases k,
{
    if exists|j: int| 0 <= j < k && envs[j].name == name {
        let j = choose|j: int| 0 <= j < k && envs[j].name == name;
        lemma_least_named(envs, name, j);
    } else {
        assert(is_first_named(envs, name, k));
    }
}

/// After an environment called `e.name` is added where none was called so,
/// looking that name up finds the added environment, and looking up any name
/// that was already present finds what it found before.
pub proof fn lemma_add_then_get(envs: Seq<EnvView>, e: EnvView, name: Seq<char>)
    ensures
        !has_named(envs, e.name) ==> first_named(envs.push(e), e.name) == Some(envs.len() as int),
        has_named(envs, name) ==> first_named(envs.push(e), name) == first_named(envs, name),
{
    lemma_first_named(envs, name);
    lemma_first_named(envs.push(e), name);
    lemma_first_named(envs, e.name);
    lemma_first_named(envs.push(e), e.name);
    if !has_named(envs, e.name) {
        assert(is_first_named(envs.push(e), e.name, envs.len() as int));
    }
    if has_named(envs, name) {
        let i = first_named(envs, name)->0;
        assert(is_first_named(envs.push(e), name, i));
    }
}

/// After the environments called `name` are removed, none is called `name`,
/// and every other name is present exactly when it was before.
pub proof fn lemma_remove_then_get(envs: Seq<EnvView>, name: Seq<char>, other: Seq<char>)
    ensures
        !has_named(without_named(envs, name), name),
        first_named(without_named(envs, name), name) is None,
        other != name ==> (has_named(without_named(envs, name), other) <==> has_named(envs, other)),
    decreases envs.len(),
{
    lemma_first_named(without_named(envs, name), name);
    if envs.len() > 0 {
        let rest = envs.drop_last();
        lemma_remove_then_get(rest, name, other);
        let w = without_named(envs, name);
        let wr = without_named(rest, name);
        if other != name {
            if has_named(envs, other) {
                let k = choose|k: int| 0 <= k < envs.len() && envs[k].name == other;
                if k < rest.len() {
                    assert(rest[k].name == other);
                    let j = choose|j: int| 0 <= j < wr.len() && wr[j].name == other;
                    assert(w[j] == wr[j]);
                } else {
                    assert(w.last() == envs.last());
                    assert(w[w.len() - 1].name == other);
                }
            }
            if has_named(w, other) {
                let j = choose|j: int| 0 <= j < w.len() && w[j].name == other;
                if j < wr.len() {
                    assert(w[j] == wr[j]);
                    let k = choose|k: int| 0 <= k < rest.len() && rest[k].name == other;
                    assert(envs[k] == rest[k]);
                } else {
                    assert(envs[envs.len() - 1].name == other);
                }
            }
        }
        if has_named(w, name) {
            let j = choose|j: int| 0 <= j < w.len() && w[j].name == name;
            if j < wr.len() {
                assert(w[j] == wr[j]);
            }
        }
    }
}

/// Removing the environments called `name` a second time changes nothing.
pub proof fn lemma_remove_idempotent(envs: Seq<EnvView>, name: Seq<char>)
    ensures
        without_named(without_named(envs, name), name) == without_named(envs, name),
    decreases envs.len(),
{
    if envs.len() > 0 {
        lemma_remove_idempotent(envs.drop_last(), name);
        let wr = without_named(envs.drop_last(), name);
        if envs.last().name != name {
            assert(wr.push(envs.last()).drop_last() =~= wr);
        }
    }
}

impl Config {
    /// A configuration with no environment and no default.
    pub fn default() -> (c: Config)
        ensures
            c@.environments.len() == 0,
            c@.default_env is None,
    {
        Config { environments: Vec::new(), default_env: None }
    }

    /// The path of the configuration file.
    pub fn config_path() -> (p: String)
        ensures
            p@ == config_file_path(),
    {
        "/tmp/uni-runtime/config.json".to_owned()
    }

    /// The directory that holds the environments' root file systems.
    pub fn envs_dir() -> (p: String)
        ensures
            p@ == envs_directory(),
    {
        "/tmp/uni-runtime/envs".to_owned()
    }

    /// The root file system path of the environment called `name`.
    pub fn env_root(name: &str) -> (p: String)
        ensures
            p@ == env_root_of(name@),
    {
        path_join("/tmp/uni-runtime/envs", name)
    }

    /// The position of the first environment called `name`, if any.
    fn position_of(&self, name: &str) -> (r: Option<usize>)
        ensures
            r matches Some(i) ==> is_first_named(self@.environments, name@, i as int),
            r is None ==> !has_named(self@.environments, name@),
    {
        let mut i: usize = 0;
        while i < self.environments.len()
            invariant
                i <= self.environments@.len(),
                forall|j: int| 0 <= j < i ==> self@.environments[j].name != name@,
            decreases self.environments@.len() - i,
        {
            if str_eq(self.environments[i].name.as_str(), name) {
                return Some(i);
            }
            i = i + 1;
        }
        None
    }

    /// The first environment called `name`, if there is one.
    pub fn get_env(&self, name: &str) -> (r: Option<&Environment>)
        ensures
            match first_named(self@.environments, name@) {
                Some(i) => r == Some(&self.environments@[i]),
                None => r is None,
            },
    {
        proof {
            lemma_first_named(self@.environments, name@);
        }
        match self.position_of(name) {
            Some(i) => Some(&self.environments[i]),
            None => None,
        }
    }

    /// The first environment called `name`, to be changed in place.
    pub fn get_env_mut(&mut self, name: &str) -> (r: Option<&mut Environment>)
        ensures
            match first_named(old(self)@.environments, name@) {
                Some(i) => r matches Some(e) && *e == old(self).environments@[i]
                    && final(self).environments@ == old(self).environments@.update(i, *final(e))
                    && final(self).default_env == old(self).default_env,
                None => r is None && *final(self) == *old(self),
            },
    {
        proof {
            lemma_first_named(self@.environments, name@);
        }
        match self.position_of(name) {
            Some(i) => Some(&mut self.environments[i]),
            None => None,
        }
    }

    /// Adds `env` after the existing environments.
    pub fn add_env(&mut self, env: Environment)
        ensures
            final(self)@.environments == old(self)@.environments.push(env@),
            final(self)@.default_env == old(self)@.default_env,
    {
        self.environments.push(env);
        assert(final(self)@.environments =~= old(self)@.environments.push(env@));
    }

    /// Removes every environment called `name`, keeping the others in their
    /// order, and clears the default if it was `name`.
    pub fn remove_env(&mut self, name: &str)
        ensures
            final(self)@.environments == without_named(old(self)@.environments, name@),
            final(self)@.default_env == (if old(self)@.default_env == Some(name@) {
                None
            } else {
                old(self)@.default_env
            }),
    {
        let mut old_envs: Vec<Environment> = Vec::new();
        std::mem::swap(&mut old_envs, &mut self.environments);
        let ghost ov = env_views(old_envs@);
        let mut kept: Vec<Environment> = Vec::new();
        assert(ov.take(0) =~= Seq::<EnvView>::empty());
        for e in it: old_envs
            invariant
                ov == env_views(it.seq()),
                env_views(kept@) == without_named(ov.take(it.index() as int), name@),
        {
            let ghost k = it.index() as int;
            proof {
                assert(ov.take(k + 1).drop_last() =~= ov.take(k));
                assert(ov.take(k + 1).last() == e@);
            }
            if !str_eq(e.name.as_str(), name) {
                let ghost before = kept@;
                kept.push(e);
                assert(env_views(kept@) =~= env_views(before).push(e@));
            }
        }
        assert(ov.take(ov.len() as int) =~= ov);
        self.environments = kept;
        let clear = match &self.default_env {
            Some(d) => str_eq(d.as_str(), name),
            None => false,
        };
        if clear {
            self.default_env = None;
        }
    }

    /// The default environment, when one is set and an environment of that
    /// name exists.
    pub fn get_default_env(&self) -> (r: Option<&Environment>)
        ensures
            match self@.default_env {
                Some(d) => match first_named(self@.environments, d) {
                    Some(i) => r == Some(&self.environments@[i]),
                    None => r is None,
                },
                None => r is None,
            },
    {
        match &self.default_env {
            Some(d) => self.get_env(d.as_str()),
            None => None,
        }
    }
}


/// An environment entry of a configuration file that does not have the full
/// format, read field by field: each field is the entry's text for that key,
/// or `None` where the key is missing or does not hold text.
#[derive(Clone, Debug)]
pub struct LooseEnv {
    pub name: Option<String>,
    pub distro: Option<String>,
    pub created: Option<String>,
    pub state: Option<String>,
}

/// A loosely read entry as plain values.
pub struct LooseEnvView {
    pub name: Option<Seq<char>>,
    pub distro: Option<Seq<char>>,
    pub created: Option<Seq<char>>,
    pub state: Option<Seq<char>>,
}

impl View for LooseEnv {
    type V = LooseEnvView;

    open spec fn view(&self) -> LooseEnvView {
        LooseEnvView {
            name: opt_view(self.name),
            distro: opt_view(self.distro),
            created: opt_view(self.created),
            state: opt_view(self.state),
        }
    }
}

/// The views of a sequence of loosely read entries.
pub open spec fn loose_views(rs: Seq<LooseEnv>) -> Seq<LooseEnvView> {
    rs.map_values(|r: LooseEnv| r@)
}

/// `o`'s text, or `default` when there is none.
pub open spec fn text_or(o: Option<Seq<char>>, default: Seq<char>) -> Seq<char> {
    match o {
        Some(t) => t,
        None => default,
    }
}

/// The environment a loosely read entry stands for: a missing name or
/// creation time reads as empty, a missing state as `stopped`; the root path
/// follows from the name, no limits are set; an entry whose distribution is
/// not known stands for none.
pub open spec fn loose_env(r: LooseEnvView) -> Option<EnvView> {
    let name = text_or(r.name, Seq::<char>::empty());
    match distro_named(text_or(r.distro, Seq::<char>::empty())) {
        Some(d) => Some(
            EnvView {
                name: name,
                distro: d,
                created: text_or(r.created, Seq::<char>::empty()),
                state: text_or(r.state, "stopped"@),
                rootfs_path: env_root_of(name),
                memory_limit: None,
                cpu_limit: None,
            },
        ),
        None => None,
    }
}

/// The environments that loosely read entries stand for, in their order.
pub open spec fn loose_envs(rs: Seq<LooseEnvView>) -> Seq<EnvView>
    decreases rs.len(),
{
    if rs.len() == 0 {
        Seq::<EnvView>::empty()
    } else {
        match loose_env(rs.last()) {
            Some(e) => loose_envs(rs.drop_last()).push(e),
            None => loose_envs(rs.drop_last()),
        }
    }
}

/// The configuration that loosely read entries and default stand for.
pub open spec fn loose_config(rs: Seq<LooseEnvView>, default_env: Option<Seq<char>>) -> ConfigView {
    ConfigView { environments: loose_envs(rs), default_env: default_env }
}

/// The view of an optional environment.
pub open spec fn opt_env_view(e: Option<Environment>) -> Option<EnvView> {
    match e {
        Some(x) => Some(x@),
        None => None,
    }
}

/// Every environment read loosely has its root under the environments'
/// directory at its name and no limits; only entries of known distributions
/// give one.
pub proof fn lemma_loose_envs_shape(rs: Seq<LooseEnvView>)
    ensures
        forall|k: int|
            0 <= k < loose_envs(rs).len() ==> {
                let e = #[trigger] loose_envs(rs)[k];
                &&& e.rootfs_path == env_root_of(e.name)
                &&& e.memory_limit is None
                &&& e.cpu_limit is None
            },
        loose_envs(rs).len() <= rs.len(),
        (forall|k: int| 0 <= k < rs.len() ==> loose_env(#[trigger] rs[k]) is None) ==> loose_envs(
            rs,
        ).len() == 0,
    decreases rs.len(),
{
    if rs.len() > 0 {
        lemma_loose_envs_shape(rs.drop_last());
        if forall|k: int| 0 <= k < rs.len() ==> loose_env(#[trigger] rs[k]) is None {
            assert(loose_env(rs[rs.len() - 1]) is None);
            assert forall|k: int| 0 <= k < rs.drop_last().len() implies loose_env(
                #[trigger] rs.drop_last()[k],
            ) is None by {
                assert(rs.drop_last()[k] == rs[k]);
            }
        }
    }
}

fn text_or_empty(o: &Option<String>) -> (t: String)
    ensures
        t@ == text_or(opt_view(*o), Seq::<char>::empty()),
{
    match o {
        Some(s) => s.clone(),
        None => String::new(),
    }
}

impl Environment {
    /// The environment a loosely read entry stands for, if its distribution
    /// is known.
    pub fn from_loose(r: &LooseEnv) -> (e: Option<Environment>)
        ensures
            opt_env_view(e) == loose_env(r@),
    {
        let distro_text = text_or_empty(&r.distro);
        match Distro::from_str(distro_text.as_str()) {
            Some(d) => {
                let name = text_or_empty(&r.name);
                let created = text_or_empty(&r.created);
                let state = match &r.state {
                    Some(s) => s.clone(),
                    None => "stopped".to_owned(),
                };
                let rootfs_path = Config::env_root(name.as_str());
                Some(
                    Environment {
                        name,
                        distro: d,
                        created,
                        state,
                        rootfs_path,
                        memory_limit: None,
                        cpu_limit: None,
                    },
                )
            },
            None => None,
        }
    }
}

/// Why the configuration could not be read.
#[derive(Debug)]
pub enum LoadError {
    /// The configuration file is not JSON.
    InvalidJson(serde_json::Error),
}

/// The text of the member `key` of `v`, if it is there and is text.
pub open spec fn text_in(v: JsonView, key: Seq<char>) -> Option<Seq<char>> {
    match view_member(v, key) {
        Some(m) => view_as_text(m),
        None => None,
    }
}

/// The entry an element of the `environments` array is read as: its `name`,
/// `distro`, `created` and `state` members where they are text.
pub open spec fn loose_record_of(item: JsonView) -> LooseEnvView {
    LooseEnvView {
        name: text_in(item, "name"@),
        distro: text_in(item, "distro"@),
        created: text_in(item, "created"@),
        state: text_in(item, "state"@),
    }
}

/// The entries the elements of an array are read as, in order.
pub open spec fn records_from_items(items: Seq<JsonView>) -> Seq<LooseEnvView>
    decreases items.len(),
{
    if items.len() == 0 {
        Seq::<LooseEnvView>::empty()
    } else {
        records_from_items(items.drop_last()).push(loose_record_of(items.last()))
    }
}

/// The entries a configuration document holds: one per element of its
/// `environments` member when that is an array, none otherwise.
pub open spec fn records_of(doc: JsonView) -> Seq<LooseEnvView> {
    match view_member(doc, "environments"@) {
        Some(m) => match view_as_array(m) {
            Some(items) => records_from_items(items),
            None => Seq::<LooseEnvView>::empty(),
        },
        None => Seq::<LooseEnvView>::empty(),
    }
}

/// The default a configuration document names: its `default_env` member
/// when that is text.
pub open spec fn default_of(doc: JsonView) -> Option<Seq<char>> {
    text_in(doc, "default_env"@)
}

/// The configuration that a configuration document read field by field
/// stands for.
pub open spec fn lenient_config(doc: JsonView) -> ConfigView {
    loose_config(records_of(doc), default_of(doc))
}

/// The text of the member `key` of `v`, if it is there and is text.
fn text_member(v: &JsonDoc, key: &str) -> (r: Option<String>)
    ensures
        opt_view(r) == text_in(v@, key@),
{
    match v.member(key) {
        Some(m) => match m.as_text() {
            Some(t) => Some(t.clone()),
            None => None,
        },
        None => None,
    }
}

impl Config {
    /// The configuration that loosely read entries and default stand for.
    pub fn from_loose_records(records: &[LooseEnv], default_env: Option<String>) -> (c: Config)
        ensures
            c@ == loose_config(loose_views(records@), opt_view(default_env)),
    {
        let mut envs: Vec<Environment> = Vec::new();
        let mut i: usize = 0;
        assert(loose_views(records@).take(0) =~= Seq::<LooseEnvView>::empty());
        while i < records.len()
            invariant
                i <= records@.len(),
                env_views(envs@) == loose_envs(loose_views(records@).take(i as int)),
            decreases records@.len() - i,
        {
            let ghost t = loose_views(records@).take(i + 1);
            assert(t.drop_last() =~= loose_views(records@).take(i as int));
            assert(t.last() == records@[i as int]@);
            match Environment::from_loose(&records[i]) {
                Some(e) => {
                    let ghost before = envs@;
                    envs.push(e);
                    assert(env_views(envs@) =~= env_views(before).push(e@));
                },
                None => {},
            }
            i = i + 1;
        }
        assert(loose_views(records@).take(records@.len() as int) =~= loose_views(records@));
        Config { environments: envs, default_env }
    }

    /// Reads a configuration file that does not have the full format, field
    /// by field: the text must be JSON; each member of its `environments`
    /// array becomes an environment when its `distro` is known, and a text
    /// `default_env` becomes the default.
    pub fn load_lenient(text: &str) -> (r: Result<Config, LoadError>)
        ensures
            r is Ok <==> json_parsed(text@) is Some,
            r matches Ok(c) ==> c@ == lenient_config(json_parsed(text@)->0),
    {
        let doc = match json_parse(text) {
            Ok(d) => d,
            Err(e) => {
                return Err(LoadError::InvalidJson(e));
            },
        };
        Ok(Config::lenient_from_doc(&doc))
    }

    /// The configuration a configuration document stands for when read field
    /// by field.
    pub fn lenient_from_doc(doc: &JsonDoc) -> (c: Config)
        ensures
            c@ == lenient_config(doc@),
    {
        let mut records: Vec<LooseEnv> = Vec::new();
        match doc.member("environments") {
            Some(m) => match m.as_array() {
                Some(items) => {
                    proof {
                        lemma_docs_view(items@);
                        assert(docs_view(items@).take(0) =~= Seq::<JsonView>::empty());
                    }
                    let ghost iv = docs_view(items@);
                    let mut i: usize = 0;
                    while i < items.len()
                        invariant
                            i <= items@.len(),
                            iv == docs_view(items@),
                            iv.len() == items@.len(),
                            forall|j: int| 0 <= j < items@.len() ==> #[trigger] iv[j] == items@[j]@,
                            loose_views(records@) == records_from_items(iv.take(i as int)),
                        decreases items@.len() - i,
                    {
                        let item = &items[i];
                        let rec = LooseEnv {
                            name: text_member(item, "name"),
                            distro: text_member(item, "distro"),
                            created: text_member(item, "created"),
                            state: text_member(item, "state"),
                        };
                        let ghost before = records@;
                        records.push(rec);
                        proof {
                            assert(iv.take(i + 1).drop_last() =~= iv.take(i as int));
                            assert(iv.take(i + 1).last() == item@);
                            assert(loose_views(records@) =~= loose_views(before).push(rec@));
                        }
                        i = i + 1;
                    }
                    assert(iv.take(items@.len() as int) =~= iv);
                },
                None => {},
            },
            None => {},
        }
        let default_env = text_member(doc, "default_env");
        Config::from_loose_records(&records, default_env)
    }

    /// The configuration given the configuration file's text (`None` when
    /// there is no file) and the configuration it holds when it has the full
    /// format: no file gives an empty configuration, a full-format file gives
    /// what it holds, any other file is read field by field.
    pub fn load_from(content: Option<&str>, strict: Option<Config>) -> (r: Result<Config, LoadError>)
        ensures
            content is None ==> (r matches Ok(c) && c@.environments.len() == 0
                && c@.default_env is None),
            content is Some && strict is Some ==> (r matches Ok(c) && c == strict->0),
            content is Some && strict is None ==> {
                &&& r is Ok <==> json_parsed(content->0@) is Some
                &&& r matches Ok(c) ==> c@ == lenient_config(json_parsed(content->0@)->0)
            },
    {
        match content {
            None => Ok(Config::default()),
            Some(t) => match strict {
                Some(c) => Ok(c),
                None => Config::load_lenient(t),
            },
        }
    }
}

} // verus!
