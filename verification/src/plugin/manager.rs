//! The plugin registry: one entry per plugin name, with the plugin's lifecycle
//! state (registered, loaded, enabled, disabled, errored).
//!
//! `I` is the type of the handles to the plugin's objects on the JVM side; the
//! registry only stores them.
use std::collections::HashMap;

use vstd::prelude::*;
use vstd::string::*;

use crate::config::paper::PaperPluginYml;
use crate::config::spigot::{Command, SpigotPluginYml};
use crate::paths::{path_join, path_join_spec, path_parent, path_parent_spec};
use crate::plugin::load_order::{covers, load_order_spec, plugin_load_order};
use crate::text::str_eq;

verus! {

/// The lifecycle state of a plugin.
#[derive(Debug, Clone, Copy, PartialEq, Eq, Structural)]
pub enum PluginState {
    /// Its description has been read, but it has no instance on the JVM yet.
    Registered,
    /// Its main class has been loaded and an instance created.
    Loaded,
    /// It is enabled (`onEnable` was called).
    Enabled,
    /// It is disabled (`onDisable` was called).
    Disabled,
    /// It failed to load or to enable.
    Errored,
}

/// The description a Paper plugin was registered with.
#[derive(Debug)]
pub struct PaperPluginData {
    pub paper_config: PaperPluginYml,
    pub spigot_config: Option<SpigotPluginYml>,
}

/// The description a Spigot plugin was registered with.
#[derive(Debug)]
pub struct SpigotPluginData {
    pub spigot_config: SpigotPluginYml,
}

/// Which kind of description a plugin came with.
#[derive(Debug)]
pub enum PluginType {
    Paper(PaperPluginData),
    Spigot(SpigotPluginData),
}

/// One plugin.
pub struct Plugin<I> {
    /// Unique plugin name.
    pub name: String,
    /// Plugin version.
    pub version: String,
    /// Fully qualified name of the main class.
    pub main_class: String,
    /// Path of the JAR file.
    pub path: String,
    /// The description the plugin came with.
    pub plugin_type: PluginType,
    /// Current lifecycle state.
    pub state: PluginState,
    /// Data folder of the plugin.
    pub data_folder: String,
    /// The plugin object on the JVM side, once created.
    pub instance: Option<I>,
    /// The commands the plugin declares.
    pub commands: HashMap<String, Command>,
    /// Event listeners the plugin registered, by key.
    pub listeners: Vec<(String, I)>,
}

/// No two entries have the same name.
pub open spec fn unique_names<I>(s: Seq<Plugin<I>>) -> bool {
    forall|i: int, j: int| 0 <= i < j < s.len() ==> (#[trigger] s[i]).name@ != (#[trigger] s[j]).name@
}

/// No two listeners have the same key.
pub open spec fn unique_keys<I>(s: Seq<(String, I)>) -> bool {
    forall|i: int, j: int| 0 <= i < j < s.len() ==> (#[trigger] s[i]).0@ != (#[trigger] s[j]).0@
}

/// The plugins, looked up by name.
pub open spec fn by_name<I>(s: Seq<Plugin<I>>) -> Map<Seq<char>, Plugin<I>>
    decreases s.len(),
{
    if s.len() == 0 {
        Map::empty()
    } else {
        by_name(s.drop_last()).insert(s.last().name@, s.last())
    }
}

/// The listeners, looked up by key.
pub open spec fn by_key<I>(s: Seq<(String, I)>) -> Map<Seq<char>, I>
    decreases s.len(),
{
    if s.len() == 0 {
        Map::empty()
    } else {
        by_key(s.drop_last()).insert(s.last().0@, s.last().1)
    }
}

/// The entry of a plugin in the registry has been replaced by `p`, or appended
/// when no entry had its name.
pub open spec fn put_spec<I>(s: Seq<Plugin<I>>, p: Plugin<I>) -> Seq<Plugin<I>> {
    if exists|i: int| 0 <= i < s.len() && (#[trigger] s[i]).name@ == p.name@ {
        let i = choose|i: int| 0 <= i < s.len() && (#[trigger] s[i]).name@ == p.name@;
        s.update(i, p)
    } else {
        s.push(p)
    }
}

/// `p` with its JVM instance set; `Loaded` when its commands were registered.
pub open spec fn instantiated<I>(p: Plugin<I>, instance: I, loaded: bool) -> Plugin<I> {
    Plugin::<I> {
        instance: Some(instance),
        state: if loaded {
            PluginState::Loaded
        } else {
            p.state
        },
        ..p
    }
}

/// `p` in the state `state`.
pub open spec fn with_state<I>(p: Plugin<I>, state: PluginState) -> Plugin<I> {
    Plugin::<I> { state: state, ..p }
}

/// `p` after the JVM was asked to create it: with its instance (see
/// `instantiated`) when that succeeded, `Errored` when it failed.
pub open spec fn creation_outcome<I>(p: Plugin<I>, outcome: Option<(I, bool)>) -> Plugin<I> {
    match outcome {
        Some((instance, loaded)) => instantiated(p, instance, loaded),
        None => with_state(p, PluginState::Errored),
    }
}

/// A plugin that is `Loaded`, `Enabled` or `Disabled` has an instance on the
/// JVM side: those states only follow its creation.
pub open spec fn instance_consistent<I>(p: Plugin<I>) -> bool {
    (p.state == PluginState::Loaded || p.state == PluginState::Enabled || p.state
        == PluginState::Disabled) ==> p.instance is Some
}

/// Every plugin of the list is `instance_consistent`.
pub open spec fn instances_consistent<I>(s: Seq<Plugin<I>>) -> bool {
    forall|i: int| 0 <= i < s.len() ==> instance_consistent(#[trigger] s[i])
}

proof fn lemma_same_names<I>(a: Seq<Plugin<I>>, b: Seq<Plugin<I>>)
    requires
        unique_names(a),
        a.len() == b.len(),
        forall|i: int| 0 <= i < a.len() ==> (#[trigger] b[i]).name == a[i].name,
    ensures
        unique_names(b),
{
    assert forall|x: int, y: int| 0 <= x < y < b.len() implies (#[trigger] b[x]).name@
        != (#[trigger] b[y]).name@ by {
        assert(b[x].name == a[x].name);
        assert(b[y].name == a[y].name);
    }
}

/// The key in which a registered listener is kept.
pub open spec fn listener_key() -> Seq<char> {
    "listener_name"@
}

proof fn lemma_by_name_update<I>(s: Seq<Plugin<I>>, i: int, p: Plugin<I>)
    requires
        unique_names(s),
        0 <= i < s.len(),
        s[i].name@ == p.name@,
    ensures
        by_name(s.update(i, p)) == by_name(s).insert(p.name@, p),
    decreases s.len(),
{
    let t = s.update(i, p);
    if i == s.len() - 1 {
        assert(t.drop_last() =~= s.drop_last());
        assert(by_name(t) =~= by_name(s).insert(p.name@, p));
    } else {
        assert(t.drop_last() =~= s.drop_last().update(i, p));
        lemma_by_name_update(s.drop_last(), i, p);
        assert(s.last().name@ != p.name@);
        assert(by_name(t) =~= by_name(s).insert(p.name@, p));
    }
}

proof fn lemma_by_name_lookup<I>(s: Seq<Plugin<I>>, i: int)
    requires
        unique_names(s),
        0 <= i < s.len(),
    ensures
        by_name(s).contains_key(s[i].name@),
        by_name(s)[s[i].name@] == s[i],
    decreases s.len(),
{
    if i < s.len() - 1 {
        lemma_by_name_lookup(s.drop_last(), i);
    }
}

proof fn lemma_by_name_absent<I>(s: Seq<Plugin<I>>, name: Seq<char>)
    requires
        forall|i: int| 0 <= i < s.len() ==> (#[trigger] s[i]).name@ != name,
    ensures
        !by_name(s).contains_key(name),
    decreases s.len(),
{
    if s.len() > 0 {
        lemma_by_name_absent(s.drop_last(), name);
    }
}

proof fn lemma_by_key_update<I>(s: Seq<(String, I)>, i: int, e: (String, I))
    requires
        unique_keys(s),
        0 <= i < s.len(),
        s[i].0@ == e.0@,
    ensures
        by_key(s.update(i, e)) == by_key(s).insert(e.0@, e.1),
    decreases s.len(),
{
    let t = s.update(i, e);
    if i == s.len() - 1 {
        assert(t.drop_last() =~= s.drop_last());
        assert(by_key(t) =~= by_key(s).insert(e.0@, e.1));
    } else {
        assert(t.drop_last() =~= s.drop_last().update(i, e));
        lemma_by_key_update(s.drop_last(), i, e);
        assert(s.last().0@ != e.0@);
        assert(by_key(t) =~= by_key(s).insert(e.0@, e.1));
    }
}

/// Registering a plugin keeps one entry per name: the registered plugin is
/// found under its name, and every other name finds what it found before.
pub proof fn law_register_then_lookup<I>(s: Seq<Plugin<I>>, p: Plugin<I>)
    requires
        unique_names(s),
    ensures
        unique_names(put_spec(s, p)),
        by_name(put_spec(s, p)) == by_name(s).insert(p.name@, p),
        by_name(put_spec(s, p))[p.name@] == p,
        forall|k: Seq<char>|
            k != p.name@ ==> (#[trigger] by_name(put_spec(s, p)).contains_key(k) == by_name(
                s,
            ).contains_key(k) && (by_name(s).contains_key(k) ==> by_name(put_spec(s, p))[k]
                == by_name(s)[k])),
{
    if exists|i: int| 0 <= i < s.len() && (#[trigger] s[i]).name@ == p.name@ {
        let i = choose|i: int| 0 <= i < s.len() && (#[trigger] s[i]).name@ == p.name@;
        lemma_by_name_update(s, i, p);
        let t = s.update(i, p);
        assert forall|a: int, b: int| 0 <= a < b < t.len() implies (#[trigger] t[a]).name@
            != (#[trigger] t[b]).name@ by {
            if a == i {
                assert(s[b].name@ != s[i].name@);
            } else if b == i {
                assert(s[a].name@ != s[i].name@);
            }
        }
    } else {
        let t = s.push(p);
        assert(t.drop_last() =~= s);
        assert forall|a: int, b: int| 0 <= a < b < t.len() implies (#[trigger] t[a]).name@
            != (#[trigger] t[b]).name@ by {
            if b == s.len() {
                assert(s[a].name@ != p.name@);
            }
        }
    }
}

/// Creating every plugin, in any order that lists each plugin, with every
/// creation succeeding, makes every plugin instantiated, which is what
/// enabling and disabling them asks; a plugin whose commands were registered
/// is `Loaded`.
pub proof fn law_instantiated_plugins_can_be_enabled<I>(
    before: Seq<Plugin<I>>,
    after: Seq<Plugin<I>>,
    order: Seq<usize>,
    created: Seq<Option<(I, bool)>>,
)
    requires
        before.len() <= usize::MAX,
        created.len() == order.len(),
        after.len() == before.len(),
        covers(order, before.len()),
        forall|k: int| 0 <= k < created.len() ==> (#[trigger] created[k]) is Some,
        forall|k: int|
            0 <= k < created.len() ==> #[trigger] after[order[k] as int] == creation_outcome(
                before[order[k] as int],
                created[k],
            ),
    ensures
        forall|i: int| 0 <= i < after.len() ==> (#[trigger] after[i]).instance is Some,
        forall|k: int|
            0 <= k < created.len() && created[k].unwrap().1 ==> (#[trigger] after[order[k] as int]).state
                == PluginState::Loaded,
{
    assert forall|i: int| 0 <= i < after.len() implies (#[trigger] after[i]).instance is Some by {
        assert(order.contains(i as usize));
        let k = choose|k: int| 0 <= k < order.len() && order[k] == i as usize;
        assert(created[k] is Some);
        assert(after[order[k] as int] == creation_outcome(before[order[k] as int], created[k]));
    }
    assert forall|k: int|
        0 <= k < created.len() && created[k].unwrap().1 implies (#[trigger] after[order[k] as int]).state
            == PluginState::Loaded by {
        assert(created[k] is Some);
    }
}

/// Index of the entry named `name`, if any.
fn find_plugin<I>(plugins: &Vec<Plugin<I>>, name: &str) -> (r: Option<usize>)
    ensures
        match r {
            Some(i) => i < plugins@.len() && plugins@[i as int].name@ == name@,
            None => forall|j: int| 0 <= j < plugins@.len() ==> (#[trigger] plugins@[j]).name@ != name@,
        },
{
    let mut i: usize = 0;
    while i < plugins.len()
        invariant
            i <= plugins@.len(),
            forall|j: int| 0 <= j < i ==> (#[trigger] plugins@[j]).name@ != name@,
        decreases plugins@.len() - i,
    {
        if str_eq(plugins[i].name.as_str(), name) {
            return Some(i);
        }
        i += 1;
    }
    None
}

/// Puts `(key, value)` into a keyed list: replaces the entry with that key, or
/// appends one.
fn put_keyed<I>(entries: &mut Vec<(String, I)>, key: String, value: I)
    requires
        unique_keys(old(entries)@),
    ensures
        unique_keys(final(entries)@),
        by_key(final(entries)@) == by_key(old(entries)@).insert(key@, value),
{
    let mut i: usize = 0;
    while i < entries.len()
        invariant
            i <= entries@.len(),
            unique_keys(entries@),
            entries@ == old(entries)@,
            forall|j: int| 0 <= j < i ==> (#[trigger] entries@[j]).0@ != key@,
        decreases entries@.len() - i,
    {
        if str_eq(entries[i].0.as_str(), key.as_str()) {
            let ghost k = key@;
            let ghost before = entries@;
            let _old = entries.remove(i);
            entries.insert(i, (key, value));
            assert(entries@ =~= before.update(i as int, entries@[i as int]));
            proof {
                lemma_by_key_update(before, i as int, entries@[i as int]);
            }
            return;
        }
        i += 1;
    }
    let ghost before = entries@;
    entries.push((key, value));
    assert(entries@.drop_last() =~= before);
}

/// The plugin registry.
pub struct PluginManager<I> {
    plugins: Vec<Plugin<I>>,
}

/// The outcome of reading a plugin JAR's descriptions and registering it.
#[derive(Debug, Clone, PartialEq, Eq)]
pub enum LoadPluginResult {
    SuccessfullyLoadedSpigot,
    SuccessfullyLoadedPaper,
    FailedToLoadSpigotPlugin(String),
    FailedToLoadPaperPlugin(String),
    FailedToReadConfigurationFile(String),
    NoConfigurationFile,
}

/// The data folder of a plugin: `data` beside its JAR.
pub open spec fn data_folder_spec(jar_path: Seq<char>) -> Seq<char> {
    path_join_spec(path_parent_spec(jar_path).unwrap(), "data"@)
}

/// `p` is the fresh entry of a Paper plugin read from the JAR at `jar_path`:
/// named, versioned and started as its Paper description says, with no
/// instance, commands or listeners yet.
pub open spec fn paper_entry<I>(
    p: Plugin<I>,
    jar_path: Seq<char>,
    paper: PaperPluginYml,
    spigot: Option<SpigotPluginYml>,
) -> bool {
    &&& p.name@ == paper.name@
    &&& p.version@ == paper.version@
    &&& p.main_class@ == paper.main@
    &&& p.path@ == jar_path
    &&& p.data_folder@ == data_folder_spec(jar_path)
    &&& p.state == PluginState::Registered
    &&& p.instance is None
    &&& p.commands@ == Map::<String, Command>::empty()
    &&& p.listeners@.len() == 0
    &&& p.plugin_type matches PluginType::Paper(d) && d.paper_config == paper && d.spigot_config
        == spigot
}

/// `p` is the fresh entry of a Spigot plugin read from the JAR at `jar_path`:
/// named, versioned and started as its description says, with the commands it
/// declares, and no instance or listeners yet.
pub open spec fn spigot_entry<I>(p: Plugin<I>, jar_path: Seq<char>, spigot: SpigotPluginYml) -> bool {
    &&& p.name@ == spigot.name@
    &&& p.version@ == spigot.version@
    &&& p.main_class@ == spigot.main@
    &&& p.path@ == jar_path
    &&& p.data_folder@ == data_folder_spec(jar_path)
    &&& p.state == PluginState::Registered
    &&& p.instance is None
    &&& p.commands@ == match spigot.commands {
        Some(c) => c@,
        None => Map::<String, Command>::empty(),
    }
    &&& p.listeners@.len() == 0
    &&& p.plugin_type matches PluginType::Spigot(d) && d.spigot_config == spigot
}

impl<I> PluginManager<I> {
    #[verifier::type_invariant]
    spec fn wf(self) -> bool {
        &&& unique_names(self.plugins@)
        &&& forall|i: int| 0 <= i < self.plugins@.len() ==> unique_keys(#[trigger] self.plugins@[i].listeners@)
    }

    /// The plugins, in registration order.
    pub closed spec fn view(&self) -> Seq<Plugin<I>> {
        self.plugins@
    }

    /// The plugins by name.
    pub open spec fn map(&self) -> Map<Seq<char>, Plugin<I>> {
        by_name(self.view())
    }

    /// Whether a plugin of that name is registered.
    pub open spec fn has_plugin(&self, name: Seq<char>) -> bool {
        self.map().contains_key(name)
    }

    /// Every registered plugin has an instance on the JVM side.
    pub open spec fn all_instantiated(&self) -> bool {
        forall|i: int| 0 <= i < self.view().len() ==> (#[trigger] self.view()[i]).instance is Some
    }

    /// An empty registry.
    pub fn new() -> (m: Self)
        ensures
            m.view().len() == 0,
            m.map() == Map::<Seq<char>, Plugin<I>>::empty(),
    {
        PluginManager { plugins: Vec::new() }
    }

    /// The plugins, in registration order.
    pub fn plugins(&self) -> (r: &Vec<Plugin<I>>)
        ensures
            r@ == self.view(),
    {
        &self.plugins
    }

    /// The number of registered plugins.
    pub fn len(&self) -> (r: usize)
        ensures
            r == self.view().len(),
    {
        self.plugins.len()
    }

    /// The plugin registered under `name`.
    pub fn get_plugin(&self, name: &str) -> (r: Option<&Plugin<I>>)
        ensures
            match r {
                Some(p) => self.has_plugin(name@) && *p == self.map()[name@],
                None => !self.has_plugin(name@),
            },
    {
        proof {
            use_type_invariant(self);
        }
        match find_plugin(&self.plugins, name) {
            Some(i) => {
                proof {
                    lemma_by_name_lookup(self.plugins@, i as int);
                }
                Some(&self.plugins[i])
            },
            None => {
                proof {
                    lemma_by_name_absent(self.plugins@, name@);
                }
                None
            },
        }
    }

    /// Registers `plugin` under its name, replacing a plugin of the same name.
    pub fn add_plugin(&mut self, plugin: Plugin<I>)
        requires
            unique_keys(plugin.listeners@),
        ensures
            final(self).view() == put_spec(old(self).view(), plugin),
            final(self).map() == old(self).map().insert(plugin.name@, plugin),
            instances_consistent(old(self).view()) && instance_consistent(plugin)
                ==> instances_consistent(final(self).view()),
    {
        proof {
            use_type_invariant(&*self);
        }
        let ghost p = plugin;
        let mut plugins: Vec<Plugin<I>> = Vec::new();
        std::mem::swap(&mut plugins, &mut self.plugins);
        let ghost before = plugins@;
        match find_plugin(&plugins, plugin.name.as_str()) {
            Some(i) => {
                let _replaced = plugins.remove(i);
                plugins.insert(i, plugin);
                assert(plugins@ =~= before.update(i as int, p));
                proof {
                    lemma_by_name_update(before, i as int, p);
                    assert(before[i as int].name@ == p.name@);
                    let j = choose|j: int| 0 <= j < before.len() && (#[trigger] before[j]).name@ == p.name@;
                    assert(j == i as int);
                }
            },
            None => {
                plugins.push(plugin);
                assert(plugins@.drop_last() =~= before);
            },
        }
        self.plugins = plugins;
    }

    /// Registers a Paper plugin from its parsed descriptions. A description
    /// that failed to parse is returned as the error, the Paper one first; the
    /// registry is then unchanged.
    pub fn load_paper_plugin(
        &mut self,
        jar_path: &str,
        paper_plugin_config: Result<PaperPluginYml, String>,
        spigot_plugin_config: Option<Result<SpigotPluginYml, String>>,
    ) -> (r: Result<(), String>)
        requires
            paper_plugin_config is Ok && !(spigot_plugin_config matches Some(Err(_)))
                ==> path_parent_spec(jar_path@) is Some,
        ensures
            match (paper_plugin_config, spigot_plugin_config) {
                (Err(e), _) => r == Err::<(), String>(e) && final(self).view() == old(self).view(),
                (Ok(_), Some(Err(e))) => r == Err::<(), String>(e) && final(self).view() == old(
                    self,
                ).view(),
                (Ok(paper), spigot) => {
                    &&& r is Ok
                    &&& final(self).map() == old(self).map().insert(
                        paper.name@,
                        final(self).map()[paper.name@],
                    )
                    &&& paper_entry(
                        final(self).map()[paper.name@],
                        jar_path@,
                        paper,
                        match spigot {
                            Some(Ok(s)) => Some(s),
                            _ => None::<SpigotPluginYml>,
                        },
                    )
                },
            },
            instances_consistent(old(self).view()) ==> instances_consistent(final(self).view()),
    {
        let paper = match paper_plugin_config {
            Ok(p) => p,
            Err(e) => return Err(e),
        };
        let spigot = match spigot_plugin_config {
            Some(Ok(s)) => Some(s),
            Some(Err(e)) => return Err(e),
            None => None,
        };
        let parent = path_parent(jar_path).unwrap();
        let data_folder = path_join(parent.as_str(), "data");
        let plugin = Plugin {
            name: paper.name.clone(),
            version: paper.version.clone(),
            main_class: paper.main.clone(),
            path: String::from_str(jar_path),
            plugin_type: PluginType::Paper(PaperPluginData { paper_config: paper, spigot_config: spigot }),
            state: PluginState::Registered,
            data_folder,
            instance: None,
            commands: HashMap::new(),
            listeners: Vec::new(),
        };
        self.add_plugin(plugin);
        Ok(())
    }

    /// Registers a Spigot plugin from its parsed description; a description
    /// that failed to parse is returned as the error and the registry is then
    /// unchanged. The plugin's commands are those the description declares.
    pub fn load_spigot_plugin(
        &mut self,
        jar_path: &str,
        spigot_plugin_config: Result<SpigotPluginYml, String>,
    ) -> (r: Result<(), String>)
        requires
            spigot_plugin_config is Ok ==> path_parent_spec(jar_path@) is Some,
        ensures
            match spigot_plugin_config {
                Err(e) => r == Err::<(), String>(e) && final(self).view() == old(self).view(),
                Ok(spigot) => {
                    &&& r is Ok
                    &&& final(self).map() == old(self).map().insert(
                        spigot.name@,
                        final(self).map()[spigot.name@],
                    )
                    &&& spigot_entry(final(self).map()[spigot.name@], jar_path@, spigot)
                },
            },
            instances_consistent(old(self).view()) ==> instances_consistent(final(self).view()),
    {
        let spigot = match spigot_plugin_config {
            Ok(s) => s,
            Err(e) => return Err(e),
        };
        let parent = path_parent(jar_path).unwrap();
        let data_folder = path_join(parent.as_str(), "data");
        let commands = match &spigot.commands {
            Some(c) => c.clone(),
            None => HashMap::new(),
        };
        let plugin = Plugin {
            name: spigot.name.clone(),
            version: spigot.version.clone(),
            main_class: spigot.main.clone(),
            path: String::from_str(jar_path),
            plugin_type: PluginType::Spigot(SpigotPluginData { spigot_config: spigot }),
            state: PluginState::Registered,
            data_folder,
            instance: None,
            commands,
            listeners: Vec::new(),
        };
        self.add_plugin(plugin);
        Ok(())
    }

    /// Registers the plugin of a JAR from the descriptions found in it: the
    /// Paper description when there is one (with the Spigot one beside it),
    /// else the Spigot one. A description that failed to parse is reported
    /// and changes nothing. Returns `None`, and changes nothing, only when the
    /// chosen descriptions parsed but the JAR path has no parent directory to
    /// hold the plugin's data folder.
    pub fn load_plugin(
        &mut self,
        jar_path: &str,
        paper_plugin_config: Option<Result<PaperPluginYml, String>>,
        spigot_plugin_config: Option<Result<SpigotPluginYml, String>>,
    ) -> (r: Option<LoadPluginResult>)
        ensures
            match (paper_plugin_config, spigot_plugin_config) {
                (Some(Err(e)), _) => r == Some(LoadPluginResult::FailedToLoadPaperPlugin(e))
                    && final(self).view() == old(self).view(),
                (Some(Ok(_)), Some(Err(e))) => r == Some(LoadPluginResult::FailedToLoadPaperPlugin(e))
                    && final(self).view() == old(self).view(),
                (Some(Ok(paper)), spigot) => if path_parent_spec(jar_path@) is None {
                    r is None && final(self).view() == old(self).view()
                } else {
                    r == Some(LoadPluginResult::SuccessfullyLoadedPaper) && final(self).map() == old(
                        self,
                    ).map().insert(paper.name@, final(self).map()[paper.name@]) && paper_entry(
                        final(self).map()[paper.name@],
                        jar_path@,
                        paper,
                        match spigot {
                            Some(Ok(s)) => Some(s),
                            _ => None::<SpigotPluginYml>,
                        },
                    )
                },
                (None, Some(Err(e))) => r == Some(LoadPluginResult::FailedToLoadSpigotPlugin(e))
                    && final(self).view() == old(self).view(),
                (None, Some(Ok(spigot))) => if path_parent_spec(jar_path@) is None {
                    r is None && final(self).view() == old(self).view()
                } else {
                    r == Some(LoadPluginResult::SuccessfullyLoadedSpigot) && final(self).map() == old(
                        self,
                    ).map().insert(spigot.name@, final(self).map()[spigot.name@]) && spigot_entry(
                        final(self).map()[spigot.name@],
                        jar_path@,
                        spigot,
                    )
                },
                (None, None) => r == Some(LoadPluginResult::NoConfigurationFile) && final(self).view()
                    == old(self).view(),
            },
            instances_consistent(old(self).view()) ==> instances_consistent(final(self).view()),
    {
        let has_parent = match path_parent(jar_path) {
            Some(_) => true,
            None => false,
        };
        match (paper_plugin_config, spigot_plugin_config) {
            (Some(paper), spigot) => {
                let parsed = match (&paper, &spigot) {
                    (Err(_), _) => false,
                    (Ok(_), Some(Err(_))) => false,
                    _ => true,
                };
                if parsed && !has_parent {
                    return None;
                }
                match self.load_paper_plugin(jar_path, paper, spigot) {
                    Ok(()) => Some(LoadPluginResult::SuccessfullyLoadedPaper),
                    Err(e) => Some(LoadPluginResult::FailedToLoadPaperPlugin(e)),
                }
            },
            (None, Some(spigot)) => {
                if spigot.is_ok() && !has_parent {
                    return None;
                }
                match self.load_spigot_plugin(jar_path, spigot) {
                    Ok(()) => Some(LoadPluginResult::SuccessfullyLoadedSpigot),
                    Err(e) => Some(LoadPluginResult::FailedToLoadSpigotPlugin(e)),
                }
            },
            (None, None) => Some(LoadPluginResult::NoConfigurationFile),
        }
    }

    /// The order in which the plugins are instantiated, as indices in
    /// registration order: each plugin after the plugins it depends on, as far
    /// as dependency cycles allow; the second value counts the entries that are
    /// so sorted (see `plugin_load_order`).
    pub fn load_order(&self) -> (r: (Vec<usize>, usize))
        ensures
            load_order_spec(self.view(), r.0@, r.1 as int),
            r.0@.no_duplicates(),
    {
        plugin_load_order(&self.plugins)
    }

    /// Records the creation of the plugins on the JVM, in the load order
    /// (`order` and `sorted` as `load_order` gave them): `created[k]` is the
    /// outcome for the plugin at index `order[k]`, and the list may stop short
    /// of the end of `order`. A plugin that was created gets its instance and
    /// becomes `Loaded` when its commands were all registered (`true`), else
    /// keeps its state; a plugin whose creation failed (`None`) becomes
    /// `Errored`. The plugins not reached are unchanged.
    pub fn instantiate_all_plugins(
        &mut self,
        order: &Vec<usize>,
        sorted: usize,
        created: Vec<Option<(I, bool)>>,
    )
        requires
            load_order_spec(old(self).view(), order@, sorted as int),
            created@.len() <= order@.len(),
        ensures
            final(self).view().len() == old(self).view().len(),
            forall|k: int|
                0 <= k < created@.len() ==> #[trigger] final(self).view()[order@[k] as int]
                    == creation_outcome(old(self).view()[order@[k] as int], created@[k]),
            forall|i: int|
                0 <= i < old(self).view().len() && !order@.take(created@.len() as int).contains(
                    i as usize,
                ) ==> #[trigger] final(self).view()[i] == old(self).view()[i],
            instances_consistent(old(self).view()) ==> instances_consistent(final(self).view()),
    {
        proof {
            use_type_invariant(&*self);
        }
        let mut plugins: Vec<Plugin<I>> = Vec::new();
        std::mem::swap(&mut plugins, &mut self.plugins);
        let ghost before = plugins@;
        let mut created = created;
        let ghost rev = created@;
        let n = created.len();
        let mut k: usize = 0;
        while k < n
            invariant
                n == rev.len(),
                n <= order@.len(),
                order@.no_duplicates(),
                forall|k2: int| 0 <= k2 < order@.len() ==> #[trigger] order@[k2] < before.len(),
                k <= n,
                created@ == rev.skip(k as int),
                plugins@.len() == before.len(),
                forall|k2: int| 0 <= k2 < k ==> #[trigger] plugins@[order@[k2] as int] == creation_outcome(
                    before[order@[k2] as int],
                    rev[k2],
                ),
                forall|i: int|
                    0 <= i < before.len() && !order@.take(k as int).contains(i as usize)
                        ==> #[trigger] plugins@[i] == before[i],
            decreases n - k,
        {
            let idx = order[k];
            let outcome = created.remove(0);
            let ghost mid = plugins@;
            let mut p = plugins.remove(idx);
            match outcome {
                Some((instance, loaded)) => {
                    p.instance = Some(instance);
                    if loaded {
                        p.state = PluginState::Loaded;
                    }
                },
                None => {
                    p.state = PluginState::Errored;
                },
            }
            plugins.insert(idx, p);
            proof {
                assert(plugins@ =~= mid.update(idx as int, plugins@[idx as int]));
                assert(created@ =~= rev.skip(k + 1));
                assert(!order@.take(k as int).contains(idx)) by {
                    if order@.take(k as int).contains(idx) {
                        let q = choose|q: int| 0 <= q < k && order@.take(k as int)[q] == idx;
                        assert(order@[q] == order@[k as int]);
                    }
                }
                assert(mid[idx as int] == before[idx as int]);
                assert forall|k2: int| 0 <= k2 < k + 1 implies #[trigger] plugins@[order@[k2] as int]
                    == creation_outcome(before[order@[k2] as int], rev[k2]) by {
                    if k2 < k {
                        assert(order@[k2] != order@[k as int]);
                    }
                }
                assert forall|i: int|
                    0 <= i < before.len() && !order@.take(k + 1).contains(i as usize) implies #[trigger] plugins@[i]
                        == before[i] by {
                    assert(order@.take(k + 1)[k as int] == idx);
                    if order@.take(k as int).contains(i as usize) {
                        let q = choose|q: int| 0 <= q < k && order@.take(k as int)[q] == i as usize;
                        assert(order@.take(k + 1)[q] == i as usize);
                    }
                }
            }
            k += 1;
        }
        proof {
            assert(plugins@.len() == plugins.len());
            assert forall|a: int, b: int| 0 <= a < b < plugins@.len() implies (#[trigger] plugins@[a]).name@
                != (#[trigger] plugins@[b]).name@ by {
                assert(plugins@[a].name == before[a].name) by {
                    if order@.take(n as int).contains(a as usize) {
                        let q = choose|q: int| 0 <= q < n && order@.take(n as int)[q] == a as usize;
                        assert(plugins@[order@[q] as int] == creation_outcome(before[order@[q] as int], rev[q]));
                    }
                }
                assert(plugins@[b].name == before[b].name) by {
                    if order@.take(n as int).contains(b as usize) {
                        let q = choose|q: int| 0 <= q < n && order@.take(n as int)[q] == b as usize;
                        assert(plugins@[order@[q] as int] == creation_outcome(before[order@[q] as int], rev[q]));
                    }
                }
            }
            if instances_consistent(before) {
                assert forall|i: int| 0 <= i < plugins@.len() implies instance_consistent(
                    #[trigger] plugins@[i],
                ) by {
                    if order@.take(n as int).contains(i as usize) {
                        let q = choose|q: int| 0 <= q < n && order@.take(n as int)[q] == i as usize;
                        assert(plugins@[order@[q] as int] == creation_outcome(before[order@[q] as int], rev[q]));
                        assert(instance_consistent(before[i]));
                    }
                }
            }
        }
        self.plugins = plugins;
    }

    /// Records the outcome of enabling every plugin through the JVM's plugin
    /// manager: `results[i]` is whether the `i`-th plugin (in registration
    /// order) was enabled. A plugin that was becomes `Enabled`, the others
    /// `Errored`; nothing else changes.
    pub fn enable_all_plugins(&mut self, results: &Vec<bool>)
        requires
            old(self).all_instantiated(),
            results@.len() == old(self).view().len(),
        ensures
            final(self).view().len() == old(self).view().len(),
            forall|i: int|
                0 <= i < old(self).view().len() ==> #[trigger] final(self).view()[i] == with_state(
                    old(self).view()[i],
                    if results@[i] {
                        PluginState::Enabled
                    } else {
                        PluginState::Errored
                    },
                ),
            instances_consistent(old(self).view()) ==> instances_consistent(final(self).view()),
    {
        proof {
            use_type_invariant(&*self);
        }
        let mut plugins: Vec<Plugin<I>> = Vec::new();
        std::mem::swap(&mut plugins, &mut self.plugins);
        let ghost before = plugins@;
        let n = plugins.len();
        let mut i: usize = 0;
        while i < n
            invariant
                n == before.len(),
                n == results@.len(),
                i <= n,
                plugins@.len() == n,
                forall|j: int| 0 <= j < i ==> #[trigger] plugins@[j] == with_state(
                    before[j],
                    if results@[j] {
                        PluginState::Enabled
                    } else {
                        PluginState::Errored
                    },
                ),
                forall|j: int| i <= j < n ==> #[trigger] plugins@[j] == before[j],
            decreases n - i,
        {
            let mut p = plugins.remove(i);
            p.state = if results[i] {
                PluginState::Enabled
            } else {
                PluginState::Errored
            };
            plugins.insert(i, p);
            i += 1;
        }
        proof {
            lemma_same_names(before, plugins@);
        }
        self.plugins = plugins;
    }

    /// Records that every plugin was disabled through the JVM's plugin
    /// manager: every plugin becomes `Disabled`, whether or not the JVM
    /// reported an error; nothing else changes.
    pub fn disable_all_plugins(&mut self)
        requires
            old(self).all_instantiated(),
        ensures
            final(self).view().len() == old(self).view().len(),
            forall|i: int|
                0 <= i < old(self).view().len() ==> #[trigger] final(self).view()[i] == with_state(
                    old(self).view()[i],
                    PluginState::Disabled,
                ),
            instances_consistent(old(self).view()) ==> instances_consistent(final(self).view()),
    {
        proof {
            use_type_invariant(&*self);
        }
        let mut plugins: Vec<Plugin<I>> = Vec::new();
        std::mem::swap(&mut plugins, &mut self.plugins);
        let ghost before = plugins@;
        let n = plugins.len();
        let mut i: usize = 0;
        while i < n
            invariant
                n == before.len(),
                i <= n,
                plugins@.len() == n,
                forall|j: int| 0 <= j < i ==> #[trigger] plugins@[j] == with_state(
                    before[j],
                    PluginState::Disabled,
                ),
                forall|j: int| i <= j < n ==> #[trigger] plugins@[j] == before[j],
            decreases n - i,
        {
            let mut p = plugins.remove(i);
            p.state = PluginState::Disabled;
            plugins.insert(i, p);
            i += 1;
        }
        proof {
            lemma_same_names(before, plugins@);
        }
        self.plugins = plugins;
    }

    /// Forgets every plugin.
    pub fn unload_all_plugins(&mut self) -> (r: Result<(), String>)
        ensures
            r is Ok,
            final(self).view().len() == 0,
            final(self).map() == Map::<Seq<char>, Plugin<I>>::empty(),
            instances_consistent(old(self).view()) ==> instances_consistent(final(self).view()),
    {
        self.plugins = Vec::new();
        Ok(())
    }

    /// Keeps `listener` as the event listener of the plugin `plugin_name`,
    /// in place of the one kept before.
    pub fn register_listener(&mut self, plugin_name: &str, listener: I)
        requires
            old(self).has_plugin(plugin_name@),
        ensures
            final(self).map().dom() == old(self).map().dom(),
            forall|k: Seq<char>|
                old(self).map().contains_key(k) && k != plugin_name@
                    ==> #[trigger] final(self).map()[k] == old(self).map()[k],
            ({
                let before = old(self).map()[plugin_name@];
                let after = final(self).map()[plugin_name@];
                &&& after == Plugin::<I> { listeners: after.listeners, ..before }
                &&& by_key(after.listeners@) == by_key(before.listeners@).insert(
                    listener_key(),
                    listener,
                )
            }),
            instances_consistent(old(self).view()) ==> instances_consistent(final(self).view()),
    {
        proof {
            use_type_invariant(&*self);
        }
        let mut plugins: Vec<Plugin<I>> = Vec::new();
        std::mem::swap(&mut plugins, &mut self.plugins);
        let ghost before = plugins@;
        let i = match find_plugin(&plugins, plugin_name) {
            Some(i) => i,
            None => {
                proof {
                    lemma_by_name_absent(before, plugin_name@);
                }
                self.plugins = plugins;
                return;
            },
        };
        let mut p = plugins.remove(i);
        let key = String::from_str("listener_name");
        proof {
            reveal_strlit("listener_name");
        }
        put_keyed(&mut p.listeners, key, listener);
        let ghost q = p;
        plugins.insert(i, p);
        assert(plugins@ =~= before.update(i as int, q));
        proof {
            assert forall|a: int, b: int| 0 <= a < b < plugins@.len() implies (#[trigger] plugins@[a]).name@
                != (#[trigger] plugins@[b]).name@ by {
                assert(plugins@[a].name == before[a].name);
                assert(plugins@[b].name == before[b].name);
            }
            lemma_by_name_update(before, i as int, q);
            lemma_by_name_lookup(before, i as int);
            assert(by_name(before).insert(q.name@, q).dom() =~= by_name(before).dom());
        }
        self.plugins = plugins;
    }
}

} // verus!
