//! The Spigot/Bukkit plugin description, `plugin.yml`.
use std::collections::HashMap;

use vstd::prelude::*;

use crate::text::{str_eq, strings_view};

verus! {

/// The name of the Spigot plugin description file inside a plugin JAR.
pub const SPIGOT_PLUGIN_CONFIG: &'static str = "plugin.yml";

/// When a plugin should be loaded.
#[derive(Debug, Clone, Copy, PartialEq, Eq, Structural)]
pub enum LoadOrder {
    Startup,
    Postworld,
}

impl Default for LoadOrder {
    fn default() -> (r: Self)
        ensures
            r == LoadOrder::Postworld,
    {
        LoadOrder::Postworld
    }
}

/// The default value of a permission.
#[derive(Debug, Clone, Copy, PartialEq, Eq, Structural)]
pub enum DefaultPermission {
    Op,
    NotOp,
    True,
    False,
}

impl Default for DefaultPermission {
    fn default() -> (r: Self)
        ensures
            r == DefaultPermission::Op,
    {
        DefaultPermission::Op
    }
}

/// A permission node definition.
#[derive(Debug, Clone)]
pub struct Permission {
    pub description: Option<String>,
    pub default: Option<DefaultPermission>,
    pub children: Option<HashMap<String, bool>>,
}

/// A command definition.
#[derive(Debug, Clone)]
pub struct Command {
    pub description: Option<String>,
    pub usage: Option<String>,
    pub aliases: Option<StringOrList>,
    pub permission: Option<String>,
    pub permission_message: Option<String>,
}

/// A field that may hold either a single string or a list of strings.
#[derive(Debug, Clone)]
pub enum StringOrList {
    Single(String),
    Multiple(Vec<String>),
}

/// The strings that a `StringOrList` stands for.
pub open spec fn string_or_list_view(s: StringOrList) -> Seq<Seq<char>> {
    match s {
        StringOrList::Single(x) => seq![x@],
        StringOrList::Multiple(v) => strings_view(v@),
    }
}

/// The strings of an optional list; none when the list is absent.
pub open spec fn optional_strings(o: Option<Vec<String>>) -> Seq<Seq<char>> {
    match o {
        Some(v) => strings_view(v@),
        None => Seq::<Seq<char>>::empty(),
    }
}

/// Whether an optional list is present and holds `name`.
pub open spec fn optional_list_contains(o: Option<Vec<String>>, name: Seq<char>) -> bool {
    match o {
        Some(v) => exists|i: int| 0 <= i < v@.len() && (#[trigger] v@[i])@ == name,
        None => false,
    }
}

/// A copy of a list of strings.
pub fn copy_strings(v: &Vec<String>) -> (r: Vec<String>)
    ensures
        strings_view(r@) == strings_view(v@),
{
    let mut r: Vec<String> = Vec::new();
    let mut i: usize = 0;
    while i < v.len()
        invariant
            i <= v@.len(),
            strings_view(r@) == strings_view(v@).take(i as int),
        decreases v@.len() - i,
    {
        let ghost prev = strings_view(r@);
        let x = v[i].clone();
        r.push(x);
        assert(strings_view(r@) == prev.push(x@));
        assert(strings_view(r@) =~= strings_view(v@).take(i + 1));
        i += 1;
    }
    assert(strings_view(v@).take(v@.len() as int) =~= strings_view(v@));
    r
}

/// Whether the list holds a string equal to `name`.
pub fn list_contains(v: &Vec<String>, name: &str) -> (r: bool)
    ensures
        r == exists|i: int| 0 <= i < v@.len() && (#[trigger] v@[i])@ == name@,
{
    let mut i: usize = 0;
    while i < v.len()
        invariant
            i <= v@.len(),
            forall|j: int| 0 <= j < i ==> (#[trigger] v@[j])@ != name@,
        decreases v@.len() - i,
    {
        if str_eq(v[i].as_str(), name) {
            return true;
        }
        i += 1;
    }
    false
}

impl StringOrList {
    /// The strings it stands for, whichever form it was written in.
    pub fn to_vec(&self) -> (r: Vec<String>)
        ensures
            strings_view(r@) == string_or_list_view(*self),
    {
        match self {
            StringOrList::Single(s) => {
                let mut r: Vec<String> = Vec::new();
                r.push(s.clone());
                assert(strings_view(r@) =~= seq![s@]);
                r
            },
            StringOrList::Multiple(v) => copy_strings(v),
        }
    }
}

/// The main `plugin.yml` structure.
#[derive(Debug, Clone)]
pub struct SpigotPluginYml {
    /// The name of the plugin.
    pub name: String,
    /// The current version of the plugin.
    pub version: String,
    /// The main class of the plugin (extends JavaPlugin).
    pub main: String,
    /// A short description of the plugin.
    pub description: Option<String>,
    /// The author of the plugin.
    pub author: Option<String>,
    /// A list of authors, besides `author`.
    pub authors: Option<Vec<String>>,
    /// Contributors to the plugin.
    pub contributors: Option<Vec<String>>,
    /// The website of the plugin.
    pub website: Option<String>,
    /// The version of the Paper API (such as "1.21").
    pub api_version: Option<String>,
    /// When to load the plugin.
    pub load: Option<LoadOrder>,
    /// The prefix for log messages.
    pub prefix: Option<String>,
    /// Plugins that must be present for this plugin to load.
    pub depend: Option<Vec<String>>,
    /// Plugins that enhance this one if present.
    pub softdepend: Option<Vec<String>>,
    /// Plugins that this plugin should load before.
    pub loadbefore: Option<Vec<String>>,
    /// Other plugins this plugin can substitute for.
    pub provides: Option<Vec<String>>,
    /// Maven dependencies to download.
    pub libraries: Option<Vec<String>>,
    /// Command definitions.
    pub commands: Option<HashMap<String, Command>>,
    /// Permission definitions.
    pub permissions: Option<HashMap<String, Permission>>,
    /// Default value of permissions that do not give one.
    pub default_permission: Option<DefaultPermission>,
    /// Paper plugin loader class.
    pub paper_plugin_loader: Option<String>,
    /// Whether library resolution is left to the loader.
    pub paper_skip_libraries: Option<bool>,
}

/// All authors of a description: `author` first, then the list `authors`.
pub open spec fn all_authors_spec(p: SpigotPluginYml) -> Seq<Seq<char>> {
    let single = match p.author {
        Some(a) => seq![a@],
        None => Seq::<Seq<char>>::empty(),
    };
    single + optional_strings(p.authors)
}

impl SpigotPluginYml {
    /// All authors: `author` followed by `authors`.
    pub fn get_all_authors(&self) -> (r: Vec<String>)
        ensures
            strings_view(r@) == all_authors_spec(*self),
    {
        let mut result: Vec<String> = Vec::new();
        if let Some(author) = &self.author {
            result.push(author.clone());
        }
        assert(strings_view(result@) =~= match self.author {
            Some(a) => seq![a@],
            None => Seq::<Seq<char>>::empty(),
        });
        if let Some(authors) = &self.authors {
            let mut more = copy_strings(authors);
            let ghost first = strings_view(result@);
            result.append(&mut more);
            assert(strings_view(result@) =~= first + strings_view(authors@));
        }
        assert(strings_view(result@) =~= all_authors_spec(*self));
        result
    }

    /// Whether this plugin names `plugin_name` among its hard dependencies.
    pub fn depends_on(&self, plugin_name: &str) -> (r: bool)
        ensures
            r == optional_list_contains(self.depend, plugin_name@),
    {
        if let Some(deps) = &self.depend {
            return list_contains(deps, plugin_name);
        }
        false
    }

    /// Whether this plugin names `plugin_name` among its soft dependencies.
    pub fn soft_depends_on(&self, plugin_name: &str) -> (r: bool)
        ensures
            r == optional_list_contains(self.softdepend, plugin_name@),
    {
        if let Some(deps) = &self.softdepend {
            return list_contains(deps, plugin_name);
        }
        false
    }
}

} // verus!
