//! Where the manager keeps its files, and the parsed configuration.
use vstd::prelude::*;

use crate::plugin::Plugin;
use crate::plugin::PluginView;
use crate::text::join_path;
use crate::text::joined;
use crate::tree::flatten;
use crate::tree::listed_views;
use crate::tree::listing;
use crate::tree::views;
use crate::tree::PluginStatus;
use crate::tree::PluginTree;

verus! {

/// The directories and files the manager works with.
#[derive(Debug, PartialEq, Eq)]
pub struct Setup {
    /// The path to `almoxarife.yaml`.
    pub almoxarife_yaml_path: String,
    /// The directory where plugins' repositories are checked out (usually
    /// `~/.local/share/almoxarife`).
    pub almoxarife_data_dir: String,
    /// The Almoxarife subdirectory inside `autoload`.
    pub autoload_plugins_dir: String,
    /// The path to `almoxarife.kak`.
    pub almoxarife_kak: String,
    /// Kakoune's autoload directory.
    pub autoload_dir: String,
}

/// The configuration directory: `XDG_CONFIG_HOME` when set, else
/// `$HOME/.config`.
pub open spec fn config_dir(home: Seq<char>, config_home: Option<Seq<char>>) -> Seq<char> {
    match config_home {
        Some(c) => c,
        None => joined(home, ".config"@),
    }
}

/// The data directory of the manager: `XDG_DATA_HOME/almoxarife` when set,
/// else `$HOME/.local/share/almoxarife`.
pub open spec fn data_dir(home: Seq<char>, data_home: Option<Seq<char>>) -> Seq<char> {
    match data_home {
        Some(d) => joined(d, "almoxarife"@),
        None => joined(home, ".local/share/almoxarife"@),
    }
}

/// The plain value of an optional string.
pub open spec fn opt_view(o: Option<&str>) -> Option<Seq<char>> {
    match o {
        Some(s) => Some(s@),
        None => None,
    }
}

impl Setup {
    /// The layout under the home directory `home`, honouring the
    /// `XDG_CONFIG_HOME` and `XDG_DATA_HOME` values when given.
    pub fn new(home: &str, config_home: Option<&str>, data_home: Option<&str>) -> (r: Setup)
        ensures
            ({
                let config = config_dir(home@, opt_view(config_home));
                let autoload = joined(config, "kak/autoload"@);
                let plugins = joined(autoload, "almoxarife"@);
                &&& r.almoxarife_yaml_path@ == joined(config, "almoxarife.yaml"@)
                &&& r.almoxarife_data_dir@ == data_dir(home@, opt_view(data_home))
                &&& r.autoload_dir@ == autoload
                &&& r.autoload_plugins_dir@ == plugins
                &&& r.almoxarife_kak@ == joined(plugins, "almoxarife.kak"@)
            }),
    {
        let config = match config_home {
            Some(c) => c.to_owned(),
            None => join_path(home, ".config"),
        };
        let almoxarife_yaml_path = join_path(config.as_str(), "almoxarife.yaml");
        let almoxarife_data_dir = match data_home {
            Some(d) => join_path(d, "almoxarife"),
            None => join_path(home, ".local/share/almoxarife"),
        };
        let autoload_dir = join_path(config.as_str(), "kak/autoload");
        let autoload_plugins_dir = join_path(autoload_dir.as_str(), "almoxarife");
        let almoxarife_kak = join_path(autoload_plugins_dir.as_str(), "almoxarife.kak");
        Setup {
            almoxarife_yaml_path,
            almoxarife_data_dir,
            autoload_plugins_dir,
            almoxarife_kak,
            autoload_dir,
        }
    }
}

impl Default for Setup {
    /// The layout spelled with `~`, as a user would write it.
    fn default() -> (r: Setup)
        ensures
            r.almoxarife_yaml_path@ == "~/.config/almoxarife.yaml"@,
            r.almoxarife_data_dir@ == "~/.local/share/almoxarife"@,
            r.autoload_plugins_dir@ == "~/.config/kak/autoload/almoxarife"@,
            r.almoxarife_kak@ == "~/.config/kak/autoload/almoxarife/almoxarife.kak"@,
            r.autoload_dir@ == "~/.config/kak/autoload"@,
    {
        Setup {
            almoxarife_yaml_path: "~/.config/almoxarife.yaml".to_owned(),
            almoxarife_data_dir: "~/.local/share/almoxarife".to_owned(),
            autoload_plugins_dir: "~/.config/kak/autoload/almoxarife".to_owned(),
            almoxarife_kak: "~/.config/kak/autoload/almoxarife/almoxarife.kak".to_owned(),
            autoload_dir: "~/.config/kak/autoload".to_owned(),
        }
    }
}

/// An error that stops a run before any plugin is synchronised.
#[derive(Debug, PartialEq, Eq)]
pub struct SetupError(pub String);

/// The message of a configuration that declares no plugin.
pub const NO_ELEMENT: &'static str = "configuration file has no YAML element";

/// The message of a configuration that declares `name` twice.
pub open spec fn duplicate_message(name: Seq<char>) -> Seq<char> {
    "the plugin "@ + name + " is declared more than once"@
}

/// Every plugin declared in `plugins`, depth first, each with its own flag.
pub open spec fn forest_listing(plugins: Seq<(String, PluginTree)>) -> Seq<
    (Seq<char>, PluginStatus),
>
    decreases plugins.len(),
{
    if plugins.len() == 0 {
        Seq::empty()
    } else {
        forest_listing(plugins.drop_last()) + listing(plugins.last().1, plugins.last().0@)
    }
}

/// The plugins to synchronise: those of each top-level tree in turn.
pub open spec fn forest_plugins(plugins: Seq<(String, PluginTree)>, setup: Setup) -> Seq<
    PluginView,
>
    decreases plugins.len(),
{
    if plugins.len() == 0 {
        Seq::empty()
    } else {
        forest_plugins(plugins.drop_last(), setup) + flatten(
            plugins.last().1,
            plugins.last().0@,
            None,
            setup,
        )
    }
}

/// The names of a listing.
pub open spec fn names(l: Seq<(Seq<char>, PluginStatus)>) -> Seq<Seq<char>> {
    l.map_values(|e: (Seq<char>, PluginStatus)| e.0)
}

/// `j` is the first position of `s` whose value came before.
pub open spec fn first_repeat(s: Seq<Seq<char>>, j: int) -> bool {
    &&& 0 <= j < s.len()
    &&& exists|i: int| 0 <= i < j && s[i] == s[j]
    &&& forall|a: int, b: int| 0 <= a < b < j ==> s[a] != s[b]
}

fn find_repeat(s: &Vec<(String, PluginStatus)>) -> (r: Option<usize>)
    ensures
        match r {
            Some(j) => first_repeat(names(listed_views(s@)), j as int),
            None => names(listed_views(s@)).no_duplicates(),
        },
{
    let ghost n = names(listed_views(s@));
    let mut j: usize = 0;
    while j < s.len()
        invariant
            j <= s@.len(),
            n == names(listed_views(s@)),
            n.len() == s@.len(),
            forall|a: int, b: int| 0 <= a < b < j ==> n[a] != n[b],
        decreases s@.len() - j,
    {
        let mut i: usize = 0;
        while i < j
            invariant
                i <= j < s@.len(),
                n == names(listed_views(s@)),
                n.len() == s@.len(),
                forall|a: int| 0 <= a < i ==> n[a] != n[j as int],
                forall|a: int, b: int| 0 <= a < b < j ==> n[a] != n[b],
            decreases j - i,
        {
            assert(n[i as int] == s@[i as int].0@);
            assert(n[j as int] == s@[j as int].0@);
            if s[i].0 == s[j].0 {
                assert(n[i as int] == n[j as int]);
                return Some(j);
            }
            i += 1;
        }
        j += 1;
    }
    None
}

/// The declared plugins, read from `almoxarife.yaml`, and the layout they
/// are synchronised into.
#[derive(Debug)]
pub struct Config<'setup> {
    pub setup: &'setup Setup,
    /// The top-level plugins, by name.
    pub plugins: Vec<(String, PluginTree)>,
}

impl<'setup> Config<'setup> {
    /// The configuration declaring `plugins`. It must declare at least one
    /// plugin, and each name once only, wherever it stands in the tree: two
    /// plugins of one name would share a directory and a link.
    pub fn new(setup: &'setup Setup, plugins: Vec<(String, PluginTree)>) -> (r: Result<
        Config<'setup>,
        SetupError,
    >)
        ensures
            plugins@.len() == 0 ==> r is Err && r->Err_0.0@ == NO_ELEMENT@,
            plugins@.len() > 0 && names(forest_listing(plugins@)).no_duplicates() ==> r is Ok
                && r->Ok_0.setup == setup && r->Ok_0.plugins == plugins,
            plugins@.len() > 0 && !names(forest_listing(plugins@)).no_duplicates() ==> r is Err
                && exists|j: int|
                first_repeat(names(forest_listing(plugins@)), j) && r->Err_0.0@
                    == duplicate_message(names(forest_listing(plugins@))[j]),
    {
        if plugins.len() == 0 {
            return Err(SetupError(NO_ELEMENT.to_owned()));
        }
        let listed = list_all(&plugins);
        match find_repeat(&listed) {
            Some(j) => {
                let mut message = "the plugin ".to_owned();
                message.append(listed[j].0.as_str());
                message.append(" is declared more than once");
                proof {
                    reveal_strlit("the plugin ");
                    reveal_strlit(" is declared more than once");
                }
                Err(SetupError(message))
            },
            None => Ok(Config { setup, plugins }),
        }
    }

    /// Every declared plugin, depth first, each with its own flag.
    pub fn list_plugins(&self) -> (r: Vec<(String, PluginStatus)>)
        ensures
            listed_views(r@) == forest_listing(self.plugins@),
    {
        list_all(&self.plugins)
    }

    /// The plugins to synchronise: every declared plugin but those that are
    /// disabled or lie under a disabled one.
    pub fn active_plugins(self) -> (r: Vec<Plugin>)
        ensures
            views(r@) == forest_plugins(self.plugins@, *self.setup),
    {
        let mut r: Vec<Plugin> = Vec::new();
        let mut i: usize = 0;
        while i < self.plugins.len()
            invariant
                i <= self.plugins@.len(),
                views(r@) == forest_plugins(self.plugins@.subrange(0, i as int), *self.setup),
            decreases self.plugins@.len() - i,
        {
            let name = self.plugins[i].0.clone();
            let mut sub = self.plugins[i].1.plugins(name, None, self.setup);
            let ghost before = r@;
            let ghost added = sub@;
            r.append(&mut sub);
            assert(self.plugins@.subrange(0, i + 1).drop_last() =~= self.plugins@.subrange(
                0,
                i as int,
            ));
            assert(views(r@) =~= views(before) + views(added)) by {
                assert(r@ =~= before + added);
            }
            i += 1;
        }
        assert(self.plugins@.subrange(0, i as int) =~= self.plugins@);
        r
    }
}

fn list_all(plugins: &Vec<(String, PluginTree)>) -> (r: Vec<(String, PluginStatus)>)
    ensures
        listed_views(r@) == forest_listing(plugins@),
{
    let mut r: Vec<(String, PluginStatus)> = Vec::new();
    let mut i: usize = 0;
    while i < plugins.len()
        invariant
            i <= plugins@.len(),
            listed_views(r@) == forest_listing(plugins@.subrange(0, i as int)),
        decreases plugins@.len() - i,
    {
        let name = plugins[i].0.clone();
        let tree = &plugins[i].1;
        let status = if tree.disabled {
            PluginStatus::Disabled
        } else {
            PluginStatus::Enabled
        };
        let ghost before = r@;
        r.push((name, status));
        let mut sub = tree.list_children();
        let ghost added = sub@;
        r.append(&mut sub);
        assert(plugins@.subrange(0, i + 1).drop_last() =~= plugins@.subrange(0, i as int));
        let ghost listed = listing(*tree, plugins@[i as int].0@);
        assert(listed_views(r@) =~= listed_views(before) + listed) by {
            assert(r@ =~= before.push((name, status)) + added);
            assert(listed_views(before.push((name, status)) + added) =~= listed_views(before)
                + seq![(name@, status)] + listed_views(added));
        }
        i += 1;
    }
    assert(plugins@.subrange(0, i as int) =~= plugins@);
    r
}

} // verus!
