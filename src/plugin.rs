//! A flattened plugin: where its code comes from, where it lives on disk, and
//! the configuration fragment Kakoune runs for it.
use vstd::prelude::*;

use crate::text::has_prefix;
use crate::text::join_path;
use crate::text::joined;
use crate::text::starts_with;
use crate::setup::Setup;
use crate::tree::PluginTree;

verus! {

/// Where a plugin's code comes from.
#[derive(Debug, PartialEq, Eq)]
pub enum Location {
    /// A git repository, by its URL.
    Remote(String),
    /// A directory on this machine, by its path.
    Local(String),
}

/// The mathematical value of a [`Location`].
pub enum LocationView {
    Remote(Seq<char>),
    Local(Seq<char>),
}

impl View for Location {
    type V = LocationView;

    open spec fn view(&self) -> LocationView {
        match self {
            Location::Remote(u) => LocationView::Remote(u@),
            Location::Local(p) => LocationView::Local(p@),
        }
    }
}

/// A location names a git repository when it starts with one of the URL
/// prefixes git understands; anything else is a local path.
pub open spec fn is_remote_location(s: Seq<char>) -> bool {
    starts_with(s, "https://"@) || starts_with(s, "http://"@) || starts_with(s, "git://"@)
        || starts_with(s, "git@"@)
}

/// The classification of a raw location string.
pub open spec fn location_of(s: Seq<char>) -> LocationView {
    if is_remote_location(s) {
        LocationView::Remote(s)
    } else {
        LocationView::Local(s)
    }
}

/// Whether `location` is a local path rather than a repository URL.
pub fn is_local(location: &str) -> (r: bool)
    ensures
        r == !is_remote_location(location@),
{
    !(has_prefix(location, "https://") || has_prefix(location, "http://") || has_prefix(
        location,
        "git://",
    ) || has_prefix(location, "git@"))
}

impl Location {
    /// Classifies a raw location string.
    pub fn classify(location: &str) -> (r: Location)
        ensures
            r@ == location_of(location@),
    {
        if is_local(location) {
            Location::Local(location.to_owned())
        } else {
            Location::Remote(location.to_owned())
        }
    }
}

/// The plain value of a [`Plugin`].
pub struct PluginView {
    pub name: Seq<char>,
    pub parent: Option<Seq<char>>,
    pub has_children: bool,
    pub location: LocationView,
    pub config: Seq<char>,
    pub repository_path: Seq<char>,
    pub link_path: Seq<char>,
}

/// A plugin to keep in sync, with everything its synchronisation needs.
#[derive(Debug, PartialEq, Eq)]
pub struct Plugin {
    pub name: String,
    /// The parent of this plugin, if any.
    pub parent: Option<String>,
    /// Whether this plugin has children.
    pub has_children: bool,
    /// Where the plugin's code comes from.
    pub location: Location,
    /// User defined configuration for the plugin.
    pub config: String,
    /// The directory holding the plugin's code.
    pub repository_path: String,
    /// The path inside `autoload` where a symbolic link to the code goes.
    pub link_path: String,
}

/// The plain value of an optional string.
pub open spec fn opt_string(o: Option<String>) -> Option<Seq<char>> {
    match o {
        Some(s) => Some(s@),
        None => None,
    }
}

impl View for Plugin {
    type V = PluginView;

    open spec fn view(&self) -> PluginView {
        PluginView {
            name: self.name@,
            parent: opt_string(self.parent),
            has_children: self.has_children,
            location: self.location@,
            config: self.config@,
            repository_path: self.repository_path@,
            link_path: self.link_path@,
        }
    }
}

/// The plugin that the node `node`, named `name` under `parent`, stands for:
/// a remote plugin is checked out under the data directory, a local one is
/// used where it is; either is linked under the autoload directory.
pub open spec fn entry(
    name: Seq<char>,
    node: PluginTree,
    parent: Option<Seq<char>>,
    setup: Setup,
) -> PluginView {
    PluginView {
        name,
        parent,
        has_children: node.children@.len() > 0,
        location: location_of(node.location@),
        config: node.config@,
        repository_path: if is_remote_location(node.location@) {
            joined(setup.almoxarife_data_dir@, name)
        } else {
            node.location@
        },
        link_path: joined(setup.autoload_plugins_dir@, name),
    }
}

/// The configuration fragment of a plugin. A plugin with children provides
/// an empty module when it has none of its own, so that its children's hooks
/// have a module to wait for; a plugin with a parent is loaded once the
/// parent's module is.
pub open spec fn fragment(
    name: Seq<char>,
    parent: Option<Seq<char>>,
    has_children: bool,
    config: Seq<char>,
) -> Seq<char> {
    match parent {
        None => if !has_children {
            "try %[ require-module "@ + name + " ]\n"@ + config + "\n"@
        } else {
            "try %[ require-module "@ + name + " ] catch %[\n    provide-module "@ + name
                + " ''\n    require-module "@ + name + "\n]\n"@ + config + "\n"@
        },
        Some(p) => if !has_children {
            "hook -once global ModuleLoaded "@ + p + " %[\n    try %[ require-module "@ + name
                + " ]\n    "@ + config + "\n]\n"@
        } else {
            "hook -once global ModuleLoaded "@ + p + " %[\n    try %[ require-module "@ + name
                + " ] catch %[\n        provide-module "@ + name + " ''\n        require-module "@
                + name + "\n    ]\n    "@ + config + "\n]\n"@
        },
    }
}

impl Plugin {
    /// The plugin for the node `node`, named `name`, under `parent`.
    pub fn new(name: String, node: &PluginTree, parent: Option<String>, setup: &Setup) -> (r:
        Plugin)
        ensures
            r@ == entry(name@, *node, opt_string(parent), *setup),
    {
        let link_path = join_path(setup.autoload_plugins_dir.as_str(), name.as_str());
        let location = Location::classify(node.location.as_str());
        let repository_path = match &location {
            Location::Local(p) => p.clone(),
            Location::Remote(_) => join_path(setup.almoxarife_data_dir.as_str(), name.as_str()),
        };
        Plugin {
            name,
            parent,
            has_children: node.children.len() > 0,
            location,
            config: node.config.clone(),
            repository_path,
            link_path,
        }
    }

    /// The configuration fragment Kakoune runs for this plugin.
    pub fn config(&self) -> (r: String)
        ensures
            r@ == fragment(self.name@, opt_string(self.parent), self.has_children, self.config@),
    {
        let name = self.name.as_str();
        match &self.parent {
            None => {
                if !self.has_children {
                    let mut r = "try %[ require-module ".to_owned();
                    r.append(name);
                    r.append(" ]\n");
                    r.append(self.config.as_str());
                    r.append("\n");
                    r
                } else {
                    let mut r = "try %[ require-module ".to_owned();
                    r.append(name);
                    r.append(" ] catch %[\n    provide-module ");
                    r.append(name);
                    r.append(" ''\n    require-module ");
                    r.append(name);
                    r.append("\n]\n");
                    r.append(self.config.as_str());
                    r.append("\n");
                    r
                }
            },
            Some(p) => {
                let mut r = "hook -once global ModuleLoaded ".to_owned();
                r.append(p.as_str());
                r.append(" %[\n    try %[ require-module ");
                r.append(name);
                if !self.has_children {
                    r.append(" ]\n    ");
                } else {
                    r.append(" ] catch %[\n        provide-module ");
                    r.append(name);
                    r.append(" ''\n        require-module ");
                    r.append(name);
                    r.append("\n    ]\n    ");
                }
                r.append(self.config.as_str());
                r.append("\n]\n");
                r
            },
        }
    }
}

} // verus!
