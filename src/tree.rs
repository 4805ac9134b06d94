//! The declared plugins, as a tree, and its flattening into plugins to sync.
use vstd::prelude::*;

use crate::plugin::entry;
use crate::plugin::opt_string;
use crate::plugin::Plugin;
use crate::plugin::PluginView;
use crate::setup::Setup;

verus! {

/// A declared plugin and the plugins declared under it.
#[derive(Debug, PartialEq, Eq)]
pub struct PluginTree {
    /// A repository URL or a local path.
    pub location: String,
    /// Commands run when the plugin is loaded.
    pub config: String,
    /// A disabled plugin is skipped with everything under it.
    pub disabled: bool,
    /// The plugins that load after this one, by name.
    pub children: Vec<(String, PluginTree)>,
}

/// The plain values of a sequence of plugins.
pub open spec fn views(s: Seq<Plugin>) -> Seq<PluginView> {
    s.map_values(|p: Plugin| p@)
}

/// The plugins a tree named `name` under `parent` stands for, depth first:
/// the node itself, then the plugins of each child in turn. A disabled node
/// stands for none, whatever lies below it.
pub open spec fn flatten(
    tree: PluginTree,
    name: Seq<char>,
    parent: Option<Seq<char>>,
    setup: Setup,
) -> Seq<PluginView>
    decreases tree, tree.children@.len() + 1,
{
    if tree.disabled {
        Seq::empty()
    } else {
        seq![entry(name, tree, parent, setup)] + flatten_children(tree, 0, name, setup)
    }
}

/// The plugins of the children of `tree` (named `name`) from the `i`th on.
pub open spec fn flatten_children(tree: PluginTree, i: int, name: Seq<char>, setup: Setup) -> Seq<
    PluginView,
>
    decreases tree, tree.children@.len() - i,
{
    if 0 <= i < tree.children@.len() {
        flatten(tree.children@[i].1, tree.children@[i].0@, Some(name), setup) + flatten_children(
            tree,
            i + 1,
            name,
            setup,
        )
    } else {
        Seq::empty()
    }
}

/// Whether a declared plugin is switched on by its own flag.
#[derive(Debug, PartialEq, Eq, Structural)]
pub enum PluginStatus {
    Enabled,
    Disabled,
}

/// The flag of a plugin declared with `disabled`.
pub open spec fn status_of(disabled: bool) -> PluginStatus {
    if disabled {
        PluginStatus::Disabled
    } else {
        PluginStatus::Enabled
    }
}

/// Every plugin declared in a tree named `name`, depth first, each with its
/// own flag (a plugin under a disabled one is listed as it is declared).
pub open spec fn listing(tree: PluginTree, name: Seq<char>) -> Seq<(Seq<char>, PluginStatus)>
    decreases tree, tree.children@.len() + 1,
{
    seq![(name, status_of(tree.disabled))] + listing_children(tree, 0)
}

/// Every plugin declared under the children of `tree` from the `i`th on.
pub open spec fn listing_children(tree: PluginTree, i: int) -> Seq<(Seq<char>, PluginStatus)>
    decreases tree, tree.children@.len() - i,
{
    if 0 <= i < tree.children@.len() {
        listing(tree.children@[i].1, tree.children@[i].0@) + listing_children(tree, i + 1)
    } else {
        Seq::empty()
    }
}

/// The plain values of a listing.
pub open spec fn listed_views(s: Seq<(String, PluginStatus)>) -> Seq<(Seq<char>, PluginStatus)> {
    s.map_values(|e: (String, PluginStatus)| (e.0@, e.1))
}

impl PluginTree {
    /// Every plugin declared under this one, depth first, each with its own
    /// flag.
    pub fn list_children(&self) -> (r: Vec<(String, PluginStatus)>)
        ensures
            listed_views(r@) == listing_children(*self, 0),
        decreases self,
    {
        let mut r: Vec<(String, PluginStatus)> = Vec::new();
        let mut i: usize = 0;
        while i < self.children.len()
            invariant
                i <= self.children@.len(),
                listed_views(r@) + listing_children(*self, i as int) == listing_children(*self, 0),
            decreases self.children@.len() - i,
        {
            let child_name = self.children[i].0.clone();
            let child = &self.children[i].1;
            let status = if child.disabled {
                PluginStatus::Disabled
            } else {
                PluginStatus::Enabled
            };
            let ghost before = r@;
            r.push((child_name, status));
            let mut sub = child.list_children();
            let ghost added = sub@;
            r.append(&mut sub);
            let ghost listed = listing(*child, self.children@[i as int].0@);
            assert(listed_views(r@) =~= listed_views(before) + listed) by {
                assert(r@ =~= before.push((child_name, status)) + added);
                assert(listed_views(before.push((child_name, status)) + added) =~= listed_views(
                    before,
                ) + seq![(child_name@, status)] + listed_views(added));
            }
            i += 1;
        }
        assert(listing_children(*self, i as int) =~= Seq::empty());
        assert(listed_views(r@) =~= listed_views(r@) + Seq::<(Seq<char>, PluginStatus)>::empty());
        r
    }

    /// The plugins this tree stands for, when it is named `name` and sits
    /// under `parent`.
    pub fn plugins(&self, name: String, parent: Option<String>, setup: &Setup) -> (r: Vec<Plugin>)
        ensures
            views(r@) == flatten(*self, name@, opt_string(parent), *setup),
        decreases self,
    {
        if self.disabled {
            assert(views(Seq::<Plugin>::empty()) =~= Seq::empty());
            return Vec::new();
        }
        let ghost parent_view = opt_string(parent);
        let mut r: Vec<Plugin> = Vec::new();
        r.push(Plugin::new(name.clone(), self, parent, setup));
        assert(views(r@) =~= seq![entry(name@, *self, parent_view, *setup)]);
        let mut i: usize = 0;
        while i < self.children.len()
            invariant
                i <= self.children@.len(),
                views(r@) + flatten_children(*self, i as int, name@, *setup) == flatten(
                    *self,
                    name@,
                    parent_view,
                    *setup,
                ),
            decreases self.children@.len() - i,
        {
            let child_name = self.children[i].0.clone();
            let child = &self.children[i].1;
            let mut sub = child.plugins(child_name, Some(name.clone()), setup);
            let ghost before = r@;
            let ghost added = sub@;
            r.append(&mut sub);
            assert(views(r@) =~= views(before) + views(added)) by {
                assert(r@ =~= before + added);
            }
            i += 1;
        }
        assert(flatten_children(*self, i as int, name@, *setup) =~= Seq::empty());
        assert(views(r@) =~= views(r@) + Seq::<PluginView>::empty());
        r
    }
}

} // verus!
