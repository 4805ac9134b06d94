//! What holds of every tree and of every synchronisation.
use vstd::prelude::*;

use crate::plugin::PluginView;
use crate::setup::Setup;
use crate::sync::action_of;
use crate::sync::git_ok;
use crate::sync::missing_path_message;
use crate::sync::plugin_fragment;
use crate::sync::revision;
use crate::sync::runs_git;
use crate::sync::step;
use crate::sync::location_text;
use crate::sync::ActionView;
use crate::sync::ErrorView;
use crate::sync::EventView;
use crate::sync::StageView;
use crate::sync::StatusView;
use crate::tree::flatten;
use crate::tree::flatten_children;
use crate::tree::PluginTree;

verus! {

/// The stage a synchronisation reaches from `stage` through `events`.
pub open spec fn run(p: PluginView, stage: StageView, events: Seq<EventView>) -> StageView
    decreases events.len(),
{
    if events.len() == 0 {
        stage
    } else {
        run(p, step(p, stage, events[0]), events.drop_first())
    }
}

/// The work a synchronisation asks for from `stage` on, one action after
/// each of `events`.
pub open spec fn trace(p: PluginView, stage: StageView, events: Seq<EventView>) -> Seq<ActionView>
    decreases events.len(),
{
    if events.len() == 0 {
        Seq::empty()
    } else {
        let next = step(p, stage, events[0]);
        seq![action_of(p, next)] + trace(p, next, events.drop_first())
    }
}

/// A disabled plugin stands for no plugin to synchronise, whatever is
/// declared under it, enabled or not.
pub proof fn disabled_tree_flattens_to_nothing(
    tree: PluginTree,
    name: Seq<char>,
    parent: Option<Seq<char>>,
    setup: Setup,
)
    requires
        tree.disabled,
    ensures
        flatten(tree, name, parent, setup) == Seq::<PluginView>::empty(),
{
}

/// A disabled child adds nothing to its parent's plugins: the plugins of the
/// children from a disabled one on are those of the children after it.
pub proof fn disabled_child_adds_nothing(tree: PluginTree, i: int, name: Seq<char>, setup: Setup)
    requires
        0 <= i < tree.children@.len(),
        tree.children@[i].1.disabled,
    ensures
        flatten_children(tree, i, name, setup) == flatten_children(tree, i + 1, name, setup),
{
    assert(flatten(tree.children@[i].1, tree.children@[i].0@, Some(name), setup) =~= Seq::empty());
    assert(flatten_children(tree, i, name, setup) =~= flatten_children(tree, i + 1, name, setup));
}

/// A remote plugin whose directory is missing is cloned from `<url>.git`
/// into its directory, and once the clone and the link succeed it is
/// reported `Installed` with its fragment.
pub proof fn missing_remote_is_cloned(p: PluginView, cloned: EventView)
    requires
        p.location is Remote,
        git_ok(cloned) is Some,
    ensures
        step(p, StageView::CheckingPath, EventView::PathChecked(false)) == StageView::Cloning,
        action_of(p, StageView::Cloning) == (ActionView::Clone {
            url: location_text(p.location) + ".git"@,
            path: p.repository_path,
        }),
        action_of(p, step(p, StageView::Cloning, cloned)) == (ActionView::Symlink {
            target: p.repository_path,
            link: p.link_path,
        }),
        step(p, step(p, StageView::Cloning, cloned), EventView::Linked) == (StageView::Done {
            result: Ok(StatusView::Installed { name: p.name, config: plugin_fragment(p) }),
        }),
{
}

/// The stages of a remote plugin whose directory was found: none of them
/// is, or leads to, an installation.
pub open spec fn updating_stage(stage: StageView) -> bool {
    match stage {
        StageView::ReadingOldRevision => true,
        StageView::Pulling { .. } => true,
        StageView::ReadingNewRevision { .. } => true,
        StageView::ReadingLog { .. } => true,
        StageView::Linking { status } => !(status is Installed),
        StageView::Done { result } => !(result is Ok && result->Ok_0 is Installed),
        _ => false,
    }
}

proof fn updating_stage_stays(p: PluginView, stage: StageView, events: Seq<EventView>)
    requires
        updating_stage(stage),
    ensures
        updating_stage(run(p, stage, events)),
    decreases events.len(),
{
    if events.len() > 0 {
        updating_stage_stays(p, step(p, stage, events[0]), events.drop_first());
    }
}

/// Once a remote plugin's directory exists, its synchronisation never
/// reports `Installed` again, whatever git and the filesystem answer: it
/// ends `Unchanged`, `Updated`, or in an error.
pub proof fn existing_remote_never_installed(p: PluginView, events: Seq<EventView>)
    requires
        p.location is Remote,
    ensures
        updating_stage(
            run(p, StageView::CheckingPath, seq![EventView::PathChecked(true)] + events),
        ),
{
    let all = seq![EventView::PathChecked(true)] + events;
    assert(all.drop_first() =~= events);
    updating_stage_stays(p, StageView::ReadingOldRevision, events);
}

/// The stages a local plugin can be in.
pub open spec fn local_stage(stage: StageView) -> bool {
    match stage {
        StageView::CheckingPath => true,
        StageView::Linking { .. } => true,
        StageView::Done { .. } => true,
        _ => false,
    }
}

proof fn local_trace_has_no_git(p: PluginView, stage: StageView, events: Seq<EventView>)
    requires
        p.location is Local,
        local_stage(stage),
    ensures
        forall|k: int|
            0 <= k < trace(p, stage, events).len() ==> !runs_git(
                #[trigger] trace(p, stage, events)[k],
            ),
    decreases events.len(),
{
    if events.len() > 0 {
        let next = step(p, stage, events[0]);
        local_trace_has_no_git(p, next, events.drop_first());
        let rest = trace(p, next, events.drop_first());
        assert(trace(p, stage, events) == seq![action_of(p, next)] + rest);
        assert forall|k: int| 0 <= k < trace(p, stage, events).len() implies !runs_git(
            #[trigger] trace(p, stage, events)[k],
        ) by {
            if k > 0 {
                assert(trace(p, stage, events)[k] == rest[k - 1]);
            }
        }
    }
}

/// A local plugin never runs git: whatever happens, each action its
/// synchronisation asks for is a path check, a link, or the end.
pub proof fn local_never_runs_git(p: PluginView, events: Seq<EventView>)
    requires
        p.location is Local,
    ensures
        !runs_git(action_of(p, StageView::CheckingPath)),
        forall|k: int|
            0 <= k < trace(p, StageView::CheckingPath, events).len() ==> !runs_git(
                #[trigger] trace(p, StageView::CheckingPath, events)[k],
            ),
{
    local_trace_has_no_git(p, StageView::CheckingPath, events);
}

/// A local plugin whose directory is missing fails to link, with a message
/// that names the directory.
pub proof fn missing_local_fails(p: PluginView)
    requires
        p.location is Local,
    ensures
        ({
            let path = location_text(p.location);
            let message = missing_path_message(path);
            let failed = StageView::Done { result: Err(ErrorView::Link(p.name, message)) };
            &&& step(p, StageView::CheckingPath, EventView::PathChecked(false)) == failed
            &&& message.subrange(9, 9 + path.len() as int) == path
        }),
{
    let path = location_text(p.location);
    reveal_strlit("the path ");
    reveal_strlit(" is empty");
    assert(missing_path_message(path).subrange(9, 9 + path.len() as int) =~= path);
}

/// With nothing new upstream, synchronising a remote plugin whose directory
/// exists succeeds with `Unchanged`: when the revision read before the pull
/// is the one read after it, no log is read, the link is made again, and
/// the result is `Unchanged` with the plugin's fragment.
pub proof fn no_upstream_change_is_unchanged(
    p: PluginView,
    before: EventView,
    pulled: EventView,
    after: EventView,
)
    requires
        p.location is Remote,
        git_ok(before) is Some,
        git_ok(pulled) is Some,
        git_ok(after) is Some,
        revision(git_ok(before)->0) == revision(git_ok(after)->0),
    ensures
        ({
            let events = seq![
                EventView::PathChecked(true),
                before,
                pulled,
                after,
                EventView::Linked,
            ];
            &&& run(p, StageView::CheckingPath, events) == (StageView::Done {
                result: Ok(StatusView::Unchanged { name: p.name, config: plugin_fragment(p) }),
            })
            &&& trace(p, StageView::CheckingPath, events) == seq![
                ActionView::RevParse { dir: p.repository_path },
                ActionView::Pull { dir: p.repository_path },
                ActionView::RevParse { dir: p.repository_path },
                ActionView::Symlink { target: p.repository_path, link: p.link_path },
                ActionView::Finish,
            ]
        }),
{
    let events = seq![EventView::PathChecked(true), before, pulled, after, EventView::Linked];
    let e1 = events.drop_first();
    let e2 = e1.drop_first();
    let e3 = e2.drop_first();
    let e4 = e3.drop_first();
    let e5 = e4.drop_first();
    assert(e1 =~= seq![before, pulled, after, EventView::Linked]);
    assert(e2 =~= seq![pulled, after, EventView::Linked]);
    assert(e3 =~= seq![after, EventView::Linked]);
    assert(e4 =~= seq![EventView::Linked]);
    assert(e5 =~= Seq::<EventView>::empty());
    let s1 = step(p, StageView::CheckingPath, events[0]);
    let s2 = step(p, s1, e1[0]);
    let s3 = step(p, s2, e2[0]);
    let s4 = step(p, s3, e3[0]);
    let s5 = step(p, s4, e4[0]);
    assert(s4 == StageView::Linking {
        status: StatusView::Unchanged { name: p.name, config: plugin_fragment(p) },
    });
    assert(run(p, s5, e5) == s5);
    assert(run(p, s4, e4) == s5);
    assert(run(p, s3, e3) == s5);
    assert(run(p, s2, e2) == s5);
    assert(run(p, s1, e1) == s5);
    assert(trace(p, s5, e5) =~= Seq::empty());
    assert(trace(p, s4, e4) =~= seq![action_of(p, s5)]);
    assert(trace(p, s3, e3) =~= seq![action_of(p, s4), action_of(p, s5)]);
    assert(trace(p, s2, e2) =~= seq![action_of(p, s3), action_of(p, s4), action_of(p, s5)]);
    assert(trace(p, s1, e1) =~= seq![
        action_of(p, s2),
        action_of(p, s3),
        action_of(p, s4),
        action_of(p, s5),
    ]);
    assert(trace(p, StageView::CheckingPath, events) =~= seq![
        action_of(p, s1),
        action_of(p, s2),
        action_of(p, s3),
        action_of(p, s4),
        action_of(p, s5),
    ]);
}

/// When the revision read after the pull differs from the one read before
/// it, the log between the two is read, oldest first, and once the link is
/// made the plugin is reported `Updated` with that log.
pub proof fn new_revision_is_updated(
    p: PluginView,
    before: EventView,
    pulled: EventView,
    after: EventView,
    logged: EventView,
)
    requires
        p.location is Remote,
        git_ok(before) is Some,
        git_ok(pulled) is Some,
        git_ok(after) is Some,
        git_ok(logged) is Some,
        revision(git_ok(before)->0) != revision(git_ok(after)->0),
    ensures
        ({
            let old = revision(git_ok(before)->0);
            let new = revision(git_ok(after)->0);
            let events = seq![
                EventView::PathChecked(true),
                before,
                pulled,
                after,
                logged,
                EventView::Linked,
            ];
            let updated = StatusView::Updated {
                name: p.name,
                log: git_ok(logged)->0,
                config: plugin_fragment(p),
            };
            &&& run(p, StageView::CheckingPath, events) == (StageView::Done { result: Ok(updated) })
            &&& trace(p, StageView::CheckingPath, events)[3] == (ActionView::Log {
                dir: p.repository_path,
                range: old + ".."@ + new,
            })
        }),
{
    let events = seq![
        EventView::PathChecked(true),
        before,
        pulled,
        after,
        logged,
        EventView::Linked,
    ];
    let e1 = events.drop_first();
    let e2 = e1.drop_first();
    let e3 = e2.drop_first();
    let e4 = e3.drop_first();
    let e5 = e4.drop_first();
    let e6 = e5.drop_first();
    assert(e1 =~= seq![before, pulled, after, logged, EventView::Linked]);
    assert(e2 =~= seq![pulled, after, logged, EventView::Linked]);
    assert(e3 =~= seq![after, logged, EventView::Linked]);
    assert(e4 =~= seq![logged, EventView::Linked]);
    assert(e5 =~= seq![EventView::Linked]);
    assert(e6 =~= Seq::<EventView>::empty());
    let s1 = step(p, StageView::CheckingPath, events[0]);
    let s2 = step(p, s1, e1[0]);
    let s3 = step(p, s2, e2[0]);
    let s4 = step(p, s3, e3[0]);
    let s5 = step(p, s4, e4[0]);
    let s6 = step(p, s5, e5[0]);
    assert(run(p, s6, e6) == s6);
    assert(run(p, s5, e5) == s6);
    assert(run(p, s4, e4) == s6);
    assert(run(p, s3, e3) == s6);
    assert(run(p, s2, e2) == s6);
    assert(run(p, s1, e1) == s6);
    assert(trace(p, s3, e3)[0] == action_of(p, s4));
    assert(trace(p, s2, e2)[1] == trace(p, s3, e3)[0]);
    assert(trace(p, s1, e1)[2] == trace(p, s2, e2)[1]);
    assert(trace(p, StageView::CheckingPath, events)[3] == trace(p, s1, e1)[2]);
}

} // verus!
