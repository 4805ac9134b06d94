//! The synchronisation of one plugin, as a state machine.
//!
//! The machine decides; whoever drives it performs the work it asks for (a
//! filesystem check, a git command, a symbolic link) and reports back what
//! happened. A local plugin is only checked and linked. A remote one is cloned
//! when its directory is missing, and pulled otherwise, with the revisions
//! before and after the pull compared to tell an update from no change.
use vstd::prelude::*;

use crate::plugin::fragment;
use crate::plugin::LocationView;
use crate::plugin::Location;
use crate::plugin::Plugin;
use crate::plugin::PluginView;
use crate::text::decimal;
use crate::text::decimal_string;

verus! {

/// The outcome of a successful synchronisation, with the plugin's
/// configuration fragment.
#[derive(Debug, PartialEq, Eq)]
pub enum Status {
    /// The repository was cloned.
    Installed { name: String, config: String },
    /// A pull brought new commits, listed in `log`, oldest first.
    Updated { name: String, log: String, config: String },
    /// A pull brought nothing new.
    Unchanged { name: String, config: String },
    /// The plugin's code lives in a local directory.
    Local { name: String, config: String },
}

/// The plain value of a [`Status`].
pub enum StatusView {
    Installed { name: Seq<char>, config: Seq<char> },
    Updated { name: Seq<char>, log: Seq<char>, config: Seq<char> },
    Unchanged { name: Seq<char>, config: Seq<char> },
    Local { name: Seq<char>, config: Seq<char> },
}

impl View for Status {
    type V = StatusView;

    open spec fn view(&self) -> StatusView {
        match self {
            Status::Installed { name, config } => StatusView::Installed {
                name: name@,
                config: config@,
            },
            Status::Updated { name, log, config } => StatusView::Updated {
                name: name@,
                log: log@,
                config: config@,
            },
            Status::Unchanged { name, config } => StatusView::Unchanged {
                name: name@,
                config: config@,
            },
            Status::Local { name, config } => StatusView::Local { name: name@, config: config@ },
        }
    }
}

/// Why a plugin could not be synchronised: the plugin's name and a message.
#[derive(Debug, PartialEq, Eq)]
pub enum PluginError {
    /// The repository could not be cloned.
    Clone(String, String),
    /// The repository could not be updated: the pull, or reading a revision
    /// or the log, failed.
    Pull(String, String),
    /// The plugin could not be linked into the autoload directory, or its
    /// local directory is missing.
    Link(String, String),
}

/// The plain value of a [`PluginError`].
pub enum ErrorView {
    Clone(Seq<char>, Seq<char>),
    Pull(Seq<char>, Seq<char>),
    Link(Seq<char>, Seq<char>),
}

impl View for PluginError {
    type V = ErrorView;

    open spec fn view(&self) -> ErrorView {
        match self {
            PluginError::Clone(n, m) => ErrorView::Clone(n@, m@),
            PluginError::Pull(n, m) => ErrorView::Pull(n@, m@),
            PluginError::Link(n, m) => ErrorView::Link(n@, m@),
        }
    }
}

/// The name of the plugin an error is about.
pub open spec fn error_plugin(e: ErrorView) -> Seq<char> {
    match e {
        ErrorView::Clone(n, _) => n,
        ErrorView::Pull(n, _) => n,
        ErrorView::Link(n, _) => n,
    }
}

impl PluginError {
    /// The name of the plugin that failed.
    pub fn plugin(&self) -> (r: &str)
        ensures
            r@ == error_plugin(self@),
    {
        match self {
            PluginError::Clone(name, _) => name.as_str(),
            PluginError::Pull(name, _) => name.as_str(),
            PluginError::Link(name, _) => name.as_str(),
        }
    }
}

/// What happened to the work the machine last asked for.
#[derive(Debug, PartialEq, Eq)]
pub enum Event {
    /// The repository path exists, or not.
    PathChecked(bool),
    /// A git command ran to its end: its exit code (`None` when a signal
    /// ended it), and what it wrote to its standard output and error.
    GitExited { code: Option<i32>, stdout: String, stderr: String },
    /// A git command could not be run: the error's text.
    GitUnavailable(String),
    /// The symbolic link was made.
    Linked,
    /// The symbolic link could not be made: the error's text.
    LinkFailed(String),
}

/// The plain value of an [`Event`].
pub enum EventView {
    PathChecked(bool),
    GitExited { code: Option<i32>, stdout: Seq<char>, stderr: Seq<char> },
    GitUnavailable(Seq<char>),
    Linked,
    LinkFailed(Seq<char>),
}

impl View for Event {
    type V = EventView;

    open spec fn view(&self) -> EventView {
        match self {
            Event::PathChecked(b) => EventView::PathChecked(*b),
            Event::GitExited { code, stdout, stderr } => EventView::GitExited {
                code: *code,
                stdout: stdout@,
                stderr: stderr@,
            },
            Event::GitUnavailable(m) => EventView::GitUnavailable(m@),
            Event::Linked => EventView::Linked,
            Event::LinkFailed(m) => EventView::LinkFailed(m@),
        }
    }
}

/// The work the machine asks for next.
#[derive(Debug, PartialEq, Eq)]
pub enum Action {
    /// Tell whether `path` exists.
    CheckPath { path: String },
    /// Run `git clone <url> <path>`.
    Clone { url: String, path: String },
    /// Run `git rev-parse HEAD` in `dir`.
    RevParse { dir: String },
    /// Run `git pull` in `dir`.
    Pull { dir: String },
    /// Run `git log <range> --oneline --no-decorate --reverse` in `dir`.
    Log { dir: String, range: String },
    /// Make a symbolic link at `link` pointing to `target`.
    Symlink { target: String, link: String },
    /// Nothing is left to do: the result is ready.
    Finish,
}

/// The plain value of an [`Action`].
pub enum ActionView {
    CheckPath { path: Seq<char> },
    Clone { url: Seq<char>, path: Seq<char> },
    RevParse { dir: Seq<char> },
    Pull { dir: Seq<char> },
    Log { dir: Seq<char>, range: Seq<char> },
    Symlink { target: Seq<char>, link: Seq<char> },
    Finish,
}

impl View for Action {
    type V = ActionView;

    open spec fn view(&self) -> ActionView {
        match self {
            Action::CheckPath { path } => ActionView::CheckPath { path: path@ },
            Action::Clone { url, path } => ActionView::Clone { url: url@, path: path@ },
            Action::RevParse { dir } => ActionView::RevParse { dir: dir@ },
            Action::Pull { dir } => ActionView::Pull { dir: dir@ },
            Action::Log { dir, range } => ActionView::Log { dir: dir@, range: range@ },
            Action::Symlink { target, link } => ActionView::Symlink {
                target: target@,
                link: link@,
            },
            Action::Finish => ActionView::Finish,
        }
    }
}

/// Whether an action runs git.
pub open spec fn runs_git(a: ActionView) -> bool {
    match a {
        ActionView::Clone { .. } => true,
        ActionView::RevParse { .. } => true,
        ActionView::Pull { .. } => true,
        ActionView::Log { .. } => true,
        _ => false,
    }
}

/// The plain value of a synchronisation's result.
pub open spec fn result_view(r: Result<Status, PluginError>) -> Result<StatusView, ErrorView> {
    match r {
        Ok(s) => Ok(s@),
        Err(e) => Err(e@),
    }
}

/// Where a synchronisation stands.
#[derive(Debug, PartialEq, Eq)]
pub enum Stage {
    /// Waiting to learn whether the repository path exists.
    CheckingPath,
    /// Waiting for the clone.
    Cloning,
    /// Waiting for the revision before the pull.
    ReadingOldRevision,
    /// Waiting for the pull; `old` is the revision before it.
    Pulling { old: String },
    /// Waiting for the revision after the pull.
    ReadingNewRevision { old: String },
    /// Waiting for the log of the commits between two revisions.
    ReadingLog { old: String, new: String },
    /// Waiting for the symbolic link; `status` is the outcome once it is made.
    Linking { status: Status },
    /// Finished, with this result.
    Done { result: Result<Status, PluginError> },
}

/// The plain value of a [`Stage`].
pub enum StageView {
    CheckingPath,
    Cloning,
    ReadingOldRevision,
    Pulling { old: Seq<char> },
    ReadingNewRevision { old: Seq<char> },
    ReadingLog { old: Seq<char>, new: Seq<char> },
    Linking { status: StatusView },
    Done { result: Result<StatusView, ErrorView> },
}

impl View for Stage {
    type V = StageView;

    open spec fn view(&self) -> StageView {
        match self {
            Stage::CheckingPath => StageView::CheckingPath,
            Stage::Cloning => StageView::Cloning,
            Stage::ReadingOldRevision => StageView::ReadingOldRevision,
            Stage::Pulling { old } => StageView::Pulling { old: old@ },
            Stage::ReadingNewRevision { old } => StageView::ReadingNewRevision { old: old@ },
            Stage::ReadingLog { old, new } => StageView::ReadingLog { old: old@, new: new@ },
            Stage::Linking { status } => StageView::Linking { status: status@ },
            Stage::Done { result } => StageView::Done { result: result_view(*result) },
        }
    }
}

/// The text of a location, whatever its kind.
pub open spec fn location_text(l: LocationView) -> Seq<char> {
    match l {
        LocationView::Remote(u) => u,
        LocationView::Local(p) => p,
    }
}

/// The fragment of a plugin.
pub open spec fn plugin_fragment(p: PluginView) -> Seq<char> {
    fragment(p.name, p.parent, p.has_children, p.config)
}

/// A git command succeeded: it exited with code 0, or a signal ended it.
pub open spec fn git_succeeded(code: Option<i32>) -> bool {
    match code {
        Some(c) => c == 0,
        None => true,
    }
}

/// The message of a git command that exited with `code`.
pub open spec fn exit_message(code: int, stderr: Seq<char>) -> Seq<char> {
    "git exited with status "@ + decimal(code) + ": "@ + stderr
}

/// The revision `git rev-parse` printed: its output without the final newline.
pub open spec fn revision(stdout: Seq<char>) -> Seq<char> {
    if stdout.len() > 0 {
        stdout.drop_last()
    } else {
        stdout
    }
}

/// The message of a local plugin whose directory is missing.
pub open spec fn missing_path_message(path: Seq<char>) -> Seq<char> {
    "the path "@ + path + " is empty"@
}

/// The message a failed git command is reported with.
pub open spec fn failure_message(e: EventView) -> Seq<char> {
    match e {
        EventView::GitExited { code, stderr, .. } => match code {
            Some(c) => exit_message(c as int, stderr),
            None => Seq::empty(),
        },
        EventView::GitUnavailable(m) => m,
        _ => Seq::empty(),
    }
}

/// The event reports a git command that succeeded, with this output.
pub open spec fn git_ok(e: EventView) -> Option<Seq<char>> {
    match e {
        EventView::GitExited { code, stdout, .. } => if git_succeeded(code) {
            Some(stdout)
        } else {
            None
        },
        _ => None,
    }
}

/// The event reports a git command that failed.
pub open spec fn git_failed(e: EventView) -> bool {
    match e {
        EventView::GitExited { code, .. } => !git_succeeded(code),
        EventView::GitUnavailable(_) => true,
        _ => false,
    }
}

/// The stage after `event` in stage `stage` of plugin `p`. An event that
/// does not answer the stage's work changes nothing.
pub open spec fn step(p: PluginView, stage: StageView, event: EventView) -> StageView {
    let name = p.name;
    let config = plugin_fragment(p);
    match stage {
        StageView::CheckingPath => match event {
            EventView::PathChecked(exists) => match p.location {
                LocationView::Local(path) => if exists {
                    StageView::Linking { status: StatusView::Local { name, config } }
                } else {
                    StageView::Done {
                        result: Err(ErrorView::Link(name, missing_path_message(path))),
                    }
                },
                LocationView::Remote(_) => if exists {
                    StageView::ReadingOldRevision
                } else {
                    StageView::Cloning
                },
            },
            _ => stage,
        },
        StageView::Cloning => if git_ok(event) is Some {
            StageView::Linking { status: StatusView::Installed { name, config } }
        } else if git_failed(event) {
            StageView::Done { result: Err(ErrorView::Clone(name, failure_message(event))) }
        } else {
            stage
        },
        StageView::ReadingOldRevision => if git_ok(event) is Some {
            StageView::Pulling { old: revision(git_ok(event)->0) }
        } else if git_failed(event) {
            StageView::Done { result: Err(ErrorView::Pull(name, failure_message(event))) }
        } else {
            stage
        },
        StageView::Pulling { old } => if git_ok(event) is Some {
            StageView::ReadingNewRevision { old }
        } else if git_failed(event) {
            StageView::Done { result: Err(ErrorView::Pull(name, failure_message(event))) }
        } else {
            stage
        },
        StageView::ReadingNewRevision { old } => if git_ok(event) is Some {
            let new = revision(git_ok(event)->0);
            if new == old {
                StageView::Linking { status: StatusView::Unchanged { name, config } }
            } else {
                StageView::ReadingLog { old, new }
            }
        } else if git_failed(event) {
            StageView::Done { result: Err(ErrorView::Pull(name, failure_message(event))) }
        } else {
            stage
        },
        StageView::ReadingLog { .. } => if git_ok(event) is Some {
            StageView::Linking {
                status: StatusView::Updated { name, log: git_ok(event)->0, config },
            }
        } else if git_failed(event) {
            StageView::Done { result: Err(ErrorView::Pull(name, failure_message(event))) }
        } else {
            stage
        },
        StageView::Linking { status } => match event {
            EventView::Linked => StageView::Done { result: Ok(status) },
            EventView::LinkFailed(m) => StageView::Done {
                result: Err(ErrorView::Link(name, m + ": "@ + p.link_path)),
            },
            _ => stage,
        },
        StageView::Done { .. } => stage,
    }
}

/// The work a stage waits for.
pub open spec fn action_of(p: PluginView, stage: StageView) -> ActionView {
    match stage {
        StageView::CheckingPath => ActionView::CheckPath { path: p.repository_path },
        StageView::Cloning => ActionView::Clone {
            url: location_text(p.location) + ".git"@,
            path: p.repository_path,
        },
        StageView::ReadingOldRevision => ActionView::RevParse { dir: p.repository_path },
        StageView::Pulling { .. } => ActionView::Pull { dir: p.repository_path },
        StageView::ReadingNewRevision { .. } => ActionView::RevParse { dir: p.repository_path },
        StageView::ReadingLog { old, new } => ActionView::Log {
            dir: p.repository_path,
            range: old + ".."@ + new,
        },
        StageView::Linking { .. } => ActionView::Symlink {
            target: p.repository_path,
            link: p.link_path,
        },
        StageView::Done { .. } => ActionView::Finish,
    }
}

/// A git command's answer, sorted.
enum GitReply {
    Succeeded(String),
    Failed(String),
    Unrelated,
}

fn git_reply(event: Event) -> (r: GitReply)
    ensures
        match r {
            GitReply::Succeeded(out) => git_ok(event@) == Some(out@),
            GitReply::Failed(m) => git_ok(event@) is None && git_failed(event@) && m@
                == failure_message(event@),
            GitReply::Unrelated => git_ok(event@) is None && !git_failed(event@),
        },
{
    match event {
        Event::GitExited { code, stdout, stderr } => match code {
            Some(c) => if c == 0 {
                GitReply::Succeeded(stdout)
            } else {
                GitReply::Failed(exit_message_string(c, stderr.as_str()))
            },
            None => GitReply::Succeeded(stdout),
        },
        Event::GitUnavailable(m) => GitReply::Failed(m),
        _ => GitReply::Unrelated,
    }
}

fn exit_message_string(code: i32, stderr: &str) -> (r: String)
    ensures
        r@ == exit_message(code as int, stderr@),
{
    let mut r = "git exited with status ".to_owned();
    let d = decimal_string(code);
    r.append(d.as_str());
    r.append(": ");
    r.append(stderr);
    r
}

fn revision_string(stdout: &str) -> (r: String)
    ensures
        r@ == revision(stdout@),
{
    let n = stdout.unicode_len();
    if n > 0 {
        let r = stdout.substring_char(0, n - 1).to_owned();
        assert(r@ =~= stdout@.drop_last());
        r
    } else {
        stdout.to_owned()
    }
}

fn missing_path_string(path: &str) -> (r: String)
    ensures
        r@ == missing_path_message(path@),
{
    let mut r = "the path ".to_owned();
    r.append(path);
    r.append(" is empty");
    r
}

/// The synchronisation of one plugin: the plugin and where its work stands.
#[derive(Debug, PartialEq, Eq)]
pub struct Update {
    pub plugin: Plugin,
    pub stage: Stage,
}

impl Plugin {
    /// Begins the synchronisation of this plugin. The returned machine asks,
    /// through [`Update::action`] and [`Update::advance`], for the work that
    /// brings the plugin's directory and link up to date, and ends with the
    /// plugin's status or the error that stopped it.
    pub fn update(self) -> (r: Update)
        ensures
            r.plugin == self,
            r.stage@ == StageView::CheckingPath,
    {
        Update { plugin: self, stage: Stage::CheckingPath }
    }
}

impl Update {

    /// The work the synchronisation waits for.
    pub fn action(&self) -> (a: Action)
        ensures
            a@ == action_of(self.plugin@, self.stage@),
    {
        let p = &self.plugin;
        match &self.stage {
            Stage::CheckingPath => Action::CheckPath { path: p.repository_path.clone() },
            Stage::Cloning => {
                let mut url = match &p.location {
                    Location::Remote(u) => u.clone(),
                    Location::Local(l) => l.clone(),
                };
                url.append(".git");
                Action::Clone { url, path: p.repository_path.clone() }
            },
            Stage::ReadingOldRevision => Action::RevParse { dir: p.repository_path.clone() },
            Stage::Pulling { .. } => Action::Pull { dir: p.repository_path.clone() },
            Stage::ReadingNewRevision { .. } => Action::RevParse {
                dir: p.repository_path.clone(),
            },
            Stage::ReadingLog { old, new } => {
                let mut range = old.clone();
                range.append("..");
                range.append(new.as_str());
                Action::Log { dir: p.repository_path.clone(), range }
            },
            Stage::Linking { .. } => Action::Symlink {
                target: p.repository_path.clone(),
                link: p.link_path.clone(),
            },
            Stage::Done { .. } => Action::Finish,
        }
    }

    /// Takes in what happened to the work asked for, and returns the work
    /// to do next.
    pub fn advance(&mut self, event: Event) -> (a: Action)
        ensures
            final(self).plugin == old(self).plugin,
            final(self).stage@ == step(old(self).plugin@, old(self).stage@, event@),
            a@ == action_of(final(self).plugin@, final(self).stage@),
    {
        let mut stage = Stage::CheckingPath;
        std::mem::swap(&mut self.stage, &mut stage);
        let next = self.next_stage(stage, event);
        self.stage = next;
        self.action()
    }

    fn next_stage(&self, stage: Stage, event: Event) -> (r: Stage)
        ensures
            r@ == step(self.plugin@, stage@, event@),
    {
        let p = &self.plugin;
        match stage {
            Stage::CheckingPath => match event {
                Event::PathChecked(exists) => match &p.location {
                    Location::Local(path) => if exists {
                        Stage::Linking {
                            status: Status::Local { name: p.name.clone(), config: p.config() },
                        }
                    } else {
                        let message = missing_path_string(path.as_str());
                        Stage::Done { result: Err(PluginError::Link(p.name.clone(), message)) }
                    },
                    Location::Remote(_) => if exists {
                        Stage::ReadingOldRevision
                    } else {
                        Stage::Cloning
                    },
                },
                _ => Stage::CheckingPath,
            },
            Stage::Cloning => match git_reply(event) {
                GitReply::Succeeded(_) => Stage::Linking {
                    status: Status::Installed { name: p.name.clone(), config: p.config() },
                },
                GitReply::Failed(m) => Stage::Done {
                    result: Err(PluginError::Clone(p.name.clone(), m)),
                },
                GitReply::Unrelated => Stage::Cloning,
            },
            Stage::ReadingOldRevision => match git_reply(event) {
                GitReply::Succeeded(out) => Stage::Pulling { old: revision_string(out.as_str()) },
                GitReply::Failed(m) => Stage::Done {
                    result: Err(PluginError::Pull(p.name.clone(), m)),
                },
                GitReply::Unrelated => Stage::ReadingOldRevision,
            },
            Stage::Pulling { old } => match git_reply(event) {
                GitReply::Succeeded(_) => Stage::ReadingNewRevision { old },
                GitReply::Failed(m) => Stage::Done {
                    result: Err(PluginError::Pull(p.name.clone(), m)),
                },
                GitReply::Unrelated => Stage::Pulling { old },
            },
            Stage::ReadingNewRevision { old } => match git_reply(event) {
                GitReply::Succeeded(out) => {
                    let new = revision_string(out.as_str());
                    if new == old {
                        Stage::Linking {
                            status: Status::Unchanged { name: p.name.clone(), config: p.config() },
                        }
                    } else {
                        Stage::ReadingLog { old, new }
                    }
                },
                GitReply::Failed(m) => Stage::Done {
                    result: Err(PluginError::Pull(p.name.clone(), m)),
                },
                GitReply::Unrelated => Stage::ReadingNewRevision { old },
            },
            Stage::ReadingLog { old, new } => match git_reply(event) {
                GitReply::Succeeded(log) => Stage::Linking {
                    status: Status::Updated { name: p.name.clone(), log, config: p.config() },
                },
                GitReply::Failed(m) => Stage::Done {
                    result: Err(PluginError::Pull(p.name.clone(), m)),
                },
                GitReply::Unrelated => Stage::ReadingLog { old, new },
            },
            Stage::Linking { status } => match event {
                Event::Linked => Stage::Done { result: Ok(status) },
                Event::LinkFailed(m) => {
                    let mut message = m;
                    message.append(": ");
                    message.append(p.link_path.as_str());
                    Stage::Done { result: Err(PluginError::Link(p.name.clone(), message)) }
                },
                _ => Stage::Linking { status },
            },
            Stage::Done { result } => Stage::Done { result },
        }
    }

    /// The result of the synchronisation, once it is done.
    pub fn into_result(self) -> (r: Option<Result<Status, PluginError>>)
        ensures
            match self.stage@ {
                StageView::Done { result } => r is Some && result_view(r->0) == result,
                _ => r is None,
            },
    {
        match self.stage {
            Stage::Done { result } => Some(result),
            _ => None,
        }
    }
}

} // verus!
