//! The generated `almoxarife.kak` and the summary of a run.
use vstd::prelude::*;
use vstd::utf8::encode_utf8;

use crate::sync::ErrorView;
use crate::sync::PluginError;
use crate::sync::Status;
use crate::sync::StatusView;

verus! {

/// What `almoxarife.kak` opens with: highlighting for `almoxarife.yaml`, and a
/// hook that waits for the end marker before the managed block counts as
/// loaded.
pub const PRELUDE: &'static str = r"hook global KakBegin .* %🧺
add-highlighter shared/almoxarife regions
add-highlighter shared/almoxarife/ region '^\s*config:\s+\|' '^\s*\w+:' ref kakrc
add-highlighter shared/almoxarife/ region '^\s*config:[^\n]' '\n' ref kakrc
hook -group almoxarife global WinCreate .*almoxarife[.]yaml %{
    add-highlighter window/almoxarife ref almoxarife
    hook -once -always window WinClose .* %{ remove-highlighter window/almoxarife }
}
";

/// What `almoxarife.kak` closes with: the marker the prelude's hook waits for.
pub const TERMINATOR: &'static str = "🧺";

/// The contents of `almoxarife.kak`, as they are written.
#[derive(Debug, PartialEq, Eq)]
pub struct Kak {
    pub buffer: Vec<u8>,
}

impl View for Kak {
    type V = Seq<u8>;

    open spec fn view(&self) -> Seq<u8> {
        self.buffer@
    }
}

impl Kak {
    /// An empty file.
    pub fn with_buffer() -> (r: Kak)
        ensures
            r@ == Seq::<u8>::empty(),
    {
        Kak { buffer: Vec::new() }
    }

    /// What has been written so far.
    pub fn bytes(&self) -> (r: &[u8])
        ensures
            r@ == self@,
    {
        self.buffer.as_slice()
    }

    /// Writes the prelude.
    pub fn write_prelude(&mut self)
        ensures
            final(self)@ == old(self)@ + encode_utf8(PRELUDE@),
    {
        self.write(PRELUDE.as_bytes());
    }

    /// Writes `data`.
    pub fn write(&mut self, data: &[u8])
        ensures
            final(self)@ == old(self)@ + data@,
    {
        let mut i: usize = 0;
        while i < data.len()
            invariant
                i <= data@.len(),
                self@ == old(self)@ + data@.subrange(0, i as int),
            decreases data@.len() - i,
        {
            self.buffer.push(data[i]);
            i += 1;
            assert(self@ =~= old(self)@ + data@.subrange(0, i as int));
        }
        assert(data@.subrange(0, i as int) =~= data@);
    }

    /// Writes the end marker.
    pub fn close(&mut self)
        ensures
            final(self)@ == old(self)@ + encode_utf8(TERMINATOR@),
    {
        self.write(TERMINATOR.as_bytes());
    }
}

/// The fragment a status carries.
pub open spec fn status_config(s: StatusView) -> Seq<char> {
    match s {
        StatusView::Installed { config, .. } => config,
        StatusView::Updated { config, .. } => config,
        StatusView::Unchanged { config, .. } => config,
        StatusView::Local { config, .. } => config,
    }
}

/// The line that reports an error.
pub open spec fn error_line(e: ErrorView) -> Seq<char> {
    match e {
        ErrorView::Clone(n, m) => n + ": could not clone: "@ + m,
        ErrorView::Pull(n, m) => n + ": could not update: "@ + m,
        ErrorView::Link(n, m) => n + ": could not activate: "@ + m,
    }
}

/// The lines of `errors`, each on a line of its own with an indent of two.
pub open spec fn error_block(errors: Seq<ErrorView>) -> Seq<char>
    decreases errors.len(),
{
    if errors.len() == 0 {
        Seq::empty()
    } else {
        error_block(errors.drop_last()) + "\n  "@ + error_line(errors.last())
    }
}

/// The plain values of some strings.
pub open spec fn string_views(s: Seq<String>) -> Seq<Seq<char>> {
    s.map_values(|x: String| x@)
}

/// The plain values of some errors.
pub open spec fn error_views(s: Seq<PluginError>) -> Seq<ErrorView> {
    s.map_values(|e: PluginError| e@)
}

/// The plain values of some (name, log) pairs.
pub open spec fn change_views(s: Seq<(String, String)>) -> Seq<(Seq<char>, Seq<char>)> {
    s.map_values(|c: (String, String)| (c.0@, c.1@))
}

impl PluginError {
    /// The line that reports this error: the plugin's name, what could not
    /// be done, and the message.
    pub fn describe(&self) -> (r: String)
        ensures
            r@ == error_line(self@),
    {
        match self {
            PluginError::Clone(n, m) => {
                let mut r = n.clone();
                r.append(": could not clone: ");
                r.append(m.as_str());
                r
            },
            PluginError::Pull(n, m) => {
                let mut r = n.clone();
                r.append(": could not update: ");
                r.append(m.as_str());
                r
            },
            PluginError::Link(n, m) => {
                let mut r = n.clone();
                r.append(": could not activate: ");
                r.append(m.as_str());
                r
            },
        }
    }
}

/// The results of a run, taken in one by one as the plugins finish: each
/// successful plugin's fragment goes into the generated file, and each
/// outcome is filed by kind.
#[derive(Debug, PartialEq, Eq)]
pub struct Report {
    /// The generated file.
    pub kak: Kak,
    /// The plugins that were cloned.
    pub installed: Vec<String>,
    /// The plugins that a pull left as they were.
    pub unchanged: Vec<String>,
    /// The local plugins.
    pub local: Vec<String>,
    /// The plugins that a pull updated, each with its log, in the order they
    /// finished.
    pub changes: Vec<(String, String)>,
    /// The failures, in the order they came.
    pub errors: Vec<PluginError>,
}

impl Report {
    /// A report with nothing in it yet, writing into `kak`.
    pub fn new(kak: Kak) -> (r: Report)
        ensures
            r.kak == kak,
            r.installed@.len() == 0,
            r.unchanged@.len() == 0,
            r.local@.len() == 0,
            r.changes@.len() == 0,
            r.errors@.len() == 0,
    {
        Report {
            kak,
            installed: Vec::new(),
            unchanged: Vec::new(),
            local: Vec::new(),
            changes: Vec::new(),
            errors: Vec::new(),
        }
    }

    /// Takes in the result of one plugin: a success writes its fragment and
    /// files its name (or, for an update, its name and log) under its kind;
    /// a failure is kept with the others.
    pub fn record(&mut self, result: Result<Status, PluginError>)
        ensures
            match result {
                Ok(status) => {
                    &&& final(self).kak@ == old(self).kak@ + encode_utf8(status_config(status@))
                    &&& final(self).errors == old(self).errors
                    &&& string_views(final(self).installed@) == match status@ {
                        StatusView::Installed { name, .. } => string_views(
                            old(self).installed@,
                        ).push(name),
                        _ => string_views(old(self).installed@),
                    }
                    &&& string_views(final(self).unchanged@) == match status@ {
                        StatusView::Unchanged { name, .. } => string_views(
                            old(self).unchanged@,
                        ).push(name),
                        _ => string_views(old(self).unchanged@),
                    }
                    &&& string_views(final(self).local@) == match status@ {
                        StatusView::Local { name, .. } => string_views(old(self).local@).push(name),
                        _ => string_views(old(self).local@),
                    }
                    &&& change_views(final(self).changes@) == match status@ {
                        StatusView::Updated { name, log, .. } => change_views(
                            old(self).changes@,
                        ).push((name, log)),
                        _ => change_views(old(self).changes@),
                    }
                },
                Err(e) => {
                    &&& final(self).kak == old(self).kak
                    &&& error_views(final(self).errors@) == error_views(old(self).errors@).push(e@)
                    &&& final(self).installed == old(self).installed
                    &&& final(self).unchanged == old(self).unchanged
                    &&& final(self).local == old(self).local
                    &&& final(self).changes == old(self).changes
                },
            },
    {
        match result {
            Ok(status) => match status {
                Status::Installed { name, config } => {
                    self.kak.write(config.as_str().as_bytes());
                    self.installed.push(name);
                    assert(string_views(self.installed@) =~= string_views(
                        old(self).installed@,
                    ).push(name@));
                },
                Status::Unchanged { name, config } => {
                    self.kak.write(config.as_str().as_bytes());
                    self.unchanged.push(name);
                    assert(string_views(self.unchanged@) =~= string_views(
                        old(self).unchanged@,
                    ).push(name@));
                },
                Status::Local { name, config } => {
                    self.kak.write(config.as_str().as_bytes());
                    self.local.push(name);
                    assert(string_views(self.local@) =~= string_views(old(self).local@).push(
                        name@,
                    ));
                },
                Status::Updated { name, log, config } => {
                    self.kak.write(config.as_str().as_bytes());
                    self.changes.push((name, log));
                    assert(change_views(self.changes@) =~= change_views(old(self).changes@).push(
                        (name@, log@),
                    ));
                },
            },
            Err(e) => {
                self.errors.push(e);
                assert(error_views(self.errors@) =~= error_views(old(self).errors@).push(e@));
            },
        }
    }

    /// Whether no plugin failed.
    pub fn succeeded(&self) -> (r: bool)
        ensures
            r == (self.errors@.len() == 0),
    {
        self.errors.len() == 0
    }

    /// The failures, one per line, each indented by two spaces.
    pub fn error_report(&self) -> (r: String)
        ensures
            r@ == error_block(error_views(self.errors@)),
    {
        let mut r = String::new();
        let mut i: usize = 0;
        while i < self.errors.len()
            invariant
                i <= self.errors@.len(),
                r@ == error_block(error_views(self.errors@.subrange(0, i as int))),
            decreases self.errors@.len() - i,
        {
            r.append("\n  ");
            let line = self.errors[i].describe();
            r.append(line.as_str());
            proof {
                let s = error_views(self.errors@.subrange(0, i + 1));
                assert(s.drop_last() =~= error_views(self.errors@.subrange(0, i as int)));
            }
            i += 1;
        }
        assert(self.errors@.subrange(0, i as int) =~= self.errors@);
        r
    }
}

} // verus!
