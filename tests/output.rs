use almoxarife::plugin::Location;
use almoxarife::plugin::Plugin;
use almoxarife::report::Kak;
use almoxarife::report::Report;
use almoxarife::sync::Event;
use almoxarife::sync::PluginError;
use almoxarife::sync::Status;

fn plugin(name: &str, parent: Option<&str>, has_children: bool, config: &str) -> Plugin {
    Plugin {
        name: name.into(),
        parent: parent.map(|p| p.into()),
        has_children,
        location: Location::Remote(format!("https://example.org/{name}")),
        config: config.into(),
        repository_path: format!("data/{name}"),
        link_path: format!("autoload/{name}"),
    }
}

#[test]
fn write_kak_file() {
    let mut kak = Kak::with_buffer();
    kak.write_prelude();
    kak.write(b"require-module a-plugin\n");
    kak.write(b"set global an-option 19\n");
    kak.close();
    let expected = r"hook global KakBegin .* %🧺
add-highlighter shared/almoxarife regions
add-highlighter shared/almoxarife/ region '^\s*config:\s+\|' '^\s*\w+:' ref kakrc
add-highlighter shared/almoxarife/ region '^\s*config:[^\n]' '\n' ref kakrc
hook -group almoxarife global WinCreate .*almoxarife[.]yaml %{
    add-highlighter window/almoxarife ref almoxarife
    hook -once -always window WinClose .* %{ remove-highlighter window/almoxarife }
}
require-module a-plugin
set global an-option 19
🧺";
    assert_eq!(kak.bytes(), expected.as_bytes());
}

#[test]
fn fragment_without_parent_or_children() {
    assert_eq!(
        plugin("A", None, false, "set global x 1").config(),
        "try %[ require-module A ]\nset global x 1\n"
    );
}

#[test]
fn fragment_with_parent() {
    assert_eq!(
        plugin("B", Some("A"), false, "set global x 1").config(),
        "hook -once global ModuleLoaded A %[\n    try %[ require-module B ]\n    set global x 1\n]\n"
    );
}

#[test]
fn fragment_with_children() {
    assert_eq!(
        plugin("A", None, true, "").config(),
        "try %[ require-module A ] catch %[\n    provide-module A ''\n    require-module A\n]\n\n"
    );
}

#[test]
fn fragment_with_parent_and_children() {
    assert_eq!(
        plugin("B", Some("A"), true, "cfg").config(),
        "hook -once global ModuleLoaded A %[\n    try %[ require-module B ] catch %[\n        provide-module B ''\n        require-module B\n    ]\n    cfg\n]\n"
    );
}

fn finish(plugin: Plugin, events: Vec<Event>) -> Result<Status, PluginError> {
    let mut update = plugin.update();
    for event in events {
        update.advance(event);
    }
    update.into_result().unwrap()
}

#[test]
fn partial_failure_keeps_the_other_fragments() {
    let ok = |stdout: &str| Event::GitExited {
        code: Some(0),
        stdout: stdout.into(),
        stderr: String::new(),
    };
    let a = plugin("a", None, false, "set global a 1");
    let b = plugin("b", None, false, "set global b 2");
    let c = plugin("c", None, false, "set global c 3");
    let results = vec![
        finish(a, vec![Event::PathChecked(false), ok(""), Event::Linked]),
        finish(
            c,
            vec![
                Event::PathChecked(false),
                Event::GitExited { code: Some(1), stdout: String::new(), stderr: "boom".into() },
            ],
        ),
        finish(b, vec![Event::PathChecked(true), ok("r1\n"), ok(""), ok("r1\n"), Event::Linked]),
    ];
    let mut report = Report::new(Kak::with_buffer());
    for result in results {
        report.record(result);
    }
    assert_eq!(report.installed, vec!["a".to_string()]);
    assert_eq!(report.unchanged, vec!["b".to_string()]);
    assert_eq!(report.errors.len(), 1);
    match &report.errors[0] {
        PluginError::Clone(name, message) => {
            assert_eq!(name, "c");
            assert!(message.contains("boom"));
        }
        other => panic!("unexpected error {other:?}"),
    }
    assert!(!report.succeeded());
    let written = String::from_utf8(report.kak.bytes().to_vec()).unwrap();
    assert_eq!(
        written,
        "try %[ require-module a ]\nset global a 1\ntry %[ require-module b ]\nset global b 2\n"
    );
    assert_eq!(
        report.error_report(),
        "\n  c: could not clone: git exited with status 1: boom"
    );
}

#[test]
fn all_unchanged_is_success() {
    let mut report = Report::new(Kak::with_buffer());
    report.record(Ok(Status::Unchanged { name: "x".into(), config: "f\n".into() }));
    report.record(Ok(Status::Local { name: "y".into(), config: "g\n".into() }));
    assert!(report.succeeded());
    assert_eq!(report.error_report(), "");
    assert_eq!(report.local, vec!["y".to_string()]);
    assert_eq!(report.kak.bytes(), b"f\ng\n");
}

#[test]
fn updates_are_listed_in_order() {
    let mut report = Report::new(Kak::with_buffer());
    report.record(Ok(Status::Updated { name: "p".into(), log: "a one\n".into(), config: "".into() }));
    report.record(Ok(Status::Updated { name: "q".into(), log: "b two\n".into(), config: "".into() }));
    assert_eq!(
        report.changes,
        vec![("p".to_string(), "a one\n".to_string()), ("q".to_string(), "b two\n".to_string())]
    );
}

#[test]
fn error_lines_name_the_failed_step() {
    assert_eq!(PluginError::Clone("a".into(), "m".into()).describe(), "a: could not clone: m");
    assert_eq!(PluginError::Pull("b".into(), "n".into()).describe(), "b: could not update: n");
    assert_eq!(PluginError::Link("c".into(), "o".into()).describe(), "c: could not activate: o");
    assert_eq!(PluginError::Pull("b".into(), "n".into()).plugin(), "b");
    let mut report = Report::new(Kak::with_buffer());
    report.record(Err(PluginError::Pull("b".into(), "n".into())));
    report.record(Err(PluginError::Link("c".into(), "o".into())));
    assert_eq!(
        report.error_report(),
        "\n  b: could not update: n\n  c: could not activate: o"
    );
}
