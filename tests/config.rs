use almoxarife::plugin::is_local;
use almoxarife::plugin::Location;
use almoxarife::plugin::Plugin;
use almoxarife::setup::Config;
use almoxarife::setup::Setup;
use almoxarife::setup::SetupError;
use almoxarife::text::join_path;
use almoxarife::tree::PluginStatus;
use almoxarife::tree::PluginTree;

fn node(location: &str, config: &str, disabled: bool, children: Vec<(&str, PluginTree)>) -> PluginTree {
    PluginTree {
        location: location.to_string(),
        config: config.to_string(),
        disabled,
        children: children
            .into_iter()
            .map(|(n, t)| (n.to_string(), t))
            .collect(),
    }
}

fn declared(peneira_disabled: bool) -> Vec<(String, PluginTree)> {
    vec![
        (
            "luar".to_string(),
            node(
                "https://github.com/gustavo-hms/luar",
                "set-option global luar_interpreter luajit",
                false,
                vec![(
                    "peneira",
                    node(
                        "/home/gustavo-hms/peneira",
                        "",
                        peneira_disabled,
                        vec![(
                            "peneira-filters",
                            node(
                                "https://codeberg.org/mbauhardt/peneira-filters",
                                "map global normal <c-p> ': peneira-filters-mode<ret>'\n",
                                false,
                                vec![],
                            ),
                        )],
                    ),
                )],
            ),
        ),
        (
            "auto-pairs".to_string(),
            node("https://github.com/alexherbo2/auto-pairs.kak", "", false, vec![]),
        ),
    ]
}

fn expected(name: &str, parent: Option<&str>, has_children: bool, location: &str, config: &str) -> Plugin {
    let local = !location.starts_with("http");
    Plugin {
        name: name.into(),
        parent: parent.map(|p| p.into()),
        has_children,
        location: if local {
            Location::Local(location.into())
        } else {
            Location::Remote(location.into())
        },
        config: config.into(),
        repository_path: if local {
            location.into()
        } else {
            format!("~/.local/share/almoxarife/{name}")
        },
        link_path: format!("~/.config/kak/autoload/almoxarife/{name}"),
    }
}

#[test]
fn new_setup() {
    let setup = Setup::new("custom-home", Some("custom-config"), Some("custom-data"));
    assert_eq!(setup.almoxarife_data_dir, "custom-data/almoxarife");
    assert_eq!(setup.autoload_plugins_dir, "custom-config/kak/autoload/almoxarife");
    assert_eq!(setup.almoxarife_yaml_path, "custom-config/almoxarife.yaml");
}

#[test]
fn new_setup_under_home() {
    let setup = Setup::new("custom-home", None, None);
    assert_eq!(setup.almoxarife_data_dir, "custom-home/.local/share/almoxarife");
    assert_eq!(setup.autoload_dir, "custom-home/.config/kak/autoload");
    assert_eq!(setup.autoload_plugins_dir, "custom-home/.config/kak/autoload/almoxarife");
    assert_eq!(setup.almoxarife_yaml_path, "custom-home/.config/almoxarife.yaml");
    assert_eq!(
        setup.almoxarife_kak,
        "custom-home/.config/kak/autoload/almoxarife/almoxarife.kak"
    );
}

#[test]
fn paths_join_like_the_filesystem() {
    assert_eq!(join_path("a", "b"), "a/b");
    assert_eq!(join_path("a/", "b"), "a/b");
    assert_eq!(join_path("", "b"), "b");
    assert_eq!(join_path("a", "/b"), "/b");
}

#[test]
fn locations_are_classified_by_prefix() {
    assert!(!is_local("https://github.com/gustavo-hms/luar"));
    assert!(!is_local("http://example.org/x"));
    assert!(!is_local("git://example.org/x"));
    assert!(!is_local("git@github.com:gustavo-hms/luar"));
    assert!(is_local("/home/gustavo-hms/peneira"));
    assert!(is_local("~/src/plugin"));
    assert!(is_local("http:/typo"));
    assert!(is_local(""));
}

#[test]
fn active_plugins_of_declared_tree() {
    let setup = Setup::default();
    let config = Config::new(&setup, declared(false)).unwrap();
    let plugins = config.active_plugins();
    assert_eq!(
        plugins,
        vec![
            expected("luar", None, true, "https://github.com/gustavo-hms/luar", "set-option global luar_interpreter luajit"),
            expected("peneira", Some("luar"), true, "/home/gustavo-hms/peneira", ""),
            expected(
                "peneira-filters",
                Some("peneira"),
                false,
                "https://codeberg.org/mbauhardt/peneira-filters",
                "map global normal <c-p> ': peneira-filters-mode<ret>'\n"
            ),
            expected("auto-pairs", None, false, "https://github.com/alexherbo2/auto-pairs.kak", ""),
        ]
    );
}

#[test]
fn disabled_plugin_silences_its_subtree() {
    let setup = Setup::default();
    let config = Config::new(&setup, declared(true)).unwrap();
    let listed = config.list_plugins();
    assert_eq!(
        listed,
        vec![
            ("luar".to_string(), PluginStatus::Enabled),
            ("peneira".to_string(), PluginStatus::Disabled),
            ("peneira-filters".to_string(), PluginStatus::Enabled),
            ("auto-pairs".to_string(), PluginStatus::Enabled),
        ]
    );
    let names: Vec<String> = config.active_plugins().into_iter().map(|p| p.name).collect();
    assert_eq!(names, vec!["luar", "auto-pairs"]);
}

#[test]
fn disabled_top_level_plugin_yields_nothing() {
    let setup = Setup::default();
    let tree = node("https://a/b", "", true, vec![("c", node("https://c/d", "", false, vec![]))]);
    assert!(tree.plugins("a".into(), None, &setup).is_empty());
}

#[test]
fn tree_shape_of_parent_and_local_child() {
    let setup = Setup::default();
    let luar = node(
        "https://github.com/gustavo-hms/luar",
        "",
        false,
        vec![("peneira", node("/home/me/peneira", "", false, vec![]))],
    );
    let plugins = luar.plugins("luar".into(), None, &setup);
    assert_eq!(plugins.len(), 2);
    assert_eq!(plugins[0].name, "luar");
    assert!(plugins[0].has_children);
    assert_eq!(plugins[0].parent, None);
    assert_eq!(plugins[1].name, "peneira");
    assert!(!plugins[1].has_children);
    assert_eq!(plugins[1].parent, Some("luar".to_string()));
    assert_eq!(plugins[1].location, Location::Local("/home/me/peneira".into()));
    assert_eq!(plugins[1].repository_path, "/home/me/peneira");
    assert_eq!(plugins[1].link_path, "~/.config/kak/autoload/almoxarife/peneira");
}

#[test]
fn empty_configuration_is_refused() {
    let setup = Setup::default();
    let error = Config::new(&setup, vec![]).unwrap_err();
    assert_eq!(error, SetupError("configuration file has no YAML element".into()));
}

#[test]
fn duplicate_name_is_refused() {
    let setup = Setup::default();
    let plugins = vec![
        ("a".to_string(), node("https://x/a", "", false, vec![("b", node("https://x/b", "", true, vec![]))])),
        ("b".to_string(), node("https://y/b", "", false, vec![])),
    ];
    let error = Config::new(&setup, plugins).unwrap_err();
    assert_eq!(error, SetupError("the plugin b is declared more than once".into()));
}

#[test]
fn list_children_goes_depth_first() {
    let tree = node(
        "/x",
        "",
        false,
        vec![
            ("a", node("/a", "", true, vec![("a1", node("/a1", "", false, vec![]))])),
            ("b", node("/b", "", false, vec![])),
        ],
    );
    assert_eq!(
        tree.list_children(),
        vec![
            ("a".to_string(), PluginStatus::Disabled),
            ("a1".to_string(), PluginStatus::Enabled),
            ("b".to_string(), PluginStatus::Enabled),
        ]
    );
}
