use std::collections::HashMap;

use patchbukkit::config::paper::PaperPluginYml;
use patchbukkit::config::spigot::{Command, SpigotPluginYml};
use patchbukkit::plugin::manager::{
    LoadPluginResult, Plugin, PluginManager, PluginState, PluginType,
};

fn plugin_yml(name: &str) -> SpigotPluginYml {
    SpigotPluginYml {
        name: name.to_string(),
        version: "2.1".to_string(),
        main: format!("com.example.{name}"),
        description: None,
        author: None,
        authors: None,
        contributors: None,
        website: None,
        api_version: None,
        load: None,
        prefix: None,
        depend: None,
        softdepend: None,
        loadbefore: None,
        provides: None,
        libraries: None,
        commands: None,
        permissions: None,
        default_permission: None,
        paper_plugin_loader: None,
        paper_skip_libraries: None,
    }
}

fn paper(name: &str) -> PaperPluginYml {
    PaperPluginYml {
        name: name.to_string(),
        version: "3.0".to_string(),
        main: format!("io.example.{name}"),
    }
}

fn bare_plugin(name: &str, version: &str) -> Plugin<u32> {
    Plugin {
        name: name.to_string(),
        version: version.to_string(),
        main_class: "Main".to_string(),
        path: "plugins/x.jar".to_string(),
        plugin_type: PluginType::Spigot(patchbukkit::plugin::manager::SpigotPluginData {
            spigot_config: plugin_yml(name),
        }),
        state: PluginState::Registered,
        data_folder: "plugins/data".to_string(),
        instance: None,
        commands: HashMap::new(),
        listeners: Vec::new(),
    }
}

#[test]
fn spigot_plugin_is_registered_under_its_name() {
    let mut m: PluginManager<u32> = PluginManager::new();
    let mut config = plugin_yml("Greeter");
    let mut commands = HashMap::new();
    commands.insert(
        "greet".to_string(),
        Command {
            description: None,
            usage: None,
            aliases: None,
            permission: None,
            permission_message: None,
        },
    );
    config.commands = Some(commands);
    assert_eq!(m.load_spigot_plugin("plugins/greeter.jar", Ok(config)), Ok(()));
    let p = m.get_plugin("Greeter").unwrap();
    assert_eq!(p.version, "2.1");
    assert_eq!(p.main_class, "com.example.Greeter");
    assert_eq!(p.path, "plugins/greeter.jar");
    assert_eq!(p.data_folder, std::path::Path::new("plugins").join("data").to_string_lossy());
    assert_eq!(p.state, PluginState::Registered);
    assert!(p.instance.is_none());
    assert!(p.commands.contains_key("greet"));
    assert!(matches!(p.plugin_type, PluginType::Spigot(_)));
    assert!(m.get_plugin("Other").is_none());
}

#[test]
fn parse_errors_leave_the_registry_unchanged() {
    let mut m: PluginManager<u32> = PluginManager::new();
    assert_eq!(
        m.load_spigot_plugin("plugins/a.jar", Err("bad yaml".to_string())),
        Err("bad yaml".to_string())
    );
    assert_eq!(
        m.load_paper_plugin("plugins/a.jar", Err("bad paper".to_string()), None),
        Err("bad paper".to_string())
    );
    assert_eq!(
        m.load_paper_plugin("plugins/a.jar", Ok(paper("A")), Some(Err("bad spigot".to_string()))),
        Err("bad spigot".to_string())
    );
    assert_eq!(m.len(), 0);
}

#[test]
fn paper_plugin_keeps_both_descriptions() {
    let mut m: PluginManager<u32> = PluginManager::new();
    assert_eq!(m.load_paper_plugin("jars/p.jar", Ok(paper("P")), Some(Ok(plugin_yml("P")))), Ok(()));
    let p = m.get_plugin("P").unwrap();
    assert_eq!(p.version, "3.0");
    assert_eq!(p.main_class, "io.example.P");
    assert!(p.commands.is_empty());
    match &p.plugin_type {
        PluginType::Paper(d) => {
            assert_eq!(d.paper_config.name, "P");
            assert_eq!(d.spigot_config.as_ref().unwrap().name, "P");
        }
        PluginType::Spigot(_) => panic!("expected a Paper plugin"),
    }
}

#[test]
fn load_plugin_reports_each_outcome() {
    let mut m: PluginManager<u32> = PluginManager::new();
    assert_eq!(
        m.load_plugin("jars/a.jar", Some(Ok(paper("A"))), None),
        Some(LoadPluginResult::SuccessfullyLoadedPaper)
    );
    assert_eq!(
        m.load_plugin("jars/b.jar", None, Some(Ok(plugin_yml("B")))),
        Some(LoadPluginResult::SuccessfullyLoadedSpigot)
    );
    assert_eq!(
        m.load_plugin("jars/c.jar", Some(Err("e1".to_string())), Some(Ok(plugin_yml("C")))),
        Some(LoadPluginResult::FailedToLoadPaperPlugin("e1".to_string()))
    );
    assert_eq!(
        m.load_plugin("jars/c.jar", Some(Ok(paper("C"))), Some(Err("e2".to_string()))),
        Some(LoadPluginResult::FailedToLoadPaperPlugin("e2".to_string()))
    );
    assert_eq!(
        m.load_plugin("jars/c.jar", None, Some(Err("e3".to_string()))),
        Some(LoadPluginResult::FailedToLoadSpigotPlugin("e3".to_string()))
    );
    assert_eq!(m.load_plugin("jars/c.jar", None, None), Some(LoadPluginResult::NoConfigurationFile));
    assert_eq!(m.load_plugin("/", None, Some(Ok(plugin_yml("D")))), None);
    assert_eq!(m.load_plugin("", Some(Ok(paper("D"))), None), None);
    assert_eq!(m.len(), 2);
    assert!(m.get_plugin("D").is_none());
}

#[test]
fn registering_a_name_again_replaces_the_plugin() {
    let mut m: PluginManager<u32> = PluginManager::new();
    m.add_plugin(bare_plugin("A", "1"));
    m.add_plugin(bare_plugin("B", "1"));
    m.add_plugin(bare_plugin("A", "2"));
    assert_eq!(m.len(), 2);
    assert_eq!(m.get_plugin("A").unwrap().version, "2");
    assert_eq!(m.get_plugin("B").unwrap().version, "1");
    assert_eq!(m.plugins()[0].name, "A");
    assert_eq!(m.plugins()[1].name, "B");
}

#[test]
fn lifecycle_states() {
    let mut m: PluginManager<u32> = PluginManager::new();
    m.add_plugin(bare_plugin("A", "1"));
    m.add_plugin(bare_plugin("B", "1"));
    m.add_plugin(bare_plugin("C", "1"));
    let (order, sorted) = m.load_order();
    assert_eq!(order, vec![0, 1, 2]);
    assert_eq!(sorted, 3);
    m.instantiate_all_plugins(&order, sorted, vec![Some((10, true)), Some((11, false))]);
    assert_eq!(m.plugins()[0].instance, Some(10));
    assert_eq!(m.plugins()[0].state, PluginState::Loaded);
    assert_eq!(m.plugins()[1].instance, Some(11));
    assert_eq!(m.plugins()[1].state, PluginState::Registered);
    assert_eq!(m.plugins()[2].instance, None);
    m.instantiate_all_plugins(&order, sorted, vec![Some((20, true)), Some((21, true)), Some((22, true))]);
    assert!(m.plugins().iter().all(|p| p.state == PluginState::Loaded));
    assert_eq!(m.plugins()[2].instance, Some(22));
    m.enable_all_plugins(&vec![true, false, true]);
    assert_eq!(m.plugins()[0].state, PluginState::Enabled);
    assert_eq!(m.plugins()[1].state, PluginState::Errored);
    assert_eq!(m.plugins()[2].state, PluginState::Enabled);
    m.disable_all_plugins();
    assert!(m.plugins().iter().all(|p| p.state == PluginState::Disabled));
    assert_eq!(m.plugins()[1].instance, Some(21));
    assert_eq!(m.unload_all_plugins(), Ok(()));
    assert_eq!(m.len(), 0);
    assert!(m.get_plugin("A").is_none());
}

#[test]
fn only_the_last_listener_is_kept() {
    let mut m: PluginManager<u32> = PluginManager::new();
    m.add_plugin(bare_plugin("A", "1"));
    m.add_plugin(bare_plugin("B", "1"));
    m.register_listener("A", 7);
    m.register_listener("A", 8);
    let a = m.get_plugin("A").unwrap();
    assert_eq!(a.listeners.len(), 1);
    assert_eq!(a.listeners[0].0, "listener_name");
    assert_eq!(a.listeners[0].1, 8);
    assert!(m.get_plugin("B").unwrap().listeners.is_empty());
}

fn depending_plugin(name: &str, depend: &[&str], softdepend: &[&str]) -> Plugin<u32> {
    let mut p = bare_plugin(name, "1");
    let mut yml = plugin_yml(name);
    if !depend.is_empty() {
        yml.depend = Some(depend.iter().map(|d| d.to_string()).collect());
    }
    if !softdepend.is_empty() {
        yml.softdepend = Some(softdepend.iter().map(|d| d.to_string()).collect());
    }
    p.plugin_type = PluginType::Spigot(patchbukkit::plugin::manager::SpigotPluginData {
        spigot_config: yml,
    });
    p
}

#[test]
fn dependencies_load_first() {
    let mut m: PluginManager<u32> = PluginManager::new();
    m.add_plugin(depending_plugin("A", &["B"], &[]));
    m.add_plugin(depending_plugin("B", &[], &["C"]));
    m.add_plugin(depending_plugin("C", &[], &[]));
    m.add_plugin(depending_plugin("D", &["Missing"], &[]));
    let (order, sorted) = m.load_order();
    assert_eq!(order, vec![2, 1, 0, 3]);
    assert_eq!(sorted, 4);
}

#[test]
fn cycles_load_last_in_registration_order() {
    let mut m: PluginManager<u32> = PluginManager::new();
    m.add_plugin(depending_plugin("A", &["B"], &[]));
    m.add_plugin(depending_plugin("B", &[], &["A"]));
    m.add_plugin(depending_plugin("C", &["A"], &[]));
    m.add_plugin(depending_plugin("D", &[], &[]));
    m.add_plugin(depending_plugin("E", &["E"], &[]));
    let (order, sorted) = m.load_order();
    assert_eq!(order, vec![3, 0, 1, 2, 4]);
    assert_eq!(sorted, 1);
}

#[test]
fn instances_follow_the_load_order() {
    let mut m: PluginManager<u32> = PluginManager::new();
    m.add_plugin(depending_plugin("A", &["B"], &[]));
    m.add_plugin(depending_plugin("B", &[], &[]));
    let (order, sorted) = m.load_order();
    assert_eq!(order, vec![1, 0]);
    m.instantiate_all_plugins(&order, sorted, vec![Some((7, true))]);
    assert_eq!(m.plugins()[1].instance, Some(7));
    assert_eq!(m.plugins()[1].state, PluginState::Loaded);
    assert_eq!(m.plugins()[0].instance, None);
    assert_eq!(m.plugins()[0].state, PluginState::Registered);
}

#[test]
fn a_paper_plugin_depends_through_its_spigot_description() {
    let mut m: PluginManager<u32> = PluginManager::new();
    let mut spigot = plugin_yml("P");
    spigot.softdepend = Some(vec!["S".to_string()]);
    let r = m.load_plugin("plugins/p.jar", Some(Ok(paper("P"))), Some(Ok(spigot)));
    assert_eq!(r, Some(LoadPluginResult::SuccessfullyLoadedPaper));
    let r = m.load_plugin("plugins/s.jar", None, Some(Ok(plugin_yml("S"))));
    assert_eq!(r, Some(LoadPluginResult::SuccessfullyLoadedSpigot));
    assert_eq!(m.load_order(), (vec![1, 0], 2));
}

#[test]
fn a_plugin_that_cannot_be_created_is_errored() {
    let mut m: PluginManager<u32> = PluginManager::new();
    m.add_plugin(depending_plugin("A", &["B"], &[]));
    m.add_plugin(depending_plugin("B", &[], &[]));
    m.add_plugin(depending_plugin("C", &[], &[]));
    let (order, sorted) = m.load_order();
    assert_eq!(order, vec![1, 0, 2]);
    m.instantiate_all_plugins(&order, sorted, vec![Some((5, true)), None]);
    assert_eq!(m.plugins()[1].state, PluginState::Loaded);
    assert_eq!(m.plugins()[0].state, PluginState::Errored);
    assert_eq!(m.plugins()[0].instance, None);
    assert_eq!(m.plugins()[2].state, PluginState::Registered);
}
