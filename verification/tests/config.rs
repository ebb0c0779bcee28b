use std::collections::HashMap;

use patchbukkit::config::spigot::{
    Command, DefaultPermission, LoadOrder, SpigotPluginYml, StringOrList, SPIGOT_PLUGIN_CONFIG,
};

fn yml(name: &str) -> SpigotPluginYml {
    SpigotPluginYml {
        name: name.to_string(),
        version: "1.0".to_string(),
        main: "com.example.Main".to_string(),
        description: None,
        author: None,
        authors: None,
        contributors: None,
        website: None,
        api_version: None,
        load: None,
        prefix: None,
        depend: None,
        softdepend: None,
        loadbefore: None,
        provides: None,
        libraries: None,
        commands: None,
        permissions: None,
        default_permission: None,
        paper_plugin_loader: None,
        paper_skip_libraries: None,
    }
}

#[test]
fn string_or_list_gives_every_string() {
    assert_eq!(StringOrList::Single("a".to_string()).to_vec(), vec!["a".to_string()]);
    assert_eq!(
        StringOrList::Multiple(vec!["a".to_string(), "b".to_string()]).to_vec(),
        vec!["a".to_string(), "b".to_string()]
    );
    assert!(StringOrList::Multiple(vec![]).to_vec().is_empty());
}

#[test]
fn authors_combine_author_then_authors() {
    let mut p = yml("X");
    assert!(p.get_all_authors().is_empty());
    p.author = Some("alice".to_string());
    assert_eq!(p.get_all_authors(), vec!["alice".to_string()]);
    p.authors = Some(vec!["bob".to_string(), "carol".to_string()]);
    assert_eq!(
        p.get_all_authors(),
        vec!["alice".to_string(), "bob".to_string(), "carol".to_string()]
    );
    p.author = None;
    assert_eq!(p.get_all_authors(), vec!["bob".to_string(), "carol".to_string()]);
}

#[test]
fn hard_and_soft_dependencies() {
    let mut p = yml("X");
    assert!(!p.depends_on("Vault"));
    assert!(!p.soft_depends_on("Vault"));
    p.depend = Some(vec!["Vault".to_string(), "ProtocolLib".to_string()]);
    p.softdepend = Some(vec!["WorldEdit".to_string()]);
    assert!(p.depends_on("Vault"));
    assert!(p.depends_on("ProtocolLib"));
    assert!(!p.depends_on("vault"));
    assert!(!p.depends_on("WorldEdit"));
    assert!(p.soft_depends_on("WorldEdit"));
    assert!(!p.soft_depends_on("Vault"));
}

#[test]
fn defaults_and_constants() {
    assert_eq!(LoadOrder::default(), LoadOrder::Postworld);
    assert_eq!(DefaultPermission::default(), DefaultPermission::Op);
    assert_eq!(SPIGOT_PLUGIN_CONFIG, "plugin.yml");
    let mut commands = HashMap::new();
    commands.insert(
        "hello".to_string(),
        Command {
            description: Some("Says hello".to_string()),
            usage: None,
            aliases: Some(StringOrList::Single("hi".to_string())),
            permission: None,
            permission_message: None,
        },
    );
    let mut p = yml("X");
    p.commands = Some(commands);
    assert_eq!(p.commands.as_ref().unwrap().len(), 1);
}
