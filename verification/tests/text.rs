use patchbukkit::codegen::cases::{to_pascal_case, to_snake_case};
use patchbukkit::config::spigot::SpigotPluginYml;
use patchbukkit::plugin::manager::{LoadPluginResult, PluginManager};
use patchbukkit::text::{ascii_lowercase, join_with, split_on, starts_with, str_eq, trim_start_char};

#[test]
fn string_equality() {
    assert!(str_eq("abc", "abc"));
    assert!(!str_eq("abc", "abd"));
    assert!(!str_eq("abc", "ab"));
    assert!(str_eq("", ""));
    assert!(str_eq("é", "é"));
}

#[test]
fn split_and_join() {
    assert_eq!(split_on("a.b.c", '.'), vec!["a", "b", "c"]);
    assert_eq!(split_on("", '.'), vec![""]);
    assert_eq!(split_on(".a..", '.'), vec!["", "a", "", ""]);
    let parts = vec!["x".to_string(), "".to_string(), "y".to_string()];
    assert_eq!(join_with(&parts, "::"), "x::::y");
    assert_eq!(join_with(&vec![], "::"), "");
    assert_eq!(join_with(&split_on("p.q", '.'), "."), "p.q");
}

#[test]
fn prefixes() {
    assert!(starts_with("google.protobuf.Empty", "google.protobuf."));
    assert!(!starts_with("google", "google.protobuf."));
    assert!(starts_with("x", ""));
    assert_eq!(trim_start_char("...abc.", '.'), "abc.");
    assert_eq!(trim_start_char("abc", '.'), "abc");
    assert_eq!(trim_start_char("..", '.'), "");
}

#[test]
fn character_classes() {
    assert_eq!(ascii_lowercase('Q'), 'q');
    assert_eq!(ascii_lowercase('É'), 'É');
    assert_eq!(ascii_lowercase('1'), '1');
    // Unicode capitals count as capitals, but are lowered the ASCII way only.
    assert_eq!(to_snake_case("ÉtatX"), "État_x");
    assert_eq!(to_snake_case("aÉ"), "a_É");
    // The rest of an all-capital name is lowered the Unicode way.
    assert_eq!(to_pascal_case("ÉA"), "Éa");
    assert_eq!(to_pascal_case("AÉ"), "Aé");
    assert_eq!(to_pascal_case("A7"), "A7");
    assert_eq!(to_pascal_case("Ab"), "Ab");
}

fn description(name: &str) -> SpigotPluginYml {
    SpigotPluginYml {
        name: name.to_string(),
        version: "1.0".to_string(),
        main: "com.example.Main".to_string(),
        description: None,
        author: None,
        authors: None,
        contributors: None,
        website: None,
        api_version: None,
        load: None,
        prefix: None,
        depend: None,
        softdepend: None,
        loadbefore: None,
        provides: None,
        libraries: None,
        commands: None,
        permissions: None,
        default_permission: None,
        paper_plugin_loader: None,
        paper_skip_libraries: None,
    }
}

#[test]
fn data_folder_sits_beside_the_jar() {
    let mut m: PluginManager<u32> = PluginManager::new();
    let r = m.load_plugin("server/plugins/a.jar", None, Some(Ok(description("A"))));
    assert_eq!(r, Some(LoadPluginResult::SuccessfullyLoadedSpigot));
    let sep = std::path::MAIN_SEPARATOR;
    assert_eq!(m.get_plugin("A").unwrap().data_folder, format!("server/plugins{sep}data"));
    let r = m.load_plugin("b.jar", None, Some(Ok(description("B"))));
    assert_eq!(r, Some(LoadPluginResult::SuccessfullyLoadedSpigot));
    assert_eq!(m.get_plugin("B").unwrap().data_folder, "data");
}

#[test]
fn a_jar_path_without_parent_is_refused() {
    let mut m: PluginManager<u32> = PluginManager::new();
    assert_eq!(m.load_plugin("/", None, Some(Ok(description("A")))), None);
    assert_eq!(m.load_plugin("", None, None), Some(LoadPluginResult::NoConfigurationFile));
    assert_eq!(
        m.load_plugin("/", None, Some(Err("bad yaml".to_string()))),
        Some(LoadPluginResult::FailedToLoadSpigotPlugin("bad yaml".to_string()))
    );
    assert_eq!(m.len(), 0);
}
