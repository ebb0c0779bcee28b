//! The Paper plugin description, `paper-plugin.yml`.
use vstd::prelude::*;

verus! {

/// The name of the Paper plugin description file inside a plugin JAR.
pub const PAPER_PLUGIN_CONFIG: &'static str = "paper-plugin.yml";

/// The fields of `paper-plugin.yml` that plugin loading reads.
#[derive(Debug, Clone)]
pub struct PaperPluginYml {
    /// The name of the plugin.
    pub name: String,
    /// The current version of the plugin.
    pub version: String,
    /// The main class of the plugin.
    pub main: String,
}

} // verus!
