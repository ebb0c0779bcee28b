//! Plugin description files (`plugin.yml` and `paper-plugin.yml`).
pub mod paper;
pub mod spigot;
