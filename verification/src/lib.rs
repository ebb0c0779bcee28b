//! Verified core of the PatchBukkit bridge between the Pumpkin server and
//! Bukkit/Spigot/Paper plugins running on an embedded JVM.
pub mod text;
pub mod codegen;
pub mod config;
pub mod paths;
pub mod plugin;
pub mod java;
pub mod events;
