//! Events exchanged between the Pumpkin server and Bukkit plugins.
pub mod names;
pub mod kinds;
pub mod merge;
pub mod call;
