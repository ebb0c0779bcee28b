//! Plugins known to the bridge and their lifecycle.
pub mod event_manager;
pub mod load_order;
pub mod manager;
