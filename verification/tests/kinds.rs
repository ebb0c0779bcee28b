use patchbukkit::events::kinds::{event_kind_from_bukkit, EventKind};

#[test]
fn supported_bukkit_events() {
    assert_eq!(
        event_kind_from_bukkit("org.bukkit.event.player.PlayerJoinEvent"),
        Some(EventKind::PlayerJoin)
    );
    assert_eq!(
        event_kind_from_bukkit("org.bukkit.event.player.PlayerQuitEvent"),
        Some(EventKind::PlayerLeave)
    );
    assert_eq!(
        event_kind_from_bukkit("org.bukkit.event.player.AsyncPlayerChatEvent"),
        Some(EventKind::PlayerChat)
    );
    assert_eq!(
        event_kind_from_bukkit("org.bukkit.event.player.PlayerChangedWorldEvent"),
        Some(EventKind::PlayerChangeWorld)
    );
    assert_eq!(
        event_kind_from_bukkit("org.bukkit.event.block.BlockPlaceEvent"),
        Some(EventKind::BlockPlace)
    );
    assert_eq!(
        event_kind_from_bukkit("org.bukkit.event.server.BroadcastMessageEvent"),
        Some(EventKind::ServerBroadcast)
    );
    assert_eq!(
        event_kind_from_bukkit("org.bukkit.event.entity.EntityDeathEvent"),
        Some(EventKind::EntityDeath)
    );
}

#[test]
fn unsupported_bukkit_events() {
    assert_eq!(event_kind_from_bukkit("org.bukkit.event.block.NotePlayEvent"), None);
    assert_eq!(event_kind_from_bukkit("PlayerJoinEvent"), None);
    assert_eq!(event_kind_from_bukkit(""), None);
}
