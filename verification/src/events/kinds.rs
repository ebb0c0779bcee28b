//! The Bukkit events that plugins may listen to, and the Pumpkin events they
//! are delivered from. A Bukkit event class is named
//! `org.bukkit.event.<category>.<SimpleName>`.
use vstd::prelude::*;
use vstd::string::*;

use crate::text::{has_prefix, starts_with, str_eq};

verus! {

/// A Pumpkin event that Bukkit listeners can be registered for.
#[derive(Debug, Clone, Copy, PartialEq, Eq, Structural)]
pub enum EventKind {

    // block events
    BlockBreak,
    BlockBurn,
    BlockCanBuild,
    BlockDamageAbort,
    BlockDamage,
    BlockDispense,
    BlockDropItem,
    BlockExplode,
    BlockFade,
    BlockIgnite,
    BlockPlace,
    BlockSpread,

    // entity events
    EntityDamage,
    EntityDeath,
    EntitySpawn,

    // player events
    PlayerChat,
    PlayerPreLogin,
    PlayerAdvancementDone,
    PlayerAnimation,
    PlayerArmorStandManipulate,
    PlayerBedEnter,
    PlayerBedLeave,
    PlayerBucketEmpty,
    PlayerBucketEntity,
    PlayerBucketFill,
    PlayerChangedMainHand,
    PlayerChangeWorld,
    PlayerCommandPreprocess,
    PlayerCommandSend,
    PlayerDropItem,
    PlayerEditBook,
    PlayerEggThrow,
    PlayerExpChange,
    PlayerFish,
    PlayerGamemodeChange,
    PlayerHarvestBlock,
    PlayerInteractAtEntity,
    PlayerInteractEntity,
    PlayerInteract,
    PlayerItemBreak,
    PlayerItemConsume,
    PlayerItemDamage,
    PlayerItemHeld,
    PlayerItemMend,
    PlayerJoin,
    PlayerKick,
    PlayerLevelChange,
    PlayerLogin,
    PlayerMove,
    PlayerPickupArrow,
    PlayerPortal,
    PlayerLeave,
    PlayerRecipeDiscover,
    PlayerRegisterChannel,
    PlayerResourcePackStatus,
    PlayerRespawn,
    PlayerRiptide,
    PlayerShearEntity,
    PlayerStatisticIncrement,
    PlayerSwapHandItems,
    PlayerTeleport,
    PlayerToggleFlight,
    PlayerToggleSneak,
    PlayerToggleSprint,
    PlayerUnregisterChannel,
    PlayerVelocity,

    // server events
    ServerBroadcast,
    ServerCommand,

}

/// The package that holds the Bukkit classes of one category of events.
pub open spec fn category_package(category: Seq<char>) -> Seq<char> {
    "org.bukkit.event."@ + category + "."@
}

/// The category of the Bukkit class a kind is delivered as.
pub open spec fn kind_category(kind: EventKind) -> Seq<char> {
    match kind {
        EventKind::BlockBreak => "block"@,
        EventKind::BlockBurn => "block"@,
        EventKind::BlockCanBuild => "block"@,
        EventKind::BlockDamageAbort => "block"@,
        EventKind::BlockDamage => "block"@,
        EventKind::BlockDispense => "block"@,
        EventKind::BlockDropItem => "block"@,
        EventKind::BlockExplode => "block"@,
        EventKind::BlockFade => "block"@,
        EventKind::BlockIgnite => "block"@,
        EventKind::BlockPlace => "block"@,
        EventKind::BlockSpread => "block"@,
        EventKind::EntityDamage => "entity"@,
        EventKind::EntityDeath => "entity"@,
        EventKind::EntitySpawn => "entity"@,
        EventKind::PlayerChat => "player"@,
        EventKind::PlayerPreLogin => "player"@,
        EventKind::PlayerAdvancementDone => "player"@,
        EventKind::PlayerAnimation => "player"@,
        EventKind::PlayerArmorStandManipulate => "player"@,
        EventKind::PlayerBedEnter => "player"@,
        EventKind::PlayerBedLeave => "player"@,
        EventKind::PlayerBucketEmpty => "player"@,
        EventKind::PlayerBucketEntity => "player"@,
        EventKind::PlayerBucketFill => "player"@,
        EventKind::PlayerChangedMainHand => "player"@,
        EventKind::PlayerChangeWorld => "player"@,
        EventKind::PlayerCommandPreprocess => "player"@,
        EventKind::PlayerCommandSend => "player"@,
        EventKind::PlayerDropItem => "player"@,
        EventKind::PlayerEditBook => "player"@,
        EventKind::PlayerEggThrow => "player"@,
        EventKind::PlayerExpChange => "player"@,
        EventKind::PlayerFish => "player"@,
        EventKind::PlayerGamemodeChange => "player"@,
        EventKind::PlayerHarvestBlock => "player"@,
        EventKind::PlayerInteractAtEntity => "player"@,
        EventKind::PlayerInteractEntity => "player"@,
        EventKind::PlayerInteract => "player"@,
        EventKind::PlayerItemBreak => "player"@,
        EventKind::PlayerItemConsume => "player"@,
        EventKind::PlayerItemDamage => "player"@,
        EventKind::PlayerItemHeld => "player"@,
        EventKind::PlayerItemMend => "player"@,
        EventKind::PlayerJoin => "player"@,
        EventKind::PlayerKick => "player"@,
        EventKind::PlayerLevelChange => "player"@,
        EventKind::PlayerLogin => "player"@,
        EventKind::PlayerMove => "player"@,
        EventKind::PlayerPickupArrow => "player"@,
        EventKind::PlayerPortal => "player"@,
        EventKind::PlayerLeave => "player"@,
        EventKind::PlayerRecipeDiscover => "player"@,
        EventKind::PlayerRegisterChannel => "player"@,
        EventKind::PlayerResourcePackStatus => "player"@,
        EventKind::PlayerRespawn => "player"@,
        EventKind::PlayerRiptide => "player"@,
        EventKind::PlayerShearEntity => "player"@,
        EventKind::PlayerStatisticIncrement => "player"@,
        EventKind::PlayerSwapHandItems => "player"@,
        EventKind::PlayerTeleport => "player"@,
        EventKind::PlayerToggleFlight => "player"@,
        EventKind::PlayerToggleSneak => "player"@,
        EventKind::PlayerToggleSprint => "player"@,
        EventKind::PlayerUnregisterChannel => "player"@,
        EventKind::PlayerVelocity => "player"@,
        EventKind::ServerBroadcast => "server"@,
        EventKind::ServerCommand => "server"@,
    }
}

/// The simple name of the Bukkit class a kind is delivered as.
pub open spec fn kind_simple_name(kind: EventKind) -> Seq<char> {
    match kind {
        EventKind::BlockBreak => "BlockBreakEvent"@,
        EventKind::BlockBurn => "BlockBurnEvent"@,
        EventKind::BlockCanBuild => "BlockCanBuildEvent"@,
        EventKind::BlockDamageAbort => "BlockDamageAbortEvent"@,
        EventKind::BlockDamage => "BlockDamageEvent"@,
        EventKind::BlockDispense => "BlockDispenseEvent"@,
        EventKind::BlockDropItem => "BlockDropItemEvent"@,
        EventKind::BlockExplode => "BlockExplodeEvent"@,
        EventKind::BlockFade => "BlockFadeEvent"@,
        EventKind::BlockIgnite => "BlockIgniteEvent"@,
        EventKind::BlockPlace => "BlockPlaceEvent"@,
        EventKind::BlockSpread => "BlockSpreadEvent"@,
        EventKind::EntityDamage => "EntityDamageEvent"@,
        EventKind::EntityDeath => "EntityDeathEvent"@,
        EventKind::EntitySpawn => "EntitySpawnEvent"@,
        EventKind::PlayerChat => "AsyncPlayerChatEvent"@,
        EventKind::PlayerPreLogin => "AsyncPlayerPreLoginEvent"@,
        EventKind::PlayerAdvancementDone => "PlayerAdvancementDoneEvent"@,
        EventKind::PlayerAnimation => "PlayerAnimationEvent"@,
        EventKind::PlayerArmorStandManipulate => "PlayerArmorStandManipulateEvent"@,
        EventKind::PlayerBedEnter => "PlayerBedEnterEvent"@,
        EventKind::PlayerBedLeave => "PlayerBedLeaveEvent"@,
        EventKind::PlayerBucketEmpty => "PlayerBucketEmptyEvent"@,
        EventKind::PlayerBucketEntity => "PlayerBucketEntityEvent"@,
        EventKind::PlayerBucketFill => "PlayerBucketFillEvent"@,
        EventKind::PlayerChangedMainHand => "PlayerChangedMainHandEvent"@,
        EventKind::PlayerChangeWorld => "PlayerChangedWorldEvent"@,
        EventKind::PlayerCommandPreprocess => "PlayerCommandPreprocessEvent"@,
        EventKind::PlayerCommandSend => "PlayerCommandSendEvent"@,
        EventKind::PlayerDropItem => "PlayerDropItemEvent"@,
        EventKind::PlayerEditBook => "PlayerEditBookEvent"@,
        EventKind::PlayerEggThrow => "PlayerEggThrowEvent"@,
        EventKind::PlayerExpChange => "PlayerExpChangeEvent"@,
        EventKind::PlayerFish => "PlayerFishEvent"@,
        EventKind::PlayerGamemodeChange => "PlayerGameModeChangeEvent"@,
        EventKind::PlayerHarvestBlock => "PlayerHarvestBlockEvent"@,
        EventKind::PlayerInteractAtEntity => "PlayerInteractAtEntityEvent"@,
        EventKind::PlayerInteractEntity => "PlayerInteractEntityEvent"@,
        EventKind::PlayerInteract => "PlayerInteractEvent"@,
        EventKind::PlayerItemBreak => "PlayerItemBreakEvent"@,
        EventKind::PlayerItemConsume => "PlayerItemConsumeEvent"@,
        EventKind::PlayerItemDamage => "PlayerItemDamageEvent"@,
        EventKind::PlayerItemHeld => "PlayerItemHeldEvent"@,
        EventKind::PlayerItemMend => "PlayerItemMendEvent"@,
        EventKind::PlayerJoin => "PlayerJoinEvent"@,
        EventKind::PlayerKick => "PlayerKickEvent"@,
        EventKind::PlayerLevelChange => "PlayerLevelChangeEvent"@,
        EventKind::PlayerLogin => "PlayerLoginEvent"@,
        EventKind::PlayerMove => "PlayerMoveEvent"@,
        EventKind::PlayerPickupArrow => "PlayerPickupArrowEvent"@,
        EventKind::PlayerPortal => "PlayerPortalEvent"@,
        EventKind::PlayerLeave => "PlayerQuitEvent"@,
        EventKind::PlayerRecipeDiscover => "PlayerRecipeDiscoverEvent"@,
        EventKind::PlayerRegisterChannel => "PlayerRegisterChannelEvent"@,
        EventKind::PlayerResourcePackStatus => "PlayerResourcePackStatusEvent"@,
        EventKind::PlayerRespawn => "PlayerRespawnEvent"@,
        EventKind::PlayerRiptide => "PlayerRiptideEvent"@,
        EventKind::PlayerShearEntity => "PlayerShearEntityEvent"@,
        EventKind::PlayerStatisticIncrement => "PlayerStatisticIncrementEvent"@,
        EventKind::PlayerSwapHandItems => "PlayerSwapHandItemsEvent"@,
        EventKind::PlayerTeleport => "PlayerTeleportEvent"@,
        EventKind::PlayerToggleFlight => "PlayerToggleFlightEvent"@,
        EventKind::PlayerToggleSneak => "PlayerToggleSneakEvent"@,
        EventKind::PlayerToggleSprint => "PlayerToggleSprintEvent"@,
        EventKind::PlayerUnregisterChannel => "PlayerUnregisterChannelEvent"@,
        EventKind::PlayerVelocity => "PlayerVelocityEvent"@,
        EventKind::ServerBroadcast => "BroadcastMessageEvent"@,
        EventKind::ServerCommand => "ServerCommandEvent"@,
    }
}

/// The fully qualified Bukkit class a kind is delivered as.
pub open spec fn bukkit_event_class(kind: EventKind) -> Seq<char> {
    category_package(kind_category(kind)) + kind_simple_name(kind)
}

/// The block event kind with the Bukkit simple class name `simple`.
pub open spec fn block_kind_spec(simple: Seq<char>) -> Option<EventKind> {
    if simple == "BlockBreakEvent"@ {
        Some(EventKind::BlockBreak)
    } else if simple == "BlockBurnEvent"@ {
        Some(EventKind::BlockBurn)
    } else if simple == "BlockCanBuildEvent"@ {
        Some(EventKind::BlockCanBuild)
    } else if simple == "BlockDamageAbortEvent"@ {
        Some(EventKind::BlockDamageAbort)
    } else if simple == "BlockDamageEvent"@ {
        Some(EventKind::BlockDamage)
    } else if simple == "BlockDispenseEvent"@ {
        Some(EventKind::BlockDispense)
    } else if simple == "BlockDropItemEvent"@ {
        Some(EventKind::BlockDropItem)
    } else if simple == "BlockExplodeEvent"@ {
        Some(EventKind::BlockExplode)
    } else if simple == "BlockFadeEvent"@ {
        Some(EventKind::BlockFade)
    } else if simple == "BlockIgniteEvent"@ {
        Some(EventKind::BlockIgnite)
    } else if simple == "BlockPlaceEvent"@ {
        Some(EventKind::BlockPlace)
    } else if simple == "BlockSpreadEvent"@ {
        Some(EventKind::BlockSpread)
    } else {
        None
    }
}

fn block_kind(simple: &str) -> (r: Option<EventKind>)
    ensures
        r == block_kind_spec(simple@),
{
    if str_eq(simple, "BlockBreakEvent") {
        Some(EventKind::BlockBreak)
    } else if str_eq(simple, "BlockBurnEvent") {
        Some(EventKind::BlockBurn)
    } else if str_eq(simple, "BlockCanBuildEvent") {
        Some(EventKind::BlockCanBuild)
    } else if str_eq(simple, "BlockDamageAbortEvent") {
        Some(EventKind::BlockDamageAbort)
    } else if str_eq(simple, "BlockDamageEvent") {
        Some(EventKind::BlockDamage)
    } else if str_eq(simple, "BlockDispenseEvent") {
        Some(EventKind::BlockDispense)
    } else if str_eq(simple, "BlockDropItemEvent") {
        Some(EventKind::BlockDropItem)
    } else if str_eq(simple, "BlockExplodeEvent") {
        Some(EventKind::BlockExplode)
    } else if str_eq(simple, "BlockFadeEvent") {
        Some(EventKind::BlockFade)
    } else if str_eq(simple, "BlockIgniteEvent") {
        Some(EventKind::BlockIgnite)
    } else if str_eq(simple, "BlockPlaceEvent") {
        Some(EventKind::BlockPlace)
    } else if str_eq(simple, "BlockSpreadEvent") {
        Some(EventKind::BlockSpread)
    } else {
        None
    }
}

/// The entity event kind with the Bukkit simple class name `simple`.
pub open spec fn entity_kind_spec(simple: Seq<char>) -> Option<EventKind> {
    if simple == "EntityDamageEvent"@ {
        Some(EventKind::EntityDamage)
    } else if simple == "EntityDeathEvent"@ {
        Some(EventKind::EntityDeath)
    } else if simple == "EntitySpawnEvent"@ {
        Some(EventKind::EntitySpawn)
    } else {
        None
    }
}

fn entity_kind(simple: &str) -> (r: Option<EventKind>)
    ensures
        r == entity_kind_spec(simple@),
{
    if str_eq(simple, "EntityDamageEvent") {
        Some(EventKind::EntityDamage)
    } else if str_eq(simple, "EntityDeathEvent") {
        Some(EventKind::EntityDeath)
    } else if str_eq(simple, "EntitySpawnEvent") {
        Some(EventKind::EntitySpawn)
    } else {
        None
    }
}

/// The player event kind with the Bukkit simple class name `simple`.
pub open spec fn player_kind_spec(simple: Seq<char>) -> Option<EventKind> {
    if simple == "AsyncPlayerChatEvent"@ {
        Some(EventKind::PlayerChat)
    } else if simple == "AsyncPlayerPreLoginEvent"@ {
        Some(EventKind::PlayerPreLogin)
    } else if simple == "PlayerAdvancementDoneEvent"@ {
        Some(EventKind::PlayerAdvancementDone)
    } else if simple == "PlayerAnimationEvent"@ {
        Some(EventKind::PlayerAnimation)
    } else if simple == "PlayerArmorStandManipulateEvent"@ {
        Some(EventKind::PlayerArmorStandManipulate)
    } else if simple == "PlayerBedEnterEvent"@ {
        Some(EventKind::PlayerBedEnter)
    } else if simple == "PlayerBedLeaveEvent"@ {
        Some(EventKind::PlayerBedLeave)
    } else if simple == "PlayerBucketEmptyEvent"@ {
        Some(EventKind::PlayerBucketEmpty)
    } else if simple == "PlayerBucketEntityEvent"@ {
        Some(EventKind::PlayerBucketEntity)
    } else if simple == "PlayerBucketFillEvent"@ {
        Some(EventKind::PlayerBucketFill)
    } else if simple == "PlayerChangedMainHandEvent"@ {
        Some(EventKind::PlayerChangedMainHand)
    } else if simple == "PlayerChangedWorldEvent"@ {
        Some(EventKind::PlayerChangeWorld)
    } else if simple == "PlayerCommandPreprocessEvent"@ {
        Some(EventKind::PlayerCommandPreprocess)
    } else if simple == "PlayerCommandSendEvent"@ {
        Some(EventKind::PlayerCommandSend)
    } else if simple == "PlayerDropItemEvent"@ {
        Some(EventKind::PlayerDropItem)
    } else if simple == "PlayerEditBookEvent"@ {
        Some(EventKind::PlayerEditBook)
    } else if simple == "PlayerEggThrowEvent"@ {
        Some(EventKind::PlayerEggThrow)
    } else if simple == "PlayerExpChangeEvent"@ {
        Some(EventKind::PlayerExpChange)
    } else if simple == "PlayerFishEvent"@ {
        Some(EventKind::PlayerFish)
    } else if simple == "PlayerGameModeChangeEvent"@ {
        Some(EventKind::PlayerGamemodeChange)
    } else if simple == "PlayerHarvestBlockEvent"@ {
        Some(EventKind::PlayerHarvestBlock)
    } else if simple == "PlayerInteractAtEntityEvent"@ {
        Some(EventKind::PlayerInteractAtEntity)
    } else if simple == "PlayerInteractEntityEvent"@ {
        Some(EventKind::PlayerInteractEntity)
    } else if simple == "PlayerInteractEvent"@ {
        Some(EventKind::PlayerInteract)
    } else if simple == "PlayerItemBreakEvent"@ {
        Some(EventKind::PlayerItemBreak)
    } else if simple == "PlayerItemConsumeEvent"@ {
        Some(EventKind::PlayerItemConsume)
    } else if simple == "PlayerItemDamageEvent"@ {
        Some(EventKind::PlayerItemDamage)
    } else if simple == "PlayerItemHeldEvent"@ {
        Some(EventKind::PlayerItemHeld)
    } else if simple == "PlayerItemMendEvent"@ {
        Some(EventKind::PlayerItemMend)
    } else if simple == "PlayerJoinEvent"@ {
        Some(EventKind::PlayerJoin)
    } else if simple == "PlayerKickEvent"@ {
        Some(EventKind::PlayerKick)
    } else if simple == "PlayerLevelChangeEvent"@ {
        Some(EventKind::PlayerLevelChange)
    } else if simple == "PlayerLoginEvent"@ {
        Some(EventKind::PlayerLogin)
    } else if simple == "PlayerMoveEvent"@ {
        Some(EventKind::PlayerMove)
    } else if simple == "PlayerPickupArrowEvent"@ {
        Some(EventKind::PlayerPickupArrow)
    } else if simple == "PlayerPortalEvent"@ {
        Some(EventKind::PlayerPortal)
    } else if simple == "PlayerQuitEvent"@ {
        Some(EventKind::PlayerLeave)
    } else if simple == "PlayerRecipeDiscoverEvent"@ {
        Some(EventKind::PlayerRecipeDiscover)
    } else if simple == "PlayerRegisterChannelEvent"@ {
        Some(EventKind::PlayerRegisterChannel)
    } else if simple == "PlayerResourcePackStatusEvent"@ {
        Some(EventKind::PlayerResourcePackStatus)
    } else if simple == "PlayerRespawnEvent"@ {
        Some(EventKind::PlayerRespawn)
    } else if simple == "PlayerRiptideEvent"@ {
        Some(EventKind::PlayerRiptide)
    } else if simple == "PlayerShearEntityEvent"@ {
        Some(EventKind::PlayerShearEntity)
    } else if simple == "PlayerStatisticIncrementEvent"@ {
        Some(EventKind::PlayerStatisticIncrement)
    } else if simple == "PlayerSwapHandItemsEvent"@ {
        Some(EventKind::PlayerSwapHandItems)
    } else if simple == "PlayerTeleportEvent"@ {
        Some(EventKind::PlayerTeleport)
    } else if simple == "PlayerToggleFlightEvent"@ {
        Some(EventKind::PlayerToggleFlight)
    } else if simple == "PlayerToggleSneakEvent"@ {
        Some(EventKind::PlayerToggleSneak)
    } else if simple == "PlayerToggleSprintEvent"@ {
        Some(EventKind::PlayerToggleSprint)
    } else if simple == "PlayerUnregisterChannelEvent"@ {
        Some(EventKind::PlayerUnregisterChannel)
    } else if simple == "PlayerVelocityEvent"@ {
        Some(EventKind::PlayerVelocity)
    } else {
        None
    }
}

fn player_kind(simple: &str) -> (r: Option<EventKind>)
    ensures
        r == player_kind_spec(simple@),
{
    if str_eq(simple, "AsyncPlayerChatEvent") {
        Some(EventKind::PlayerChat)
    } else if str_eq(simple, "AsyncPlayerPreLoginEvent") {
        Some(EventKind::PlayerPreLogin)
    } else if str_eq(simple, "PlayerAdvancementDoneEvent") {
        Some(EventKind::PlayerAdvancementDone)
    } else if str_eq(simple, "PlayerAnimationEvent") {
        Some(EventKind::PlayerAnimation)
    } else if str_eq(simple, "PlayerArmorStandManipulateEvent") {
        Some(EventKind::PlayerArmorStandManipulate)
    } else if str_eq(simple, "PlayerBedEnterEvent") {
        Some(EventKind::PlayerBedEnter)
    } else if str_eq(simple, "PlayerBedLeaveEvent") {
        Some(EventKind::PlayerBedLeave)
    } else if str_eq(simple, "PlayerBucketEmptyEvent") {
        Some(EventKind::PlayerBucketEmpty)
    } else if str_eq(simple, "PlayerBucketEntityEvent") {
        Some(EventKind::PlayerBucketEntity)
    } else if str_eq(simple, "PlayerBucketFillEvent") {
        Some(EventKind::PlayerBucketFill)
    } else if str_eq(simple, "PlayerChangedMainHandEvent") {
        Some(EventKind::PlayerChangedMainHand)
    } else if str_eq(simple, "PlayerChangedWorldEvent") {
        Some(EventKind::PlayerChangeWorld)
    } else if str_eq(simple, "PlayerCommandPreprocessEvent") {
        Some(EventKind::PlayerCommandPreprocess)
    } else if str_eq(simple, "PlayerCommandSendEvent") {
        Some(EventKind::PlayerCommandSend)
    } else if str_eq(simple, "PlayerDropItemEvent") {
        Some(EventKind::PlayerDropItem)
    } else if str_eq(simple, "PlayerEditBookEvent") {
        Some(EventKind::PlayerEditBook)
    } else if str_eq(simple, "PlayerEggThrowEvent") {
        Some(EventKind::PlayerEggThrow)
    } else if str_eq(simple, "PlayerExpChangeEvent") {
        Some(EventKind::PlayerExpChange)
    } else if str_eq(simple, "PlayerFishEvent") {
        Some(EventKind::PlayerFish)
    } else if str_eq(simple, "PlayerGameModeChangeEvent") {
        Some(EventKind::PlayerGamemodeChange)
    } else if str_eq(simple, "PlayerHarvestBlockEvent") {
        Some(EventKind::PlayerHarvestBlock)
    } else if str_eq(simple, "PlayerInteractAtEntityEvent") {
        Some(EventKind::PlayerInteractAtEntity)
    } else if str_eq(simple, "PlayerInteractEntityEvent") {
        Some(EventKind::PlayerInteractEntity)
    } else if str_eq(simple, "PlayerInteractEvent") {
        Some(EventKind::PlayerInteract)
    } else if str_eq(simple, "PlayerItemBreakEvent") {
        Some(EventKind::PlayerItemBreak)
    } else if str_eq(simple, "PlayerItemConsumeEvent") {
        Some(EventKind::PlayerItemConsume)
    } else if str_eq(simple, "PlayerItemDamageEvent") {
        Some(EventKind::PlayerItemDamage)
    } else if str_eq(simple, "PlayerItemHeldEvent") {
        Some(EventKind::PlayerItemHeld)
    } else if str_eq(simple, "PlayerItemMendEvent") {
        Some(EventKind::PlayerItemMend)
    } else if str_eq(simple, "PlayerJoinEvent") {
        Some(EventKind::PlayerJoin)
    } else if str_eq(simple, "PlayerKickEvent") {
        Some(EventKind::PlayerKick)
    } else if str_eq(simple, "PlayerLevelChangeEvent") {
        Some(EventKind::PlayerLevelChange)
    } else if str_eq(simple, "PlayerLoginEvent") {
        Some(EventKind::PlayerLogin)
    } else if str_eq(simple, "PlayerMoveEvent") {
        Some(EventKind::PlayerMove)
    } else if str_eq(simple, "PlayerPickupArrowEvent") {
        Some(EventKind::PlayerPickupArrow)
    } else if str_eq(simple, "PlayerPortalEvent") {
        Some(EventKind::PlayerPortal)
    } else if str_eq(simple, "PlayerQuitEvent") {
        Some(EventKind::PlayerLeave)
    } else if str_eq(simple, "PlayerRecipeDiscoverEvent") {
        Some(EventKind::PlayerRecipeDiscover)
    } else if str_eq(simple, "PlayerRegisterChannelEvent") {
        Some(EventKind::PlayerRegisterChannel)
    } else if str_eq(simple, "PlayerResourcePackStatusEvent") {
        Some(EventKind::PlayerResourcePackStatus)
    } else if str_eq(simple, "PlayerRespawnEvent") {
        Some(EventKind::PlayerRespawn)
    } else if str_eq(simple, "PlayerRiptideEvent") {
        Some(EventKind::PlayerRiptide)
    } else if str_eq(simple, "PlayerShearEntityEvent") {
        Some(EventKind::PlayerShearEntity)
    } else if str_eq(simple, "PlayerStatisticIncrementEvent") {
        Some(EventKind::PlayerStatisticIncrement)
    } else if str_eq(simple, "PlayerSwapHandItemsEvent") {
        Some(EventKind::PlayerSwapHandItems)
    } else if str_eq(simple, "PlayerTeleportEvent") {
        Some(EventKind::PlayerTeleport)
    } else if str_eq(simple, "PlayerToggleFlightEvent") {
        Some(EventKind::PlayerToggleFlight)
    } else if str_eq(simple, "PlayerToggleSneakEvent") {
        Some(EventKind::PlayerToggleSneak)
    } else if str_eq(simple, "PlayerToggleSprintEvent") {
        Some(EventKind::PlayerToggleSprint)
    } else if str_eq(simple, "PlayerUnregisterChannelEvent") {
        Some(EventKind::PlayerUnregisterChannel)
    } else if str_eq(simple, "PlayerVelocityEvent") {
        Some(EventKind::PlayerVelocity)
    } else {
        None
    }
}

/// The server event kind with the Bukkit simple class name `simple`.
pub open spec fn server_kind_spec(simple: Seq<char>) -> Option<EventKind> {
    if simple == "BroadcastMessageEvent"@ {
        Some(EventKind::ServerBroadcast)
    } else if simple == "ServerCommandEvent"@ {
        Some(EventKind::ServerCommand)
    } else {
        None
    }
}

fn server_kind(simple: &str) -> (r: Option<EventKind>)
    ensures
        r == server_kind_spec(simple@),
{
    if str_eq(simple, "BroadcastMessageEvent") {
        Some(EventKind::ServerBroadcast)
    } else if str_eq(simple, "ServerCommandEvent") {
        Some(EventKind::ServerCommand)
    } else {
        None
    }
}

/// The kind of event that listeners of the Bukkit class `name` are registered
/// for; `None` for a class that has no Pumpkin counterpart.
pub open spec fn event_kind_spec(name: Seq<char>) -> Option<EventKind> {
    if has_prefix(name, category_package("block"@)) {
        block_kind_spec(name.skip(category_package("block"@).len() as int))
    } else if has_prefix(name, category_package("entity"@)) {
        entity_kind_spec(name.skip(category_package("entity"@).len() as int))
    } else if has_prefix(name, category_package("player"@)) {
        player_kind_spec(name.skip(category_package("player"@).len() as int))
    } else if has_prefix(name, category_package("server"@)) {
        server_kind_spec(name.skip(category_package("server"@).len() as int))
    } else {
        None
    }
}

/// The kind of event that listeners of the Bukkit class `name` are registered
/// for, or `None` when the class is not supported.
pub fn event_kind_from_bukkit(name: &str) -> (r: Option<EventKind>)
    ensures
        r == event_kind_spec(name@),
{
    proof {
        reveal_strlit("org.bukkit.event.block.");
        reveal_strlit("org.bukkit.event.entity.");
        reveal_strlit("org.bukkit.event.player.");
        reveal_strlit("org.bukkit.event.server.");
        reveal_strlit("org.bukkit.event.");
        reveal_strlit("block");
        reveal_strlit("entity");
        reveal_strlit("player");
        reveal_strlit("server");
        reveal_strlit(".");
        assert(category_package("block"@) =~= "org.bukkit.event.block."@);
        assert(category_package("entity"@) =~= "org.bukkit.event.entity."@);
        assert(category_package("player"@) =~= "org.bukkit.event.player."@);
        assert(category_package("server"@) =~= "org.bukkit.event.server."@);
    }
    let n = name.unicode_len();
    if starts_with(name, "org.bukkit.event.block.") {
        let simple = name.substring_char(23, n);
        block_kind(simple)
    } else if starts_with(name, "org.bukkit.event.entity.") {
        let simple = name.substring_char(24, n);
        entity_kind(simple)
    } else if starts_with(name, "org.bukkit.event.player.") {
        let simple = name.substring_char(24, n);
        player_kind(simple)
    } else if starts_with(name, "org.bukkit.event.server.") {
        let simple = name.substring_char(24, n);
        server_kind(simple)
    } else {
        None
    }
}

proof fn lemma_category_prefix(category: Seq<char>, kind: EventKind)
    requires
        kind_category(kind) == category,
    ensures
        has_prefix(bukkit_event_class(kind), category_package(category)),
        bukkit_event_class(kind).skip(category_package(category).len() as int) == kind_simple_name(kind),
{
    let p = category_package(category);
    let c = bukkit_event_class(kind);
    assert(c.subrange(0, p.len() as int) =~= p);
    assert(c.skip(p.len() as int) =~= kind_simple_name(kind));
}

proof fn lemma_category_packages()
    ensures
        category_package("player"@)[17] == 'p',
        category_package("block"@)[17] == 'b',
        category_package("entity"@)[17] == 'e',
        category_package("server"@)[17] == 's',
        category_package("player"@).len() == 24,
        category_package("block"@).len() == 23,
        category_package("entity"@).len() == 24,
        category_package("server"@).len() == 24,
{
    reveal_strlit("player");
    reveal_strlit("block");
    reveal_strlit("entity");
    reveal_strlit("server");
    reveal_strlit("org.bukkit.event.");
    reveal_strlit(".");
}

proof fn lemma_block_lookup(simple: Seq<char>)
    ensures
        block_kind_spec(simple) matches Some(k) ==> kind_simple_name(k) == simple && kind_category(k) == "block"@,
{
}

proof fn lemma_entity_lookup(simple: Seq<char>)
    ensures
        entity_kind_spec(simple) matches Some(k) ==> kind_simple_name(k) == simple && kind_category(k) == "entity"@,
{
}

proof fn lemma_player_lookup(simple: Seq<char>)
    ensures
        player_kind_spec(simple) matches Some(k) ==> kind_simple_name(k) == simple && kind_category(k) == "player"@,
{
}

proof fn lemma_server_lookup(simple: Seq<char>)
    ensures
        server_kind_spec(simple) matches Some(k) ==> kind_simple_name(k) == simple && kind_category(k) == "server"@,
{
}

/// Every kind is found under its own Bukkit class, and what the lookup finds
/// for that class is delivered as that same class.
pub proof fn law_event_class_lookup(kind: EventKind)
    ensures
        event_kind_spec(bukkit_event_class(kind)) is Some,
        event_kind_spec(bukkit_event_class(kind)) matches Some(found) ==> bukkit_event_class(found)
            == bukkit_event_class(kind),
{
    lemma_category_packages();
    let cat = kind_category(kind);
    let c = bukkit_event_class(kind);
    lemma_category_prefix(cat, kind);
    assert(c[17] == category_package(cat)[17]) by {
        assert(c.subrange(0, category_package(cat).len() as int)[17] == c[17]);
    }
    let simple = c.skip(category_package(cat).len() as int);
    lemma_block_lookup(simple);
    lemma_entity_lookup(simple);
    lemma_player_lookup(simple);
    lemma_server_lookup(simple);
    match kind {
        EventKind::BlockBreak => {},
        EventKind::BlockBurn => {},
        EventKind::BlockCanBuild => {},
        EventKind::BlockDamageAbort => {},
        EventKind::BlockDamage => {},
        EventKind::BlockDispense => {},
        EventKind::BlockDropItem => {},
        EventKind::BlockExplode => {},
        EventKind::BlockFade => {},
        EventKind::BlockIgnite => {},
        EventKind::BlockPlace => {},
        EventKind::BlockSpread => {},
        EventKind::EntityDamage => {},
        EventKind::EntityDeath => {},
        EventKind::EntitySpawn => {},
        EventKind::PlayerChat => {},
        EventKind::PlayerPreLogin => {},
        EventKind::PlayerAdvancementDone => {},
        EventKind::PlayerAnimation => {},
        EventKind::PlayerArmorStandManipulate => {},
        EventKind::PlayerBedEnter => {},
        EventKind::PlayerBedLeave => {},
        EventKind::PlayerBucketEmpty => {},
        EventKind::PlayerBucketEntity => {},
        EventKind::PlayerBucketFill => {},
        EventKind::PlayerChangedMainHand => {},
        EventKind::PlayerChangeWorld => {},
        EventKind::PlayerCommandPreprocess => {},
        EventKind::PlayerCommandSend => {},
        EventKind::PlayerDropItem => {},
        EventKind::PlayerEditBook => {},
        EventKind::PlayerEggThrow => {},
        EventKind::PlayerExpChange => {},
        EventKind::PlayerFish => {},
        EventKind::PlayerGamemodeChange => {},
        EventKind::PlayerHarvestBlock => {},
        EventKind::PlayerInteractAtEntity => {},
        EventKind::PlayerInteractEntity => {},
        EventKind::PlayerInteract => {},
        EventKind::PlayerItemBreak => {},
        EventKind::PlayerItemConsume => {},
        EventKind::PlayerItemDamage => {},
        EventKind::PlayerItemHeld => {},
        EventKind::PlayerItemMend => {},
        EventKind::PlayerJoin => {},
        EventKind::PlayerKick => {},
        EventKind::PlayerLevelChange => {},
        EventKind::PlayerLogin => {},
        EventKind::PlayerMove => {},
        EventKind::PlayerPickupArrow => {},
        EventKind::PlayerPortal => {},
        EventKind::PlayerLeave => {},
        EventKind::PlayerRecipeDiscover => {},
        EventKind::PlayerRegisterChannel => {},
        EventKind::PlayerResourcePackStatus => {},
        EventKind::PlayerRespawn => {},
        EventKind::PlayerRiptide => {},
        EventKind::PlayerShearEntity => {},
        EventKind::PlayerStatisticIncrement => {},
        EventKind::PlayerSwapHandItems => {},
        EventKind::PlayerTeleport => {},
        EventKind::PlayerToggleFlight => {},
        EventKind::PlayerToggleSneak => {},
        EventKind::PlayerToggleSprint => {},
        EventKind::PlayerUnregisterChannel => {},
        EventKind::PlayerVelocity => {},
        EventKind::ServerBroadcast => {},
        EventKind::ServerCommand => {},
    }
}

/// The name of each kind, as the enum declares it.
pub open spec fn kind_label(kind: EventKind) -> Seq<char> {
    match kind {
        EventKind::BlockBreak => "BlockBreak"@,
        EventKind::BlockBurn => "BlockBurn"@,
        EventKind::BlockCanBuild => "BlockCanBuild"@,
        EventKind::BlockDamageAbort => "BlockDamageAbort"@,
        EventKind::BlockDamage => "BlockDamage"@,
        EventKind::BlockDispense => "BlockDispense"@,
        EventKind::BlockDropItem => "BlockDropItem"@,
        EventKind::BlockExplode => "BlockExplode"@,
        EventKind::BlockFade => "BlockFade"@,
        EventKind::BlockIgnite => "BlockIgnite"@,
        EventKind::BlockPlace => "BlockPlace"@,
        EventKind::BlockSpread => "BlockSpread"@,
        EventKind::EntityDamage => "EntityDamage"@,
        EventKind::EntityDeath => "EntityDeath"@,
        EventKind::EntitySpawn => "EntitySpawn"@,
        EventKind::PlayerChat => "PlayerChat"@,
        EventKind::PlayerPreLogin => "PlayerPreLogin"@,
        EventKind::PlayerAdvancementDone => "PlayerAdvancementDone"@,
        EventKind::PlayerAnimation => "PlayerAnimation"@,
        EventKind::PlayerArmorStandManipulate => "PlayerArmorStandManipulate"@,
        EventKind::PlayerBedEnter => "PlayerBedEnter"@,
        EventKind::PlayerBedLeave => "PlayerBedLeave"@,
        EventKind::PlayerBucketEmpty => "PlayerBucketEmpty"@,
        EventKind::PlayerBucketEntity => "PlayerBucketEntity"@,
        EventKind::PlayerBucketFill => "PlayerBucketFill"@,
        EventKind::PlayerChangedMainHand => "PlayerChangedMainHand"@,
        EventKind::PlayerChangeWorld => "PlayerChangeWorld"@,
        EventKind::PlayerCommandPreprocess => "PlayerCommandPreprocess"@,
        EventKind::PlayerCommandSend => "PlayerCommandSend"@,
        EventKind::PlayerDropItem => "PlayerDropItem"@,
        EventKind::PlayerEditBook => "PlayerEditBook"@,
        EventKind::PlayerEggThrow => "PlayerEggThrow"@,
        EventKind::PlayerExpChange => "PlayerExpChange"@,
        EventKind::PlayerFish => "PlayerFish"@,
        EventKind::PlayerGamemodeChange => "PlayerGamemodeChange"@,
        EventKind::PlayerHarvestBlock => "PlayerHarvestBlock"@,
        EventKind::PlayerInteractAtEntity => "PlayerInteractAtEntity"@,
        EventKind::PlayerInteractEntity => "PlayerInteractEntity"@,
        EventKind::PlayerInteract => "PlayerInteract"@,
        EventKind::PlayerItemBreak => "PlayerItemBreak"@,
        EventKind::PlayerItemConsume => "PlayerItemConsume"@,
        EventKind::PlayerItemDamage => "PlayerItemDamage"@,
        EventKind::PlayerItemHeld => "PlayerItemHeld"@,
        EventKind::PlayerItemMend => "PlayerItemMend"@,
        EventKind::PlayerJoin => "PlayerJoin"@,
        EventKind::PlayerKick => "PlayerKick"@,
        EventKind::PlayerLevelChange => "PlayerLevelChange"@,
        EventKind::PlayerLogin => "PlayerLogin"@,
        EventKind::PlayerMove => "PlayerMove"@,
        EventKind::PlayerPickupArrow => "PlayerPickupArrow"@,
        EventKind::PlayerPortal => "PlayerPortal"@,
        EventKind::PlayerLeave => "PlayerLeave"@,
        EventKind::PlayerRecipeDiscover => "PlayerRecipeDiscover"@,
        EventKind::PlayerRegisterChannel => "PlayerRegisterChannel"@,
        EventKind::PlayerResourcePackStatus => "PlayerResourcePackStatus"@,
        EventKind::PlayerRespawn => "PlayerRespawn"@,
        EventKind::PlayerRiptide => "PlayerRiptide"@,
        EventKind::PlayerShearEntity => "PlayerShearEntity"@,
        EventKind::PlayerStatisticIncrement => "PlayerStatisticIncrement"@,
        EventKind::PlayerSwapHandItems => "PlayerSwapHandItems"@,
        EventKind::PlayerTeleport => "PlayerTeleport"@,
        EventKind::PlayerToggleFlight => "PlayerToggleFlight"@,
        EventKind::PlayerToggleSneak => "PlayerToggleSneak"@,
        EventKind::PlayerToggleSprint => "PlayerToggleSprint"@,
        EventKind::PlayerUnregisterChannel => "PlayerUnregisterChannel"@,
        EventKind::PlayerVelocity => "PlayerVelocity"@,
        EventKind::ServerBroadcast => "ServerBroadcast"@,
        EventKind::ServerCommand => "ServerCommand"@,
    }
}

/// A word with its first letter in capitals (`block` becomes `Block`).
pub open spec fn capitalized(word: Seq<char>) -> Seq<char> {
    if word.len() > 0 && 'a' <= word[0] <= 'z' {
        seq![((word[0] as u32) - 32) as char] + word.drop_first()
    } else {
        word
    }
}

/// Where Bukkit's class of a kind is not named after the kind.
pub open spec fn renamed_by_bukkit(kind: EventKind) -> bool {
        kind == EventKind::PlayerChat
            || kind == EventKind::PlayerPreLogin
            || kind == EventKind::PlayerChangeWorld
            || kind == EventKind::PlayerGamemodeChange
            || kind == EventKind::PlayerLeave
            || kind == EventKind::ServerBroadcast
}

/// The Bukkit class of a kind is in the package of the kind's category, and
/// its simple name is the kind's name followed by `Event`, except for the
/// classes Bukkit names otherwise; the kind's name starts with its category.
pub proof fn law_event_class_names(kind: EventKind)
    ensures
        bukkit_event_class(kind) == "org.bukkit.event."@ + kind_category(kind) + "."@ + kind_simple_name(kind),
        !renamed_by_bukkit(kind) ==> kind_simple_name(kind) == kind_label(kind) + "Event"@,
        has_prefix(kind_label(kind), capitalized(kind_category(kind))),
        kind_simple_name(EventKind::PlayerChat) == "AsyncPlayerChatEvent"@,
        kind_simple_name(EventKind::PlayerPreLogin) == "AsyncPlayerPreLoginEvent"@,
        kind_simple_name(EventKind::PlayerChangeWorld) == "PlayerChangedWorldEvent"@,
        kind_simple_name(EventKind::PlayerGamemodeChange) == "PlayerGameModeChangeEvent"@,
        kind_simple_name(EventKind::PlayerLeave) == "PlayerQuitEvent"@,
        kind_simple_name(EventKind::ServerBroadcast) == "BroadcastMessageEvent"@,
{
    match kind {
        EventKind::BlockBreak => {
            assert(has_prefix(kind_label(kind), capitalized(kind_category(kind)))) by {
                reveal_strlit("BlockBreak");
                reveal_strlit("block");
                reveal_strlit("Block");
                assert(capitalized("block"@) =~= "Block"@);
                assert("BlockBreak"@.subrange(0, 5) =~= "Block"@);
            }
            assert(kind_simple_name(kind) == kind_label(kind) + "Event"@) by {
                reveal_strlit("BlockBreak");
                reveal_strlit("Event");
                reveal_strlit("BlockBreakEvent");
                assert("BlockBreak"@ + "Event"@ =~= "BlockBreakEvent"@);
            }
        },
        EventKind::BlockBurn => {
            assert(has_prefix(kind_label(kind), capitalized(kind_category(kind)))) by {
                reveal_strlit("BlockBurn");
                reveal_strlit("block");
                reveal_strlit("Block");
                assert(capitalized("block"@) =~= "Block"@);
                assert("BlockBurn"@.subrange(0, 5) =~= "Block"@);
            }
            assert(kind_simple_name(kind) == kind_label(kind) + "Event"@) by {
                reveal_strlit("BlockBurn");
                reveal_strlit("Event");
                reveal_strlit("BlockBurnEvent");
                assert("BlockBurn"@ + "Event"@ =~= "BlockBurnEvent"@);
            }
        },
        EventKind::BlockCanBuild => {
            assert(has_prefix(kind_label(kind), capitalized(kind_category(kind)))) by {
                reveal_strlit("BlockCanBuild");
                reveal_strlit("block");
                reveal_strlit("Block");
                assert(capitalized("block"@) =~= "Block"@);
                assert("BlockCanBuild"@.subrange(0, 5) =~= "Block"@);
            }
            assert(kind_simple_name(kind) == kind_label(kind) + "Event"@) by {
                reveal_strlit("BlockCanBuild");
                reveal_strlit("Event");
                reveal_strlit("BlockCanBuildEvent");
                assert("BlockCanBuild"@ + "Event"@ =~= "BlockCanBuildEvent"@);
            }
        },
        EventKind::BlockDamageAbort => {
            assert(has_prefix(kind_label(kind), capitalized(kind_category(kind)))) by {
                reveal_strlit("BlockDamageAbort");
                reveal_strlit("block");
                reveal_strlit("Block");
                assert(capitalized("block"@) =~= "Block"@);
                assert("BlockDamageAbort"@.subrange(0, 5) =~= "Block"@);
            }
            assert(kind_simple_name(kind) == kind_label(kind) + "Event"@) by {
                reveal_strlit("BlockDamageAbort");
                reveal_strlit("Event");
                reveal_strlit("BlockDamageAbortEvent");
                assert("BlockDamageAbort"@ + "Event"@ =~= "BlockDamageAbortEvent"@);
            }
        },
        EventKind::BlockDamage => {
            assert(has_prefix(kind_label(kind), capitalized(kind_category(kind)))) by {
                reveal_strlit("BlockDamage");
                reveal_strlit("block");
                reveal_strlit("Block");
                assert(capitalized("block"@) =~= "Block"@);
                assert("BlockDamage"@.subrange(0, 5) =~= "Block"@);
            }
            assert(kind_simple_name(kind) == kind_label(kind) + "Event"@) by {
                reveal_strlit("BlockDamage");
                reveal_strlit("Event");
                reveal_strlit("BlockDamageEvent");
                assert("BlockDamage"@ + "Event"@ =~= "BlockDamageEvent"@);
            }
        },
        EventKind::BlockDispense => {
            assert(has_prefix(kind_label(kind), capitalized(kind_category(kind)))) by {
                reveal_strlit("BlockDispense");
                reveal_strlit("block");
                reveal_strlit("Block");
                assert(capitalized("block"@) =~= "Block"@);
                assert("BlockDispense"@.subrange(0, 5) =~= "Block"@);
            }
            assert(kind_simple_name(kind) == kind_label(kind) + "Event"@) by {
                reveal_strlit("BlockDispense");
                reveal_strlit("Event");
                reveal_strlit("BlockDispenseEvent");
                assert("BlockDispense"@ + "Event"@ =~= "BlockDispenseEvent"@);
            }
        },
        EventKind::BlockDropItem => {
            assert(has_prefix(kind_label(kind), capitalized(kind_category(kind)))) by {
                reveal_strlit("BlockDropItem");
                reveal_strlit("block");
                reveal_strlit("Block");
                assert(capitalized("block"@) =~= "Block"@);
                assert("BlockDropItem"@.subrange(0, 5) =~= "Block"@);
            }
            assert(kind_simple_name(kind) == kind_label(kind) + "Event"@) by {
                reveal_strlit("BlockDropItem");
                reveal_strlit("Event");
                reveal_strlit("BlockDropItemEvent");
                assert("BlockDropItem"@ + "Event"@ =~= "BlockDropItemEvent"@);
            }
        },
        EventKind::BlockExplode => {
            assert(has_prefix(kind_label(kind), capitalized(kind_category(kind)))) by {
                reveal_strlit("BlockExplode");
                reveal_strlit("block");
                reveal_strlit("Block");
                assert(capitalized("block"@) =~= "Block"@);
                assert("BlockExplode"@.subrange(0, 5) =~= "Block"@);
            }
            assert(kind_simple_name(kind) == kind_label(kind) + "Event"@) by {
                reveal_strlit("BlockExplode");
                reveal_strlit("Event");
                reveal_strlit("BlockExplodeEvent");
                assert("BlockExplode"@ + "Event"@ =~= "BlockExplodeEvent"@);
            }
        },
        EventKind::BlockFade => {
            assert(has_prefix(kind_label(kind), capitalized(kind_category(kind)))) by {
                reveal_strlit("BlockFade");
                reveal_strlit("block");
                reveal_strlit("Block");
                assert(capitalized("block"@) =~= "Block"@);
                assert("BlockFade"@.subrange(0, 5) =~= "Block"@);
            }
            assert(kind_simple_name(kind) == kind_label(kind) + "Event"@) by {
                reveal_strlit("BlockFade");
                reveal_strlit("Event");
                reveal_strlit("BlockFadeEvent");
                assert("BlockFade"@ + "Event"@ =~= "BlockFadeEvent"@);
            }
        },
        EventKind::BlockIgnite => {
            assert(has_prefix(kind_label(kind), capitalized(kind_category(kind)))) by {
                reveal_strlit("BlockIgnite");
                reveal_strlit("block");
                reveal_strlit("Block");
                assert(capitalized("block"@) =~= "Block"@);
                assert("BlockIgnite"@.subrange(0, 5) =~= "Block"@);
            }
            assert(kind_simple_name(kind) == kind_label(kind) + "Event"@) by {
                reveal_strlit("BlockIgnite");
                reveal_strlit("Event");
                reveal_strlit("BlockIgniteEvent");
                assert("BlockIgnite"@ + "Event"@ =~= "BlockIgniteEvent"@);
            }
        },
        EventKind::BlockPlace => {
            assert(has_prefix(kind_label(kind), capitalized(kind_category(kind)))) by {
                reveal_strlit("BlockPlace");
                reveal_strlit("block");
                reveal_strlit("Block");
                assert(capitalized("block"@) =~= "Block"@);
                assert("BlockPlace"@.subrange(0, 5) =~= "Block"@);
            }
            assert(kind_simple_name(kind) == kind_label(kind) + "Event"@) by {
                reveal_strlit("BlockPlace");
                reveal_strlit("Event");
                reveal_strlit("BlockPlaceEvent");
                assert("BlockPlace"@ + "Event"@ =~= "BlockPlaceEvent"@);
            }
        },
        EventKind::BlockSpread => {
            assert(has_prefix(kind_label(kind), capitalized(kind_category(kind)))) by {
                reveal_strlit("BlockSpread");
                reveal_strlit("block");
                reveal_strlit("Block");
                assert(capitalized("block"@) =~= "Block"@);
                assert("BlockSpread"@.subrange(0, 5) =~= "Block"@);
            }
            assert(kind_simple_name(kind) == kind_label(kind) + "Event"@) by {
                reveal_strlit("BlockSpread");
                reveal_strlit("Event");
                reveal_strlit("BlockSpreadEvent");
                assert("BlockSpread"@ + "Event"@ =~= "BlockSpreadEvent"@);
            }
        },
        EventKind::EntityDamage => {
            assert(has_prefix(kind_label(kind), capitalized(kind_category(kind)))) by {
                reveal_strlit("EntityDamage");
                reveal_strlit("entity");
                reveal_strlit("Entity");
                assert(capitalized("entity"@) =~= "Entity"@);
                assert("EntityDamage"@.subrange(0, 6) =~= "Entity"@);
            }
            assert(kind_simple_name(kind) == kind_label(kind) + "Event"@) by {
                reveal_strlit("EntityDamage");
                reveal_strlit("Event");
                reveal_strlit("EntityDamageEvent");
                assert("EntityDamage"@ + "Event"@ =~= "EntityDamageEvent"@);
            }
        },
        EventKind::EntityDeath => {
            assert(has_prefix(kind_label(kind), capitalized(kind_category(kind)))) by {
                reveal_strlit("EntityDeath");
                reveal_strlit("entity");
                reveal_strlit("Entity");
                assert(capitalized("entity"@) =~= "Entity"@);
                assert("EntityDeath"@.subrange(0, 6) =~= "Entity"@);
            }
            assert(kind_simple_name(kind) == kind_label(kind) + "Event"@) by {
                reveal_strlit("EntityDeath");
                reveal_strlit("Event");
                reveal_strlit("EntityDeathEvent");
                assert("EntityDeath"@ + "Event"@ =~= "EntityDeathEvent"@);
            }
        },
        EventKind::EntitySpawn => {
            assert(has_prefix(kind_label(kind), capitalized(kind_category(kind)))) by {
                reveal_strlit("EntitySpawn");
                reveal_strlit("entity");
                reveal_strlit("Entity");
                assert(capitalized("entity"@) =~= "Entity"@);
                assert("EntitySpawn"@.subrange(0, 6) =~= "Entity"@);
            }
            assert(kind_simple_name(kind) == kind_label(kind) + "Event"@) by {
                reveal_strlit("EntitySpawn");
                reveal_strlit("Event");
                reveal_strlit("EntitySpawnEvent");
                assert("EntitySpawn"@ + "Event"@ =~= "EntitySpawnEvent"@);
            }
        },
        EventKind::PlayerChat => {
            assert(has_prefix(kind_label(kind), capitalized(kind_category(kind)))) by {
                reveal_strlit("PlayerChat");
                reveal_strlit("player");
                reveal_strlit("Player");
                assert(capitalized("player"@) =~= "Player"@);
                assert("PlayerChat"@.subrange(0, 6) =~= "Player"@);
            }
        },
        EventKind::PlayerPreLogin => {
            assert(has_prefix(kind_label(kind), capitalized(kind_category(kind)))) by {
                reveal_strlit("PlayerPreLogin");
                reveal_strlit("player");
                reveal_strlit("Player");
                assert(capitalized("player"@) =~= "Player"@);
                assert("PlayerPreLogin"@.subrange(0, 6) =~= "Player"@);
            }
        },
        EventKind::PlayerAdvancementDone => {
            assert(has_prefix(kind_label(kind), capitalized(kind_category(kind)))) by {
                reveal_strlit("PlayerAdvancementDone");
                reveal_strlit("player");
                reveal_strlit("Player");
                assert(capitalized("player"@) =~= "Player"@);
                assert("PlayerAdvancementDone"@.subrange(0, 6) =~= "Player"@);
            }
            assert(kind_simple_name(kind) == kind_label(kind) + "Event"@) by {
                reveal_strlit("PlayerAdvancementDone");
                reveal_strlit("Event");
                reveal_strlit("PlayerAdvancementDoneEvent");
                assert("PlayerAdvancementDone"@ + "Event"@ =~= "PlayerAdvancementDoneEvent"@);
            }
        },
        EventKind::PlayerAnimation => {
            assert(has_prefix(kind_label(kind), capitalized(kind_category(kind)))) by {
                reveal_strlit("PlayerAnimation");
                reveal_strlit("player");
                reveal_strlit("Player");
                assert(capitalized("player"@) =~= "Player"@);
                assert("PlayerAnimation"@.subrange(0, 6) =~= "Player"@);
            }
            assert(kind_simple_name(kind) == kind_label(kind) + "Event"@) by {
                reveal_strlit("PlayerAnimation");
                reveal_strlit("Event");
                reveal_strlit("PlayerAnimationEvent");
                assert("PlayerAnimation"@ + "Event"@ =~= "PlayerAnimationEvent"@);
            }
        },
        EventKind::PlayerArmorStandManipulate => {
            assert(has_prefix(kind_label(kind), capitalized(kind_category(kind)))) by {
                reveal_strlit("PlayerArmorStandManipulate");
                reveal_strlit("player");
                reveal_strlit("Player");
                assert(capitalized("player"@) =~= "Player"@);
                assert("PlayerArmorStandManipulate"@.subrange(0, 6) =~= "Player"@);
            }
            assert(kind_simple_name(kind) == kind_label(kind) + "Event"@) by {
                reveal_strlit("PlayerArmorStandManipulate");
                reveal_strlit("Event");
                reveal_strlit("PlayerArmorStandManipulateEvent");
                assert("PlayerArmorStandManipulate"@ + "Event"@ =~= "PlayerArmorStandManipulateEvent"@);
            }
        },
        EventKind::PlayerBedEnter => {
            assert(has_prefix(kind_label(kind), capitalized(kind_category(kind)))) by {
                reveal_strlit("PlayerBedEnter");
                reveal_strlit("player");
                reveal_strlit("Player");
                assert(capitalized("player"@) =~= "Player"@);
                assert("PlayerBedEnter"@.subrange(0, 6) =~= "Player"@);
            }
            assert(kind_simple_name(kind) == kind_label(kind) + "Event"@) by {
                reveal_strlit("PlayerBedEnter");
                reveal_strlit("Event");
                reveal_strlit("PlayerBedEnterEvent");
                assert("PlayerBedEnter"@ + "Event"@ =~= "PlayerBedEnterEvent"@);
            }
        },
        EventKind::PlayerBedLeave => {
            assert(has_prefix(kind_label(kind), capitalized(kind_category(kind)))) by {
                reveal_strlit("PlayerBedLeave");
                reveal_strlit("player");
                reveal_strlit("Player");
                assert(capitalized("player"@) =~= "Player"@);
                assert("PlayerBedLeave"@.subrange(0, 6) =~= "Player"@);
            }
            assert(kind_simple_name(kind) == kind_label(kind) + "Event"@) by {
                reveal_strlit("PlayerBedLeave");
                reveal_strlit("Event");
                reveal_strlit("PlayerBedLeaveEvent");
                assert("PlayerBedLeave"@ + "Event"@ =~= "PlayerBedLeaveEvent"@);
            }
        },
        EventKind::PlayerBucketEmpty => {
            assert(has_prefix(kind_label(kind), capitalized(kind_category(kind)))) by {
                reveal_strlit("PlayerBucketEmpty");
                reveal_strlit("player");
                reveal_strlit("Player");
                assert(capitalized("player"@) =~= "Player"@);
                assert("PlayerBucketEmpty"@.subrange(0, 6) =~= "Player"@);
            }
            assert(kind_simple_name(kind) == kind_label(kind) + "Event"@) by {
                reveal_strlit("PlayerBucketEmpty");
                reveal_strlit("Event");
                reveal_strlit("PlayerBucketEmptyEvent");
                assert("PlayerBucketEmpty"@ + "Event"@ =~= "PlayerBucketEmptyEvent"@);
            }
        },
        EventKind::PlayerBucketEntity => {
            assert(has_prefix(kind_label(kind), capitalized(kind_category(kind)))) by {
                reveal_strlit("PlayerBucketEntity");
                reveal_strlit("player");
                reveal_strlit("Player");
                assert(capitalized("player"@) =~= "Player"@);
                assert("PlayerBucketEntity"@.subrange(0, 6) =~= "Player"@);
            }
            assert(kind_simple_name(kind) == kind_label(kind) + "Event"@) by {
                reveal_strlit("PlayerBucketEntity");
                reveal_strlit("Event");
                reveal_strlit("PlayerBucketEntityEvent");
                assert("PlayerBucketEntity"@ + "Event"@ =~= "PlayerBucketEntityEvent"@);
            }
        },
        EventKind::PlayerBucketFill => {
            assert(has_prefix(kind_label(kind), capitalized(kind_category(kind)))) by {
                reveal_strlit("PlayerBucketFill");
                reveal_strlit("player");
                reveal_strlit("Player");
                assert(capitalized("player"@) =~= "Player"@);
                assert("PlayerBucketFill"@.subrange(0, 6) =~= "Player"@);
            }
            assert(kind_simple_name(kind) == kind_label(kind) + "Event"@) by {
                reveal_strlit("PlayerBucketFill");
                reveal_strlit("Event");
                reveal_strlit("PlayerBucketFillEvent");
                assert("PlayerBucketFill"@ + "Event"@ =~= "PlayerBucketFillEvent"@);
            }
        },
        EventKind::PlayerChangedMainHand => {
            assert(has_prefix(kind_label(kind), capitalized(kind_category(kind)))) by {
                reveal_strlit("PlayerChangedMainHand");
                reveal_strlit("player");
                reveal_strlit("Player");
                assert(capitalized("player"@) =~= "Player"@);
                assert("PlayerChangedMainHand"@.subrange(0, 6) =~= "Player"@);
            }
            assert(kind_simple_name(kind) == kind_label(kind) + "Event"@) by {
                reveal_strlit("PlayerChangedMainHand");
                reveal_strlit("Event");
                reveal_strlit("PlayerChangedMainHandEvent");
                assert("PlayerChangedMainHand"@ + "Event"@ =~= "PlayerChangedMainHandEvent"@);
            }
        },
        EventKind::PlayerChangeWorld => {
            assert(has_prefix(kind_label(kind), capitalized(kind_category(kind)))) by {
                reveal_strlit("PlayerChangeWorld");
                reveal_strlit("player");
                reveal_strlit("Player");
                assert(capitalized("player"@) =~= "Player"@);
                assert("PlayerChangeWorld"@.subrange(0, 6) =~= "Player"@);
            }
        },
        EventKind::PlayerCommandPreprocess => {
            assert(has_prefix(kind_label(kind), capitalized(kind_category(kind)))) by {
                reveal_strlit("PlayerCommandPreprocess");
                reveal_strlit("player");
                reveal_strlit("Player");
                assert(capitalized("player"@) =~= "Player"@);
                assert("PlayerCommandPreprocess"@.subrange(0, 6) =~= "Player"@);
            }
            assert(kind_simple_name(kind) == kind_label(kind) + "Event"@) by {
                reveal_strlit("PlayerCommandPreprocess");
                reveal_strlit("Event");
                reveal_strlit("PlayerCommandPreprocessEvent");
                assert("PlayerCommandPreprocess"@ + "Event"@ =~= "PlayerCommandPreprocessEvent"@);
            }
        },
        EventKind::PlayerCommandSend => {
            assert(has_prefix(kind_label(kind), capitalized(kind_category(kind)))) by {
                reveal_strlit("PlayerCommandSend");
                reveal_strlit("player");
                reveal_strlit("Player");
                assert(capitalized("player"@) =~= "Player"@);
                assert("PlayerCommandSend"@.subrange(0, 6) =~= "Player"@);
            }
            assert(kind_simple_name(kind) == kind_label(kind) + "Event"@) by {
                reveal_strlit("PlayerCommandSend");
                reveal_strlit("Event");
                reveal_strlit("PlayerCommandSendEvent");
                assert("PlayerCommandSend"@ + "Event"@ =~= "PlayerCommandSendEvent"@);
            }
        },
        EventKind::PlayerDropItem => {
            assert(has_prefix(kind_label(kind), capitalized(kind_category(kind)))) by {
                reveal_strlit("PlayerDropItem");
                reveal_strlit("player");
                reveal_strlit("Player");
                assert(capitalized("player"@) =~= "Player"@);
                assert("PlayerDropItem"@.subrange(0, 6) =~= "Player"@);
            }
            assert(kind_simple_name(kind) == kind_label(kind) + "Event"@) by {
                reveal_strlit("PlayerDropItem");
                reveal_strlit("Event");
                reveal_strlit("PlayerDropItemEvent");
                assert("PlayerDropItem"@ + "Event"@ =~= "PlayerDropItemEvent"@);
            }
        },
        EventKind::PlayerEditBook => {
            assert(has_prefix(kind_label(kind), capitalized(kind_category(kind)))) by {
                reveal_strlit("PlayerEditBook");
                reveal_strlit("player");
                reveal_strlit("Player");
                assert(capitalized("player"@) =~= "Player"@);
                assert("PlayerEditBook"@.subrange(0, 6) =~= "Player"@);
            }
            assert(kind_simple_name(kind) == kind_label(kind) + "Event"@) by {
                reveal_strlit("PlayerEditBook");
                reveal_strlit("Event");
                reveal_strlit("PlayerEditBookEvent");
                assert("PlayerEditBook"@ + "Event"@ =~= "PlayerEditBookEvent"@);
            }
        },
        EventKind::PlayerEggThrow => {
            assert(has_prefix(kind_label(kind), capitalized(kind_category(kind)))) by {
                reveal_strlit("PlayerEggThrow");
                reveal_strlit("player");
                reveal_strlit("Player");
                assert(capitalized("player"@) =~= "Player"@);
                assert("PlayerEggThrow"@.subrange(0, 6) =~= "Player"@);
            }
            assert(kind_simple_name(kind) == kind_label(kind) + "Event"@) by {
                reveal_strlit("PlayerEggThrow");
                reveal_strlit("Event");
                reveal_strlit("PlayerEggThrowEvent");
                assert("PlayerEggThrow"@ + "Event"@ =~= "PlayerEggThrowEvent"@);
            }
        },
        EventKind::PlayerExpChange => {
            assert(has_prefix(kind_label(kind), capitalized(kind_category(kind)))) by {
                reveal_strlit("PlayerExpChange");
                reveal_strlit("player");
                reveal_strlit("Player");
                assert(capitalized("player"@) =~= "Player"@);
                assert("PlayerExpChange"@.subrange(0, 6) =~= "Player"@);
            }
            assert(kind_simple_name(kind) == kind_label(kind) + "Event"@) by {
                reveal_strlit("PlayerExpChange");
                reveal_strlit("Event");
                reveal_strlit("PlayerExpChangeEvent");
                assert("PlayerExpChange"@ + "Event"@ =~= "PlayerExpChangeEvent"@);
            }
        },
        EventKind::PlayerFish => {
            assert(has_prefix(kind_label(kind), capitalized(kind_category(kind)))) by {
                reveal_strlit("PlayerFish");
                reveal_strlit("player");
                reveal_strlit("Player");
                assert(capitalized("player"@) =~= "Player"@);
                assert("PlayerFish"@.subrange(0, 6) =~= "Player"@);
            }
            assert(kind_simple_name(kind) == kind_label(kind) + "Event"@) by {
                reveal_strlit("PlayerFish");
                reveal_strlit("Event");
                reveal_strlit("PlayerFishEvent");
                assert("PlayerFish"@ + "Event"@ =~= "PlayerFishEvent"@);
            }
        },
        EventKind::PlayerGamemodeChange => {
            assert(has_prefix(kind_label(kind), capitalized(kind_category(kind)))) by {
                reveal_strlit("PlayerGamemodeChange");
                reveal_strlit("player");
                reveal_strlit("Player");
                assert(capitalized("player"@) =~= "Player"@);
                assert("PlayerGamemodeChange"@.subrange(0, 6) =~= "Player"@);
            }
        },
        EventKind::PlayerHarvestBlock => {
            assert(has_prefix(kind_label(kind), capitalized(kind_category(kind)))) by {
                reveal_strlit("PlayerHarvestBlock");
                reveal_strlit("player");
                reveal_strlit("Player");
                assert(capitalized("player"@) =~= "Player"@);
                assert("PlayerHarvestBlock"@.subrange(0, 6) =~= "Player"@);
            }
            assert(kind_simple_name(kind) == kind_label(kind) + "Event"@) by {
                reveal_strlit("PlayerHarvestBlock");
                reveal_strlit("Event");
                reveal_strlit("PlayerHarvestBlockEvent");
                assert("PlayerHarvestBlock"@ + "Event"@ =~= "PlayerHarvestBlockEvent"@);
            }
        },
        EventKind::PlayerInteractAtEntity => {
            assert(has_prefix(kind_label(kind), capitalized(kind_category(kind)))) by {
                reveal_strlit("PlayerInteractAtEntity");
                reveal_strlit("player");
                reveal_strlit("Player");
                assert(capitalized("player"@) =~= "Player"@);
                assert("PlayerInteractAtEntity"@.subrange(0, 6) =~= "Player"@);
            }
            assert(kind_simple_name(kind) == kind_label(kind) + "Event"@) by {
                reveal_strlit("PlayerInteractAtEntity");
                reveal_strlit("Event");
                reveal_strlit("PlayerInteractAtEntityEvent");
                assert("PlayerInteractAtEntity"@ + "Event"@ =~= "PlayerInteractAtEntityEvent"@);
            }
        },
        EventKind::PlayerInteractEntity => {
            assert(has_prefix(kind_label(kind), capitalized(kind_category(kind)))) by {
                reveal_strlit("PlayerInteractEntity");
                reveal_strlit("player");
                reveal_strlit("Player");
                assert(capitalized("player"@) =~= "Player"@);
                assert("PlayerInteractEntity"@.subrange(0, 6) =~= "Player"@);
            }
            assert(kind_simple_name(kind) == kind_label(kind) + "Event"@) by {
                reveal_strlit("PlayerInteractEntity");
                reveal_strlit("Event");
                reveal_strlit("PlayerInteractEntityEvent");
                assert("PlayerInteractEntity"@ + "Event"@ =~= "PlayerInteractEntityEvent"@);
            }
        },
        EventKind::PlayerInteract => {
            assert(has_prefix(kind_label(kind), capitalized(kind_category(kind)))) by {
                reveal_strlit("PlayerInteract");
                reveal_strlit("player");
                reveal_strlit("Player");
                assert(capitalized("player"@) =~= "Player"@);
                assert("PlayerInteract"@.subrange(0, 6) =~= "Player"@);
            }
            assert(kind_simple_name(kind) == kind_label(kind) + "Event"@) by {
                reveal_strlit("PlayerInteract");
                reveal_strlit("Event");
                reveal_strlit("PlayerInteractEvent");
                assert("PlayerInteract"@ + "Event"@ =~= "PlayerInteractEvent"@);
            }
        },
        EventKind::PlayerItemBreak => {
            assert(has_prefix(kind_label(kind), capitalized(kind_category(kind)))) by {
                reveal_strlit("PlayerItemBreak");
                reveal_strlit("player");
                reveal_strlit("Player");
                assert(capitalized("player"@) =~= "Player"@);
                assert("PlayerItemBreak"@.subrange(0, 6) =~= "Player"@);
            }
            assert(kind_simple_name(kind) == kind_label(kind) + "Event"@) by {
                reveal_strlit("PlayerItemBreak");
                reveal_strlit("Event");
                reveal_strlit("PlayerItemBreakEvent");
                assert("PlayerItemBreak"@ + "Event"@ =~= "PlayerItemBreakEvent"@);
            }
        },
        EventKind::PlayerItemConsume => {
            assert(has_prefix(kind_label(kind), capitalized(kind_category(kind)))) by {
                reveal_strlit("PlayerItemConsume");
                reveal_strlit("player");
                reveal_strlit("Player");
                assert(capitalized("player"@) =~= "Player"@);
                assert("PlayerItemConsume"@.subrange(0, 6) =~= "Player"@);
            }
            assert(kind_simple_name(kind) == kind_label(kind) + "Event"@) by {
                reveal_strlit("PlayerItemConsume");
                reveal_strlit("Event");
                reveal_strlit("PlayerItemConsumeEvent");
                assert("PlayerItemConsume"@ + "Event"@ =~= "PlayerItemConsumeEvent"@);
            }
        },
        EventKind::PlayerItemDamage => {
            assert(has_prefix(kind_label(kind), capitalized(kind_category(kind)))) by {
                reveal_strlit("PlayerItemDamage");
                reveal_strlit("player");
                reveal_strlit("Player");
                assert(capitalized("player"@) =~= "Player"@);
                assert("PlayerItemDamage"@.subrange(0, 6) =~= "Player"@);
            }
            assert(kind_simple_name(kind) == kind_label(kind) + "Event"@) by {
                reveal_strlit("PlayerItemDamage");
                reveal_strlit("Event");
                reveal_strlit("PlayerItemDamageEvent");
                assert("PlayerItemDamage"@ + "Event"@ =~= "PlayerItemDamageEvent"@);
            }
        },
        EventKind::PlayerItemHeld => {
            assert(has_prefix(kind_label(kind), capitalized(kind_category(kind)))) by {
                reveal_strlit("PlayerItemHeld");
                reveal_strlit("player");
                reveal_strlit("Player");
                assert(capitalized("player"@) =~= "Player"@);
                assert("PlayerItemHeld"@.subrange(0, 6) =~= "Player"@);
            }
            assert(kind_simple_name(kind) == kind_label(kind) + "Event"@) by {
                reveal_strlit("PlayerItemHeld");
                reveal_strlit("Event");
                reveal_strlit("PlayerItemHeldEvent");
                assert("PlayerItemHeld"@ + "Event"@ =~= "PlayerItemHeldEvent"@);
            }
        },
        EventKind::PlayerItemMend => {
            assert(has_prefix(kind_label(kind), capitalized(kind_category(kind)))) by {
                reveal_strlit("PlayerItemMend");
                reveal_strlit("player");
                reveal_strlit("Player");
                assert(capitalized("player"@) =~= "Player"@);
                assert("PlayerItemMend"@.subrange(0, 6) =~= "Player"@);
            }
            assert(kind_simple_name(kind) == kind_label(kind) + "Event"@) by {
                reveal_strlit("PlayerItemMend");
                reveal_strlit("Event");
                reveal_strlit("PlayerItemMendEvent");
                assert("PlayerItemMend"@ + "Event"@ =~= "PlayerItemMendEvent"@);
            }
        },
        EventKind::PlayerJoin => {
            assert(has_prefix(kind_label(kind), capitalized(kind_category(kind)))) by {
                reveal_strlit("PlayerJoin");
                reveal_strlit("player");
                reveal_strlit("Player");
                assert(capitalized("player"@) =~= "Player"@);
                assert("PlayerJoin"@.subrange(0, 6) =~= "Player"@);
            }
            assert(kind_simple_name(kind) == kind_label(kind) + "Event"@) by {
                reveal_strlit("PlayerJoin");
                reveal_strlit("Event");
                reveal_strlit("PlayerJoinEvent");
                assert("PlayerJoin"@ + "Event"@ =~= "PlayerJoinEvent"@);
            }
        },
        EventKind::PlayerKick => {
            assert(has_prefix(kind_label(kind), capitalized(kind_category(kind)))) by {
                reveal_strlit("PlayerKick");
                reveal_strlit("player");
                reveal_strlit("Player");
                assert(capitalized("player"@) =~= "Player"@);
                assert("PlayerKick"@.subrange(0, 6) =~= "Player"@);
            }
            assert(kind_simple_name(kind) == kind_label(kind) + "Event"@) by {
                reveal_strlit("PlayerKick");
                reveal_strlit("Event");
                reveal_strlit("PlayerKickEvent");
                assert("PlayerKick"@ + "Event"@ =~= "PlayerKickEvent"@);
            }
        },
        EventKind::PlayerLevelChange => {
            assert(has_prefix(kind_label(kind), capitalized(kind_category(kind)))) by {
                reveal_strlit("PlayerLevelChange");
                reveal_strlit("player");
                reveal_strlit("Player");
                assert(capitalized("player"@) =~= "Player"@);
                assert("PlayerLevelChange"@.subrange(0, 6) =~= "Player"@);
            }
            assert(kind_simple_name(kind) == kind_label(kind) + "Event"@) by {
                reveal_strlit("PlayerLevelChange");
                reveal_strlit("Event");
                reveal_strlit("PlayerLevelChangeEvent");
                assert("PlayerLevelChange"@ + "Event"@ =~= "PlayerLevelChangeEvent"@);
            }
        },
        EventKind::PlayerLogin => {
            assert(has_prefix(kind_label(kind), capitalized(kind_category(kind)))) by {
                reveal_strlit("PlayerLogin");
                reveal_strlit("player");
                reveal_strlit("Player");
                assert(capitalized("player"@) =~= "Player"@);
                assert("PlayerLogin"@.subrange(0, 6) =~= "Player"@);
            }
            assert(kind_simple_name(kind) == kind_label(kind) + "Event"@) by {
                reveal_strlit("PlayerLogin");
                reveal_strlit("Event");
                reveal_strlit("PlayerLoginEvent");
                assert("PlayerLogin"@ + "Event"@ =~= "PlayerLoginEvent"@);
            }
        },
        EventKind::PlayerMove => {
            assert(has_prefix(kind_label(kind), capitalized(kind_category(kind)))) by {
                reveal_strlit("PlayerMove");
                reveal_strlit("player");
                reveal_strlit("Player");
                assert(capitalized("player"@) =~= "Player"@);
                assert("PlayerMove"@.subrange(0, 6) =~= "Player"@);
            }
            assert(kind_simple_name(kind) == kind_label(kind) + "Event"@) by {
                reveal_strlit("PlayerMove");
                reveal_strlit("Event");
                reveal_strlit("PlayerMoveEvent");
                assert("PlayerMove"@ + "Event"@ =~= "PlayerMoveEvent"@);
            }
        },
        EventKind::PlayerPickupArrow => {
            assert(has_prefix(kind_label(kind), capitalized(kind_category(kind)))) by {
                reveal_strlit("PlayerPickupArrow");
                reveal_strlit("player");
                reveal_strlit("Player");
                assert(capitalized("player"@) =~= "Player"@);
                assert("PlayerPickupArrow"@.subrange(0, 6) =~= "Player"@);
            }
            assert(kind_simple_name(kind) == kind_label(kind) + "Event"@) by {
                reveal_strlit("PlayerPickupArrow");
                reveal_strlit("Event");
                reveal_strlit("PlayerPickupArrowEvent");
                assert("PlayerPickupArrow"@ + "Event"@ =~= "PlayerPickupArrowEvent"@);
            }
        },
        EventKind::PlayerPortal => {
            assert(has_prefix(kind_label(kind), capitalized(kind_category(kind)))) by {
                reveal_strlit("PlayerPortal");
                reveal_strlit("player");
                reveal_strlit("Player");
                assert(capitalized("player"@) =~= "Player"@);
                assert("PlayerPortal"@.subrange(0, 6) =~= "Player"@);
            }
            assert(kind_simple_name(kind) == kind_label(kind) + "Event"@) by {
                reveal_strlit("PlayerPortal");
                reveal_strlit("Event");
                reveal_strlit("PlayerPortalEvent");
                assert("PlayerPortal"@ + "Event"@ =~= "PlayerPortalEvent"@);
            }
        },
        EventKind::PlayerLeave => {
            assert(has_prefix(kind_label(kind), capitalized(kind_category(kind)))) by {
                reveal_strlit("PlayerLeave");
                reveal_strlit("player");
                reveal_strlit("Player");
                assert(capitalized("player"@) =~= "Player"@);
                assert("PlayerLeave"@.subrange(0, 6) =~= "Player"@);
            }
        },
        EventKind::PlayerRecipeDiscover => {
            assert(has_prefix(kind_label(kind), capitalized(kind_category(kind)))) by {
                reveal_strlit("PlayerRecipeDiscover");
                reveal_strlit("player");
                reveal_strlit("Player");
                assert(capitalized("player"@) =~= "Player"@);
                assert("PlayerRecipeDiscover"@.subrange(0, 6) =~= "Player"@);
            }
            assert(kind_simple_name(kind) == kind_label(kind) + "Event"@) by {
                reveal_strlit("PlayerRecipeDiscover");
                reveal_strlit("Event");
                reveal_strlit("PlayerRecipeDiscoverEvent");
                assert("PlayerRecipeDiscover"@ + "Event"@ =~= "PlayerRecipeDiscoverEvent"@);
            }
        },
        EventKind::PlayerRegisterChannel => {
            assert(has_prefix(kind_label(kind), capitalized(kind_category(kind)))) by {
                reveal_strlit("PlayerRegisterChannel");
                reveal_strlit("player");
                reveal_strlit("Player");
                assert(capitalized("player"@) =~= "Player"@);
                assert("PlayerRegisterChannel"@.subrange(0, 6) =~= "Player"@);
            }
            assert(kind_simple_name(kind) == kind_label(kind) + "Event"@) by {
                reveal_strlit("PlayerRegisterChannel");
                reveal_strlit("Event");
                reveal_strlit("PlayerRegisterChannelEvent");
                assert("PlayerRegisterChannel"@ + "Event"@ =~= "PlayerRegisterChannelEvent"@);
            }
        },
        EventKind::PlayerResourcePackStatus => {
            assert(has_prefix(kind_label(kind), capitalized(kind_category(kind)))) by {
                reveal_strlit("PlayerResourcePackStatus");
                reveal_strlit("player");
                reveal_strlit("Player");
                assert(capitalized("player"@) =~= "Player"@);
                assert("PlayerResourcePackStatus"@.subrange(0, 6) =~= "Player"@);
            }
            assert(kind_simple_name(kind) == kind_label(kind) + "Event"@) by {
                reveal_strlit("PlayerResourcePackStatus");
                reveal_strlit("Event");
                reveal_strlit("PlayerResourcePackStatusEvent");
                assert("PlayerResourcePackStatus"@ + "Event"@ =~= "PlayerResourcePackStatusEvent"@);
            }
        },
        EventKind::PlayerRespawn => {
            assert(has_prefix(kind_label(kind), capitalized(kind_category(kind)))) by {
                reveal_strlit("PlayerRespawn");
                reveal_strlit("player");
                reveal_strlit("Player");
                assert(capitalized("player"@) =~= "Player"@);
                assert("PlayerRespawn"@.subrange(0, 6) =~= "Player"@);
            }
            assert(kind_simple_name(kind) == kind_label(kind) + "Event"@) by {
                reveal_strlit("PlayerRespawn");
                reveal_strlit("Event");
                reveal_strlit("PlayerRespawnEvent");
                assert("PlayerRespawn"@ + "Event"@ =~= "PlayerRespawnEvent"@);
            }
        },
        EventKind::PlayerRiptide => {
            assert(has_prefix(kind_label(kind), capitalized(kind_category(kind)))) by {
                reveal_strlit("PlayerRiptide");
                reveal_strlit("player");
                reveal_strlit("Player");
                assert(capitalized("player"@) =~= "Player"@);
                assert("PlayerRiptide"@.subrange(0, 6) =~= "Player"@);
            }
            assert(kind_simple_name(kind) == kind_label(kind) + "Event"@) by {
                reveal_strlit("PlayerRiptide");
                reveal_strlit("Event");
                reveal_strlit("PlayerRiptideEvent");
                assert("PlayerRiptide"@ + "Event"@ =~= "PlayerRiptideEvent"@);
            }
        },
        EventKind::PlayerShearEntity => {
            assert(has_prefix(kind_label(kind), capitalized(kind_category(kind)))) by {
                reveal_strlit("PlayerShearEntity");
                reveal_strlit("player");
                reveal_strlit("Player");
                assert(capitalized("player"@) =~= "Player"@);
                assert("PlayerShearEntity"@.subrange(0, 6) =~= "Player"@);
            }
            assert(kind_simple_name(kind) == kind_label(kind) + "Event"@) by {
                reveal_strlit("PlayerShearEntity");
                reveal_strlit("Event");
                reveal_strlit("PlayerShearEntityEvent");
                assert("PlayerShearEntity"@ + "Event"@ =~= "PlayerShearEntityEvent"@);
            }
        },
        EventKind::PlayerStatisticIncrement => {
            assert(has_prefix(kind_label(kind), capitalized(kind_category(kind)))) by {
                reveal_strlit("PlayerStatisticIncrement");
                reveal_strlit("player");
                reveal_strlit("Player");
                assert(capitalized("player"@) =~= "Player"@);
                assert("PlayerStatisticIncrement"@.subrange(0, 6) =~= "Player"@);
            }
            assert(kind_simple_name(kind) == kind_label(kind) + "Event"@) by {
                reveal_strlit("PlayerStatisticIncrement");
                reveal_strlit("Event");
                reveal_strlit("PlayerStatisticIncrementEvent");
                assert("PlayerStatisticIncrement"@ + "Event"@ =~= "PlayerStatisticIncrementEvent"@);
            }
        },
        EventKind::PlayerSwapHandItems => {
            assert(has_prefix(kind_label(kind), capitalized(kind_category(kind)))) by {
                reveal_strlit("PlayerSwapHandItems");
                reveal_strlit("player");
                reveal_strlit("Player");
                assert(capitalized("player"@) =~= "Player"@);
                assert("PlayerSwapHandItems"@.subrange(0, 6) =~= "Player"@);
            }
            assert(kind_simple_name(kind) == kind_label(kind) + "Event"@) by {
                reveal_strlit("PlayerSwapHandItems");
                reveal_strlit("Event");
                reveal_strlit("PlayerSwapHandItemsEvent");
                assert("PlayerSwapHandItems"@ + "Event"@ =~= "PlayerSwapHandItemsEvent"@);
            }
        },
        EventKind::PlayerTeleport => {
            assert(has_prefix(kind_label(kind), capitalized(kind_category(kind)))) by {
                reveal_strlit("PlayerTeleport");
                reveal_strlit("player");
                reveal_strlit("Player");
                assert(capitalized("player"@) =~= "Player"@);
                assert("PlayerTeleport"@.subrange(0, 6) =~= "Player"@);
            }
            assert(kind_simple_name(kind) == kind_label(kind) + "Event"@) by {
                reveal_strlit("PlayerTeleport");
                reveal_strlit("Event");
                reveal_strlit("PlayerTeleportEvent");
                assert("PlayerTeleport"@ + "Event"@ =~= "PlayerTeleportEvent"@);
            }
        },
        EventKind::PlayerToggleFlight => {
            assert(has_prefix(kind_label(kind), capitalized(kind_category(kind)))) by {
                reveal_strlit("PlayerToggleFlight");
                reveal_strlit("player");
                reveal_strlit("Player");
                assert(capitalized("player"@) =~= "Player"@);
                assert("PlayerToggleFlight"@.subrange(0, 6) =~= "Player"@);
            }
            assert(kind_simple_name(kind) == kind_label(kind) + "Event"@) by {
                reveal_strlit("PlayerToggleFlight");
                reveal_strlit("Event");
                reveal_strlit("PlayerToggleFlightEvent");
                assert("PlayerToggleFlight"@ + "Event"@ =~= "PlayerToggleFlightEvent"@);
            }
        },
        EventKind::PlayerToggleSneak => {
            assert(has_prefix(kind_label(kind), capitalized(kind_category(kind)))) by {
                reveal_strlit("PlayerToggleSneak");
                reveal_strlit("player");
                reveal_strlit("Player");
                assert(capitalized("player"@) =~= "Player"@);
                assert("PlayerToggleSneak"@.subrange(0, 6) =~= "Player"@);
            }
            assert(kind_simple_name(kind) == kind_label(kind) + "Event"@) by {
                reveal_strlit("PlayerToggleSneak");
                reveal_strlit("Event");
                reveal_strlit("PlayerToggleSneakEvent");
                assert("PlayerToggleSneak"@ + "Event"@ =~= "PlayerToggleSneakEvent"@);
            }
        },
        EventKind::PlayerToggleSprint => {
            assert(has_prefix(kind_label(kind), capitalized(kind_category(kind)))) by {
                reveal_strlit("PlayerToggleSprint");
                reveal_strlit("player");
                reveal_strlit("Player");
                assert(capitalized("player"@) =~= "Player"@);
                assert("PlayerToggleSprint"@.subrange(0, 6) =~= "Player"@);
            }
            assert(kind_simple_name(kind) == kind_label(kind) + "Event"@) by {
                reveal_strlit("PlayerToggleSprint");
                reveal_strlit("Event");
                reveal_strlit("PlayerToggleSprintEvent");
                assert("PlayerToggleSprint"@ + "Event"@ =~= "PlayerToggleSprintEvent"@);
            }
        },
        EventKind::PlayerUnregisterChannel => {
            assert(has_prefix(kind_label(kind), capitalized(kind_category(kind)))) by {
                reveal_strlit("PlayerUnregisterChannel");
                reveal_strlit("player");
                reveal_strlit("Player");
                assert(capitalized("player"@) =~= "Player"@);
                assert("PlayerUnregisterChannel"@.subrange(0, 6) =~= "Player"@);
            }
            assert(kind_simple_name(kind) == kind_label(kind) + "Event"@) by {
                reveal_strlit("PlayerUnregisterChannel");
                reveal_strlit("Event");
                reveal_strlit("PlayerUnregisterChannelEvent");
                assert("PlayerUnregisterChannel"@ + "Event"@ =~= "PlayerUnregisterChannelEvent"@);
            }
        },
        EventKind::PlayerVelocity => {
            assert(has_prefix(kind_label(kind), capitalized(kind_category(kind)))) by {
                reveal_strlit("PlayerVelocity");
                reveal_strlit("player");
                reveal_strlit("Player");
                assert(capitalized("player"@) =~= "Player"@);
                assert("PlayerVelocity"@.subrange(0, 6) =~= "Player"@);
            }
            assert(kind_simple_name(kind) == kind_label(kind) + "Event"@) by {
                reveal_strlit("PlayerVelocity");
                reveal_strlit("Event");
                reveal_strlit("PlayerVelocityEvent");
                assert("PlayerVelocity"@ + "Event"@ =~= "PlayerVelocityEvent"@);
            }
        },
        EventKind::ServerBroadcast => {
            assert(has_prefix(kind_label(kind), capitalized(kind_category(kind)))) by {
                reveal_strlit("ServerBroadcast");
                reveal_strlit("server");
                reveal_strlit("Server");
                assert(capitalized("server"@) =~= "Server"@);
                assert("ServerBroadcast"@.subrange(0, 6) =~= "Server"@);
            }
        },
        EventKind::ServerCommand => {
            assert(has_prefix(kind_label(kind), capitalized(kind_category(kind)))) by {
                reveal_strlit("ServerCommand");
                reveal_strlit("server");
                reveal_strlit("Server");
                assert(capitalized("server"@) =~= "Server"@);
                assert("ServerCommand"@.subrange(0, 6) =~= "Server"@);
            }
            assert(kind_simple_name(kind) == kind_label(kind) + "Event"@) by {
                reveal_strlit("ServerCommand");
                reveal_strlit("Event");
                reveal_strlit("ServerCommandEvent");
                assert("ServerCommand"@ + "Event"@ =~= "ServerCommandEvent"@);
            }
        },
    }
}

} // verus!
