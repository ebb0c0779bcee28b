use patchbukkit::events::names::{
    block_face_to_bukkit, bukkit_block_face_from_string, bukkit_main_hand,
    equipment_slot_from_bukkit, equipment_slot_to_bukkit, event_priority_from_bukkit,
    gamemode_from_bukkit, gamemode_to_bukkit, instrument_from_bukkit, instrument_to_bukkit,
    interact_action_to_bukkit, main_hand_from_bukkit, BlockFace, EquipmentSlot, EventPriority,
    GameMode, Hand, InteractAction, Instrument,
};

#[test]
fn game_modes() {
    for m in [GameMode::Survival, GameMode::Creative, GameMode::Adventure, GameMode::Spectator] {
        assert_eq!(gamemode_from_bukkit(&gamemode_to_bukkit(m)), Some(m));
    }
    assert_eq!(gamemode_to_bukkit(GameMode::Creative), "CREATIVE");
    assert_eq!(gamemode_from_bukkit("SPECTATOR"), Some(GameMode::Spectator));
    assert_eq!(gamemode_from_bukkit("survival"), None);
    assert_eq!(gamemode_from_bukkit(""), None);
}

#[test]
fn block_faces() {
    let faces = [
        BlockFace::Up,
        BlockFace::Down,
        BlockFace::North,
        BlockFace::South,
        BlockFace::West,
        BlockFace::East,
    ];
    for f in faces {
        assert_eq!(bukkit_block_face_from_string(&block_face_to_bukkit(Some(f))), Some(f));
    }
    assert_eq!(block_face_to_bukkit(Some(BlockFace::West)), "WEST");
    assert_eq!(block_face_to_bukkit(None), "");
    assert_eq!(bukkit_block_face_from_string(""), None);
    assert_eq!(bukkit_block_face_from_string("SELF"), None);
}

#[test]
fn main_hands() {
    assert_eq!(bukkit_main_hand(Hand::Left), "LEFT");
    assert_eq!(bukkit_main_hand(Hand::Right), "RIGHT");
    assert_eq!(main_hand_from_bukkit("LEFT"), Some(Hand::Left));
    assert_eq!(main_hand_from_bukkit("RIGHT"), Some(Hand::Right));
    assert_eq!(main_hand_from_bukkit("BOTH"), None);
}

#[test]
fn instruments() {
    assert_eq!(instrument_to_bukkit(Instrument::Harp), "PIANO");
    assert_eq!(instrument_to_bukkit(Instrument::Hat), "STICKS");
    assert_eq!(instrument_to_bukkit(Instrument::CowBell), "COW_BELL");
    assert_eq!(instrument_from_bukkit("BASS_DRUM"), Some(Instrument::Basedrum));
    assert_eq!(instrument_from_bukkit("HARP"), None);
    let all = [
        Instrument::Harp,
        Instrument::Basedrum,
        Instrument::Snare,
        Instrument::Hat,
        Instrument::Bass,
        Instrument::Flute,
        Instrument::Bell,
        Instrument::Guitar,
        Instrument::Chime,
        Instrument::Xylophone,
        Instrument::IronXylophone,
        Instrument::CowBell,
        Instrument::Didgeridoo,
        Instrument::Bit,
        Instrument::Banjo,
        Instrument::Pling,
        Instrument::Zombie,
        Instrument::Skeleton,
        Instrument::Creeper,
        Instrument::Dragon,
        Instrument::WitherSkeleton,
        Instrument::Piglin,
        Instrument::CustomHead,
    ];
    for i in all {
        assert_eq!(instrument_from_bukkit(&instrument_to_bukkit(i)), Some(i));
    }
}

#[test]
fn equipment_slots() {
    let all = [
        EquipmentSlot::MainHand,
        EquipmentSlot::OffHand,
        EquipmentSlot::Feet,
        EquipmentSlot::Legs,
        EquipmentSlot::Chest,
        EquipmentSlot::Head,
        EquipmentSlot::Body,
        EquipmentSlot::Saddle,
    ];
    for s in all {
        assert_eq!(equipment_slot_from_bukkit(&equipment_slot_to_bukkit(s)), Some(s));
    }
    assert_eq!(equipment_slot_to_bukkit(EquipmentSlot::MainHand), "HAND");
    assert_eq!(equipment_slot_from_bukkit("MAIN_HAND"), None);
}

#[test]
fn interact_actions() {
    assert_eq!(interact_action_to_bukkit(InteractAction::LeftClickBlock), "LEFT_CLICK_BLOCK");
    assert_eq!(interact_action_to_bukkit(InteractAction::LeftClickAir), "LEFT_CLICK_AIR");
    assert_eq!(interact_action_to_bukkit(InteractAction::RightClickAir), "RIGHT_CLICK_AIR");
    assert_eq!(interact_action_to_bukkit(InteractAction::RightClickBlock), "RIGHT_CLICK_BLOCK");
}

#[test]
fn listener_priorities() {
    assert_eq!(event_priority_from_bukkit(0), EventPriority::Lowest);
    assert_eq!(event_priority_from_bukkit(1), EventPriority::Low);
    assert_eq!(event_priority_from_bukkit(2), EventPriority::Normal);
    assert_eq!(event_priority_from_bukkit(3), EventPriority::High);
    assert_eq!(event_priority_from_bukkit(4), EventPriority::Highest);
    assert_eq!(event_priority_from_bukkit(-1), EventPriority::Highest);
    assert_eq!(event_priority_from_bukkit(100), EventPriority::Highest);
}
