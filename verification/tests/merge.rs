use patchbukkit::events::merge::{
    hatch_count_update, item_count_from_amount, item_stack_update, merge_non_empty,
    minecraft_key, non_empty, strip_minecraft_prefix, NIL_UUID,
};

#[test]
fn empty_answers_keep_the_field() {
    assert_eq!(merge_non_empty("old".to_string(), "".to_string()), "old");
    assert_eq!(merge_non_empty("old".to_string(), "new".to_string()), "new");
    assert_eq!(non_empty("".to_string()), None);
    assert_eq!(non_empty("Title".to_string()), Some("Title".to_string()));
}

#[test]
fn item_stack_answers() {
    assert_eq!(item_stack_update("minecraft:stone".to_string(), 5, "".to_string(), 0), None);
    assert_eq!(item_stack_update("minecraft:stone".to_string(), 5, "".to_string(), -3), None);
    assert_eq!(
        item_stack_update("minecraft:stone".to_string(), 5, "minecraft:dirt".to_string(), 0),
        Some(("minecraft:dirt".to_string(), 5))
    );
    assert_eq!(
        item_stack_update("minecraft:stone".to_string(), 5, "".to_string(), 12),
        Some(("minecraft:stone".to_string(), 12))
    );
    assert_eq!(
        item_stack_update("minecraft:stone".to_string(), 5, "minecraft:dirt".to_string(), 300),
        Some(("minecraft:dirt".to_string(), 44))
    );
}

#[test]
fn counts_are_clamped() {
    assert_eq!(item_count_from_amount(-5), 0);
    assert_eq!(item_count_from_amount(0), 0);
    assert_eq!(item_count_from_amount(64), 64);
    assert_eq!(item_count_from_amount(1000), 255);
    assert_eq!(hatch_count_update(3, -1), 3);
    assert_eq!(hatch_count_update(3, 0), 0);
    assert_eq!(hatch_count_update(3, 4), 4);
    assert_eq!(hatch_count_update(3, 999), 255);
}

#[test]
fn registry_keys() {
    assert_eq!(minecraft_key("stone"), "minecraft:stone");
    assert_eq!(strip_minecraft_prefix("minecraft:stone"), "stone");
    assert_eq!(strip_minecraft_prefix("stone"), "stone");
    assert_eq!(strip_minecraft_prefix("mod:stone"), "mod:stone");
    assert_eq!(strip_minecraft_prefix("minecraft:"), "");
    assert_eq!(strip_minecraft_prefix(&minecraft_key("oak_log")), "oak_log");
    assert_eq!(NIL_UUID, "00000000-0000-0000-0000-000000000000");
}
