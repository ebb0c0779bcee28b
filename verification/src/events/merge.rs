//! How the changes that Bukkit listeners make to an event are merged back into
//! the Pumpkin event. Listeners answer with every field of the event; an empty
//! text or a count of zero means "unchanged".
use vstd::prelude::*;
use vstd::string::*;

use crate::text::{has_prefix, starts_with};

verus! {

/// The UUID text sent for an event that has no player.
pub const NIL_UUID: &'static str = "00000000-0000-0000-0000-000000000000";

/// The namespace of Minecraft's own registry keys.
pub open spec fn minecraft_namespace() -> Seq<char> {
    "minecraft:"@
}

/// A text field after a listener answered `update`: the answer, unless it is
/// empty.
pub open spec fn merged_text(current: Seq<char>, update: Seq<char>) -> Seq<char> {
    if update.len() == 0 {
        current
    } else {
        update
    }
}

/// A text field after a listener answered `update`: the answer, unless it is
/// empty.
pub fn merge_non_empty(current: String, update: String) -> (r: String)
    ensures
        r@ == merged_text(current@, update@),
{
    if update.as_str().unicode_len() == 0 {
        current
    } else {
        update
    }
}

/// An optional text field from a listener's answer: absent when empty.
pub fn non_empty(text: String) -> (r: Option<String>)
    ensures
        match r {
            Some(t) => t@ == text@ && text@.len() > 0,
            None => text@.len() == 0,
        },
{
    if text.as_str().unicode_len() == 0 {
        None
    } else {
        Some(text)
    }
}

/// The item stack of an event after a listener answered with an item key and
/// an amount: unchanged (`None`) when the key is empty and the amount is not
/// positive; else the answered key, or the current one when the answer is
/// empty, and the answered amount (modulo 256, as a cast to `u8` keeps it), or
/// the current count when the answered amount is not positive.
pub open spec fn item_update_spec(
    current_key: Seq<char>,
    current_count: u8,
    new_key: Seq<char>,
    new_amount: i32,
) -> Option<(Seq<char>, u8)> {
    if new_key.len() == 0 && new_amount <= 0 {
        None
    } else {
        Some(
            (
                if new_key.len() == 0 {
                    current_key
                } else {
                    new_key
                },
                if new_amount > 0 {
                    (new_amount % 256) as u8
                } else {
                    current_count
                },
            ),
        )
    }
}

/// The item stack of an event after a listener answered with an item key and
/// an amount, or `None` when the answer leaves it unchanged.
pub fn item_stack_update(current_key: String, current_count: u8, new_key: String, new_amount: i32) -> (r:
    Option<(String, u8)>)
    ensures
        match r {
            Some((k, c)) => item_update_spec(current_key@, current_count, new_key@, new_amount)
                == Some((k@, c)),
            None => item_update_spec(current_key@, current_count, new_key@, new_amount) is None,
        },
{
    let key_given = new_key.as_str().unicode_len() != 0;
    if !key_given && new_amount <= 0 {
        return None;
    }
    let key = if key_given {
        new_key
    } else {
        current_key
    };
    let count = if new_amount > 0 {
        (new_amount % 256) as u8
    } else {
        current_count
    };
    Some((key, count))
}

/// An amount of items as a stack count: clamped to 0..=255.
pub fn item_count_from_amount(amount: i32) -> (r: u8)
    ensures
        r == (if amount < 0 {
            0
        } else if amount > 255 {
            255
        } else {
            amount
        }),
{
    if amount < 0 {
        0
    } else if amount > 255 {
        255
    } else {
        amount as u8
    }
}

/// The number of chicks hatched from a thrown egg after a listener answered
/// `requested`: a negative answer leaves it unchanged, a larger one than 255
/// gives 255.
pub fn hatch_count_update(current: u8, requested: i32) -> (r: u8)
    ensures
        r == (if requested < 0 {
            current as int
        } else if requested > 255 {
            255
        } else {
            requested as int
        }),
{
    if requested < 0 {
        current
    } else if requested > 255 {
        255
    } else {
        requested as u8
    }
}

/// The registry key of a Minecraft block or item named `name`: `minecraft:<name>`.
pub fn minecraft_key(name: &str) -> (r: String)
    ensures
        r@ == minecraft_namespace() + name@,
{
    let mut r = String::from_str("minecraft:");
    r.append(name);
    r
}

/// A registry key without its `minecraft:` namespace, if it has that one.
pub open spec fn without_namespace(key: Seq<char>) -> Seq<char> {
    if has_prefix(key, minecraft_namespace()) {
        key.skip(minecraft_namespace().len() as int)
    } else {
        key
    }
}

/// A registry key without its `minecraft:` namespace, if it has that one
/// (`strip_prefix("minecraft:").unwrap_or(key)`).
pub fn strip_minecraft_prefix(key: &str) -> (r: String)
    ensures
        r@ == without_namespace(key@),
{
    proof {
        reveal_strlit("minecraft:");
    }
    if starts_with(key, "minecraft:") {
        let n = key.unicode_len();
        String::from_str(key.substring_char(10, n))
    } else {
        String::from_str(key)
    }
}

/// Taking the namespace off the registry key of a name gives the name back.
pub proof fn law_key_round_trip(name: Seq<char>)
    ensures
        without_namespace(minecraft_namespace() + name) == name,
{
    let k = minecraft_namespace() + name;
    assert(k.subrange(0, minecraft_namespace().len() as int) =~= minecraft_namespace());
    assert(k.skip(minecraft_namespace().len() as int) =~= name);
}

/// How a listener's answer changes an item stack: a positive amount sets the
/// count to that amount modulo 256, whatever the key; the current count is
/// kept only when the amount is zero or negative; a non-empty key replaces
/// the current one and an empty key keeps it; and nothing changes only when
/// the key is empty and the amount is not positive.
pub proof fn law_item_stack_update(
    current_key: Seq<char>,
    current_count: u8,
    new_key: Seq<char>,
    new_amount: i32,
)
    ensures
        ({
            let r = item_update_spec(current_key, current_count, new_key, new_amount);
            &&& new_amount > 0 ==> r is Some && r.unwrap().1 as int == new_amount % 256
            &&& new_amount <= 0 && r is Some ==> r.unwrap().1 == current_count
            &&& new_key.len() > 0 ==> r is Some && r.unwrap().0 == new_key
            &&& new_key.len() == 0 && r is Some ==> r.unwrap().0 == current_key
            &&& r is None <==> (new_key.len() == 0 && new_amount <= 0)
        }),
{
}

/// A listener's text answer replaces the current text exactly when it is not
/// empty.
pub proof fn law_merged_text(current: Seq<char>, update: Seq<char>)
    ensures
        update.len() > 0 ==> merged_text(current, update) == update,
        update.len() == 0 ==> merged_text(current, update) == current,
{
}

} // verus!
