//! The names Bukkit gives to game concepts, and the Pumpkin-side values they
//! stand for.
use vstd::prelude::*;
use vstd::string::*;

use crate::text::str_eq;

verus! {

/// Game modes of a player.
#[derive(Debug, Clone, Copy, PartialEq, Eq, Structural)]
pub enum GameMode {
    Survival,
    Creative,
    Adventure,
    Spectator,
}

/// The Bukkit name of each value.
pub open spec fn gamemode_name(mode: GameMode) -> Seq<char> {
    match mode {
        GameMode::Survival => "SURVIVAL"@,
        GameMode::Creative => "CREATIVE"@,
        GameMode::Adventure => "ADVENTURE"@,
        GameMode::Spectator => "SPECTATOR"@,
    }
}

/// The value a Bukkit name stands for, if any.
pub open spec fn gamemode_from_name(name: Seq<char>) -> Option<GameMode> {
    if name == "SURVIVAL"@ {
        Some(GameMode::Survival)
    } else if name == "CREATIVE"@ {
        Some(GameMode::Creative)
    } else if name == "ADVENTURE"@ {
        Some(GameMode::Adventure)
    } else if name == "SPECTATOR"@ {
        Some(GameMode::Spectator)
    } else {
        None
    }
}

/// The Bukkit name of a gamemode.
pub fn gamemode_to_bukkit(mode: GameMode) -> (r: String)
    ensures
        r@ == gamemode_name(mode),
{
    match mode {
        GameMode::Survival => String::from_str("SURVIVAL"),
        GameMode::Creative => String::from_str("CREATIVE"),
        GameMode::Adventure => String::from_str("ADVENTURE"),
        GameMode::Spectator => String::from_str("SPECTATOR"),
    }
}

/// The value that the Bukkit name `mode` stands for, or `None` for another name.
pub fn gamemode_from_bukkit(mode: &str) -> (r: Option<GameMode>)
    ensures
        r == gamemode_from_name(mode@),
{
    if str_eq(mode, "SURVIVAL") {
        Some(GameMode::Survival)
    } else if str_eq(mode, "CREATIVE") {
        Some(GameMode::Creative)
    } else if str_eq(mode, "ADVENTURE") {
        Some(GameMode::Adventure)
    } else if str_eq(mode, "SPECTATOR") {
        Some(GameMode::Spectator)
    } else {
        None
    }
}

/// Reading back the Bukkit name of a value gives the value.
pub proof fn law_gamemode_name_round_trip(mode: GameMode)
    ensures
        gamemode_from_name(gamemode_name(mode)) == Some(mode),
{
    reveal_strlit("SURVIVAL");
    reveal_strlit("CREATIVE");
    reveal_strlit("ADVENTURE");
    reveal_strlit("SPECTATOR");
    match mode {
        GameMode::Survival => {
        },
        GameMode::Creative => {
            assert("CREATIVE"@[0] != "SURVIVAL"@[0]);
        },
        GameMode::Adventure => {
            assert("ADVENTURE"@.len() != "SURVIVAL"@.len());
            assert("ADVENTURE"@.len() != "CREATIVE"@.len());
        },
        GameMode::Spectator => {
            assert("SPECTATOR"@.len() != "SURVIVAL"@.len());
            assert("SPECTATOR"@.len() != "CREATIVE"@.len());
            assert("SPECTATOR"@[0] != "ADVENTURE"@[0]);
        },
    }
}

/// Faces of a block.
#[derive(Debug, Clone, Copy, PartialEq, Eq, Structural)]
pub enum BlockFace {
    Up,
    Down,
    North,
    South,
    West,
    East,
}

/// The Bukkit name of each value.
pub open spec fn block_face_name(face: BlockFace) -> Seq<char> {
    match face {
        BlockFace::Up => "UP"@,
        BlockFace::Down => "DOWN"@,
        BlockFace::North => "NORTH"@,
        BlockFace::South => "SOUTH"@,
        BlockFace::West => "WEST"@,
        BlockFace::East => "EAST"@,
    }
}

/// The value a Bukkit name stands for, if any.
pub open spec fn block_face_from_name(name: Seq<char>) -> Option<BlockFace> {
    if name == "UP"@ {
        Some(BlockFace::Up)
    } else if name == "DOWN"@ {
        Some(BlockFace::Down)
    } else if name == "NORTH"@ {
        Some(BlockFace::North)
    } else if name == "SOUTH"@ {
        Some(BlockFace::South)
    } else if name == "WEST"@ {
        Some(BlockFace::West)
    } else if name == "EAST"@ {
        Some(BlockFace::East)
    } else {
        None
    }
}

/// The value that the Bukkit name `face` stands for, or `None` for another name.
pub fn bukkit_block_face_from_string(face: &str) -> (r: Option<BlockFace>)
    ensures
        r == block_face_from_name(face@),
{
    if str_eq(face, "UP") {
        Some(BlockFace::Up)
    } else if str_eq(face, "DOWN") {
        Some(BlockFace::Down)
    } else if str_eq(face, "NORTH") {
        Some(BlockFace::North)
    } else if str_eq(face, "SOUTH") {
        Some(BlockFace::South)
    } else if str_eq(face, "WEST") {
        Some(BlockFace::West)
    } else if str_eq(face, "EAST") {
        Some(BlockFace::East)
    } else {
        None
    }
}

/// Reading back the Bukkit name of a value gives the value.
pub proof fn law_block_face_name_round_trip(face: BlockFace)
    ensures
        block_face_from_name(block_face_name(face)) == Some(face),
{
    reveal_strlit("UP");
    reveal_strlit("DOWN");
    reveal_strlit("NORTH");
    reveal_strlit("SOUTH");
    reveal_strlit("WEST");
    reveal_strlit("EAST");
    match face {
        BlockFace::Up => {
        },
        BlockFace::Down => {
            assert("DOWN"@.len() != "UP"@.len());
        },
        BlockFace::North => {
            assert("NORTH"@.len() != "UP"@.len());
            assert("NORTH"@.len() != "DOWN"@.len());
        },
        BlockFace::South => {
            assert("SOUTH"@.len() != "UP"@.len());
            assert("SOUTH"@.len() != "DOWN"@.len());
            assert("SOUTH"@[0] != "NORTH"@[0]);
        },
        BlockFace::West => {
            assert("WEST"@.len() != "UP"@.len());
            assert("WEST"@[0] != "DOWN"@[0]);
            assert("WEST"@.len() != "NORTH"@.len());
            assert("WEST"@.len() != "SOUTH"@.len());
        },
        BlockFace::East => {
            assert("EAST"@.len() != "UP"@.len());
            assert("EAST"@[0] != "DOWN"@[0]);
            assert("EAST"@.len() != "NORTH"@.len());
            assert("EAST"@.len() != "SOUTH"@.len());
            assert("EAST"@[0] != "WEST"@[0]);
        },
    }
}

/// The hands of a player.
#[derive(Debug, Clone, Copy, PartialEq, Eq, Structural)]
pub enum Hand {
    Left,
    Right,
}

/// The Bukkit name of each value.
pub open spec fn hand_name(hand: Hand) -> Seq<char> {
    match hand {
        Hand::Left => "LEFT"@,
        Hand::Right => "RIGHT"@,
    }
}

/// The value a Bukkit name stands for, if any.
pub open spec fn hand_from_name(name: Seq<char>) -> Option<Hand> {
    if name == "LEFT"@ {
        Some(Hand::Left)
    } else if name == "RIGHT"@ {
        Some(Hand::Right)
    } else {
        None
    }
}

/// The Bukkit name of a hand.
pub fn bukkit_main_hand(hand: Hand) -> (r: String)
    ensures
        r@ == hand_name(hand),
{
    match hand {
        Hand::Left => String::from_str("LEFT"),
        Hand::Right => String::from_str("RIGHT"),
    }
}

/// The value that the Bukkit name `hand` stands for, or `None` for another name.
pub fn main_hand_from_bukkit(hand: &str) -> (r: Option<Hand>)
    ensures
        r == hand_from_name(hand@),
{
    if str_eq(hand, "LEFT") {
        Some(Hand::Left)
    } else if str_eq(hand, "RIGHT") {
        Some(Hand::Right)
    } else {
        None
    }
}

/// Reading back the Bukkit name of a value gives the value.
pub proof fn law_hand_name_round_trip(hand: Hand)
    ensures
        hand_from_name(hand_name(hand)) == Some(hand),
{
    reveal_strlit("LEFT");
    reveal_strlit("RIGHT");
    match hand {
        Hand::Left => {
        },
        Hand::Right => {
            assert("RIGHT"@.len() != "LEFT"@.len());
        },
    }
}

/// Note block instruments, by the name of the block property.
#[derive(Debug, Clone, Copy, PartialEq, Eq, Structural)]
pub enum Instrument {
    Harp,
    Basedrum,
    Snare,
    Hat,
    Bass,
    Flute,
    Bell,
    Guitar,
    Chime,
    Xylophone,
    IronXylophone,
    CowBell,
    Didgeridoo,
    Bit,
    Banjo,
    Pling,
    Zombie,
    Skeleton,
    Creeper,
    Dragon,
    WitherSkeleton,
    Piglin,
    CustomHead,
}

/// The Bukkit name of each value.
pub open spec fn instrument_name(instrument: Instrument) -> Seq<char> {
    match instrument {
        Instrument::Harp => "PIANO"@,
        Instrument::Basedrum => "BASS_DRUM"@,
        Instrument::Snare => "SNARE_DRUM"@,
        Instrument::Hat => "STICKS"@,
        Instrument::Bass => "BASS_GUITAR"@,
        Instrument::Flute => "FLUTE"@,
        Instrument::Bell => "BELL"@,
        Instrument::Guitar => "GUITAR"@,
        Instrument::Chime => "CHIME"@,
        Instrument::Xylophone => "XYLOPHONE"@,
        Instrument::IronXylophone => "IRON_XYLOPHONE"@,
        Instrument::CowBell => "COW_BELL"@,
        Instrument::Didgeridoo => "DIDGERIDOO"@,
        Instrument::Bit => "BIT"@,
        Instrument::Banjo => "BANJO"@,
        Instrument::Pling => "PLING"@,
        Instrument::Zombie => "ZOMBIE"@,
        Instrument::Skeleton => "SKELETON"@,
        Instrument::Creeper => "CREEPER"@,
        Instrument::Dragon => "DRAGON"@,
        Instrument::WitherSkeleton => "WITHER_SKELETON"@,
        Instrument::Piglin => "PIGLIN"@,
        Instrument::CustomHead => "CUSTOM_HEAD"@,
    }
}

/// The value a Bukkit name stands for, if any.
pub open spec fn instrument_from_name(name: Seq<char>) -> Option<Instrument> {
    if name == "PIANO"@ {
        Some(Instrument::Harp)
    } else if name == "BASS_DRUM"@ {
        Some(Instrument::Basedrum)
    } else if name == "SNARE_DRUM"@ {
        Some(Instrument::Snare)
    } else if name == "STICKS"@ {
        Some(Instrument::Hat)
    } else if name == "BASS_GUITAR"@ {
        Some(Instrument::Bass)
    } else if name == "FLUTE"@ {
        Some(Instrument::Flute)
    } else if name == "BELL"@ {
        Some(Instrument::Bell)
    } else if name == "GUITAR"@ {
        Some(Instrument::Guitar)
    } else if name == "CHIME"@ {
        Some(Instrument::Chime)
    } else if name == "XYLOPHONE"@ {
        Some(Instrument::Xylophone)
    } else if name == "IRON_XYLOPHONE"@ {
        Some(Instrument::IronXylophone)
    } else if name == "COW_BELL"@ {
        Some(Instrument::CowBell)
    } else if name == "DIDGERIDOO"@ {
        Some(Instrument::Didgeridoo)
    } else if name == "BIT"@ {
        Some(Instrument::Bit)
    } else if name == "BANJO"@ {
        Some(Instrument::Banjo)
    } else if name == "PLING"@ {
        Some(Instrument::Pling)
    } else if name == "ZOMBIE"@ {
        Some(Instrument::Zombie)
    } else if name == "SKELETON"@ {
        Some(Instrument::Skeleton)
    } else if name == "CREEPER"@ {
        Some(Instrument::Creeper)
    } else if name == "DRAGON"@ {
        Some(Instrument::Dragon)
    } else if name == "WITHER_SKELETON"@ {
        Some(Instrument::WitherSkeleton)
    } else if name == "PIGLIN"@ {
        Some(Instrument::Piglin)
    } else if name == "CUSTOM_HEAD"@ {
        Some(Instrument::CustomHead)
    } else {
        None
    }
}

/// The Bukkit name of a instrument.
pub fn instrument_to_bukkit(instrument: Instrument) -> (r: String)
    ensures
        r@ == instrument_name(instrument),
{
    match instrument {
        Instrument::Harp => String::from_str("PIANO"),
        Instrument::Basedrum => String::from_str("BASS_DRUM"),
        Instrument::Snare => String::from_str("SNARE_DRUM"),
        Instrument::Hat => String::from_str("STICKS"),
        Instrument::Bass => String::from_str("BASS_GUITAR"),
        Instrument::Flute => String::from_str("FLUTE"),
        Instrument::Bell => String::from_str("BELL"),
        Instrument::Guitar => String::from_str("GUITAR"),
        Instrument::Chime => String::from_str("CHIME"),
        Instrument::Xylophone => String::from_str("XYLOPHONE"),
        Instrument::IronXylophone => String::from_str("IRON_XYLOPHONE"),
        Instrument::CowBell => String::from_str("COW_BELL"),
        Instrument::Didgeridoo => String::from_str("DIDGERIDOO"),
        Instrument::Bit => String::from_str("BIT"),
        Instrument::Banjo => String::from_str("BANJO"),
        Instrument::Pling => String::from_str("PLING"),
        Instrument::Zombie => String::from_str("ZOMBIE"),
        Instrument::Skeleton => String::from_str("SKELETON"),
        Instrument::Creeper => String::from_str("CREEPER"),
        Instrument::Dragon => String::from_str("DRAGON"),
        Instrument::WitherSkeleton => String::from_str("WITHER_SKELETON"),
        Instrument::Piglin => String::from_str("PIGLIN"),
        Instrument::CustomHead => String::from_str("CUSTOM_HEAD"),
    }
}

/// The value that the Bukkit name `instrument` stands for, or `None` for another name.
pub fn instrument_from_bukkit(instrument: &str) -> (r: Option<Instrument>)
    ensures
        r == instrument_from_name(instrument@),
{
    if str_eq(instrument, "PIANO") {
        Some(Instrument::Harp)
    } else if str_eq(instrument, "BASS_DRUM") {
        Some(Instrument::Basedrum)
    } else if str_eq(instrument, "SNARE_DRUM") {
        Some(Instrument::Snare)
    } else if str_eq(instrument, "STICKS") {
        Some(Instrument::Hat)
    } else if str_eq(instrument, "BASS_GUITAR") {
        Some(Instrument::Bass)
    } else if str_eq(instrument, "FLUTE") {
        Some(Instrument::Flute)
    } else if str_eq(instrument, "BELL") {
        Some(Instrument::Bell)
    } else if str_eq(instrument, "GUITAR") {
        Some(Instrument::Guitar)
    } else if str_eq(instrument, "CHIME") {
        Some(Instrument::Chime)
    } else if str_eq(instrument, "XYLOPHONE") {
        Some(Instrument::Xylophone)
    } else if str_eq(instrument, "IRON_XYLOPHONE") {
        Some(Instrument::IronXylophone)
    } else if str_eq(instrument, "COW_BELL") {
        Some(Instrument::CowBell)
    } else if str_eq(instrument, "DIDGERIDOO") {
        Some(Instrument::Didgeridoo)
    } else if str_eq(instrument, "BIT") {
        Some(Instrument::Bit)
    } else if str_eq(instrument, "BANJO") {
        Some(Instrument::Banjo)
    } else if str_eq(instrument, "PLING") {
        Some(Instrument::Pling)
    } else if str_eq(instrument, "ZOMBIE") {
        Some(Instrument::Zombie)
    } else if str_eq(instrument, "SKELETON") {
        Some(Instrument::Skeleton)
    } else if str_eq(instrument, "CREEPER") {
        Some(Instrument::Creeper)
    } else if str_eq(instrument, "DRAGON") {
        Some(Instrument::Dragon)
    } else if str_eq(instrument, "WITHER_SKELETON") {
        Some(Instrument::WitherSkeleton)
    } else if str_eq(instrument, "PIGLIN") {
        Some(Instrument::Piglin)
    } else if str_eq(instrument, "CUSTOM_HEAD") {
        Some(Instrument::CustomHead)
    } else {
        None
    }
}

/// Reading back the Bukkit name of a value gives the value.
pub proof fn law_instrument_name_round_trip(instrument: Instrument)
    ensures
        instrument_from_name(instrument_name(instrument)) == Some(instrument),
{
    reveal_strlit("PIANO");
    reveal_strlit("BASS_DRUM");
    reveal_strlit("SNARE_DRUM");
    reveal_strlit("STICKS");
    reveal_strlit("BASS_GUITAR");
    reveal_strlit("FLUTE");
    reveal_strlit("BELL");
    reveal_strlit("GUITAR");
    reveal_strlit("CHIME");
    reveal_strlit("XYLOPHONE");
    reveal_strlit("IRON_XYLOPHONE");
    reveal_strlit("COW_BELL");
    reveal_strlit("DIDGERIDOO");
    reveal_strlit("BIT");
    reveal_strlit("BANJO");
    reveal_strlit("PLING");
    reveal_strlit("ZOMBIE");
    reveal_strlit("SKELETON");
    reveal_strlit("CREEPER");
    reveal_strlit("DRAGON");
    reveal_strlit("WITHER_SKELETON");
    reveal_strlit("PIGLIN");
    reveal_strlit("CUSTOM_HEAD");
    match instrument {
        Instrument::Harp => {
        },
        Instrument::Basedrum => {
            assert("BASS_DRUM"@.len() != "PIANO"@.len());
        },
        Instrument::Snare => {
            assert("SNARE_DRUM"@.len() != "PIANO"@.len());
            assert("SNARE_DRUM"@.len() != "BASS_DRUM"@.len());
        },
        Instrument::Hat => {
            assert("STICKS"@.len() != "PIANO"@.len());
            assert("STICKS"@.len() != "BASS_DRUM"@.len());
            assert("STICKS"@.len() != "SNARE_DRUM"@.len());
        },
        Instrument::Bass => {
            assert("BASS_GUITAR"@.len() != "PIANO"@.len());
            assert("BASS_GUITAR"@.len() != "BASS_DRUM"@.len());
            assert("BASS_GUITAR"@.len() != "SNARE_DRUM"@.len());
            assert("BASS_GUITAR"@.len() != "STICKS"@.len());
        },
        Instrument::Flute => {
            assert("FLUTE"@[0] != "PIANO"@[0]);
            assert("FLUTE"@.len() != "BASS_DRUM"@.len());
            assert("FLUTE"@.len() != "SNARE_DRUM"@.len());
            assert("FLUTE"@.len() != "STICKS"@.len());
            assert("FLUTE"@.len() != "BASS_GUITAR"@.len());
        },
        Instrument::Bell => {
            assert("BELL"@.len() != "PIANO"@.len());
            assert("BELL"@.len() != "BASS_DRUM"@.len());
            assert("BELL"@.len() != "SNARE_DRUM"@.len());
            assert("BELL"@.len() != "STICKS"@.len());
            assert("BELL"@.len() != "BASS_GUITAR"@.len());
            assert("BELL"@.len() != "FLUTE"@.len());
        },
        Instrument::Guitar => {
            assert("GUITAR"@.len() != "PIANO"@.len());
            assert("GUITAR"@.len() != "BASS_DRUM"@.len());
            assert("GUITAR"@.len() != "SNARE_DRUM"@.len());
            assert("GUITAR"@[0] != "STICKS"@[0]);
            assert("GUITAR"@.len() != "BASS_GUITAR"@.len());
            assert("GUITAR"@.len() != "FLUTE"@.len());
            assert("GUITAR"@.len() != "BELL"@.len());
        },
        Instrument::Chime => {
            assert("CHIME"@[0] != "PIANO"@[0]);
            assert("CHIME"@.len() != "BASS_DRUM"@.len());
            assert("CHIME"@.len() != "SNARE_DRUM"@.len());
            assert("CHIME"@.len() != "STICKS"@.len());
            assert("CHIME"@.len() != "BASS_GUITAR"@.len());
            assert("CHIME"@[0] != "FLUTE"@[0]);
            assert("CHIME"@.len() != "BELL"@.len());
            assert("CHIME"@.len() != "GUITAR"@.len());
        },
        Instrument::Xylophone => {
            assert("XYLOPHONE"@.len() != "PIANO"@.len());
            assert("XYLOPHONE"@[0] != "BASS_DRUM"@[0]);
            assert("XYLOPHONE"@.len() != "SNARE_DRUM"@.len());
            assert("XYLOPHONE"@.len() != "STICKS"@.len());
            assert("XYLOPHONE"@.len() != "BASS_GUITAR"@.len());
            assert("XYLOPHONE"@.len() != "FLUTE"@.len());
            assert("XYLOPHONE"@.len() != "BELL"@.len());
            assert("XYLOPHONE"@.len() != "GUITAR"@.len());
            assert("XYLOPHONE"@.len() != "CHIME"@.len());
        },
        Instrument::IronXylophone => {
            assert("IRON_XYLOPHONE"@.len() != "PIANO"@.len());
            assert("IRON_XYLOPHONE"@.len() != "BASS_DRUM"@.len());
            assert("IRON_XYLOPHONE"@.len() != "SNARE_DRUM"@.len());
            assert("IRON_XYLOPHONE"@.len() != "STICKS"@.len());
            assert("IRON_XYLOPHONE"@.len() != "BASS_GUITAR"@.len());
            assert("IRON_XYLOPHONE"@.len() != "FLUTE"@.len());
            assert("IRON_XYLOPHONE"@.len() != "BELL"@.len());
            assert("IRON_XYLOPHONE"@.len() != "GUITAR"@.len());
            assert("IRON_XYLOPHONE"@.len() != "CHIME"@.len());
            assert("IRON_XYLOPHONE"@.len() != "XYLOPHONE"@.len());
        },
        Instrument::CowBell => {
            assert("COW_BELL"@.len() != "PIANO"@.len());
            assert("COW_BELL"@.len() != "BASS_DRUM"@.len());
            assert("COW_BELL"@.len() != "SNARE_DRUM"@.len());
            assert("COW_BELL"@.len() != "STICKS"@.len());
            assert("COW_BELL"@.len() != "BASS_GUITAR"@.len());
            assert("COW_BELL"@.len() != "FLUTE"@.len());
            assert("COW_BELL"@.len() != "BELL"@.len());
            assert("COW_BELL"@.len() != "GUITAR"@.len());
            assert("COW_BELL"@.len() != "CHIME"@.len());
            assert("COW_BELL"@.len() != "XYLOPHONE"@.len());
            assert("COW_BELL"@.len() != "IRON_XYLOPHONE"@.len());
        },
        Instrument::Didgeridoo => {
            assert("DIDGERIDOO"@.len() != "PIANO"@.len());
            assert("DIDGERIDOO"@.len() != "BASS_DRUM"@.len());
            assert("DIDGERIDOO"@[0] != "SNARE_DRUM"@[0]);
            assert("DIDGERIDOO"@.len() != "STICKS"@.len());
            assert("DIDGERIDOO"@.len() != "BASS_GUITAR"@.len());
            assert("DIDGERIDOO"@.len() != "FLUTE"@.len());
            assert("DIDGERIDOO"@.len() != "BELL"@.len());
            assert("DIDGERIDOO"@.len() != "GUITAR"@.len());
            assert("DIDGERIDOO"@.len() != "CHIME"@.len());
            assert("DIDGERIDOO"@.len() != "XYLOPHONE"@.len());
            assert("DIDGERIDOO"@.len() != "IRON_XYLOPHONE"@.len());
            assert("DIDGERIDOO"@.len() != "COW_BELL"@.len());
        },
        Instrument::Bit => {
            assert("BIT"@.len() != "PIANO"@.len());
            assert("BIT"@.len() != "BASS_DRUM"@.len());
            assert("BIT"@.len() != "SNARE_DRUM"@.len());
            assert("BIT"@.len() != "STICKS"@.len());
            assert("BIT"@.len() != "BASS_GUITAR"@.len());
            assert("BIT"@.len() != "FLUTE"@.len());
            assert("BIT"@.len() != "BELL"@.len());
            assert("BIT"@.len() != "GUITAR"@.len());
            assert("BIT"@.len() != "CHIME"@.len());
            assert("BIT"@.len() != "XYLOPHONE"@.len());
            assert("BIT"@.len() != "IRON_XYLOPHONE"@.len());
            assert("BIT"@.len() != "COW_BELL"@.len());
            assert("BIT"@.len() != "DIDGERIDOO"@.len());
        },
        Instrument::Banjo => {
            assert("BANJO"@[0] != "PIANO"@[0]);
            assert("BANJO"@.len() != "BASS_DRUM"@.len());
            assert("BANJO"@.len() != "SNARE_DRUM"@.len());
            assert("BANJO"@.len() != "STICKS"@.len());
            assert("BANJO"@.len() != "BASS_GUITAR"@.len());
            assert("BANJO"@[0] != "FLUTE"@[0]);
            assert("BANJO"@.len() != "BELL"@.len());
            assert("BANJO"@.len() != "GUITAR"@.len());
            assert("BANJO"@[0] != "CHIME"@[0]);
            assert("BANJO"@.len() != "XYLOPHONE"@.len());
            assert("BANJO"@.len() != "IRON_XYLOPHONE"@.len());
            assert("BANJO"@.len() != "COW_BELL"@.len());
            assert("BANJO"@.len() != "DIDGERIDOO"@.len());
            assert("BANJO"@.len() != "BIT"@.len());
        },
        Instrument::Pling => {
            assert("PLING"@[1] != "PIANO"@[1]);
            assert("PLING"@.len() != "BASS_DRUM"@.len());
            assert("PLING"@.len() != "SNARE_DRUM"@.len());
            assert("PLING"@.len() != "STICKS"@.len());
            assert("PLING"@.len() != "BASS_GUITAR"@.len());
            assert("PLING"@[0] != "FLUTE"@[0]);
            assert("PLING"@.len() != "BELL"@.len());
            assert("PLING"@.len() != "GUITAR"@.len());
            assert("PLING"@[0] != "CHIME"@[0]);
            assert("PLING"@.len() != "XYLOPHONE"@.len());
            assert("PLING"@.len() != "IRON_XYLOPHONE"@.len());
            assert("PLING"@.len() != "COW_BELL"@.len());
            assert("PLING"@.len() != "DIDGERIDOO"@.len());
            assert("PLING"@.len() != "BIT"@.len());
            assert("PLING"@[0] != "BANJO"@[0]);
        },
        Instrument::Zombie => {
            assert("ZOMBIE"@.len() != "PIANO"@.len());
            assert("ZOMBIE"@.len() != "BASS_DRUM"@.len());
            assert("ZOMBIE"@.len() != "SNARE_DRUM"@.len());
            assert("ZOMBIE"@[0] != "STICKS"@[0]);
            assert("ZOMBIE"@.len() != "BASS_GUITAR"@.len());
            assert("ZOMBIE"@.len() != "FLUTE"@.len());
            assert("ZOMBIE"@.len() != "BELL"@.len());
            assert("ZOMBIE"@[0] != "GUITAR"@[0]);
            assert("ZOMBIE"@.len() != "CHIME"@.len());
            assert("ZOMBIE"@.len() != "XYLOPHONE"@.len());
            assert("ZOMBIE"@.len() != "IRON_XYLOPHONE"@.len());
            assert("ZOMBIE"@.len() != "COW_BELL"@.len());
            assert("ZOMBIE"@.len() != "DIDGERIDOO"@.len());
            assert("ZOMBIE"@.len() != "BIT"@.len());
            assert("ZOMBIE"@.len() != "BANJO"@.len());
            assert("ZOMBIE"@.len() != "PLING"@.len());
        },
        Instrument::Skeleton => {
            assert("SKELETON"@.len() != "PIANO"@.len());
            assert("SKELETON"@.len() != "BASS_DRUM"@.len());
            assert("SKELETON"@.len() != "SNARE_DRUM"@.len());
            assert("SKELETON"@.len() != "STICKS"@.len());
            assert("SKELETON"@.len() != "BASS_GUITAR"@.len());
            assert("SKELETON"@.len() != "FLUTE"@.len());
            assert("SKELETON"@.len() != "BELL"@.len());
            assert("SKELETON"@.len() != "GUITAR"@.len());
            assert("SKELETON"@.len() != "CHIME"@.len());
            assert("SKELETON"@.len() != "XYLOPHONE"@.len());
            assert("SKELETON"@.len() != "IRON_XYLOPHONE"@.len());
            assert("SKELETON"@[0] != "COW_BELL"@[0]);
            assert("SKELETON"@.len() != "DIDGERIDOO"@.len());
            assert("SKELETON"@.len() != "BIT"@.len());
            assert("SKELETON"@.len() != "BANJO"@.len());
            assert("SKELETON"@.len() != "PLING"@.len());
            assert("SKELETON"@.len() != "ZOMBIE"@.len());
        },
        Instrument::Creeper => {
            assert("CREEPER"@.len() != "PIANO"@.len());
            assert("CREEPER"@.len() != "BASS_DRUM"@.len());
            assert("CREEPER"@.len() != "SNARE_DRUM"@.len());
            assert("CREEPER"@.len() != "STICKS"@.len());
            assert("CREEPER"@.len() != "BASS_GUITAR"@.len());
            assert("CREEPER"@.len() != "FLUTE"@.len());
            assert("CREEPER"@.len() != "BELL"@.len());
            assert("CREEPER"@.len() != "GUITAR"@.len());
            assert("CREEPER"@.len() != "CHIME"@.len());
            assert("CREEPER"@.len() != "XYLOPHONE"@.len());
            assert("CREEPER"@.len() != "IRON_XYLOPHONE"@.len());
            assert("CREEPER"@.len() != "COW_BELL"@.len());
            assert("CREEPER"@.len() != "DIDGERIDOO"@.len());
            assert("CREEPER"@.len() != "BIT"@.len());
            assert("CREEPER"@.len() != "BANJO"@.len());
            assert("CREEPER"@.len() != "PLING"@.len());
            assert("CREEPER"@.len() != "ZOMBIE"@.len());
            assert("CREEPER"@.len() != "SKELETON"@.len());
        },
        Instrument::Dragon => {
            assert("DRAGON"@.len() != "PIANO"@.len());
            assert("DRAGON"@.len() != "BASS_DRUM"@.len());
            assert("DRAGON"@.len() != "SNARE_DRUM"@.len());
            assert("DRAGON"@[0] != "STICKS"@[0]);
            assert("DRAGON"@.len() != "BASS_GUITAR"@.len());
            assert("DRAGON"@.len() != "FLUTE"@.len());
            assert("DRAGON"@.len() != "BELL"@.len());
            assert("DRAGON"@[0] != "GUITAR"@[0]);
            assert("DRAGON"@.len() != "CHIME"@.len());
            assert("DRAGON"@.len() != "XYLOPHONE"@.len());
            assert("DRAGON"@.len() != "IRON_XYLOPHONE"@.len());
            assert("DRAGON"@.len() != "COW_BELL"@.len());
            assert("DRAGON"@.len() != "DIDGERIDOO"@.len());
            assert("DRAGON"@.len() != "BIT"@.len());
            assert("DRAGON"@.len() != "BANJO"@.len());
            assert("DRAGON"@.len() != "PLING"@.len());
            assert("DRAGON"@[0] != "ZOMBIE"@[0]);
            assert("DRAGON"@.len() != "SKELETON"@.len());
            assert("DRAGON"@.len() != "CREEPER"@.len());
        },
        Instrument::WitherSkeleton => {
            assert("WITHER_SKELETON"@.len() != "PIANO"@.len());
            assert("WITHER_SKELETON"@.len() != "BASS_DRUM"@.len());
            assert("WITHER_SKELETON"@.len() != "SNARE_DRUM"@.len());
            assert("WITHER_SKELETON"@.len() != "STICKS"@.len());
            assert("WITHER_SKELETON"@.len() != "BASS_GUITAR"@.len());
            assert("WITHER_SKELETON"@.len() != "FLUTE"@.len());
            assert("WITHER_SKELETON"@.len() != "BELL"@.len());
            assert("WITHER_SKELETON"@.len() != "GUITAR"@.len());
            assert("WITHER_SKELETON"@.len() != "CHIME"@.len());
            assert("WITHER_SKELETON"@.len() != "XYLOPHONE"@.len());
            assert("WITHER_SKELETON"@.len() != "IRON_XYLOPHONE"@.len());
            assert("WITHER_SKELETON"@.len() != "COW_BELL"@.len());
            assert("WITHER_SKELETON"@.len() != "DIDGERIDOO"@.len());
            assert("WITHER_SKELETON"@.len() != "BIT"@.len());
            assert("WITHER_SKELETON"@.len() != "BANJO"@.len());
            assert("WITHER_SKELETON"@.len() != "PLING"@.len());
            assert("WITHER_SKELETON"@.len() != "ZOMBIE"@.len());
            assert("WITHER_SKELETON"@.len() != "SKELETON"@.len());
            assert("WITHER_SKELETON"@.len() != "CREEPER"@.len());
            assert("WITHER_SKELETON"@.len() != "DRAGON"@.len());
        },
        Instrument::Piglin => {
            assert("PIGLIN"@.len() != "PIANO"@.len());
            assert("PIGLIN"@.len() != "BASS_DRUM"@.len());
            assert("PIGLIN"@.len() != "SNARE_DRUM"@.len());
            assert("PIGLIN"@[0] != "STICKS"@[0]);
            assert("PIGLIN"@.len() != "BASS_GUITAR"@.len());
            assert("PIGLIN"@.len() != "FLUTE"@.len());
            assert("PIGLIN"@.len() != "BELL"@.len());
            assert("PIGLIN"@[0] != "GUITAR"@[0]);
            assert("PIGLIN"@.len() != "CHIME"@.len());
            assert("PIGLIN"@.len() != "XYLOPHONE"@.len());
            assert("PIGLIN"@.len() != "IRON_XYLOPHONE"@.len());
            assert("PIGLIN"@.len() != "COW_BELL"@.len());
            assert("PIGLIN"@.len() != "DIDGERIDOO"@.len());
            assert("PIGLIN"@.len() != "BIT"@.len());
            assert("PIGLIN"@.len() != "BANJO"@.len());
            assert("PIGLIN"@.len() != "PLING"@.len());
            assert("PIGLIN"@[0] != "ZOMBIE"@[0]);
            assert("PIGLIN"@.len() != "SKELETON"@.len());
            assert("PIGLIN"@.len() != "CREEPER"@.len());
            assert("PIGLIN"@[0] != "DRAGON"@[0]);
            assert("PIGLIN"@.len() != "WITHER_SKELETON"@.len());
        },
        Instrument::CustomHead => {
            assert("CUSTOM_HEAD"@.len() != "PIANO"@.len());
            assert("CUSTOM_HEAD"@.len() != "BASS_DRUM"@.len());
            assert("CUSTOM_HEAD"@.len() != "SNARE_DRUM"@.len());
            assert("CUSTOM_HEAD"@.len() != "STICKS"@.len());
            assert("CUSTOM_HEAD"@[0] != "BASS_GUITAR"@[0]);
            assert("CUSTOM_HEAD"@.len() != "FLUTE"@.len());
            assert("CUSTOM_HEAD"@.len() != "BELL"@.len());
            assert("CUSTOM_HEAD"@.len() != "GUITAR"@.len());
            assert("CUSTOM_HEAD"@.len() != "CHIME"@.len());
            assert("CUSTOM_HEAD"@.len() != "XYLOPHONE"@.len());
            assert("CUSTOM_HEAD"@.len() != "IRON_XYLOPHONE"@.len());
            assert("CUSTOM_HEAD"@.len() != "COW_BELL"@.len());
            assert("CUSTOM_HEAD"@.len() != "DIDGERIDOO"@.len());
            assert("CUSTOM_HEAD"@.len() != "BIT"@.len());
            assert("CUSTOM_HEAD"@.len() != "BANJO"@.len());
            assert("CUSTOM_HEAD"@.len() != "PLING"@.len());
            assert("CUSTOM_HEAD"@.len() != "ZOMBIE"@.len());
            assert("CUSTOM_HEAD"@.len() != "SKELETON"@.len());
            assert("CUSTOM_HEAD"@.len() != "CREEPER"@.len());
            assert("CUSTOM_HEAD"@.len() != "DRAGON"@.len());
            assert("CUSTOM_HEAD"@.len() != "WITHER_SKELETON"@.len());
            assert("CUSTOM_HEAD"@.len() != "PIGLIN"@.len());
        },
    }
}

/// Equipment slots of an entity.
#[derive(Debug, Clone, Copy, PartialEq, Eq, Structural)]
pub enum EquipmentSlot {
    MainHand,
    OffHand,
    Feet,
    Legs,
    Chest,
    Head,
    Body,
    Saddle,
}

/// The Bukkit name of each value.
pub open spec fn equipment_slot_name(slot: EquipmentSlot) -> Seq<char> {
    match slot {
        EquipmentSlot::MainHand => "HAND"@,
        EquipmentSlot::OffHand => "OFF_HAND"@,
        EquipmentSlot::Feet => "FEET"@,
        EquipmentSlot::Legs => "LEGS"@,
        EquipmentSlot::Chest => "CHEST"@,
        EquipmentSlot::Head => "HEAD"@,
        EquipmentSlot::Body => "BODY"@,
        EquipmentSlot::Saddle => "SADDLE"@,
    }
}

/// The value a Bukkit name stands for, if any.
pub open spec fn equipment_slot_from_name(name: Seq<char>) -> Option<EquipmentSlot> {
    if name == "HAND"@ {
        Some(EquipmentSlot::MainHand)
    } else if name == "OFF_HAND"@ {
        Some(EquipmentSlot::OffHand)
    } else if name == "FEET"@ {
        Some(EquipmentSlot::Feet)
    } else if name == "LEGS"@ {
        Some(EquipmentSlot::Legs)
    } else if name == "CHEST"@ {
        Some(EquipmentSlot::Chest)
    } else if name == "HEAD"@ {
        Some(EquipmentSlot::Head)
    } else if name == "BODY"@ {
        Some(EquipmentSlot::Body)
    } else if name == "SADDLE"@ {
        Some(EquipmentSlot::Saddle)
    } else {
        None
    }
}

/// The Bukkit name of a equipment slot.
pub fn equipment_slot_to_bukkit(slot: EquipmentSlot) -> (r: String)
    ensures
        r@ == equipment_slot_name(slot),
{
    match slot {
        EquipmentSlot::MainHand => String::from_str("HAND"),
        EquipmentSlot::OffHand => String::from_str("OFF_HAND"),
        EquipmentSlot::Feet => String::from_str("FEET"),
        EquipmentSlot::Legs => String::from_str("LEGS"),
        EquipmentSlot::Chest => String::from_str("CHEST"),
        EquipmentSlot::Head => String::from_str("HEAD"),
        EquipmentSlot::Body => String::from_str("BODY"),
        EquipmentSlot::Saddle => String::from_str("SADDLE"),
    }
}

/// The value that the Bukkit name `slot` stands for, or `None` for another name.
pub fn equipment_slot_from_bukkit(slot: &str) -> (r: Option<EquipmentSlot>)
    ensures
        r == equipment_slot_from_name(slot@),
{
    if str_eq(slot, "HAND") {
        Some(EquipmentSlot::MainHand)
    } else if str_eq(slot, "OFF_HAND") {
        Some(EquipmentSlot::OffHand)
    } else if str_eq(slot, "FEET") {
        Some(EquipmentSlot::Feet)
    } else if str_eq(slot, "LEGS") {
        Some(EquipmentSlot::Legs)
    } else if str_eq(slot, "CHEST") {
        Some(EquipmentSlot::Chest)
    } else if str_eq(slot, "HEAD") {
        Some(EquipmentSlot::Head)
    } else if str_eq(slot, "BODY") {
        Some(EquipmentSlot::Body)
    } else if str_eq(slot, "SADDLE") {
        Some(EquipmentSlot::Saddle)
    } else {
        None
    }
}

/// Reading back the Bukkit name of a value gives the value.
pub proof fn law_equipment_slot_name_round_trip(slot: EquipmentSlot)
    ensures
        equipment_slot_from_name(equipment_slot_name(slot)) == Some(slot),
{
    reveal_strlit("HAND");
    reveal_strlit("OFF_HAND");
    reveal_strlit("FEET");
    reveal_strlit("LEGS");
    reveal_strlit("CHEST");
    reveal_strlit("HEAD");
    reveal_strlit("BODY");
    reveal_strlit("SADDLE");
    match slot {
        EquipmentSlot::MainHand => {
        },
        EquipmentSlot::OffHand => {
            assert("OFF_HAND"@.len() != "HAND"@.len());
        },
        EquipmentSlot::Feet => {
            assert("FEET"@[0] != "HAND"@[0]);
            assert("FEET"@.len() != "OFF_HAND"@.len());
        },
        EquipmentSlot::Legs => {
            assert("LEGS"@[0] != "HAND"@[0]);
            assert("LEGS"@.len() != "OFF_HAND"@.len());
            assert("LEGS"@[0] != "FEET"@[0]);
        },
        EquipmentSlot::Chest => {
            assert("CHEST"@.len() != "HAND"@.len());
            assert("CHEST"@.len() != "OFF_HAND"@.len());
            assert("CHEST"@.len() != "FEET"@.len());
            assert("CHEST"@.len() != "LEGS"@.len());
        },
        EquipmentSlot::Head => {
            assert("HEAD"@[1] != "HAND"@[1]);
            assert("HEAD"@.len() != "OFF_HAND"@.len());
            assert("HEAD"@[0] != "FEET"@[0]);
            assert("HEAD"@[0] != "LEGS"@[0]);
            assert("HEAD"@.len() != "CHEST"@.len());
        },
        EquipmentSlot::Body => {
            assert("BODY"@[0] != "HAND"@[0]);
            assert("BODY"@.len() != "OFF_HAND"@.len());
            assert("BODY"@[0] != "FEET"@[0]);
            assert("BODY"@[0] != "LEGS"@[0]);
            assert("BODY"@.len() != "CHEST"@.len());
            assert("BODY"@[0] != "HEAD"@[0]);
        },
        EquipmentSlot::Saddle => {
            assert("SADDLE"@.len() != "HAND"@.len());
            assert("SADDLE"@.len() != "OFF_HAND"@.len());
            assert("SADDLE"@.len() != "FEET"@.len());
            assert("SADDLE"@.len() != "LEGS"@.len());
            assert("SADDLE"@.len() != "CHEST"@.len());
            assert("SADDLE"@.len() != "HEAD"@.len());
            assert("SADDLE"@.len() != "BODY"@.len());
        },
    }
}

/// What a player's interaction was.
#[derive(Debug, Clone, Copy, PartialEq, Eq, Structural)]
pub enum InteractAction {
    LeftClickBlock,
    LeftClickAir,
    RightClickAir,
    RightClickBlock,
}

/// The Bukkit name of each value.
pub open spec fn interact_action_name(action: InteractAction) -> Seq<char> {
    match action {
        InteractAction::LeftClickBlock => "LEFT_CLICK_BLOCK"@,
        InteractAction::LeftClickAir => "LEFT_CLICK_AIR"@,
        InteractAction::RightClickAir => "RIGHT_CLICK_AIR"@,
        InteractAction::RightClickBlock => "RIGHT_CLICK_BLOCK"@,
    }
}

/// The Bukkit name of a interact action.
pub fn interact_action_to_bukkit(action: InteractAction) -> (r: String)
    ensures
        r@ == interact_action_name(action),
{
    match action {
        InteractAction::LeftClickBlock => String::from_str("LEFT_CLICK_BLOCK"),
        InteractAction::LeftClickAir => String::from_str("LEFT_CLICK_AIR"),
        InteractAction::RightClickAir => String::from_str("RIGHT_CLICK_AIR"),
        InteractAction::RightClickBlock => String::from_str("RIGHT_CLICK_BLOCK"),
    }
}

/// The Bukkit name of an optional block face; the empty string for none.
pub open spec fn optional_block_face_name(face: Option<BlockFace>) -> Seq<char> {
    match face {
        Some(f) => block_face_name(f),
        None => Seq::<char>::empty(),
    }
}

/// The Bukkit name of an optional block face, or the empty string for none.
pub fn block_face_to_bukkit(face: Option<BlockFace>) -> (r: String)
    ensures
        r@ == optional_block_face_name(face),
{
    match face {
        Some(BlockFace::Up) => String::from_str("UP"),
        Some(BlockFace::Down) => String::from_str("DOWN"),
        Some(BlockFace::North) => String::from_str("NORTH"),
        Some(BlockFace::South) => String::from_str("SOUTH"),
        Some(BlockFace::West) => String::from_str("WEST"),
        Some(BlockFace::East) => String::from_str("EAST"),
        None => String::new(),
    }
}

/// Reading back the name of an optional block face gives it back: the empty
/// name of no face is read as no face.
pub proof fn law_optional_block_face_round_trip(face: Option<BlockFace>)
    ensures
        block_face_from_name(optional_block_face_name(face)) == face,
{
    match face {
        Some(f) => law_block_face_name_round_trip(f),
        None => {
            reveal_strlit("UP");
            reveal_strlit("DOWN");
            reveal_strlit("NORTH");
            reveal_strlit("SOUTH");
            reveal_strlit("WEST");
            reveal_strlit("EAST");
            assert(Seq::<char>::empty().len() != "UP"@.len());
            assert(Seq::<char>::empty().len() != "DOWN"@.len());
            assert(Seq::<char>::empty().len() != "NORTH"@.len());
            assert(Seq::<char>::empty().len() != "SOUTH"@.len());
            assert(Seq::<char>::empty().len() != "WEST"@.len());
            assert(Seq::<char>::empty().len() != "EAST"@.len());
        },
    }
}

/// Priorities of event listeners, lowest first.
#[derive(Debug, Clone, Copy, PartialEq, Eq, Structural)]
pub enum EventPriority {
    Lowest,
    Low,
    Normal,
    High,
    Highest,
}

/// The listener priority for Bukkit's priority number: 0 to 3 are Lowest to
/// High; any other number is Highest.
pub open spec fn priority_spec(priority: i32) -> EventPriority {
    if priority == 0 {
        EventPriority::Lowest
    } else if priority == 1 {
        EventPriority::Low
    } else if priority == 2 {
        EventPriority::Normal
    } else if priority == 3 {
        EventPriority::High
    } else {
        EventPriority::Highest
    }
}

/// The listener priority for Bukkit's priority number.
pub fn event_priority_from_bukkit(priority: i32) -> (r: EventPriority)
    ensures
        r == priority_spec(priority),
{
    match priority {
        0 => EventPriority::Lowest,
        1 => EventPriority::Low,
        2 => EventPriority::Normal,
        3 => EventPriority::High,
        _ => EventPriority::Highest,
    }
}

/// A Java enum constant name made from a Rust variant name: every letter in
/// capitals, with `_` before each capital after the first character (so
/// `LeftClickBlock` becomes `LEFT_CLICK_BLOCK`).
pub open spec fn constant_name(label: Seq<char>) -> Seq<char>
    decreases label.len(),
{
    if label.len() == 0 {
        Seq::<char>::empty()
    } else {
        let c = label.last();
        let piece = if 'A' <= c <= 'Z' && label.len() > 1 {
            seq!['_', c]
        } else if 'a' <= c <= 'z' {
            seq![((c as u32) - 32) as char]
        } else {
            seq![c]
        };
        constant_name(label.drop_last()) + piece
    }
}

/// The name of each GameMode variant, as the enum declares it.
pub open spec fn gamemode_label(v: GameMode) -> Seq<char> {
    match v {
        GameMode::Survival => "Survival"@,
        GameMode::Creative => "Creative"@,
        GameMode::Adventure => "Adventure"@,
        GameMode::Spectator => "Spectator"@,
    }
}

/// The Bukkit name of each GameMode is the Java constant made from its variant name.
pub proof fn law_gamemode_names_are_constants(v: GameMode)
    ensures
        gamemode_name(v) == constant_name(gamemode_label(v)),
{
    reveal_strlit("Survival");
    reveal_strlit("Creative");
    reveal_strlit("Adventure");
    reveal_strlit("Spectator");
    reveal_strlit("SURVIVAL");
    reveal_strlit("CREATIVE");
    reveal_strlit("ADVENTURE");
    reveal_strlit("SPECTATOR");
    reveal_with_fuel(constant_name, 10);
    match v {
        GameMode::Survival => {
            assert(constant_name("Survival"@) =~= "SURVIVAL"@);
        },
        GameMode::Creative => {
            assert(constant_name("Creative"@) =~= "CREATIVE"@);
        },
        GameMode::Adventure => {
            assert(constant_name("Adventure"@) =~= "ADVENTURE"@);
        },
        GameMode::Spectator => {
            assert(constant_name("Spectator"@) =~= "SPECTATOR"@);
        },
    }
}

/// Only the Bukkit name of a value reads as that value.
pub proof fn law_gamemode_read_only_from_its_name(name: Seq<char>, v: GameMode)
    requires
        gamemode_from_name(name) == Some(v),
    ensures
        name == gamemode_name(v),
{
}

/// The name of each BlockFace variant, as the enum declares it.
pub open spec fn block_face_label(v: BlockFace) -> Seq<char> {
    match v {
        BlockFace::Up => "Up"@,
        BlockFace::Down => "Down"@,
        BlockFace::North => "North"@,
        BlockFace::South => "South"@,
        BlockFace::West => "West"@,
        BlockFace::East => "East"@,
    }
}

/// The Bukkit name of each BlockFace is the Java constant made from its variant name.
pub proof fn law_block_face_names_are_constants(v: BlockFace)
    ensures
        block_face_name(v) == constant_name(block_face_label(v)),
{
    reveal_strlit("Up");
    reveal_strlit("Down");
    reveal_strlit("North");
    reveal_strlit("South");
    reveal_strlit("West");
    reveal_strlit("East");
    reveal_strlit("UP");
    reveal_strlit("DOWN");
    reveal_strlit("NORTH");
    reveal_strlit("SOUTH");
    reveal_strlit("WEST");
    reveal_strlit("EAST");
    reveal_with_fuel(constant_name, 6);
    match v {
        BlockFace::Up => {
            assert(constant_name("Up"@) =~= "UP"@);
        },
        BlockFace::Down => {
            assert(constant_name("Down"@) =~= "DOWN"@);
        },
        BlockFace::North => {
            assert(constant_name("North"@) =~= "NORTH"@);
        },
        BlockFace::South => {
            assert(constant_name("South"@) =~= "SOUTH"@);
        },
        BlockFace::West => {
            assert(constant_name("West"@) =~= "WEST"@);
        },
        BlockFace::East => {
            assert(constant_name("East"@) =~= "EAST"@);
        },
    }
}

/// Only the Bukkit name of a value reads as that value.
pub proof fn law_block_face_read_only_from_its_name(name: Seq<char>, v: BlockFace)
    requires
        block_face_from_name(name) == Some(v),
    ensures
        name == block_face_name(v),
{
}

/// The name of each Hand variant, as the enum declares it.
pub open spec fn hand_label(v: Hand) -> Seq<char> {
    match v {
        Hand::Left => "Left"@,
        Hand::Right => "Right"@,
    }
}

/// The Bukkit name of each Hand is the Java constant made from its variant name.
pub proof fn law_hand_names_are_constants(v: Hand)
    ensures
        hand_name(v) == constant_name(hand_label(v)),
{
    reveal_strlit("Left");
    reveal_strlit("Right");
    reveal_strlit("LEFT");
    reveal_strlit("RIGHT");
    reveal_with_fuel(constant_name, 6);
    match v {
        Hand::Left => {
            assert(constant_name("Left"@) =~= "LEFT"@);
        },
        Hand::Right => {
            assert(constant_name("Right"@) =~= "RIGHT"@);
        },
    }
}

/// Only the Bukkit name of a value reads as that value.
pub proof fn law_hand_read_only_from_its_name(name: Seq<char>, v: Hand)
    requires
        hand_from_name(name) == Some(v),
    ensures
        name == hand_name(v),
{
}

/// The name of each InteractAction variant, as the enum declares it.
pub open spec fn interact_action_label(v: InteractAction) -> Seq<char> {
    match v {
        InteractAction::LeftClickBlock => "LeftClickBlock"@,
        InteractAction::LeftClickAir => "LeftClickAir"@,
        InteractAction::RightClickAir => "RightClickAir"@,
        InteractAction::RightClickBlock => "RightClickBlock"@,
    }
}

/// The Bukkit name of each InteractAction is the Java constant made from its variant name.
pub proof fn law_interact_action_names_are_constants(v: InteractAction)
    ensures
        interact_action_name(v) == constant_name(interact_action_label(v)),
{
    reveal_strlit("LeftClickBlock");
    reveal_strlit("LeftClickAir");
    reveal_strlit("RightClickAir");
    reveal_strlit("RightClickBlock");
    reveal_strlit("LEFT_CLICK_BLOCK");
    reveal_strlit("LEFT_CLICK_AIR");
    reveal_strlit("RIGHT_CLICK_AIR");
    reveal_strlit("RIGHT_CLICK_BLOCK");
    reveal_with_fuel(constant_name, 16);
    match v {
        InteractAction::LeftClickBlock => {
            assert(constant_name("LeftClickBlock"@) =~= "LEFT_CLICK_BLOCK"@);
        },
        InteractAction::LeftClickAir => {
            assert(constant_name("LeftClickAir"@) =~= "LEFT_CLICK_AIR"@);
        },
        InteractAction::RightClickAir => {
            assert(constant_name("RightClickAir"@) =~= "RIGHT_CLICK_AIR"@);
        },
        InteractAction::RightClickBlock => {
            assert(constant_name("RightClickBlock"@) =~= "RIGHT_CLICK_BLOCK"@);
        },
    }
}


/// The name of each EquipmentSlot variant, as the enum declares it.
pub open spec fn equipment_slot_label(v: EquipmentSlot) -> Seq<char> {
    match v {
        EquipmentSlot::MainHand => "MainHand"@,
        EquipmentSlot::OffHand => "OffHand"@,
        EquipmentSlot::Feet => "Feet"@,
        EquipmentSlot::Legs => "Legs"@,
        EquipmentSlot::Chest => "Chest"@,
        EquipmentSlot::Head => "Head"@,
        EquipmentSlot::Body => "Body"@,
        EquipmentSlot::Saddle => "Saddle"@,
    }
}

/// The Bukkit name of each EquipmentSlot is the Java constant made from its variant
/// name, except where Bukkit names the value otherwise: `MainHand` is `HAND`.
pub proof fn law_equipment_slot_names_are_constants(v: EquipmentSlot)
    ensures
        v != EquipmentSlot::MainHand ==> equipment_slot_name(v) == constant_name(equipment_slot_label(v)),
        equipment_slot_name(EquipmentSlot::MainHand) == "HAND"@,
{
    reveal_strlit("MainHand");
    reveal_strlit("OffHand");
    reveal_strlit("Feet");
    reveal_strlit("Legs");
    reveal_strlit("Chest");
    reveal_strlit("Head");
    reveal_strlit("Body");
    reveal_strlit("Saddle");
    reveal_strlit("HAND");
    reveal_strlit("OFF_HAND");
    reveal_strlit("FEET");
    reveal_strlit("LEGS");
    reveal_strlit("CHEST");
    reveal_strlit("HEAD");
    reveal_strlit("BODY");
    reveal_strlit("SADDLE");
    reveal_with_fuel(constant_name, 9);
    match v {
        EquipmentSlot::MainHand => {},
        EquipmentSlot::OffHand => {
            assert(constant_name("OffHand"@) =~= "OFF_HAND"@);
        },
        EquipmentSlot::Feet => {
            assert(constant_name("Feet"@) =~= "FEET"@);
        },
        EquipmentSlot::Legs => {
            assert(constant_name("Legs"@) =~= "LEGS"@);
        },
        EquipmentSlot::Chest => {
            assert(constant_name("Chest"@) =~= "CHEST"@);
        },
        EquipmentSlot::Head => {
            assert(constant_name("Head"@) =~= "HEAD"@);
        },
        EquipmentSlot::Body => {
            assert(constant_name("Body"@) =~= "BODY"@);
        },
        EquipmentSlot::Saddle => {
            assert(constant_name("Saddle"@) =~= "SADDLE"@);
        },
    }
}

/// Only the Bukkit name of a value reads as that value.
pub proof fn law_equipment_slot_read_only_from_its_name(name: Seq<char>, v: EquipmentSlot)
    requires
        equipment_slot_from_name(name) == Some(v),
    ensures
        name == equipment_slot_name(v),
{
}

/// The name of each Instrument variant, as the enum declares it.
pub open spec fn instrument_label(v: Instrument) -> Seq<char> {
    match v {
        Instrument::Harp => "Harp"@,
        Instrument::Basedrum => "Basedrum"@,
        Instrument::Snare => "Snare"@,
        Instrument::Hat => "Hat"@,
        Instrument::Bass => "Bass"@,
        Instrument::Flute => "Flute"@,
        Instrument::Bell => "Bell"@,
        Instrument::Guitar => "Guitar"@,
        Instrument::Chime => "Chime"@,
        Instrument::Xylophone => "Xylophone"@,
        Instrument::IronXylophone => "IronXylophone"@,
        Instrument::CowBell => "CowBell"@,
        Instrument::Didgeridoo => "Didgeridoo"@,
        Instrument::Bit => "Bit"@,
        Instrument::Banjo => "Banjo"@,
        Instrument::Pling => "Pling"@,
        Instrument::Zombie => "Zombie"@,
        Instrument::Skeleton => "Skeleton"@,
        Instrument::Creeper => "Creeper"@,
        Instrument::Dragon => "Dragon"@,
        Instrument::WitherSkeleton => "WitherSkeleton"@,
        Instrument::Piglin => "Piglin"@,
        Instrument::CustomHead => "CustomHead"@,
    }
}

/// The Bukkit name of each Instrument is the Java constant made from its variant
/// name, except where Bukkit names the value otherwise: `Harp` is `PIANO`, `Basedrum` is `BASS_DRUM`, `Snare` is `SNARE_DRUM`, `Hat` is `STICKS`, `Bass` is `BASS_GUITAR`.
pub proof fn law_instrument_names_are_constants(v: Instrument)
    ensures
        v != Instrument::Harp && v != Instrument::Basedrum && v != Instrument::Snare && v != Instrument::Hat && v != Instrument::Bass ==> instrument_name(v) == constant_name(instrument_label(v)),
        instrument_name(Instrument::Harp) == "PIANO"@,
        instrument_name(Instrument::Basedrum) == "BASS_DRUM"@,
        instrument_name(Instrument::Snare) == "SNARE_DRUM"@,
        instrument_name(Instrument::Hat) == "STICKS"@,
        instrument_name(Instrument::Bass) == "BASS_GUITAR"@,
{
    reveal_strlit("Harp");
    reveal_strlit("Basedrum");
    reveal_strlit("Snare");
    reveal_strlit("Hat");
    reveal_strlit("Bass");
    reveal_strlit("Flute");
    reveal_strlit("Bell");
    reveal_strlit("Guitar");
    reveal_strlit("Chime");
    reveal_strlit("Xylophone");
    reveal_strlit("IronXylophone");
    reveal_strlit("CowBell");
    reveal_strlit("Didgeridoo");
    reveal_strlit("Bit");
    reveal_strlit("Banjo");
    reveal_strlit("Pling");
    reveal_strlit("Zombie");
    reveal_strlit("Skeleton");
    reveal_strlit("Creeper");
    reveal_strlit("Dragon");
    reveal_strlit("WitherSkeleton");
    reveal_strlit("Piglin");
    reveal_strlit("CustomHead");
    reveal_strlit("PIANO");
    reveal_strlit("BASS_DRUM");
    reveal_strlit("SNARE_DRUM");
    reveal_strlit("STICKS");
    reveal_strlit("BASS_GUITAR");
    reveal_strlit("FLUTE");
    reveal_strlit("BELL");
    reveal_strlit("GUITAR");
    reveal_strlit("CHIME");
    reveal_strlit("XYLOPHONE");
    reveal_strlit("IRON_XYLOPHONE");
    reveal_strlit("COW_BELL");
    reveal_strlit("DIDGERIDOO");
    reveal_strlit("BIT");
    reveal_strlit("BANJO");
    reveal_strlit("PLING");
    reveal_strlit("ZOMBIE");
    reveal_strlit("SKELETON");
    reveal_strlit("CREEPER");
    reveal_strlit("DRAGON");
    reveal_strlit("WITHER_SKELETON");
    reveal_strlit("PIGLIN");
    reveal_strlit("CUSTOM_HEAD");
    reveal_with_fuel(constant_name, 15);
    match v {
        Instrument::Harp => {},
        Instrument::Basedrum => {},
        Instrument::Snare => {},
        Instrument::Hat => {},
        Instrument::Bass => {},
        Instrument::Flute => {
            assert(constant_name("Flute"@) =~= "FLUTE"@);
        },
        Instrument::Bell => {
            assert(constant_name("Bell"@) =~= "BELL"@);
        },
        Instrument::Guitar => {
            assert(constant_name("Guitar"@) =~= "GUITAR"@);
        },
        Instrument::Chime => {
            assert(constant_name("Chime"@) =~= "CHIME"@);
        },
        Instrument::Xylophone => {
            assert(constant_name("Xylophone"@) =~= "XYLOPHONE"@);
        },
        Instrument::IronXylophone => {
            assert(constant_name("IronXylophone"@) =~= "IRON_XYLOPHONE"@);
        },
        Instrument::CowBell => {
            assert(constant_name("CowBell"@) =~= "COW_BELL"@);
        },
        Instrument::Didgeridoo => {
            assert(constant_name("Didgeridoo"@) =~= "DIDGERIDOO"@);
        },
        Instrument::Bit => {
            assert(constant_name("Bit"@) =~= "BIT"@);
        },
        Instrument::Banjo => {
            assert(constant_name("Banjo"@) =~= "BANJO"@);
        },
        Instrument::Pling => {
            assert(constant_name("Pling"@) =~= "PLING"@);
        },
        Instrument::Zombie => {
            assert(constant_name("Zombie"@) =~= "ZOMBIE"@);
        },
        Instrument::Skeleton => {
            assert(constant_name("Skeleton"@) =~= "SKELETON"@);
        },
        Instrument::Creeper => {
            assert(constant_name("Creeper"@) =~= "CREEPER"@);
        },
        Instrument::Dragon => {
            assert(constant_name("Dragon"@) =~= "DRAGON"@);
        },
        Instrument::WitherSkeleton => {
            assert(constant_name("WitherSkeleton"@) =~= "WITHER_SKELETON"@);
        },
        Instrument::Piglin => {
            assert(constant_name("Piglin"@) =~= "PIGLIN"@);
        },
        Instrument::CustomHead => {
            assert(constant_name("CustomHead"@) =~= "CUSTOM_HEAD"@);
        },
    }
}

/// Only the Bukkit name of a value reads as that value.
pub proof fn law_instrument_read_only_from_its_name(name: Seq<char>, v: Instrument)
    requires
        instrument_from_name(name) == Some(v),
    ensures
        name == instrument_name(v),
{
}

/// The place of a priority among Pumpkin's priorities, lowest first.
pub open spec fn priority_rank(p: EventPriority) -> int {
    match p {
        EventPriority::Lowest => 0,
        EventPriority::Low => 1,
        EventPriority::Normal => 2,
        EventPriority::High => 3,
        EventPriority::Highest => 4,
    }
}

/// Bukkit's priorities LOWEST (0) to HIGHEST (4) map to Pumpkin's in the same
/// order; every other number (MONITOR is 5) maps to Highest; and a larger
/// Bukkit priority number never gives a lower Pumpkin priority.
pub proof fn law_priority_mapping_keeps_order(a: i32, b: i32)
    ensures
        0 <= a <= 4 ==> priority_rank(priority_spec(a)) == a,
        !(0 <= a <= 3) ==> priority_spec(a) == EventPriority::Highest,
        0 <= a <= b ==> priority_rank(priority_spec(a)) <= priority_rank(priority_spec(b)),
{
}

} // verus!
