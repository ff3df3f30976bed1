//! A map as it is stored, and where its tiles lie in the world.

use vstd::prelude::*;
use crate::instrumentation::Position;
use crate::npc::NpcFacing;
use crate::text::str_eq;

verus! {

/// The side of a tile, in world units.
pub const TILE_SIZE: i64 = 48;

/// What an NPC of a stored map has to say.
#[derive(Debug)]
pub struct DialogueData {
    pub speaker: String,
    pub portrait: String,
    pub lines: Vec<String>,
}

/// An NPC of a stored map.
#[derive(Debug)]
pub struct NpcData {
    pub name: String,
    pub x: u32,
    pub y: u32,
    pub sprite: String,
    pub facing: String,
    pub dialogue: DialogueData,
}

/// A stored map: its tiles row by row, and its NPCs.
#[derive(Debug)]
pub struct MapData {
    pub name: String,
    pub width: u32,
    pub height: u32,
    pub tiles: Vec<u32>,
    pub npcs: Vec<NpcData>,
}

/// The file that holds the map of the given name.
pub open spec fn map_file(map_name: Seq<char>) -> Seq<char> {
    "assets/data/maps/"@ + map_name + ".json"@
}

impl MapData {
    /// The texture of the tile at `(x, y)`: what `tiles` holds at its place,
    /// and zero where `tiles` is too short.
    pub open spec fn texture_at(self, x: int, y: int) -> u32 {
        if y * self.width + x < self.tiles@.len() {
            self.tiles@[y * self.width + x]
        } else {
            0
        }
    }

    /// The file that holds the map of the given name.
    pub fn path(map_name: &str) -> (p: String)
        ensures
            p@ == map_file(map_name@),
    {
        String::from_str("assets/data/maps/").concat(map_name).concat(".json")
    }

    /// The texture of the tile at `(x, y)`.
    pub fn texture_index(&self, x: u32, y: u32) -> (t: u32)
        ensures
            t == self.texture_at(x as int, y as int),
    {
        assert((y as u64) * (self.width as u64) <= 0xffff_ffff * 0xffff_ffff) by (nonlinear_arith)
            requires
                0 <= y as u64 <= 0xffff_ffff,
                0 <= self.width as u64 <= 0xffff_ffff,
        ;
        let index: u64 = (y as u64) * (self.width as u64) + (x as u64);
        if index < self.tiles.len() as u64 {
            self.tiles[index as usize]
        } else {
            0
        }
    }
}

/// The centre of a tile in the world, whose origin is the centre of the map.
pub open spec fn tile_centre(tile_x: u32, tile_y: u32, map_width: u32, map_height: u32)
    -> Position {
    Position {
        x: (48 * tile_x - 24 * map_width + 24) as i64,
        y: (48 * tile_y - 24 * map_height + 24) as i64,
    }
}

/// The centre of a tile in the world.
pub fn tile_to_world(tile_x: u32, tile_y: u32, map_width: u32, map_height: u32) -> (p: Position)
    ensures
        p == tile_centre(tile_x, tile_y, map_width, map_height),
        2 * p.x == (2 * tile_x - map_width) * TILE_SIZE + TILE_SIZE,
        2 * p.y == (2 * tile_y - map_height) * TILE_SIZE + TILE_SIZE,
{
    let x: i64 = 48 * (tile_x as i64) - 24 * (map_width as i64) + 24;
    let y: i64 = 48 * (tile_y as i64) - 24 * (map_height as i64) + 24;
    Position { x, y }
}

/// The lower left corner of a map in the world.
pub fn map_origin(map_width: u32, map_height: u32) -> (p: Position)
    ensures
        p.x == -24 * map_width,
        p.y == -24 * map_height,
{
    Position { x: 0 - 24 * (map_width as i64), y: 0 - 24 * (map_height as i64) }
}

/// The facing that a word of a stored map stands for; `Down` for any word
/// that is none of the four.
pub open spec fn facing_named(facing: Seq<char>) -> NpcFacing {
    if facing == "down"@ {
        NpcFacing::Down
    } else if facing == "left"@ {
        NpcFacing::Left
    } else if facing == "right"@ {
        NpcFacing::Right
    } else if facing == "up"@ {
        NpcFacing::Up
    } else {
        NpcFacing::Down
    }
}

/// The facing that a word of a stored map stands for.
pub fn facing_from_string(facing: &str) -> (f: NpcFacing)
    ensures
        f == facing_named(facing@),
{
    if str_eq(facing, "down") {
        NpcFacing::Down
    } else if str_eq(facing, "left") {
        NpcFacing::Left
    } else if str_eq(facing, "right") {
        NpcFacing::Right
    } else if str_eq(facing, "up") {
        NpcFacing::Up
    } else {
        NpcFacing::Down
    }
}

/// The character sheets that an NPC can be drawn from.
#[derive(Clone, Copy, Debug, PartialEq, Eq, Structural)]
pub enum NpcSprite {
    Nature,
    Mando,
    SfActor1,
    People1,
    Monster,
    Casey,
    Actor1,
    Actor2,
    Evil,
    SfMonster,
    People4,
}

impl NpcSprite {
    /// The name of the sheet in a stored map.
    pub open spec fn name_spec(self) -> Seq<char> {
        match self {
            NpcSprite::Nature => "Nature"@,
            NpcSprite::Mando => "Mando"@,
            NpcSprite::SfActor1 => "SF_Actor1"@,
            NpcSprite::People1 => "People1"@,
            NpcSprite::Monster => "Monster"@,
            NpcSprite::Casey => "casey"@,
            NpcSprite::Actor1 => "Actor1"@,
            NpcSprite::Actor2 => "Actor2"@,
            NpcSprite::Evil => "Evil"@,
            NpcSprite::SfMonster => "SF_Monster"@,
            NpcSprite::People4 => "People4"@,
        }
    }

    /// The sheet of the given name; none for a name that no sheet has.
    pub fn from_name(name: &str) -> (found: Option<NpcSprite>)
        ensures
            match found {
                Some(s) => s.name_spec() == name@,
                None => forall|s: NpcSprite| s.name_spec() != name@,
            },
    {
        if str_eq(name, "Nature") {
            Some(NpcSprite::Nature)
        } else if str_eq(name, "Mando") {
            Some(NpcSprite::Mando)
        } else if str_eq(name, "SF_Actor1") {
            Some(NpcSprite::SfActor1)
        } else if str_eq(name, "People1") {
            Some(NpcSprite::People1)
        } else if str_eq(name, "Monster") {
            Some(NpcSprite::Monster)
        } else if str_eq(name, "casey") {
            Some(NpcSprite::Casey)
        } else if str_eq(name, "Actor1") {
            Some(NpcSprite::Actor1)
        } else if str_eq(name, "Actor2") {
            Some(NpcSprite::Actor2)
        } else if str_eq(name, "Evil") {
            Some(NpcSprite::Evil)
        } else if str_eq(name, "SF_Monster") {
            Some(NpcSprite::SfMonster)
        } else if str_eq(name, "People4") {
            Some(NpcSprite::People4)
        } else {
            None
        }
    }
}

/// The file of a portrait: empty for no portrait.
pub open spec fn portrait_file(portrait: Seq<char>) -> Seq<char> {
    if portrait.len() == 0 {
        Seq::<char>::empty()
    } else {
        "textures/portraits/"@ + portrait + ".png"@
    }
}

/// The file of a portrait.
pub fn portrait_path(portrait: &str) -> (p: String)
    ensures
        p@ == portrait_file(portrait@),
{
    if portrait.unicode_len() == 0 {
        String::new()
    } else {
        String::from_str("textures/portraits/").concat(portrait).concat(".png")
    }
}

} // verus!
