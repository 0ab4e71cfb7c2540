use vstd::prelude::*;

verus! {

/// Size of the tile catalog: every valid tile id is below this.
pub const NUM_TILES: u8 = 159;

pub const TILE_BLANK: u8 = 0;
pub const TILE_DOOR: u8 = 2;
pub const TILE_JETPACK: u8 = 4;
pub const TILE_GUN: u8 = 20;

pub const TILE_SCORE_BLUE_GEM: u8 = 47;
pub const TILE_SCORE_ORB: u8 = 48;
pub const TILE_SCORE_RED_GEM: u8 = 49;
pub const TILE_SCORE_CROWN: u8 = 50;
pub const TILE_SCORE_RING: u8 = 51;
pub const TILE_SCORE_SCEPTER: u8 = 52;

pub const TILE_DAVE_RIGHT: u8 = 53;
pub const TILE_DAVE_BASIC: u8 = 56;
pub const TILE_DAVE_LEFT: u8 = 57;
pub const TILE_DAVE_JUMP_RIGHT: u8 = 67;
pub const TILE_DAVE_JUMP_LEFT: u8 = 68;
pub const TILE_DAVE_JETPACK_RIGHT: u8 = 77;
pub const TILE_DAVE_JETPACK_LEFT: u8 = 80;

pub const TILE_MONSTER_SPIDER: u8 = 89;
pub const TILE_MONSTER_WHEEL: u8 = 93;
pub const TILE_MONSTER_STAR: u8 = 97;
pub const TILE_MONSTER_BAR: u8 = 101;
pub const TILE_MONSTER_FLAT_DISK: u8 = 105;
pub const TILE_MONSTER_MOUTH: u8 = 109;
pub const TILE_MONSTER_GREEN_DISK: u8 = 113;
pub const TILE_MONSTER_BIG_DISK: u8 = 117;

pub const TILE_ENEMY_BULLET_RIGHT: u8 = 121;
pub const TILE_ENEMY_BULLET_LEFT: u8 = 124;
pub const TILE_BULLET_RIGHT: u8 = 127;
pub const TILE_BULLET_LEFT: u8 = 128;
pub const TILE_MONSTER_DYING: u8 = 129;

pub const TILE_UI_JETPACK: u8 = 133;
pub const TILE_UI_GUN: u8 = 134;
pub const TILE_UI_DAVES: u8 = 135;
pub const TILE_UI_LEVEL: u8 = 136;
pub const TILE_UI_SCORE: u8 = 137;
pub const TILE_UI_TROPHY: u8 = 138;
pub const TILE_UI_JETPACK_FUEL_BORDER: u8 = 141;
pub const TILE_UI_JETPACK_FUEL_BAR: u8 = 142;
pub const TILE_UI_DAVE: u8 = 143;
pub const TILE_UI_DIGIT_0: u8 = 148;
pub const TILE_UI_BORDER: u8 = 158;

/// Tiles that block movement.
pub open spec fn collidable_id(id: u8) -> bool {
    id == 1 || id == 3 || id == 5 || (15 <= id <= 19) || (21 <= id <= 24) || id == 29 || id == 30
}

/// Tiles that kill on contact: fire, weeds and water.
pub open spec fn hazard_id(id: u8) -> bool {
    (6 <= id <= 9) || (25 <= id <= 28) || (36 <= id <= 40)
}

/// Tiles that are collected on contact: jetpack, trophy frames, gun and the score items.
pub open spec fn pickup_id(id: u8) -> bool {
    id == 4 || (10 <= id <= 14) || id == 20 || (47 <= id <= 52)
}

pub open spec fn door_id(id: u8) -> bool {
    id == 2
}

/// Tree tiles.
pub open spec fn climbable_id(id: u8) -> bool {
    (33 <= id <= 35) || id == 41
}

/// The trophy frames, a subset of the pickups.
pub open spec fn trophy_id(id: u8) -> bool {
    10 <= id <= 14
}

/// Last frame of the animation that starts at `id`; `id` itself when the tile is not animated.
pub open spec fn last_frame_of(id: u8) -> u8 {
    if id == 6 { 9 }
    else if id == 10 { 14 }
    else if id == 25 { 28 }
    else if id == 36 { 40 }
    else if id == 129 { 132 }
    else if id == 53 { 55 }
    else if id == 57 { 58 }
    else if id == 77 { 79 }
    else if id == 80 { 82 }
    else if id == 121 { 123 }
    else if id == 124 { 126 }
    else if id == 89 { 92 }
    else if id == 93 { 96 }
    else if id == 97 { 100 }
    else if id == 101 { 104 }
    else if id == 105 { 108 }
    else if id == 109 { 112 }
    else if id == 113 { 116 }
    else if id == 117 { 120 }
    else { id }
}

/// The frame shown at `tick`: every 5 ticks the animation advances one frame, cycling.
pub open spec fn frame_of(id: u8, tick: usize) -> int {
    id + (tick as int / 5) % (last_frame_of(id) - id + 1)
}

/// Player sprites that are drawn through a mask.
pub open spec fn dave_sprite_id(id: u8) -> bool {
    (53 <= id <= 59) || id == 67 || id == 68 || (71 <= id <= 73) || (77 <= id <= 82)
}

/// Sprites whose black pixels are transparent.
pub open spec fn black_mask_id(id: u8) -> bool {
    (89 <= id <= 120) || (129 <= id <= 132) || id == 142
}

/// The mask tile of a player sprite.
pub open spec fn dave_mask_of(id: u8) -> int {
    if 53 <= id <= 59 {
        id + 7
    } else if id == 67 || id == 68 {
        id + 2
    } else if 71 <= id <= 73 {
        id + 3
    } else {
        id + 6
    }
}

/// A tile id outside the catalog.
#[derive(Debug, Clone, Copy, PartialEq, Eq, Structural)]
pub struct InvalidTileId {
    pub id: u8,
}

/// One of the catalog's tile archetypes; always below `NUM_TILES`.
#[derive(Debug, Clone, Copy, PartialEq, Eq, Structural)]
pub struct TileId {
    id: u8,
}

impl View for TileId {
    type V = u8;

    closed spec fn view(&self) -> u8 {
        self.id
    }
}

impl TileId {
    #[verifier::type_invariant]
    spec fn inv(self) -> bool {
        self.id < NUM_TILES
    }

    /// The tile id with view `id`; meaningful for `id < NUM_TILES`.
    pub closed spec fn spec_from(id: u8) -> TileId {
        TileId { id }
    }

    pub broadcast proof fn lemma_spec_from_view(id: u8)
        ensures
            #[trigger] TileId::spec_from(id)@ == id,
    {
    }

    pub broadcast proof fn lemma_view_spec_from(t: TileId)
        ensures
            TileId::spec_from(#[trigger] t@) == t,
    {
    }

    /// A tile id whose range is already known.
    pub(crate) fn known(id: u8) -> (r: TileId)
        requires
            id < NUM_TILES,
        ensures
            r@ == id,
    {
        TileId { id }
    }

    pub fn new(id: u8) -> (r: Result<TileId, InvalidTileId>)
        ensures
            r is Ok <==> id < NUM_TILES,
            r matches Ok(t) ==> t@ == id,
            r matches Err(e) ==> e.id == id,
    {
        if id < NUM_TILES {
            Ok(TileId { id })
        } else {
            Err(InvalidTileId { id })
        }
    }

    /// The numeric id.
    pub fn value(self) -> (r: u8)
        ensures
            r == self@,
            r < NUM_TILES,
    {
        proof {
            use_type_invariant(&self);
        }
        self.id
    }

    pub fn get_frame(self, tick: usize) -> (r: TileId)
        ensures
            r@ == frame_of(self@, tick),
    {
        proof {
            use_type_invariant(&self);
        }
        let id = self.id;
        let last: u8 = if id == 6 { 9 }
        else if id == 10 { 14 }
        else if id == 25 { 28 }
        else if id == 36 { 40 }
        else if id == 129 { 132 }
        else if id == 53 { 55 }
        else if id == 57 { 58 }
        else if id == 77 { 79 }
        else if id == 80 { 82 }
        else if id == 121 { 123 }
        else if id == 124 { 126 }
        else if id == 89 { 92 }
        else if id == 93 { 96 }
        else if id == 97 { 100 }
        else if id == 101 { 104 }
        else if id == 105 { 108 }
        else if id == 109 { 112 }
        else if id == 113 { 116 }
        else if id == 117 { 120 }
        else { return self };
        let frames: usize = (last - id + 1) as usize;
        let offset: usize = (tick / 5) % frames;
        assert(offset < frames);
        TileId { id: id + offset as u8 }
    }

    pub fn is_collidable(self) -> (r: bool)
        ensures
            r == collidable_id(self@),
    {
        let id = self.id;
        id == 1 || id == 3 || id == 5 || (15 <= id && id <= 19) || (21 <= id && id <= 24) || id
            == 29 || id == 30
    }

    pub fn is_hazard(self) -> (r: bool)
        ensures
            r == hazard_id(self@),
    {
        let id = self.id;
        (6 <= id && id <= 9) || (25 <= id && id <= 28) || (36 <= id && id <= 40)
    }

    pub fn is_pickup(self) -> (r: bool)
        ensures
            r == pickup_id(self@),
    {
        let id = self.id;
        id == 4 || (10 <= id && id <= 14) || id == 20 || (47 <= id && id <= 52)
    }

    pub fn is_door(self) -> (r: bool)
        ensures
            r == door_id(self@),
    {
        self.id == 2
    }

    pub fn is_climbable(self) -> (r: bool)
        ensures
            r == climbable_id(self@),
    {
        let id = self.id;
        (33 <= id && id <= 35) || id == 41
    }

    pub fn is_trophy(self) -> (r: bool)
        ensures
            r == trophy_id(self@),
    {
        10 <= self.id && self.id <= 14
    }

    pub fn get_digit_tile(digit: u32) -> (r: TileId)
        requires
            digit <= 9,
        ensures
            r@ == TILE_UI_DIGIT_0 + digit,
    {
        TileId { id: TILE_UI_DIGIT_0 + digit as u8 }
    }

    pub fn is_dave(id: u8) -> (r: bool)
        ensures
            r == dave_sprite_id(id),
    {
        (53 <= id && id <= 59) || id == 67 || id == 68 || (71 <= id && id <= 73) || (77 <= id
            && id <= 82)
    }

    pub fn black_mask(id: u8) -> (r: bool)
        ensures
            r == black_mask_id(id),
    {
        (89 <= id && id <= 120) || (129 <= id && id <= 132) || id == 142
    }

    pub fn get_dave_mask(id: u8) -> (r: u8)
        requires
            dave_sprite_id(id),
        ensures
            r == dave_mask_of(id),
    {
        if 53 <= id && id <= 59 {
            id + 7
        } else if id == 67 || id == 68 {
            id + 2
        } else if 71 <= id && id <= 73 {
            id + 3
        } else {
            id + 6
        }
    }
}

/// Classification is exclusive: a tile id is at most one of wall, hazard, pickup, door and
/// climbable, and every trophy is a pickup.
pub proof fn lemma_tile_classes_exclusive(id: u8)
    ensures
        collidable_id(id) ==> !hazard_id(id) && !pickup_id(id) && !door_id(id) && !climbable_id(id),
        hazard_id(id) ==> !pickup_id(id) && !door_id(id) && !climbable_id(id),
        pickup_id(id) ==> !door_id(id) && !climbable_id(id),
        door_id(id) ==> !climbable_id(id),
        trophy_id(id) ==> pickup_id(id),
{
}

} // verus!
