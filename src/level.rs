use vstd::prelude::*;

use crate::game::Position;
use crate::monster::Monster;
use crate::tileset::{
    TileId, InvalidTileId, NUM_TILES, TILE_BLANK, TILE_MONSTER_SPIDER, TILE_MONSTER_WHEEL,
};

verus! {

broadcast use TileId::lemma_spec_from_view, TileId::lemma_view_spec_from;

pub const NUM_LEVELS: usize = 10;
pub const MONSTER_PATH_LEN: usize = 128;
pub const LEVEL_WIDTH: usize = 100;
pub const LEVEL_HEIGHT: usize = 10;
pub const LEVEL_TILES: usize = 1000;

/// Both coordinates of the path's end marker: the byte 0xEA read as a signed byte.
pub const PATH_END: i16 = -22;

/// Bytes of a level file that are read: the path as signed byte pairs, then one byte per tile.
pub const LEVEL_DATA_LEN: usize = 1256;

/// A byte read as a two's complement signed byte.
pub open spec fn signed_byte(b: u8) -> i16 {
    if b < 128 {
        b as i16
    } else {
        (b - 256) as i16
    }
}

pub fn read_i8(b: u8) -> (r: i16)
    ensures
        r == signed_byte(b),
{
    if b < 128 {
        b as i16
    } else {
        b as i16 - 256
    }
}

/// Start cell of each level.
pub open spec fn start_position_of(level: usize) -> Position<u8> {
    if level == 1 {
        Position { x: 1, y: 8 }
    } else if level == 2 {
        Position { x: 2, y: 5 }
    } else if level == 3 {
        Position { x: 1, y: 5 }
    } else if level == 6 {
        Position { x: 1, y: 2 }
    } else if level == 8 {
        Position { x: 6, y: 1 }
    } else {
        Position { x: 2, y: 8 }
    }
}

/// The monsters each level starts with: two spiders on level 2, a wheel on level 3, and
/// empty slots everywhere else.
pub open spec fn roster_of(level: usize) -> Seq<Monster> {
    let dead = Monster::dead();
    if level == 2 {
        seq![
            Monster::spawned(TileId::spec_from(TILE_MONSTER_SPIDER), Position { x: 44, y: 4 }),
            Monster::spawned(TileId::spec_from(TILE_MONSTER_SPIDER), Position { x: 59, y: 4 }),
            dead,
            dead,
            dead,
        ]
    } else if level == 3 {
        seq![
            Monster::spawned(TileId::spec_from(TILE_MONSTER_WHEEL), Position { x: 32, y: 2 }),
            dead,
            dead,
            dead,
            dead,
        ]
    } else {
        seq![dead, dead, dead, dead, dead]
    }
}

/// A validated level number.
#[derive(Debug, Clone, Copy, PartialEq, Eq, Structural)]
pub struct LevelId {
    idx: usize,
}

impl View for LevelId {
    type V = usize;

    closed spec fn view(&self) -> usize {
        self.idx
    }
}

impl LevelId {
    #[verifier::type_invariant]
    spec fn inv(self) -> bool {
        self.idx < NUM_LEVELS
    }

    /// The level id with view `idx`; meaningful for `idx < NUM_LEVELS`.
    pub closed spec fn spec_from(idx: usize) -> LevelId {
        LevelId { idx }
    }

    pub broadcast proof fn lemma_spec_from_view(idx: usize)
        ensures
            #[trigger] LevelId::spec_from(idx)@ == idx,
    {
    }

    pub broadcast proof fn lemma_view_spec_from(l: LevelId)
        ensures
            LevelId::spec_from(#[trigger] l@) == l,
    {
    }

    pub fn new(idx: usize) -> (r: Option<LevelId>)
        ensures
            r is Some <==> idx < NUM_LEVELS,
            r matches Some(l) ==> l@ == idx,
    {
        if idx < NUM_LEVELS {
            Some(LevelId { idx })
        } else {
            None
        }
    }

    /// The level number, counted from zero.
    pub fn val(self) -> (r: usize)
        ensures
            r == self@,
            r < NUM_LEVELS,
    {
        proof {
            use_type_invariant(&self);
        }
        self.idx
    }

    pub fn next(self) -> (r: Option<LevelId>)
        ensures
            r is Some <==> self@ + 1 < NUM_LEVELS,
            r matches Some(l) ==> l@ == self@ + 1,
    {
        if self.idx < NUM_LEVELS - 1 {
            Some(LevelId { idx: self.idx + 1 })
        } else {
            None
        }
    }

    pub fn first_level() -> (r: LevelId)
        ensures
            r@ == 0,
    {
        LevelId { idx: 0 }
    }

    pub fn start_position(self) -> (r: Position<u8>)
        ensures
            r == start_position_of(self@),
    {
        match self.idx {
            1 => Position { x: 1, y: 8 },
            2 => Position { x: 2, y: 5 },
            3 => Position { x: 1, y: 5 },
            6 => Position { x: 1, y: 2 },
            8 => Position { x: 6, y: 1 },
            _ => Position { x: 2, y: 8 },
        }
    }
}

impl LevelId {
    pub fn monsters(self) -> (r: [Monster; 5])
        ensures
            r@ == roster_of(self@),
    {
        let dead = Monster::init_dead();
        match self.idx {
            2 => {
                let spider = TileId::known(TILE_MONSTER_SPIDER);
                [
                    Monster::init_live(spider, Position { x: 44, y: 4 }),
                    Monster::init_live(spider, Position { x: 59, y: 4 }),
                    dead,
                    dead,
                    dead,
                ]
            },
            3 => {
                let wheel = TileId::known(TILE_MONSTER_WHEEL);
                [Monster::init_live(wheel, Position { x: 32, y: 2 }), dead, dead, dead, dead]
            },
            _ => [dead, dead, dead, dead, dead],
        }
    }
}

/// The patrol path of a level's monsters: relative pixel moves, ended by a `PATH_END` pair.
#[derive(Debug, Clone, Copy)]
pub struct MonsterPath(pub [Position<i16>; 128]);

impl MonsterPath {
    pub open spec fn is_end(p: Position<i16>) -> bool {
        p.x == PATH_END && p.y == PATH_END
    }

    pub fn index(&self, idx: MonsterPathIndex) -> (r: Position<i16>)
        ensures
            r == self.0[idx@ as int],
    {
        proof {
            use_type_invariant(&idx);
        }
        self.0[idx.idx]
    }
}

/// A validated index into a monster path.
#[derive(Debug, Clone, Copy, PartialEq, Eq, Structural)]
pub struct MonsterPathIndex {
    idx: usize,
}

impl View for MonsterPathIndex {
    type V = usize;

    closed spec fn view(&self) -> usize {
        self.idx
    }
}

/// The index after `i`, wrapping to the start after the last entry.
pub open spec fn next_path_index(i: usize) -> usize {
    if i + 1 < MONSTER_PATH_LEN {
        (i + 1) as usize
    } else {
        0
    }
}

impl MonsterPathIndex {
    #[verifier::type_invariant]
    spec fn inv(self) -> bool {
        self.idx < MONSTER_PATH_LEN
    }

    /// The index with view `i`; meaningful for `i < MONSTER_PATH_LEN`.
    pub closed spec fn spec_from(i: usize) -> MonsterPathIndex {
        MonsterPathIndex { idx: i }
    }

    pub broadcast proof fn lemma_spec_from_view(i: usize)
        ensures
            #[trigger] MonsterPathIndex::spec_from(i)@ == i,
    {
    }

    pub broadcast proof fn lemma_view_spec_from(p: MonsterPathIndex)
        ensures
            MonsterPathIndex::spec_from(#[trigger] p@) == p,
    {
    }

    pub fn start() -> (r: MonsterPathIndex)
        ensures
            r@ == 0,
    {
        MonsterPathIndex { idx: 0 }
    }

    pub fn next(self) -> (r: MonsterPathIndex)
        ensures
            r@ == next_path_index(self@),
    {
        if self.idx < MONSTER_PATH_LEN - 1 {
            MonsterPathIndex { idx: self.idx + 1 }
        } else {
            MonsterPathIndex { idx: 0 }
        }
    }
}

/// Why a level's bytes were refused.
#[derive(Debug, Clone, Copy, PartialEq, Eq, Structural)]
pub enum LevelError {
    /// Fewer bytes than a level holds.
    TooShort(usize),
    /// A tile byte outside the catalog, at this tile index.
    InvalidTile(usize, InvalidTileId),
}

/// One level: its monster path and its 100 x 10 tile grid, stored row by row.
#[derive(Debug, Clone, Copy)]
pub struct Level {
    pub path: MonsterPath,
    pub tiles: [TileId; 1000],
}

/// The tile bytes of a level file, which follow the 256 path bytes.
pub open spec fn tile_bytes(bytes: Seq<u8>) -> Seq<u8> {
    bytes.subrange(256, LEVEL_DATA_LEN as int)
}

/// True when `i` is the first tile byte of `bytes` that is not a catalog id.
pub open spec fn first_invalid_tile(bytes: Seq<u8>, i: int) -> bool {
    &&& 0 <= i < LEVEL_TILES
    &&& tile_bytes(bytes)[i] >= NUM_TILES
    &&& forall|j: int| 0 <= j < i ==> tile_bytes(bytes)[j] < NUM_TILES
}

impl Level {
    pub fn path(&self) -> (r: &MonsterPath)
        ensures
            *r == self.path,
    {
        &self.path
    }

    pub fn tiles(&self) -> (r: &[TileId])
        ensures
            r@ == self.tiles@,
            r@.len() == LEVEL_TILES,
    {
        self.tiles.as_slice()
    }

    pub fn tiles_mut(&mut self) -> (r: &mut [TileId])
        ensures
            r@ == old(self).tiles@,
            final(r)@ == final(self).tiles@,
            final(self).path == old(self).path,
    {
        &mut self.tiles
    }

    /// Reads a level from its file bytes: 128 pairs of signed bytes for the path, then
    /// 1000 tile ids. Bytes after those are ignored.
    pub fn from_bytes(bytes: &[u8]) -> (r: Result<Level, LevelError>)
        ensures
            bytes@.len() < LEVEL_DATA_LEN ==> r == Err::<Level, LevelError>(
                LevelError::TooShort(bytes@.len() as usize),
            ),
            bytes@.len() >= LEVEL_DATA_LEN ==> (r is Ok <==> forall|j: int|
                0 <= j < LEVEL_TILES ==> tile_bytes(bytes@)[j] < NUM_TILES),
            r matches Ok(l) ==> {
                &&& forall|i: int|
                    0 <= i < MONSTER_PATH_LEN ==> #[trigger] l.path.0[i] == (Position {
                        x: signed_byte(bytes@[2 * i]),
                        y: signed_byte(bytes@[2 * i + 1]),
                    })
                &&& forall|i: int| 0 <= i < LEVEL_TILES ==> l.tiles[i]@ == tile_bytes(bytes@)[i]
            },
            r matches Err(LevelError::InvalidTile(i, e)) ==> first_invalid_tile(bytes@, i as int)
                && e.id == tile_bytes(bytes@)[i as int],
    {
        if bytes.len() < LEVEL_DATA_LEN {
            return Err(LevelError::TooShort(bytes.len()));
        }
        let mut path = [Position { x: 0i16, y: 0i16 }; 128];
        let mut i: usize = 0;
        while i < MONSTER_PATH_LEN
            invariant
                i <= MONSTER_PATH_LEN,
                bytes@.len() >= LEVEL_DATA_LEN,
                forall|j: int|
                    0 <= j < i ==> #[trigger] path[j] == (Position {
                        x: signed_byte(bytes@[2 * j]),
                        y: signed_byte(bytes@[2 * j + 1]),
                    }),
            decreases MONSTER_PATH_LEN - i,
        {
            path[i] = Position { x: read_i8(bytes[2 * i]), y: read_i8(bytes[2 * i + 1]) };
            i = i + 1;
        }
        let blank = TileId::known(TILE_BLANK);
        let mut tiles = [blank; 1000];
        let mut k: usize = 0;
        while k < LEVEL_TILES
            invariant
                k <= LEVEL_TILES,
                bytes@.len() >= LEVEL_DATA_LEN,
                forall|j: int| 0 <= j < k ==> tiles[j]@ == tile_bytes(bytes@)[j],
                forall|j: int| 0 <= j < k ==> tile_bytes(bytes@)[j] < NUM_TILES,
            decreases LEVEL_TILES - k,
        {
            match TileId::new(bytes[256 + k]) {
                Ok(t) => {
                    tiles[k] = t;
                },
                Err(e) => {
                    assert(tile_bytes(bytes@)[k as int] >= NUM_TILES);
                    return Err(LevelError::InvalidTile(k, e));
                },
            }
            k = k + 1;
        }
        Ok(Level { path: MonsterPath(path), tiles })
    }
}

/// The level collection, one entry per level number.
pub struct Levels {
    levels: Vec<Level>,
}

impl View for Levels {
    type V = Seq<Level>;

    closed spec fn view(&self) -> Seq<Level> {
        self.levels@
    }
}

impl Levels {
    #[verifier::type_invariant]
    spec fn inv(self) -> bool {
        self.levels@.len() == NUM_LEVELS
    }

    /// Wraps exactly one level per level number.
    pub fn new(levels: Vec<Level>) -> (r: Option<Levels>)
        ensures
            r is Some <==> levels@.len() == NUM_LEVELS,
            r matches Some(l) ==> l@ == levels@,
    {
        if levels.len() == NUM_LEVELS {
            Some(Levels { levels })
        } else {
            None
        }
    }

    pub fn index(&self, id: LevelId) -> (r: &Level)
        ensures
            *r == self@[id@ as int],
    {
        proof {
            use_type_invariant(self);
            use_type_invariant(&id);
        }
        &self.levels[id.val()]
    }

    pub fn index_mut(&mut self, id: LevelId) -> (r: &mut Level)
        ensures
            *r == old(self)@[id@ as int],
            final(self)@ == old(self)@.update(id@ as int, *final(r)),
    {
        proof {
            use_type_invariant(&*self);
            use_type_invariant(&id);
        }
        &mut self.levels[id.val()]
    }
}

} // verus!
