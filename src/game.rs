use vstd::prelude::*;

use crate::TILE_SIZE;
use crate::dave::{Dave, HasJetpack, lemma_pickup_in_grid};
use crate::input::Input;
use crate::level::{Level, LevelId, Levels, LEVEL_WIDTH, roster_of, start_position_of};
use crate::monster::Monster;
use crate::tileset::{
    TileId, collidable_id, hazard_id, pickup_id, door_id, climbable_id, trophy_id, TILE_BLANK,
    TILE_GUN, TILE_JETPACK, TILE_SCORE_BLUE_GEM, TILE_SCORE_CROWN, TILE_SCORE_ORB,
    TILE_SCORE_RED_GEM, TILE_SCORE_RING, TILE_SCORE_SCEPTER,
};
use vstd::array::spec_array_update;

verus! {

broadcast use TileId::lemma_spec_from_view, TileId::lemma_view_spec_from,
    LevelId::lemma_spec_from_view, LevelId::lemma_view_spec_from;

/// A 2D coordinate, in grid cells or in pixels.
#[derive(Debug, Clone, Copy, PartialEq, Eq, Structural)]
pub struct Position<T> {
    pub x: T,
    pub y: T,
}

impl Position<i16> {
    /// Component-wise offset; pixel coordinates are 16-bit and wrap around on overflow.
    pub open spec fn offset(self, dx: i16, dy: i16) -> Position<i16> {
        Position { x: self.x.wrapping_add(dx), y: self.y.wrapping_add(dy) }
    }

    pub fn add(self, other: (i16, i16)) -> (r: Position<i16>)
        ensures
            r == self.offset(other.0, other.1),
    {
        Position { x: self.x.wrapping_add(other.0), y: self.y.wrapping_add(other.1) }
    }
}

/// The grid cell of a pixel coordinate: division by the tile size, rounding toward zero.
pub open spec fn grid_of(px: i16) -> i16 {
    if px >= 0 {
        (px / 16) as i16
    } else {
        (-((-px) / 16)) as i16
    }
}

pub open spec fn grid_pos(p: Position<i16>) -> Position<i16> {
    Position { x: grid_of(p.x), y: grid_of(p.y) }
}

pub fn to_grid(p: Position<i16>) -> (r: Position<i16>)
    ensures
        r == grid_pos(p),
{
    Position { x: p.x / TILE_SIZE, y: p.y / TILE_SIZE }
}

/// A cell is visible when it lies in the 20 columns that start at `view_x`.
pub open spec fn visible(pos_x: int, view_x: int) -> bool {
    view_x <= pos_x < view_x + 20
}

pub fn is_visible(pos_x: i16, view_x: i8) -> (r: bool)
    ensures
        r == visible(pos_x as int, view_x as int),
{
    if pos_x < view_x as i16 {
        false
    } else if (pos_x as i32) - (view_x as i32) < 20 {
        true
    } else {
        false
    }
}

/// Facing of the player or of a bullet.
#[derive(Debug, Clone, Copy, PartialEq, Eq, Structural)]
pub enum Direction {
    Left,
    Middle,
    Right,
}

#[derive(Debug, Clone, Copy, PartialEq, Eq, Structural)]
pub enum BulletSource {
    Dave,
    Monster,
}

/// A bullet in flight, in pixels.
#[derive(Debug, Clone, Copy, PartialEq, Eq, Structural)]
pub struct Bullet {
    pub source: BulletSource,
    pub position: Position<i16>,
    pub direction: Direction,
}

/// What a probe finds at a pixel; `Clear` is the permissive "no collision" result.
#[derive(Debug, Clone, Copy, PartialEq, Eq, Structural)]
pub enum CollisionType {
    Clear,
    Pickup(u8, u8),
    Wall,
    Hazard,
    Door,
    Dave,
    Monster(usize),
    Climbable,
}


/// The bullet fired from an entity at pixel `from` facing `direction`: 18 pixels ahead, or 8
/// pixels back when facing left, and 8 pixels down.
pub open spec fn spawned_bullet(source: BulletSource, direction: Direction, from: Position<i16>) -> Bullet {
    Bullet {
        source,
        direction,
        position: Position {
            x: if direction == Direction::Left {
                from.x.wrapping_sub(8)
            } else {
                from.x.wrapping_add(18)
            },
            y: from.y.wrapping_add(8),
        },
    }
}

pub fn spawn_bullet(source: BulletSource, direction: Direction, from: Position<i16>) -> (r: Bullet)
    ensures
        r == spawned_bullet(source, direction, from),
{
    let x = match direction {
        Direction::Right | Direction::Middle => from.x.wrapping_add(18),
        Direction::Left => from.x.wrapping_sub(8),
    };
    Bullet { source, direction, position: Position { x, y: from.y.wrapping_add(8) } }
}

/// The tiles of level `id` in a level collection.
pub open spec fn level_tiles(levels: Seq<Level>, id: LevelId) -> Seq<TileId> {
    levels[id@ as int].tiles@
}

/// The category of tile `id` at grid cell (`gx`, `gy`), in priority order
/// wall > hazard > pickup > door > climbable.
pub open spec fn tile_collision(id: u8, gx: u8, gy: u8) -> CollisionType {
    if collidable_id(id) {
        CollisionType::Wall
    } else if hazard_id(id) {
        CollisionType::Hazard
    } else if pickup_id(id) {
        CollisionType::Pickup(gx, gy)
    } else if door_id(id) {
        CollisionType::Door
    } else if climbable_id(id) {
        CollisionType::Climbable
    } else {
        CollisionType::Clear
    }
}

/// What the pixel `pos` touches on a grid of tiles; off the grid nothing is touched.
pub open spec fn classify(tiles: Seq<TileId>, pos: Position<i16>) -> CollisionType {
    if pos.x < 0 || pos.y < 0 || pos.x / 16 > 99 || pos.y / 16 > 9 {
        CollisionType::Clear
    } else {
        let gx = pos.x / 16;
        let gy = pos.y / 16;
        tile_collision(tiles[gy * 100 + gx]@, gx as u8, gy as u8)
    }
}

pub fn is_clear(level: LevelId, levels: &Levels, pos: Position<i16>) -> (r: CollisionType)
    ensures
        r == classify(level_tiles(levels@, level), pos),
{
    if pos.x < 0 || pos.y < 0 {
        return CollisionType::Clear;
    }
    let grid_x = (pos.x / TILE_SIZE) as usize;
    let grid_y = (pos.y / TILE_SIZE) as usize;
    if grid_x > 99 || grid_y > 9 {
        return CollisionType::Clear;
    }
    let tiles = levels.index(level).tiles();
    let tile_type = tiles[grid_y * LEVEL_WIDTH + grid_x];
    if tile_type.is_collidable() {
        CollisionType::Wall
    } else if tile_type.is_hazard() {
        CollisionType::Hazard
    } else if tile_type.is_pickup() {
        CollisionType::Pickup(grid_x as u8, grid_y as u8)
    } else if tile_type.is_door() {
        CollisionType::Door
    } else if tile_type.is_climbable() {
        CollisionType::Climbable
    } else {
        CollisionType::Clear
    }
}

/// A bullet at grid cell (`gx`, `gy`) meets a monster that covers its own cell and the cells
/// one to the right and one below.
pub open spec fn covers(m: Monster, gx: int, gy: int) -> bool {
    let p = m.grid_position();
    &&& m.alive()
    &&& (p.x == gx || p.x + 1 == gx)
    &&& (p.y == gy || p.y + 1 == gy)
}

/// The first monster, from slot `from` on, that a bullet at (`gx`, `gy`) meets.
pub open spec fn monster_hit(monsters: Seq<Monster>, gx: int, gy: int, from: int) -> Option<usize>
    decreases monsters.len() - from,
{
    if from < 0 || from >= monsters.len() {
        None
    } else if covers(monsters[from], gx, gy) {
        Some(from as usize)
    } else {
        monster_hit(monsters, gx, gy, from + 1)
    }
}

proof fn lemma_monster_hit_found(monsters: Seq<Monster>, gx: int, gy: int, from: int)
    requires
        0 <= from,
        monsters.len() <= usize::MAX,
    ensures
        monster_hit(monsters, gx, gy, from) matches Some(i) ==> from <= i < monsters.len()
            && covers(monsters[i as int], gx, gy),
    decreases monsters.len() - from,
{
    if from < monsters.len() && !covers(monsters[from], gx, gy) {
        lemma_monster_hit_found(monsters, gx, gy, from + 1);
    }
}

/// Scans the monster slots in order for the first one that a bullet at (`gx`, `gy`) meets.
pub fn first_monster_hit(monsters: &[Monster], gx: i16, gy: i16) -> (r: Option<usize>)
    ensures
        r == monster_hit(monsters@, gx as int, gy as int, 0),
        r matches Some(i) ==> i < monsters@.len() && covers(monsters@[i as int], gx as int, gy as int),
{
    let n = monsters.len();
    proof {
        lemma_monster_hit_found(monsters@, gx as int, gy as int, 0);
    }
    let mut i: usize = 0;
    while i < n
        invariant
            n == monsters@.len(),
            i <= n,
            monster_hit(monsters@, gx as int, gy as int, 0) == monster_hit(
                monsters@,
                gx as int,
                gy as int,
                i as int,
            ),
        decreases monsters@.len() - i,
    {
        let m = &monsters[i];
        let p = m.position();
        if m.is_alive() && (p.x == gx || p.x as i32 + 1 == gx as i32) && (p.y == gy || p.y as i32
            + 1 == gy as i32) {
            return Some(i);
        }
        i = i + 1;
    }
    None
}

impl Bullet {
    /// The bullet moved 4 pixels along its direction.
    pub open spec fn advanced(self) -> Bullet {
        Bullet {
            position: Position {
                x: if self.direction == Direction::Left {
                    self.position.x.wrapping_sub(4)
                } else {
                    self.position.x.wrapping_add(4)
                },
                y: self.position.y,
            },
            ..self
        }
    }

    /// What an advanced bullet meets, and whether its column is visible. A wall or leaving
    /// the view ends it; otherwise a player's bullet meets the first live monster covering
    /// its cell, and a monster's bullet meets the player standing in its cell.
    pub open spec fn outcome(
        self,
        dave_pos: Position<i16>,
        monsters: Seq<Monster>,
        tiles: Seq<TileId>,
        view_x: i8,
    ) -> (CollisionType, bool) {
        let g = grid_pos(self.position);
        let hit = classify(tiles, self.position);
        let vis = visible(g.x as int, view_x as int);
        if hit == CollisionType::Wall || !vis {
            (hit, vis)
        } else {
            match self.source {
                BulletSource::Dave => match monster_hit(monsters, g.x as int, g.y as int, 0) {
                    Some(i) => (CollisionType::Monster(i), vis),
                    None => (CollisionType::Clear, vis),
                },
                BulletSource::Monster => if g == dave_pos {
                    (CollisionType::Dave, vis)
                } else {
                    (CollisionType::Clear, vis)
                },
            }
        }
    }

    pub fn update_bullet(
        &mut self,
        dave_pos: Position<i16>,
        monsters: &[Monster],
        level: LevelId,
        view_x: i8,
        levels: &Levels,
    ) -> (r: (CollisionType, bool))
        ensures
            *final(self) == old(self).advanced(),
            r == final(self).outcome(dave_pos, monsters@, level_tiles(levels@, level), view_x),
            r.0 matches CollisionType::Monster(i) ==> i < monsters@.len() && monsters@[i as int].alive(),
    {
        match self.direction {
            Direction::Right | Direction::Middle => {
                self.position.x = self.position.x.wrapping_add(4);
            },
            Direction::Left => {
                self.position.x = self.position.x.wrapping_sub(4);
            },
        }
        let grid = to_grid(self.position);
        let hit = is_clear(level, levels, self.position);
        let visible = is_visible(grid.x, view_x);
        if hit == CollisionType::Wall || !visible {
            return (hit, visible);
        }
        match self.source {
            BulletSource::Dave => {
                if let Some(i) = first_monster_hit(monsters, grid.x, grid.y) {
                    return (CollisionType::Monster(i), visible);
                }
            },
            BulletSource::Monster => {
                if grid.x == dave_pos.x && grid.y == dave_pos.y {
                    return (CollisionType::Dave, visible);
                }
            },
        }
        (CollisionType::Clear, visible)
    }
}

/// Points between extra lives.
pub const EXTRA_LIFE_SCORE: u32 = 20_000;

/// Fuel of a freshly picked up jetpack.
pub const JETPACK_FUEL: u8 = 255;

/// Bonus for leaving a level through its door with the trophy.
pub const LEVEL_BONUS: u32 = 2000;

/// Points for picking up tile `id`: the trophy, gems, orb, crown, ring and scepter score.
pub open spec fn item_score(id: u8) -> u32 {
    if trophy_id(id) {
        1000
    } else if id == TILE_SCORE_BLUE_GEM {
        100
    } else if id == TILE_SCORE_ORB {
        50
    } else if id == TILE_SCORE_RED_GEM {
        150
    } else if id == TILE_SCORE_CROWN {
        300
    } else if id == TILE_SCORE_RING {
        200
    } else if id == TILE_SCORE_SCEPTER {
        500
    } else {
        0
    }
}

/// How many multiples of `EXTRA_LIFE_SCORE` lie in (`score`, `score + points`].
pub open spec fn lives_gained(score: u32, points: u32) -> int {
    (score + points) / 20000 - score / 20000
}

/// The first live monster, from slot `from` on, that stands in grid cell `pos`.
pub open spec fn contact(monsters: Seq<Monster>, pos: Position<i16>, from: int) -> Option<usize>
    decreases monsters.len() - from,
{
    if from < 0 || from >= monsters.len() {
        None
    } else if monsters[from].alive() && monsters[from].grid_position() == pos {
        Some(from as usize)
    } else {
        contact(monsters, pos, from + 1)
    }
}

proof fn lemma_contact_found(monsters: Seq<Monster>, pos: Position<i16>, from: int)
    requires
        0 <= from,
        monsters.len() <= usize::MAX,
    ensures
        contact(monsters, pos, from) matches Some(i) ==> from <= i < monsters.len()
            && monsters[i as int].alive(),
    decreases monsters.len() - from,
{
    if from < monsters.len() && !(monsters[from].alive() && monsters[from].grid_position()
        == pos) {
        lemma_contact_found(monsters, pos, from + 1);
    }
}

/// One monster slot's turn in a tick: it moves along `path`, fires when no monster bullet
/// is in flight, and its dying countdown runs.
pub open spec fn monster_turn(
    m: Monster,
    bullet: Option<Bullet>,
    path: Seq<Position<i16>>,
    dave_px: Position<i16>,
    view_x: i8,
) -> (Monster, Option<Bullet>) {
    let moved = m.moved(path);
    (
        moved.ticked(),
        if bullet is None {
            moved.fired(dave_px, view_x)
        } else {
            bullet
        },
    )
}

/// The monster slots and the shared monster bullet after the first `n` slots took their turn.
pub open spec fn monsters_upto(
    ms: Seq<Monster>,
    bullet: Option<Bullet>,
    path: Seq<Position<i16>>,
    dave_px: Position<i16>,
    view_x: i8,
    n: int,
) -> (Seq<Monster>, Option<Bullet>)
    decreases n,
{
    if n <= 0 {
        (ms, bullet)
    } else {
        let prev = monsters_upto(ms, bullet, path, dave_px, view_x, n - 1);
        let turn = monster_turn(prev.0[n - 1], prev.1, path, dave_px, view_x);
        (prev.0.update(n - 1, turn.0), turn.1)
    }
}

/// The five monster slots holding the first five entries of `s`.
pub open spec fn seq_to_roster(s: Seq<Monster>) -> [Monster; 5] {
    [s[0], s[1], s[2], s[3], s[4]]
}

/// Run state besides the entities: level, view, scroll budget, score, lives and flags.
#[derive(Debug, Clone, Copy)]
pub struct MiscParts {
    pub level: LevelId,
    pub view_x: i8,
    pub scroll_x: i16,
    pub score: u32,
    pub lives: u8,
    pub has_trophy: bool,
    pub quit: bool,
}

/// `m` after `points` are added to the score, with one extra life for each multiple of
/// `EXTRA_LIFE_SCORE` crossed.
pub open spec fn scored(m: MiscParts, points: u32) -> MiscParts {
    MiscParts {
        score: (m.score + points) as u32,
        lives: (m.lives + lives_gained(m.score, points)) as u8,
        ..m
    }
}

/// The view after one tick of scrolling: a player 18 or more columns right of the view's
/// left edge sets a scroll budget of 15 to the right, one 1 or fewer columns from it a budget
/// of 15 to the left; a budget moves the view one column per tick, within 0 to 80.
pub open spec fn scrolled(m: MiscParts, dave_x: i16) -> MiscParts {
    let diff = dave_x - m.view_x;
    let scroll = if diff >= 18 {
        15
    } else if diff <= 1 {
        -15
    } else {
        m.scroll_x as int
    };
    if scroll > 0 {
        MiscParts {
            view_x: if m.view_x < 80 {
                (m.view_x + 1) as i8
            } else {
                80
            },
            scroll_x: (scroll - 1) as i16,
            ..m
        }
    } else if scroll < 0 {
        MiscParts {
            view_x: if m.view_x > 0 {
                (m.view_x - 1) as i8
            } else {
                0
            },
            scroll_x: (scroll + 1) as i16,
            ..m
        }
    } else {
        MiscParts { scroll_x: scroll as i16, ..m }
    }
}

/// The whole simulation state: the player, the run state, five monster slots and the one
/// monster bullet that may be in flight.
pub struct Game {
    pub dave: Dave,
    pub misc: MiscParts,
    pub monsters: [Monster; 5],
    pub monster_bullet: Option<Bullet>,
}

impl Game {
    /// The recorded pickup cell lies on the grid.
    pub open spec fn wf(self) -> bool {
        self.dave.check_pickup.x < 100 && self.dave.check_pickup.y < 10
    }

    /// The score and lives leave room for the points of one tick.
    pub open spec fn has_headroom(self) -> bool {
        self.misc.score <= u32::MAX - 3000 && self.misc.lives <= 253
    }

    /// The tile index of the recorded pickup cell.
    pub open spec fn pickup_index(self) -> int {
        self.dave.check_pickup.y * 100 + self.dave.check_pickup.x
    }

    /// The game after the recorded pickup is consumed: its effect is applied and the record
    /// cleared. The cell (0, 0) stands for no pickup.
    pub open spec fn picked(self, levels: Seq<Level>) -> Game {
        let p = self.dave.check_pickup;
        if p.x == 0 && p.y == 0 {
            self
        } else {
            let t = level_tiles(levels, self.misc.level)[self.pickup_index()]@;
            let d = Dave { check_pickup: Position { x: 0, y: 0 }, ..self.dave };
            if t == TILE_JETPACK {
                Game { dave: Dave { has_jetpack: HasJetpack::Yes(JETPACK_FUEL), ..d }, ..self }
            } else if t == TILE_GUN {
                Game { dave: Dave { has_gun: true, ..d }, ..self }
            } else if trophy_id(t) {
                Game {
                    dave: d,
                    misc: MiscParts { has_trophy: true, ..scored(self.misc, 1000) },
                    ..self
                }
            } else {
                Game { dave: d, misc: scored(self.misc, item_score(t)), ..self }
            }
        }
    }

    /// The levels after the recorded pickup is consumed: its tile becomes blank.
    pub open spec fn picked_levels(self, levels: Seq<Level>) -> Seq<Level> {
        let p = self.dave.check_pickup;
        if p.x == 0 && p.y == 0 {
            levels
        } else {
            let id = self.misc.level@ as int;
            levels.update(
                id,
                Level {
                    path: levels[id].path,
                    tiles: spec_array_update(
                        levels[id].tiles,
                        self.pickup_index(),
                        TileId::spec_from(TILE_BLANK),
                    ),
                },
            )
        }
    }

    /// The game at the start of its current level.
    pub open spec fn started(self) -> Game {
        let level = self.misc.level@;
        Game {
            dave: self.dave.leveled(start_position_of(level)),
            monsters: seq_to_roster(roster_of(level)),
            misc: MiscParts { view_x: 0, has_trophy: false, ..self.misc },
            ..self
        }
    }

    /// The game after both bullets advance and resolve: a wall or leaving the view removes a
    /// bullet, the player's bullet kills the first live monster it meets, the monster bullet
    /// kills the player if alive; either is removed on a hit.
    pub open spec fn bullets_resolved(self, tiles: Seq<TileId>) -> Game {
        let dave_pos = self.dave.position;
        let view_x = self.misc.view_x;
        let after_dave: (Dave, [Monster; 5]) = match self.dave.bullet {
            Some(b) => {
                let a = b.advanced();
                let r = a.outcome(dave_pos, self.monsters@, tiles, view_x);
                if r.0 == CollisionType::Wall || !r.1 {
                    (Dave { bullet: None, ..self.dave }, self.monsters)
                } else {
                    match r.0 {
                        CollisionType::Monster(id) => (
                            Dave { bullet: None, ..self.dave },
                            spec_array_update(self.monsters, id as int, self.monsters[id as int].killed()),
                        ),
                        _ => (Dave { bullet: Some(a), ..self.dave }, self.monsters),
                    }
                }
            },
            None => (self.dave, self.monsters),
        };
        let d1 = after_dave.0;
        let ms1 = after_dave.1;
        match self.monster_bullet {
            Some(b) => {
                let a = b.advanced();
                let r = a.outcome(dave_pos, ms1@, tiles, view_x);
                if r.0 == CollisionType::Wall || !r.1 {
                    Game { dave: d1, monsters: ms1, monster_bullet: None, ..self }
                } else if r.0 == CollisionType::Dave && d1.alive() {
                    Game { dave: d1.killed(), monsters: ms1, monster_bullet: None, ..self }
                } else {
                    Game { dave: d1, monsters: ms1, monster_bullet: Some(a), ..self }
                }
            },
            None => Game { dave: d1, monsters: ms1, ..self },
        }
    }

    /// The game after the door is checked: with the trophy the level bonus is scored and the
    /// next level starts, or the run ends after the last level; without it the door is
    /// forgotten.
    pub open spec fn door_checked(self) -> Game {
        if self.dave.check_door {
            if self.misc.has_trophy {
                let m = scored(self.misc, LEVEL_BONUS);
                if self.misc.level@ + 1 < 10 {
                    Game {
                        misc: MiscParts {
                            level: LevelId::spec_from((self.misc.level@ + 1) as usize),
                            ..m
                        },
                        ..self
                    }.started()
                } else {
                    Game { misc: MiscParts { quit: true, ..m }, ..self }
                }
            } else {
                Game { dave: Dave { check_door: false, ..self.dave }, ..self }
            }
        } else {
            self
        }
    }

    /// The game after a dead player uses up a life and restarts the level, or ends the run
    /// when no life is left.
    pub open spec fn respawned(self) -> Game {
        if self.dave.state is Dead {
            if self.misc.lives != 0 {
                Game {
                    dave: self.dave.restarted(start_position_of(self.misc.level@)),
                    misc: MiscParts { lives: (self.misc.lives - 1) as u8, ..self.misc },
                    ..self
                }
            } else {
                Game { misc: MiscParts { quit: true, ..self.misc }, ..self }
            }
        } else {
            self
        }
    }

    /// The game after a live player meeting a live monster in the same cell: both die.
    pub open spec fn contact_resolved(self) -> Game {
        if self.dave.alive() {
            match contact(self.monsters@, self.dave.position, 0) {
                Some(i) => Game {
                    dave: self.dave.killed(),
                    monsters: spec_array_update(self.monsters, i as int, self.monsters[i as int].killed()),
                    ..self
                },
                None => self,
            }
        } else {
            self
        }
    }

    pub open spec fn level_updated(self) -> Game {
        self.door_checked().respawned().contact_resolved()
    }

    pub fn current_level(&self) -> (r: LevelId)
        ensures
            r == self.misc.level,
    {
        self.misc.level
    }

    pub fn score(&self) -> (r: u32)
        ensures
            r == self.misc.score,
    {
        self.misc.score
    }

    pub fn lives(&self) -> (r: u8)
        ensures
            r == self.misc.lives,
    {
        self.misc.lives
    }

    pub fn has_trophy(&self) -> (r: bool)
        ensures
            r == self.misc.has_trophy,
    {
        self.misc.has_trophy
    }

    pub fn has_gun(&self) -> (r: bool)
        ensures
            r == self.dave.has_gun,
    {
        self.dave.has_gun
    }

    pub fn has_jetpack(&self) -> (r: HasJetpack)
        ensures
            r == self.dave.has_jetpack,
    {
        self.dave.has_jetpack
    }

    pub fn view_x(&self) -> (r: i8)
        ensures
            r == self.misc.view_x,
    {
        self.misc.view_x
    }

    pub fn dave(&self) -> (r: &Dave)
        ensures
            *r == self.dave,
    {
        &self.dave
    }

    pub fn quit(&self) -> (r: bool)
        ensures
            r == self.misc.quit,
    {
        self.misc.quit
    }

    pub fn monsters(&self) -> (r: &[Monster])
        ensures
            r@ == self.monsters@,
    {
        self.monsters.as_slice()
    }

    pub fn monster_bullet(&self) -> (r: Option<&Bullet>)
        ensures
            r is Some <==> self.monster_bullet is Some,
            r matches Some(b) ==> self.monster_bullet == Some(*b),
    {
        match &self.monster_bullet {
            Some(b) => Some(b),
            None => None,
        }
    }

    pub fn add_score(&mut self, new_score: u32)
        requires
            old(self).misc.score + new_score <= u32::MAX,
            old(self).misc.lives + lives_gained(old(self).misc.score, new_score) <= u8::MAX,
        ensures
            *final(self) == (Game { misc: scored(old(self).misc, new_score), ..*old(self) }),
    {
        let before = self.misc.score / EXTRA_LIFE_SCORE;
        let after = (self.misc.score + new_score) / EXTRA_LIFE_SCORE;
        self.misc.lives = self.misc.lives + (after - before) as u8;
        self.misc.score = self.misc.score + new_score;
    }

    pub fn scroll_screen(&mut self)
        ensures
            *final(self) == (Game {
                misc: scrolled(old(self).misc, old(self).dave.position.x),
                ..*old(self)
            }),
    {
        let diff = self.dave.position.x as i32 - self.misc.view_x as i32;
        if diff >= 18 {
            self.misc.scroll_x = 15;
        } else if diff <= 1 {
            self.misc.scroll_x = -15;
        }
        if self.misc.scroll_x > 0 {
            self.misc.view_x = if self.misc.view_x < 80 {
                self.misc.view_x + 1
            } else {
                80
            };
            self.misc.scroll_x = self.misc.scroll_x - 1;
        } else if self.misc.scroll_x < 0 {
            self.misc.view_x = if self.misc.view_x > 0 {
                self.misc.view_x - 1
            } else {
                0
            };
            self.misc.scroll_x = self.misc.scroll_x + 1;
        }
    }

    pub fn start_level(&mut self)
        ensures
            *final(self) == old(self).started(),
    {
        let start_pos = self.misc.level.start_position();
        self.dave.new_level(start_pos);
        self.monsters = self.misc.level.monsters();
        assert(self.monsters =~= seq_to_roster(roster_of(self.misc.level@)));
        self.misc.view_x = 0;
        self.misc.has_trophy = false;
    }

    pub fn init() -> (r: Game)
        ensures
            r == (Game {
                dave: Dave::init_spec(),
                misc: MiscParts {
                    level: LevelId::spec_from(0),
                    view_x: 0,
                    scroll_x: 0,
                    score: 0,
                    lives: 3,
                    has_trophy: false,
                    quit: false,
                },
                monsters: seq_to_roster(roster_of(0)),
                monster_bullet: None,
            }).started(),
            r.wf(),
    {
        let dead = Monster::init_dead();
        let mut game = Game {
            misc: MiscParts {
                level: LevelId::first_level(),
                view_x: 0,
                scroll_x: 0,
                score: 0,
                lives: 3,
                has_trophy: false,
                quit: false,
            },
            dave: Dave::init(),
            monsters: [dead, dead, dead, dead, dead],
            monster_bullet: None,
        };
        assert(game.monsters =~= seq_to_roster(roster_of(0)));
        game.start_level();
        game
    }

    pub fn input(&mut self, input: &Input)
        ensures
            *final(self) == (Game { dave: old(self).dave.requested(*input), ..*old(self) }),
    {
        self.dave.input(input);
    }

    /// The game after one tick, and the levels after it: probes, pickup, input checks and
    /// moves, monster turns, bullets, scrolling, gravity, timers, then door, death and
    /// monster contact.
    pub open spec fn ticked(self, levels: Seq<Level>) -> (Game, Seq<Level>) {
        let level = self.misc.level;
        let g1 = Game { dave: self.dave.collided(level_tiles(levels, level)), ..self };
        let lv = g1.picked_levels(levels);
        let g2 = g1.picked(levels);
        let g3 = Game { dave: g2.dave.verified().moved(), ..g2 };
        let ms = monsters_upto(
            g3.monsters@,
            g3.monster_bullet,
            lv[level@ as int].path.0@,
            g3.dave.pixel_position,
            g3.misc.view_x,
            5,
        );
        let g4 = Game { monsters: seq_to_roster(ms.0), monster_bullet: ms.1, ..g3 };
        let tiles = level_tiles(lv, level);
        let g5 = g4.bullets_resolved(tiles);
        let g6 = Game { misc: scrolled(g5.misc, g5.dave.position.x), ..g5 };
        let g7 = Game { dave: g6.dave.fallen(tiles).decayed(), ..g6 };
        (g7.level_updated(), lv)
    }

    pub fn pickup_item(&mut self, levels: &mut Levels)
        requires
            old(self).wf(),
            ({
                let points = item_score(
                    level_tiles(old(levels)@, old(self).misc.level)[old(self).pickup_index()]@,
                );
                (old(self).dave.check_pickup.x != 0 || old(self).dave.check_pickup.y != 0) ==> (
                old(self).misc.score + points <= u32::MAX && old(self).misc.lives + lives_gained(
                    old(self).misc.score,
                    points,
                ) <= u8::MAX)
            }),
        ensures
            *final(self) == old(self).picked(old(levels)@),
            final(levels)@ == old(self).picked_levels(old(levels)@),
    {
        let p = self.dave.check_pickup;
        if p.x == 0 && p.y == 0 {
            return;
        }
        let idx = p.y as usize * LEVEL_WIDTH + p.x as usize;
        let level = levels.index_mut(self.misc.level);
        let tile = level.tiles[idx].value();
        level.tiles[idx] = TileId::known(TILE_BLANK);
        if tile == TILE_JETPACK {
            self.dave.has_jetpack = HasJetpack::Yes(JETPACK_FUEL);
        } else if tile == TILE_GUN {
            self.dave.has_gun = true;
        } else if 10 <= tile && tile <= 14 {
            self.add_score(1000);
            self.misc.has_trophy = true;
        } else {
            self.add_score(item_points(tile));
        }
        self.dave.check_pickup = Position { x: 0, y: 0 };
    }

    pub fn update_bullets(&mut self, levels: &Levels)
        ensures
            *final(self) == old(self).bullets_resolved(level_tiles(levels@, old(self).misc.level)),
    {
        let dave_pos = self.dave.position;
        let level = self.misc.level;
        let view_x = self.misc.view_x;
        if let Some(b) = self.dave.bullet {
            let mut b = b;
            let (hit, visible) = b.update_bullet(dave_pos, self.monsters.as_slice(), level, view_x, levels);
            if hit == CollisionType::Wall || !visible {
                self.dave.bullet = None;
            } else if let CollisionType::Monster(id) = hit {
                self.dave.bullet = None;
                let mut m = self.monsters[id];
                m.kill();
                self.monsters[id] = m;
            } else {
                self.dave.bullet = Some(b);
            }
        }
        if let Some(b) = self.monster_bullet {
            let mut b = b;
            let (hit, visible) = b.update_bullet(dave_pos, self.monsters.as_slice(), level, view_x, levels);
            if hit == CollisionType::Wall || !visible {
                self.monster_bullet = None;
            } else if hit == CollisionType::Dave && self.dave.is_alive() {
                self.monster_bullet = None;
                self.dave.kill();
            } else {
                self.monster_bullet = Some(b);
            }
        }
    }

    pub fn update_level(&mut self)
        requires
            old(self).dave.check_door && old(self).misc.has_trophy ==> old(self).misc.score
                + LEVEL_BONUS <= u32::MAX && old(self).misc.lives + lives_gained(
                old(self).misc.score,
                LEVEL_BONUS,
            ) <= u8::MAX,
        ensures
            *final(self) == old(self).level_updated(),
    {
        if self.dave.check_door {
            if self.misc.has_trophy {
                self.add_score(LEVEL_BONUS);
                match self.misc.level.next() {
                    Some(next) => {
                        self.misc.level = next;
                        self.start_level();
                    },
                    None => {
                        self.misc.quit = true;
                    },
                }
            } else {
                self.dave.check_door = false;
            }
        }
        if self.dave.is_dead() {
            if self.misc.lives != 0 {
                self.misc.lives = self.misc.lives - 1;
                let start = self.misc.level.start_position();
                self.dave.level_restart(start);
            } else {
                self.misc.quit = true;
            }
        }
        if self.dave.is_alive() {
            if let Some(i) = first_contact(self.monsters.as_slice(), self.dave.position) {
                self.dave.kill();
                let mut m = self.monsters[i];
                m.kill();
                self.monsters[i] = m;
            }
        }
    }

    /// Runs one tick of the game against `levels`.
    pub fn update(&mut self, levels: &mut Levels)
        requires
            old(self).wf(),
            old(self).has_headroom(),
        ensures
            (*final(self), final(levels)@) == old(self).ticked(old(levels)@),
            final(self).wf(),
    {
        let level = self.misc.level;
        self.dave.check_collision(level, levels);
        proof {
            lemma_pickup_in_grid(
                level_tiles(levels@, level),
                old(self).dave.pixel_position,
                8,
                old(self).dave.check_pickup,
            );
        }
        proof {
            lemma_gain_at_most_one(
                self.misc.score,
                item_score(level_tiles(levels@, level)[self.pickup_index()]@),
            );
        }
        self.pickup_item(levels);
        self.dave.verify_input();
        self.dave.move_dave();
        let ghost g3 = *self;
        let ghost lv = levels@;
        let mut i: usize = 0;
        while i < 5
            invariant
                i <= 5,
                levels@ == lv,
                self.dave == g3.dave,
                self.misc == g3.misc,
                (self.monsters@, self.monster_bullet) == monsters_upto(
                    g3.monsters@,
                    g3.monster_bullet,
                    lv[level@ as int].path.0@,
                    g3.dave.pixel_position,
                    g3.misc.view_x,
                    i as int,
                ),
                level == g3.misc.level,
            decreases 5 - i,
        {
            proof {
                lemma_monsters_upto_rest(
                    g3.monsters@,
                    g3.monster_bullet,
                    lv[level@ as int].path.0@,
                    g3.dave.pixel_position,
                    g3.misc.view_x,
                    i as int,
                );
            }
            let mut m = self.monsters[i];
            m.move_monster(level, levels);
            if self.monster_bullet.is_none() {
                self.monster_bullet = m.try_fire_bullet(self.dave.pixel_position, self.misc.view_x);
            }
            m.update();
            self.monsters[i] = m;
            i = i + 1;
        }
        proof {
            lemma_monsters_upto_rest(
                g3.monsters@,
                g3.monster_bullet,
                lv[level@ as int].path.0@,
                g3.dave.pixel_position,
                g3.misc.view_x,
                5,
            );
        }
        assert(self.monsters =~= seq_to_roster(self.monsters@));
        self.update_bullets(levels);
        self.scroll_screen();
        self.dave.apply_gravity(level, levels);
        self.dave.update();
        proof {
            lemma_gain_at_most_one(self.misc.score, LEVEL_BONUS);
        }
        self.update_level();
    }
}

/// Points for picking up tile `id`.
pub fn item_points(id: u8) -> (r: u32)
    ensures
        r == item_score(id),
{
    if 10 <= id && id <= 14 {
        1000
    } else if id == TILE_SCORE_BLUE_GEM {
        100
    } else if id == TILE_SCORE_ORB {
        50
    } else if id == TILE_SCORE_RED_GEM {
        150
    } else if id == TILE_SCORE_CROWN {
        300
    } else if id == TILE_SCORE_RING {
        200
    } else if id == TILE_SCORE_SCEPTER {
        500
    } else {
        0
    }
}

/// The first live monster standing in grid cell `pos`.
pub fn first_contact(monsters: &[Monster], pos: Position<i16>) -> (r: Option<usize>)
    ensures
        r == contact(monsters@, pos, 0),
        r matches Some(i) ==> i < monsters@.len() && monsters@[i as int].alive(),
{
    let n = monsters.len();
    proof {
        lemma_contact_found(monsters@, pos, 0);
    }
    let mut i: usize = 0;
    while i < n
        invariant
            n == monsters@.len(),
            i <= n,
            contact(monsters@, pos, 0) == contact(monsters@, pos, i as int),
        decreases n - i,
    {
        let m = &monsters[i];
        let p = m.position();
        if m.is_alive() && p.x == pos.x && p.y == pos.y {
            return Some(i);
        }
        i = i + 1;
    }
    None
}

/// An award below `EXTRA_LIFE_SCORE` crosses at most one of its multiples.
proof fn lemma_gain_at_most_one(score: u32, points: u32)
    requires
        points <= 20000,
    ensures
        0 <= lives_gained(score, points) <= 1,
{
}

proof fn lemma_monsters_upto_rest(
    ms: Seq<Monster>,
    bullet: Option<Bullet>,
    path: Seq<Position<i16>>,
    dave_px: Position<i16>,
    view_x: i8,
    n: int,
)
    requires
        0 <= n <= ms.len(),
    ensures
        monsters_upto(ms, bullet, path, dave_px, view_x, n).0.len() == ms.len(),
        forall|j: int|
            n <= j < ms.len() ==> #[trigger] monsters_upto(ms, bullet, path, dave_px, view_x, n).0[j]
                == ms[j],
    decreases n,
{
    if n > 0 {
        lemma_monsters_upto_rest(ms, bullet, path, dave_px, view_x, n - 1);
    }
}

/// Crossing a multiple of `EXTRA_LIFE_SCORE` grants exactly one extra life, even when a
/// single award crosses it; an award that crosses none grants none.
pub proof fn lemma_extra_life_per_crossing(m: MiscParts, points: u32)
    requires
        points < 20000,
        m.score + points <= u32::MAX,
        m.lives < 255,
    ensures
        (m.score + points) / 20000 != m.score / 20000 ==> scored(m, points).lives == m.lives + 1,
        (m.score + points) / 20000 == m.score / 20000 ==> scored(m, points).lives == m.lives,
        scored(m, points).score == m.score + points,
{
    lemma_gain_at_most_one(m.score, points);
}

/// Reaching the door without the trophy only clears the door flag: the level stays, and
/// nothing else changes. For a live player out of reach of the monsters this is the whole
/// end-of-tick level update.
pub proof fn lemma_door_needs_trophy(g: Game)
    requires
        g.dave.check_door,
        !g.misc.has_trophy,
    ensures
        g.door_checked() == (Game { dave: Dave { check_door: false, ..g.dave }, ..g }),
        g.door_checked().misc.level == g.misc.level,
        g.dave.alive() && contact(g.monsters@, g.dave.position, 0) is None ==> g.level_updated()
            == (Game { dave: Dave { check_door: false, ..g.dave }, ..g }),
{
}

/// Bullet resolution depends on nothing but the bullet and the world it moves in: two bullets
/// with the same source, direction and position, resolved against the same player cell,
/// monster roster, tiles and view, end at the same place with the same outcome.
pub proof fn lemma_bullet_resolution_deterministic(
    b1: Bullet,
    b2: Bullet,
    dave_pos: Position<i16>,
    monsters: Seq<Monster>,
    tiles: Seq<TileId>,
    view_x: i8,
)
    requires
        b1.source == b2.source,
        b1.direction == b2.direction,
        b1.position == b2.position,
    ensures
        b1.advanced() == b2.advanced(),
        b1.advanced().outcome(dave_pos, monsters, tiles, view_x) == b2.advanced().outcome(
            dave_pos,
            monsters,
            tiles,
            view_x,
        ),
{
}

} // verus!
