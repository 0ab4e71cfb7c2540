use vstd::prelude::*;

use crate::game::{
    Position, Bullet, BulletSource, Direction, grid_pos, to_grid, visible, is_visible,
    spawned_bullet, spawn_bullet,
};
use crate::level::{
    LevelId, Levels, MonsterPath, MonsterPathIndex, PATH_END, next_path_index,
};
use crate::tileset::{TileId, TILE_BLANK, TILE_MONSTER_DYING};

verus! {

broadcast use MonsterPathIndex::lemma_spec_from_view, MonsterPathIndex::lemma_view_spec_from,
    TileId::lemma_spec_from_view, TileId::lemma_view_spec_from;

/// One pixel along one axis toward a pending delta: the position moves by the delta's sign and
/// the delta shrinks by one toward zero.
pub open spec fn step_axis(p: i16, d: i16) -> (i16, i16) {
    if d < 0 {
        (p.wrapping_sub(1), (d + 1) as i16)
    } else if d > 0 {
        (p.wrapping_add(1), (d - 1) as i16)
    } else {
        (p, d)
    }
}

/// One patrol half-step from pixel `px`, path index `idx` and pending delta `next`.
/// A spent delta pulls the path entry at `idx` and advances the index; reading the end marker
/// restarts the path from its first entry. Only a freshly read entry is tested for the marker.
pub open spec fn patrol_half_step(
    path: Seq<Position<i16>>,
    px: Position<i16>,
    idx: usize,
    next: Position<i16>,
) -> (Position<i16>, usize, Position<i16>) {
    let target = if next.x == 0 && next.y == 0 {
        if MonsterPath::is_end(path[idx as int]) {
            (path[0], 1usize)
        } else {
            (path[idx as int], next_path_index(idx))
        }
    } else {
        (next, idx)
    };
    let sx = step_axis(px.x, target.0.x);
    let sy = step_axis(px.y, target.0.y);
    (Position { x: sx.0, y: sy.0 }, target.1, Position { x: sx.1, y: sy.1 })
}

#[derive(Debug, Clone, Copy)]
pub enum MonsterState {
    Live {
        position: Position<i16>,
        pixel_position: Position<i16>,
        tile_id: TileId,
        path_index: MonsterPathIndex,
        next_px: Position<i16>,
    },
    Dying { position: Position<i16>, pixel_position: Position<i16>, dead_timer: u8 },
    Dead,
}

#[derive(Debug, Clone, Copy)]
pub struct Monster {
    pub state: MonsterState,
}

fn step_toward(p: i16, d: i16) -> (r: (i16, i16))
    ensures
        r == step_axis(p, d),
{
    if d < 0 {
        (p.wrapping_sub(1), d + 1)
    } else if d > 0 {
        (p.wrapping_add(1), d - 1)
    } else {
        (p, d)
    }
}

fn patrol_step(
    path: &MonsterPath,
    px: Position<i16>,
    idx: MonsterPathIndex,
    next: Position<i16>,
) -> (r: (Position<i16>, MonsterPathIndex, Position<i16>))
    ensures
        (r.0, r.1@, r.2) == patrol_half_step(path.0@, px, idx@, next),
{
    let mut next = next;
    let mut idx = idx;
    if next.x == 0 && next.y == 0 {
        next = path.index(idx);
        idx = idx.next();
        if next.x == PATH_END && next.y == PATH_END {
            let start = MonsterPathIndex::start();
            next = path.index(start);
            idx = start.next();
        }
    }
    let (x, nx) = step_toward(px.x, next.x);
    let (y, ny) = step_toward(px.y, next.y);
    (Position { x, y }, idx, Position { x: nx, y: ny })
}

impl Monster {
    /// A live monster showing tile `tile` at grid cell `pos`, at the start of its path.
    pub open spec fn spawned(tile: TileId, pos: Position<i8>) -> Monster {
        Monster {
            state: MonsterState::Live {
                position: Position { x: pos.x as i16, y: pos.y as i16 },
                pixel_position: Position { x: (pos.x * 16) as i16, y: (pos.y * 16) as i16 },
                tile_id: tile,
                path_index: MonsterPathIndex::spec_from(0),
                next_px: Position { x: 0, y: 0 },
            },
        }
    }

    pub open spec fn dead() -> Monster {
        Monster { state: MonsterState::Dead }
    }

    pub open spec fn alive(self) -> bool {
        self.state is Live
    }

    /// Grid cell of a live or dying monster; the origin for a dead one.
    pub open spec fn grid_position(self) -> Position<i16> {
        match self.state {
            MonsterState::Live { position, .. } => position,
            MonsterState::Dying { position, .. } => position,
            MonsterState::Dead => Position { x: 0, y: 0 },
        }
    }

    /// The monster after one tick of patrol: two half-steps along `path`, then the grid cell
    /// recomputed from the pixel position. Only a live monster moves.
    pub open spec fn moved(self, path: Seq<Position<i16>>) -> Monster {
        match self.state {
            MonsterState::Live { position, pixel_position, tile_id, path_index, next_px } => {
                let s1 = patrol_half_step(path, pixel_position, path_index@, next_px);
                let s2 = patrol_half_step(path, s1.0, s1.1, s1.2);
                Monster {
                    state: MonsterState::Live {
                        position: grid_pos(s2.0),
                        pixel_position: s2.0,
                        tile_id,
                        path_index: MonsterPathIndex::spec_from(s2.1),
                        next_px: s2.2,
                    },
                }
            },
            _ => self,
        }
    }

    /// The bullet a live monster fires when its column is visible: toward the player's side.
    pub open spec fn fired(self, dave_pos: Position<i16>, view_x: i8) -> Option<Bullet> {
        match self.state {
            MonsterState::Live { position, pixel_position, .. } => {
                if visible(position.x as int, view_x as int) {
                    Some(
                        spawned_bullet(
                            BulletSource::Monster,
                            if dave_pos.x < pixel_position.x {
                                Direction::Left
                            } else {
                                Direction::Right
                            },
                            pixel_position,
                        ),
                    )
                } else {
                    None
                }
            },
            _ => None,
        }
    }

    /// One tick of the dying countdown; at zero the monster is dead.
    pub open spec fn ticked(self) -> Monster {
        match self.state {
            MonsterState::Dying { position, pixel_position, dead_timer } => {
                if dead_timer <= 1 {
                    Monster { state: MonsterState::Dead }
                } else {
                    Monster {
                        state: MonsterState::Dying {
                            position,
                            pixel_position,
                            dead_timer: (dead_timer - 1) as u8,
                        },
                    }
                }
            },
            _ => self,
        }
    }

    /// A live monster turned dying, at the same place, with a 30-tick countdown.
    pub open spec fn killed(self) -> Monster {
        match self.state {
            MonsterState::Live { position, pixel_position, .. } => Monster {
                state: MonsterState::Dying { position, pixel_position, dead_timer: 30 },
            },
            _ => self,
        }
    }

    pub fn tile_id(&self) -> (r: TileId)
        ensures
            (match self.state {
                MonsterState::Live { tile_id, .. } => r == tile_id,
                MonsterState::Dying { .. } => r@ == TILE_MONSTER_DYING,
                MonsterState::Dead => r@ == TILE_BLANK,
            }),
    {
        match self.state {
            MonsterState::Live { tile_id, .. } => tile_id,
            MonsterState::Dying { .. } => TileId::known(TILE_MONSTER_DYING),
            MonsterState::Dead => TileId::known(TILE_BLANK),
        }
    }

    pub fn position(&self) -> (r: Position<i16>)
        ensures
            r == self.grid_position(),
    {
        match self.state {
            MonsterState::Live { position, .. } => position,
            MonsterState::Dying { position, .. } => position,
            MonsterState::Dead => Position { x: 0, y: 0 },
        }
    }

    pub fn pixel_position(&self) -> (r: Position<i16>)
        ensures
            (match self.state {
                MonsterState::Live { pixel_position, .. } => r == pixel_position,
                MonsterState::Dying { pixel_position, .. } => r == pixel_position,
                MonsterState::Dead => r == Position { x: 0i16, y: 0i16 },
            }),
    {
        match self.state {
            MonsterState::Live { pixel_position, .. } => pixel_position,
            MonsterState::Dying { pixel_position, .. } => pixel_position,
            MonsterState::Dead => Position { x: 0, y: 0 },
        }
    }

    pub fn is_alive(&self) -> (r: bool)
        ensures
            r == self.alive(),
    {
        match self.state {
            MonsterState::Live { .. } => true,
            _ => false,
        }
    }

    pub fn is_not_dead(&self) -> (r: bool)
        ensures
            r == !(self.state is Dead),
    {
        match self.state {
            MonsterState::Dead => false,
            _ => true,
        }
    }

    /// A live monster at grid cell `pos`, at the start of its path.
    pub fn init_live(tile_id: TileId, pos: Position<i8>) -> (r: Monster)
        ensures
            r == Monster::spawned(tile_id, pos),
    {
        let start = MonsterPathIndex::start();
        Monster {
            state: MonsterState::Live {
                position: Position { x: pos.x as i16, y: pos.y as i16 },
                pixel_position: Position { x: pos.x as i16 * 16, y: pos.y as i16 * 16 },
                tile_id,
                path_index: start,
                next_px: Position { x: 0, y: 0 },
            },
        }
    }

    pub fn init_dead() -> (r: Monster)
        ensures
            r == Monster::dead(),
    {
        Monster { state: MonsterState::Dead }
    }

    pub fn move_monster(&mut self, level: LevelId, levels: &Levels)
        ensures
            *final(self) == old(self).moved(levels@[level@ as int].path.0@),
    {
        match self.state {
            MonsterState::Live { position: _, pixel_position, tile_id, path_index, next_px } => {
                let path = levels.index(level).path();
                let (px1, idx1, next1) = patrol_step(path, pixel_position, path_index, next_px);
                let (px2, idx2, next2) = patrol_step(path, px1, idx1, next1);
                self.state = MonsterState::Live {
                    position: to_grid(px2),
                    pixel_position: px2,
                    tile_id,
                    path_index: idx2,
                    next_px: next2,
                };
            },
            _ => {},
        }
    }

    pub fn try_fire_bullet(&mut self, dave_pos: Position<i16>, view_x: i8) -> (r: Option<Bullet>)
        ensures
            *final(self) == *old(self),
            r == old(self).fired(dave_pos, view_x),
    {
        match self.state {
            MonsterState::Live { position, pixel_position, .. } => {
                if is_visible(position.x, view_x) {
                    let dir = if dave_pos.x < pixel_position.x {
                        Direction::Left
                    } else {
                        Direction::Right
                    };
                    Some(spawn_bullet(BulletSource::Monster, dir, pixel_position))
                } else {
                    None
                }
            },
            _ => None,
        }
    }

    /// Turns a live monster into a dying one; killing any other monster is a logic error.
    pub fn kill(&mut self)
        requires
            old(self).alive(),
        ensures
            *final(self) == old(self).killed(),
    {
        match self.state {
            MonsterState::Live { position, pixel_position, .. } => {
                self.state = MonsterState::Dying { position, pixel_position, dead_timer: 30 };
            },
            _ => {},
        }
    }

    pub fn update(&mut self)
        ensures
            *final(self) == old(self).ticked(),
    {
        match self.state {
            MonsterState::Dying { position, pixel_position, dead_timer } => {
                let t = dead_timer.saturating_sub(1);
                if t == 0 {
                    self.state = MonsterState::Dead;
                } else {
                    self.state = MonsterState::Dying { position, pixel_position, dead_timer: t };
                }
            },
            _ => {},
        }
    }
}

} // verus!
