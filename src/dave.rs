use vstd::prelude::*;

use crate::TILE_SIZE;
use crate::game::{
    Position, Bullet, BulletSource, CollisionType, Direction, classify, grid_pos, is_clear,
    level_tiles, spawned_bullet, spawn_bullet, to_grid,
};
use crate::input::Input;
use crate::level::{LevelId, Levels};
use crate::tileset::TileId;

verus! {

/// A three-state flag for one player action: not requested, requested, or approved and
/// waiting to be carried out.
#[derive(Debug, Clone, Copy, PartialEq, Eq, Structural)]
pub enum MoveState {
    Idle,
    Try,
    Do,
}

#[derive(Debug, Clone, Copy, PartialEq, Eq, Structural)]
pub enum MovementType {
    Walking { jump: MoveState, jump_timer: u8 },
    Jetpack { up: MoveState, down: MoveState },
}

/// Whether the player owns a jetpack, and its remaining fuel.
#[derive(Debug, Clone, Copy, PartialEq, Eq, Structural)]
pub enum HasJetpack {
    No,
    Yes(u8),
}

#[derive(Debug, Clone, Copy)]
pub enum DaveState {
    Live {
        move_type: MovementType,
        left: MoveState,
        right: MoveState,
        toggle_jetpack: MoveState,
        fire: MoveState,
        last_direction: Direction,
        on_ground: bool,
        jetpack_delay: u8,
        /// Probe results, true where the probe is not blocked: two ceiling, two right,
        /// two ground and two left probes.
        collision_point: [bool; 8],
    },
    Dying { dead_timer: u8 },
    Dead,
}

#[derive(Debug, Clone, Copy)]
pub struct Dave {
    pub position: Position<i16>,
    pub pixel_position: Position<i16>,
    pub animation_tick: usize,
    pub state: DaveState,
    pub has_jetpack: HasJetpack,
    pub has_gun: bool,
    pub bullet: Option<Bullet>,
    pub check_pickup: Position<u8>,
    pub check_door: bool,
}

/// Pixel offset of each probe from the player's pixel position.
pub open spec fn probe_offset(i: int) -> (i16, i16) {
    if i == 0 {
        (4, -1i16)
    } else if i == 1 {
        (10, -1i16)
    } else if i == 2 {
        (12, 4)
    } else if i == 3 {
        (12, 12)
    } else if i == 4 {
        (10, 16)
    } else if i == 5 {
        (4, 16)
    } else if i == 6 {
        (3, 12)
    } else {
        (3, 4)
    }
}

/// What probe `i` finds for a player at pixel `pos`.
pub open spec fn probe_at(tiles: Seq<TileId>, pos: Position<i16>, i: int) -> CollisionType {
    classify(tiles, pos.offset(probe_offset(i).0, probe_offset(i).1))
}

/// A probe blocks on walls and hazards.
pub open spec fn probe_clear(c: CollisionType) -> bool {
    !(c == CollisionType::Wall || c == CollisionType::Hazard)
}

pub open spec fn probe_flags(tiles: Seq<TileId>, pos: Position<i16>) -> [bool; 8] {
    [
        probe_clear(probe_at(tiles, pos, 0)),
        probe_clear(probe_at(tiles, pos, 1)),
        probe_clear(probe_at(tiles, pos, 2)),
        probe_clear(probe_at(tiles, pos, 3)),
        probe_clear(probe_at(tiles, pos, 4)),
        probe_clear(probe_at(tiles, pos, 5)),
        probe_clear(probe_at(tiles, pos, 6)),
        probe_clear(probe_at(tiles, pos, 7)),
    ]
}

/// Whether one of the first `n` probes finds a hazard.
pub open spec fn hazard_upto(tiles: Seq<TileId>, pos: Position<i16>, n: int) -> bool
    decreases n,
{
    n > 0 && (probe_at(tiles, pos, n - 1) == CollisionType::Hazard || hazard_upto(tiles, pos, n - 1))
}

/// Whether one of the first `n` probes finds a door.
pub open spec fn door_upto(tiles: Seq<TileId>, pos: Position<i16>, n: int) -> bool
    decreases n,
{
    n > 0 && (probe_at(tiles, pos, n - 1) == CollisionType::Door || door_upto(tiles, pos, n - 1))
}

/// The cell of the last pickup among the first `n` probes, or `prev` when there is none.
pub open spec fn pickup_upto(
    tiles: Seq<TileId>,
    pos: Position<i16>,
    n: int,
    prev: Position<u8>,
) -> Position<u8>
    decreases n,
{
    if n <= 0 {
        prev
    } else {
        match probe_at(tiles, pos, n - 1) {
            CollisionType::Pickup(x, y) => Position { x, y },
            _ => pickup_upto(tiles, pos, n - 1, prev),
        }
    }
}

/// A recorded pickup always lies on the grid.
pub proof fn lemma_pickup_in_grid(tiles: Seq<TileId>, pos: Position<i16>, n: int, prev: Position<u8>)
    requires
        prev.x < 100 && prev.y < 10,
    ensures
        pickup_upto(tiles, pos, n, prev).x < 100 && pickup_upto(tiles, pos, n, prev).y < 10,
    decreases n,
{
    if n > 0 {
        lemma_pickup_in_grid(tiles, pos, n - 1, prev);
    }
}

/// Upward pixels of one jump tick, by the timer value: none for 1 to 4, one for 5 to 10,
/// two above 10.
pub open spec fn jump_rise(timer: u8) -> i16 {
    if timer <= 4 {
        0
    } else if timer <= 10 {
        1
    } else {
        2
    }
}

/// Rust's remainder of a pixel coordinate by the tile size; it takes the sign of `y`.
pub open spec fn tile_offset(y: i16) -> i16 {
    if y >= 0 {
        (y % 16) as i16
    } else {
        (-((-y) % 16)) as i16
    }
}

/// `y` moved to a tile boundary: up when its offset in the tile is below 8, down otherwise.
pub open spec fn snapped(y: i16) -> i16 {
    let na = tile_offset(y);
    if na == 0 {
        y
    } else if na < 8 {
        (y - na) as i16
    } else {
        y.wrapping_add((16 - na) as i16)
    }
}

/// The state of a player who has just (re)started: walking, nothing requested, facing
/// nowhere, all probes blocked.
pub open spec fn fresh_state(on_ground: bool) -> DaveState {
    DaveState::Live {
        move_type: MovementType::Walking { jump: MoveState::Idle, jump_timer: 0 },
        left: MoveState::Idle,
        right: MoveState::Idle,
        toggle_jetpack: MoveState::Idle,
        fire: MoveState::Idle,
        last_direction: Direction::Middle,
        on_ground,
        jetpack_delay: 0,
        collision_point: [false, false, false, false, false, false, false, false],
    }
}

/// Switches between walking and jetpack flight, keeping the vertical request.
pub open spec fn toggled(m: MovementType) -> MovementType {
    match m {
        MovementType::Walking { jump, .. } => MovementType::Jetpack { up: jump, down: MoveState::Idle },
        MovementType::Jetpack { up, .. } => MovementType::Walking { jump: up, jump_timer: 0 },
    }
}

/// `s` approved when `ok` holds and it was requested.
pub open spec fn approve(s: MoveState, ok: bool) -> MoveState {
    if s == MoveState::Try && ok {
        MoveState::Do
    } else {
        s
    }
}

/// `s` requested when the action is held and nothing is pending for it.
pub open spec fn request(s: MoveState, held: bool) -> MoveState {
    if held && s == MoveState::Idle {
        MoveState::Try
    } else {
        s
    }
}

/// `s` after carrying it out, when it was approved.
pub open spec fn done(s: MoveState) -> MoveState {
    if s == MoveState::Do {
        MoveState::Idle
    } else {
        s
    }
}

impl MovementType {
    pub open spec fn jetpack(self) -> bool {
        self is Jetpack
    }

    pub fn is_jetpack(&self) -> (r: bool)
        ensures
            r == self.jetpack(),
    {
        match self {
            MovementType::Jetpack { .. } => true,
            _ => false,
        }
    }
}

impl Dave {
    pub open spec fn alive(self) -> bool {
        self.state is Live
    }

    /// The player at the start of a run: at the origin, alive and on the ground, with no items,
    /// and a pending door flag.
    pub open spec fn init_spec() -> Dave {
        Dave {
            position: Position { x: 0, y: 0 },
            pixel_position: Position { x: 0, y: 0 },
            animation_tick: 1,
            state: fresh_state(true),
            has_jetpack: HasJetpack::No,
            has_gun: false,
            bullet: None,
            check_pickup: Position { x: 0, y: 0 },
            check_door: true,
        }
    }

    /// The player after sampling the eight probes against `tiles`: the probe results and the
    /// ground flag are stored, a door sets the door flag, the last pickup found is recorded,
    /// and a hazard starts dying.
    pub open spec fn collided(self, tiles: Seq<TileId>) -> Dave {
        match self.state {
            DaveState::Live {
                move_type,
                left,
                right,
                toggle_jetpack,
                fire,
                last_direction,
                jetpack_delay,
                ..
            } => {
                let pos = self.pixel_position;
                let cp = probe_flags(tiles, pos);
                Dave {
                    state: if hazard_upto(tiles, pos, 8) {
                        DaveState::Dying { dead_timer: 30 }
                    } else {
                        DaveState::Live {
                            move_type,
                            left,
                            right,
                            toggle_jetpack,
                            fire,
                            last_direction,
                            on_ground: !cp[4] || !cp[5],
                            jetpack_delay,
                            collision_point: cp,
                        }
                    },
                    check_door: self.check_door || door_upto(tiles, pos, 8),
                    check_pickup: pickup_upto(tiles, pos, 8, self.check_pickup),
                    ..self
                }
            },
            _ => self,
        }
    }

    /// The player after the held actions of `input` are requested.
    pub open spec fn requested(self, input: Input) -> Dave {
        match self.state {
            DaveState::Live {
                move_type,
                left,
                right,
                toggle_jetpack,
                fire,
                last_direction,
                on_ground,
                jetpack_delay,
                collision_point,
            } => Dave {
                state: DaveState::Live {
                    move_type: match move_type {
                        MovementType::Walking { jump, jump_timer } => MovementType::Walking {
                            jump: request(jump, input.jump && on_ground),
                            jump_timer,
                        },
                        MovementType::Jetpack { up, down } => MovementType::Jetpack {
                            up: request(up, input.jump),
                            down: request(down, input.down),
                        },
                    },
                    left: request(left, input.left),
                    right: request(right, input.right),
                    toggle_jetpack: request(toggle_jetpack, input.toggle_jetpack),
                    fire: request(fire, input.fire && self.bullet is None),
                    last_direction,
                    on_ground,
                    jetpack_delay,
                    collision_point,
                },
                ..self
            },
            _ => self,
        }
    }

    /// The player after requested actions are checked against the probes: sideways moves
    /// need both probes on that side clear, a jump needs ground and a clear ceiling, jetpack
    /// moves need the probes ahead clear, firing needs the gun and no bullet in flight, and a
    /// jetpack toggle needs a jetpack and no cooldown (it then starts a 10-tick cooldown, and is
    /// dropped while the cooldown runs).
    pub open spec fn verified(self) -> Dave {
        match self.state {
            DaveState::Live {
                move_type,
                left,
                right,
                toggle_jetpack,
                fire,
                last_direction,
                on_ground,
                jetpack_delay,
                collision_point: cp,
            } => {
                let toggle_asked = self.has_jetpack != HasJetpack::No && toggle_jetpack == MoveState::Try;
                Dave {
                    state: DaveState::Live {
                        move_type: match move_type {
                            MovementType::Walking { jump, jump_timer } => MovementType::Walking {
                                jump: approve(jump, on_ground && cp[0] && cp[1]),
                                jump_timer,
                            },
                            MovementType::Jetpack { up, down } => MovementType::Jetpack {
                                up: approve(up, cp[0] && cp[1]),
                                down: approve(down, cp[4] && cp[5]),
                            },
                        },
                        left: approve(left, cp[6] && cp[7]),
                        right: approve(right, cp[2] && cp[3]),
                        toggle_jetpack: if toggle_asked {
                            if jetpack_delay == 0 {
                                MoveState::Do
                            } else {
                                MoveState::Idle
                            }
                        } else {
                            toggle_jetpack
                        },
                        fire: approve(fire, self.bullet is None && self.has_gun),
                        last_direction,
                        on_ground,
                        jetpack_delay: if toggle_asked && jetpack_delay == 0 {
                            10
                        } else {
                            jetpack_delay
                        },
                        collision_point: cp,
                    },
                    ..self
                }
            },
            _ => self,
        }
    }

    /// The player after the approved actions are carried out, in order: jetpack toggle,
    /// vertical move (jump tick or jetpack step), right, left, fire; then the grid cell is
    /// recomputed from the pixel position.
    pub open spec fn moved(self) -> Dave {
        match self.state {
            DaveState::Live {
                move_type,
                left,
                right,
                toggle_jetpack,
                fire,
                last_direction,
                on_ground,
                jetpack_delay,
                collision_point: cp,
            } => {
                let switch = toggle_jetpack == MoveState::Do && jetpack_delay == 0;
                let mt1 = if switch {
                    toggled(move_type)
                } else {
                    move_type
                };
                let tj1 = if switch {
                    MoveState::Idle
                } else {
                    toggle_jetpack
                };
                let py = self.pixel_position.y;
                let vertical: (MovementType, Direction, i16) = match mt1 {
                    MovementType::Walking { jump, jump_timer } => if jump == MoveState::Do {
                        let t = if jump_timer == 0 {
                            25u8
                        } else {
                            jump_timer
                        };
                        let t2 = (t - 1) as u8;
                        (
                            MovementType::Walking {
                                jump: if t2 == 0 {
                                    MoveState::Idle
                                } else {
                                    MoveState::Do
                                },
                                jump_timer: t2,
                            },
                            if jump_timer == 0 {
                                Direction::Middle
                            } else {
                                last_direction
                            },
                            if cp[0] && cp[1] {
                                py.wrapping_sub(jump_rise(t))
                            } else {
                                py
                            },
                        )
                    } else {
                        (mt1, last_direction, py)
                    },
                    MovementType::Jetpack { up, down } => {
                        let y1 = if up == MoveState::Do {
                            py.wrapping_sub(2)
                        } else {
                            py
                        };
                        (
                            MovementType::Jetpack { up: done(up), down: done(down) },
                            last_direction,
                            if down == MoveState::Do {
                                y1.wrapping_add(2)
                            } else {
                                y1
                            },
                        )
                    },
                };
                let go_right = right == MoveState::Do;
                let go_left = left == MoveState::Do;
                let x1 = if go_right {
                    self.pixel_position.x.wrapping_add(2)
                } else {
                    self.pixel_position.x
                };
                let x2 = if go_left {
                    x1.wrapping_sub(2)
                } else {
                    x1
                };
                let anim1 = if go_right {
                    self.animation_tick.wrapping_add(1)
                } else {
                    self.animation_tick
                };
                let anim2 = if go_left {
                    anim1.wrapping_add(1)
                } else {
                    anim1
                };
                let facing = if go_left {
                    Direction::Left
                } else if go_right {
                    Direction::Right
                } else {
                    vertical.1
                };
                let pix = Position { x: x2, y: vertical.2 };
                Dave {
                    position: grid_pos(pix),
                    pixel_position: pix,
                    animation_tick: anim2,
                    state: DaveState::Live {
                        move_type: vertical.0,
                        left: done(left),
                        right: done(right),
                        toggle_jetpack: tj1,
                        fire: done(fire),
                        last_direction: facing,
                        on_ground,
                        jetpack_delay,
                        collision_point: cp,
                    },
                    bullet: if fire == MoveState::Do {
                        Some(spawned_bullet(BulletSource::Dave, facing, pix))
                    } else {
                        self.bullet
                    },
                    ..self
                }
            },
            _ => self,
        }
    }

    /// The player after gravity: a walking player who is not jumping and not on the ground
    /// falls 2 pixels unless both floor probes hit a wall, in which case they are aligned to
    /// the nearest tile row.
    pub open spec fn fallen(self, tiles: Seq<TileId>) -> Dave {
        match self.state {
            DaveState::Live { move_type: MovementType::Walking { jump, .. }, on_ground, .. } => {
                if jump != MoveState::Do && !on_ground {
                    let pos = self.pixel_position;
                    let floor_blocked = classify(tiles, pos.offset(4, 17)) == CollisionType::Wall
                        && classify(tiles, pos.offset(10, 17)) == CollisionType::Wall;
                    Dave {
                        pixel_position: Position {
                            x: pos.x,
                            y: if floor_blocked {
                                snapped(pos.y)
                            } else {
                                pos.y.wrapping_add(2)
                            },
                        },
                        ..self
                    }
                } else {
                    self
                }
            },
            _ => self,
        }
    }

    /// The player after one tick of timers: the jetpack cooldown runs down, a flying jetpack
    /// burns one unit of fuel and is lost, back to walking, when the fuel reaches zero; a
    /// dying player's countdown runs down to death.
    pub open spec fn decayed(self) -> Dave {
        match self.state {
            DaveState::Live {
                move_type,
                left,
                right,
                toggle_jetpack,
                fire,
                last_direction,
                on_ground,
                jetpack_delay,
                collision_point,
            } => {
                let delay = if jetpack_delay > 0 {
                    (jetpack_delay - 1) as u8
                } else {
                    0
                };
                let live = |m: MovementType|
                    DaveState::Live {
                        move_type: m,
                        left,
                        right,
                        toggle_jetpack,
                        fire,
                        last_direction,
                        on_ground,
                        jetpack_delay: delay,
                        collision_point,
                    };
                match (move_type, self.has_jetpack) {
                    (MovementType::Jetpack { up, .. }, HasJetpack::Yes(fuel)) => if fuel <= 1 {
                        Dave {
                            state: live(MovementType::Walking { jump: up, jump_timer: 0 }),
                            has_jetpack: HasJetpack::No,
                            ..self
                        }
                    } else {
                        Dave {
                            state: live(move_type),
                            has_jetpack: HasJetpack::Yes((fuel - 1) as u8),
                            ..self
                        }
                    },
                    _ => Dave { state: live(move_type), ..self },
                }
            },
            DaveState::Dying { dead_timer } => Dave {
                state: if dead_timer <= 1 {
                    DaveState::Dead
                } else {
                    DaveState::Dying { dead_timer: (dead_timer - 1) as u8 }
                },
                ..self
            },
            DaveState::Dead => self,
        }
    }

    /// The player put back at grid cell `start`, alive and walking; items are kept.
    pub open spec fn restarted(self, start: Position<u8>) -> Dave {
        Dave {
            position: Position { x: start.x as i16, y: start.y as i16 },
            pixel_position: Position { x: (start.x * 16) as i16, y: (start.y * 16) as i16 },
            state: fresh_state(false),
            ..self
        }
    }

    /// The player at the start of a new level: restarted, without gun, jetpack, bullet or
    /// pending door.
    pub open spec fn leveled(self, start: Position<u8>) -> Dave {
        Dave {
            has_gun: false,
            has_jetpack: HasJetpack::No,
            check_door: false,
            bullet: None,
            ..self.restarted(start)
        }
    }

    /// A live player turned dying, with a 30-tick countdown.
    pub open spec fn killed(self) -> Dave {
        Dave { state: DaveState::Dying { dead_timer: 30 }, ..self }
    }

    pub fn bullet(&self) -> (r: Option<&Bullet>)
        ensures
            r is Some <==> self.bullet is Some,
            r matches Some(b) ==> self.bullet == Some(*b),
    {
        match &self.bullet {
            Some(b) => Some(b),
            None => None,
        }
    }

    pub fn bullet_mut(&mut self) -> (r: &mut Option<Bullet>)
        ensures
            *r == old(self).bullet,
            *final(self) == (Dave { bullet: *final(r), ..*old(self) }),
    {
        &mut self.bullet
    }

    pub fn direction(&self) -> (r: Direction)
        ensures
            r == (match self.state {
                DaveState::Live { last_direction, .. } => last_direction,
                _ => Direction::Middle,
            }),
    {
        match self.state {
            DaveState::Live { last_direction, .. } => last_direction,
            _ => Direction::Middle,
        }
    }

    pub fn is_jetpacking(&self) -> (r: bool)
        ensures
            r == (self.state matches DaveState::Live { move_type, .. } && move_type.jetpack()),
    {
        match &self.state {
            DaveState::Live { move_type, .. } => move_type.is_jetpack(),
            _ => false,
        }
    }

    pub fn is_on_ground(&self) -> (r: bool)
        ensures
            r == (self.state matches DaveState::Live { on_ground, .. } && on_ground),
    {
        match self.state {
            DaveState::Live { on_ground, .. } => on_ground,
            _ => false,
        }
    }

    pub fn is_alive(&self) -> (r: bool)
        ensures
            r == self.alive(),
    {
        match self.state {
            DaveState::Live { .. } => true,
            _ => false,
        }
    }

    pub fn is_dead(&self) -> (r: bool)
        ensures
            r == self.state is Dead,
    {
        match self.state {
            DaveState::Dead => true,
            _ => false,
        }
    }
}

/// Upward pixels of one jump tick for the given timer value.
pub fn jump_step(timer: u8) -> (r: i16)
    ensures
        r == jump_rise(timer),
{
    if timer <= 4 {
        0
    } else if timer <= 10 {
        1
    } else {
        2
    }
}

fn approve_move(s: MoveState, ok: bool) -> (r: MoveState)
    ensures
        r == approve(s, ok),
{
    if s == MoveState::Try && ok {
        MoveState::Do
    } else {
        s
    }
}

fn request_move(s: MoveState, held: bool) -> (r: MoveState)
    ensures
        r == request(s, held),
{
    if held && s == MoveState::Idle {
        MoveState::Try
    } else {
        s
    }
}

fn finish_move(s: MoveState) -> (r: MoveState)
    ensures
        r == done(s),
{
    if s == MoveState::Do {
        MoveState::Idle
    } else {
        s
    }
}

impl Dave {
    pub fn init() -> (r: Dave)
        ensures
            r == Dave::init_spec(),
    {
        Dave {
            position: Position { x: 0, y: 0 },
            pixel_position: Position { x: 0, y: 0 },
            animation_tick: 1,
            state: DaveState::Live {
                move_type: MovementType::Walking { jump: MoveState::Idle, jump_timer: 0 },
                left: MoveState::Idle,
                right: MoveState::Idle,
                toggle_jetpack: MoveState::Idle,
                fire: MoveState::Idle,
                last_direction: Direction::Middle,
                on_ground: true,
                jetpack_delay: 0,
                collision_point: [false, false, false, false, false, false, false, false],
            },
            has_jetpack: HasJetpack::No,
            has_gun: false,
            bullet: None,
            check_pickup: Position { x: 0, y: 0 },
            check_door: true,
        }
    }

    pub fn apply_gravity(&mut self, level: LevelId, levels: &Levels)
        ensures
            *final(self) == old(self).fallen(level_tiles(levels@, level)),
    {
        if let DaveState::Live { move_type: MovementType::Walking { jump, .. }, on_ground, .. } =
            self.state {
            if jump != MoveState::Do && !on_ground {
                let below_left = is_clear(level, levels, self.pixel_position.add((4, 17)));
                let below_right = is_clear(level, levels, self.pixel_position.add((10, 17)));
                if !(below_left == CollisionType::Wall && below_right == CollisionType::Wall) {
                    self.pixel_position.y = self.pixel_position.y.wrapping_add(2);
                } else {
                    // Align to the floor.
                    let y = self.pixel_position.y;
                    let not_align = y % TILE_SIZE;
                    if not_align != 0 {
                        self.pixel_position.y = if not_align < 8 {
                            y - not_align
                        } else {
                            y.wrapping_add(TILE_SIZE - not_align)
                        };
                    }
                }
            }
        }
    }

    pub fn move_dave(&mut self)
        ensures
            *final(self) == old(self).moved(),
            final(self).state matches DaveState::Live { left, right, fire, .. } ==> left
                != MoveState::Do && right != MoveState::Do && fire != MoveState::Do,
    {
        if let DaveState::Live {
            move_type,
            left,
            right,
            toggle_jetpack,
            fire,
            last_direction,
            on_ground,
            jetpack_delay,
            collision_point,
        } = self.state {
            let mut move_type = move_type;
            let mut toggle_jetpack = toggle_jetpack;
            let mut last_direction = last_direction;
            if toggle_jetpack == MoveState::Do && jetpack_delay == 0 {
                move_type = match move_type {
                    MovementType::Walking { jump, .. } => MovementType::Jetpack {
                        up: jump,
                        down: MoveState::Idle,
                    },
                    MovementType::Jetpack { up, .. } => MovementType::Walking {
                        jump: up,
                        jump_timer: 0,
                    },
                };
                toggle_jetpack = MoveState::Idle;
            }
            match move_type {
                MovementType::Walking { jump, jump_timer } => {
                    if jump == MoveState::Do {
                        let mut timer = jump_timer;
                        if timer == 0 {
                            timer = 25;
                            last_direction = Direction::Middle;
                        }
                        if collision_point[0] && collision_point[1] {
                            self.pixel_position.y = self.pixel_position.y.wrapping_sub(
                                jump_step(timer),
                            );
                        }
                        timer = timer - 1;
                        move_type = MovementType::Walking {
                            jump: if timer == 0 {
                                MoveState::Idle
                            } else {
                                MoveState::Do
                            },
                            jump_timer: timer,
                        };
                    }
                },
                MovementType::Jetpack { up, down } => {
                    if up == MoveState::Do {
                        self.pixel_position.y = self.pixel_position.y.wrapping_sub(2);
                    }
                    if down == MoveState::Do {
                        self.pixel_position.y = self.pixel_position.y.wrapping_add(2);
                    }
                    move_type = MovementType::Jetpack { up: finish_move(up), down: finish_move(down) };
                },
            }
            if right == MoveState::Do {
                self.pixel_position.x = self.pixel_position.x.wrapping_add(2);
                self.animation_tick = self.animation_tick.wrapping_add(1);
                last_direction = Direction::Right;
            }
            if left == MoveState::Do {
                self.pixel_position.x = self.pixel_position.x.wrapping_sub(2);
                self.animation_tick = self.animation_tick.wrapping_add(1);
                last_direction = Direction::Left;
            }
            if fire == MoveState::Do {
                self.bullet = Some(spawn_bullet(BulletSource::Dave, last_direction, self.pixel_position));
            }
            self.position = to_grid(self.pixel_position);
            self.state = DaveState::Live {
                move_type,
                left: finish_move(left),
                right: finish_move(right),
                toggle_jetpack,
                fire: finish_move(fire),
                last_direction,
                on_ground,
                jetpack_delay,
                collision_point,
            };
        }
    }

    pub fn verify_input(&mut self)
        ensures
            *final(self) == old(self).verified(),
    {
        if let DaveState::Live {
            move_type,
            left,
            right,
            toggle_jetpack,
            fire,
            last_direction,
            on_ground,
            jetpack_delay,
            collision_point: cp,
        } = self.state {
            let move_type = match move_type {
                MovementType::Walking { jump, jump_timer } => MovementType::Walking {
                    jump: approve_move(jump, on_ground && cp[0] && cp[1]),
                    jump_timer,
                },
                MovementType::Jetpack { up, down } => MovementType::Jetpack {
                    up: approve_move(up, cp[0] && cp[1]),
                    down: approve_move(down, cp[4] && cp[5]),
                },
            };
            let fire = approve_move(fire, self.bullet.is_none() && self.has_gun);
            let mut toggle_jetpack = toggle_jetpack;
            let mut jetpack_delay = jetpack_delay;
            if self.has_jetpack != HasJetpack::No && toggle_jetpack == MoveState::Try {
                if jetpack_delay == 0 {
                    toggle_jetpack = MoveState::Do;
                    jetpack_delay = 10;
                } else {
                    toggle_jetpack = MoveState::Idle;
                }
            }
            self.state = DaveState::Live {
                move_type,
                left: approve_move(left, cp[6] && cp[7]),
                right: approve_move(right, cp[2] && cp[3]),
                toggle_jetpack,
                fire,
                last_direction,
                on_ground,
                jetpack_delay,
                collision_point: cp,
            };
        }
    }

    pub fn input(&mut self, input: &Input)
        ensures
            *final(self) == old(self).requested(*input),
    {
        if let DaveState::Live {
            move_type,
            left,
            right,
            toggle_jetpack,
            fire,
            last_direction,
            on_ground,
            jetpack_delay,
            collision_point,
        } = self.state {
            let move_type = match move_type {
                MovementType::Walking { jump, jump_timer } => MovementType::Walking {
                    jump: request_move(jump, input.jump() && on_ground),
                    jump_timer,
                },
                MovementType::Jetpack { up, down } => MovementType::Jetpack {
                    up: request_move(up, input.jump()),
                    down: request_move(down, input.down()),
                },
            };
            let fire = request_move(fire, input.fire() && self.bullet.is_none());
            self.state = DaveState::Live {
                move_type,
                left: request_move(left, input.left()),
                right: request_move(right, input.right()),
                toggle_jetpack: request_move(toggle_jetpack, input.toggle_jetpack()),
                fire,
                last_direction,
                on_ground,
                jetpack_delay,
                collision_point,
            };
        }
    }

    pub fn level_restart(&mut self, start_pos: Position<u8>)
        ensures
            *final(self) == old(self).restarted(start_pos),
    {
        self.position = Position { x: start_pos.x as i16, y: start_pos.y as i16 };
        self.pixel_position = Position {
            x: start_pos.x as i16 * TILE_SIZE,
            y: start_pos.y as i16 * TILE_SIZE,
        };
        self.state = DaveState::Live {
            move_type: MovementType::Walking { jump: MoveState::Idle, jump_timer: 0 },
            left: MoveState::Idle,
            right: MoveState::Idle,
            toggle_jetpack: MoveState::Idle,
            fire: MoveState::Idle,
            last_direction: Direction::Middle,
            on_ground: false,
            jetpack_delay: 0,
            collision_point: [false, false, false, false, false, false, false, false],
        };
    }

    pub fn new_level(&mut self, start_pos: Position<u8>)
        ensures
            *final(self) == old(self).leveled(start_pos),
    {
        self.level_restart(start_pos);
        self.has_gun = false;
        self.has_jetpack = HasJetpack::No;
        self.check_door = false;
        self.bullet = None;
    }

    pub fn update(&mut self)
        ensures
            *final(self) == old(self).decayed(),
    {
        match self.state {
            DaveState::Live {
                move_type,
                left,
                right,
                toggle_jetpack,
                fire,
                last_direction,
                on_ground,
                jetpack_delay,
                collision_point,
            } => {
                let mut move_type = move_type;
                if let (MovementType::Jetpack { up, .. }, HasJetpack::Yes(fuel)) = (
                    move_type,
                    self.has_jetpack,
                ) {
                    let fuel = fuel.saturating_sub(1);
                    if fuel == 0 {
                        self.has_jetpack = HasJetpack::No;
                        move_type = MovementType::Walking { jump: up, jump_timer: 0 };
                    } else {
                        self.has_jetpack = HasJetpack::Yes(fuel);
                    }
                }
                self.state = DaveState::Live {
                    move_type,
                    left,
                    right,
                    toggle_jetpack,
                    fire,
                    last_direction,
                    on_ground,
                    jetpack_delay: jetpack_delay.saturating_sub(1),
                    collision_point,
                };
            },
            DaveState::Dying { dead_timer } => {
                let t = dead_timer.saturating_sub(1);
                if t == 0 {
                    self.state = DaveState::Dead;
                } else {
                    self.state = DaveState::Dying { dead_timer: t };
                }
            },
            DaveState::Dead => {},
        }
    }

    pub fn check_collision(&mut self, level: LevelId, levels: &Levels)
        ensures
            *final(self) == old(self).collided(level_tiles(levels@, level)),
    {
        if let DaveState::Live {
            move_type,
            left,
            right,
            toggle_jetpack,
            fire,
            last_direction,
            jetpack_delay,
            collision_point,
            ..
        } = self.state {
            let ghost tiles = level_tiles(levels@, level);
            let pos = self.pixel_position;
            let offsets: [(i16, i16); 8] = [
                (4, -1),
                (10, -1),
                (12, 4),
                (12, 12),
                (10, 16),
                (4, 16),
                (3, 12),
                (3, 4),
            ];
            let mut cp = collision_point;
            let mut kill_dave = false;
            let mut door = self.check_door;
            let mut pickup = self.check_pickup;
            let mut i: usize = 0;
            while i < 8
                invariant
                    i <= 8,
                    tiles == level_tiles(levels@, level),
                    forall|j: int| 0 <= j < 8 ==> #[trigger] offsets[j] == probe_offset(j),
                    forall|j: int| 0 <= j < i ==> cp[j] == probe_clear(#[trigger] probe_at(tiles, pos, j)),
                    kill_dave == hazard_upto(tiles, pos, i as int),
                    door == (old(self).check_door || door_upto(tiles, pos, i as int)),
                    pickup == pickup_upto(tiles, pos, i as int, old(self).check_pickup),
                decreases 8 - i,
            {
                let col_type = is_clear(level, levels, pos.add(offsets[i]));
                assert(col_type == probe_at(tiles, pos, i as int));
                match col_type {
                    CollisionType::Wall => {
                        cp[i] = false;
                    },
                    CollisionType::Hazard => {
                        kill_dave = true;
                        cp[i] = false;
                    },
                    CollisionType::Door => {
                        door = true;
                        cp[i] = true;
                    },
                    CollisionType::Pickup(x, y) => {
                        pickup = Position { x, y };
                        cp[i] = true;
                    },
                    _ => {
                        cp[i] = true;
                    },
                }
                i = i + 1;
            }
            assert(cp =~= probe_flags(tiles, pos));
            self.check_door = door;
            self.check_pickup = pickup;
            self.state = DaveState::Live {
                move_type,
                left,
                right,
                toggle_jetpack,
                fire,
                last_direction,
                on_ground: !cp[4] || !cp[5],
                jetpack_delay,
                collision_point: cp,
            };
            if kill_dave {
                self.kill();
            }
        }
    }

    /// Turns a live player into a dying one; killing a player who is not alive is a logic error.
    pub fn kill(&mut self)
        requires
            old(self).alive(),
        ensures
            *final(self) == old(self).killed(),
    {
        self.state = DaveState::Dying { dead_timer: 30 };
    }
}

/// Jump displacement is tiered by the timer: nothing for 1 to 4, one pixel for 5 to 10, two
/// pixels above 10, and never less for a larger timer.
pub proof fn lemma_jump_tiers(t1: u8, t2: u8)
    ensures
        1 <= t1 <= 4 ==> jump_rise(t1) == 0,
        5 <= t1 <= 10 ==> jump_rise(t1) == 1,
        t1 > 10 ==> jump_rise(t1) == 2,
        t1 <= t2 ==> jump_rise(t1) <= jump_rise(t2),
{
}

/// Sideways moves are approved only with both probes on that side clear, so a player whose
/// previous moves were carried out changes column only when a side is clear.
pub proof fn lemma_sideways_move_needs_clear_side(d: Dave)
    requires
        d.state matches DaveState::Live { left, right, .. } && left != MoveState::Do && right
            != MoveState::Do,
    ensures
        ({
            let cp = d.state->Live_collision_point;
            &&& (d.verified().state matches DaveState::Live { left, right, .. } && (right
                == MoveState::Do ==> cp[2] && cp[3]) && (left == MoveState::Do ==> cp[6] && cp[7]))
            &&& d.verified().moved().pixel_position.x != d.pixel_position.x ==> (cp[2] && cp[3])
                || (cp[6] && cp[7])
        }),
{
}

/// A flying jetpack burns exactly one unit of fuel per tick and drops the player back to
/// walking exactly when the fuel runs out.
pub proof fn lemma_jetpack_fuel(d: Dave, fuel: u8)
    requires
        d.state matches DaveState::Live { move_type, .. } && move_type.jetpack(),
        d.has_jetpack == HasJetpack::Yes(fuel),
    ensures
        fuel > 1 ==> d.decayed().has_jetpack == HasJetpack::Yes((fuel - 1) as u8)
            && (d.decayed().state matches DaveState::Live { move_type, .. } && move_type.jetpack()),
        fuel <= 1 ==> d.decayed().has_jetpack == HasJetpack::No
            && (d.decayed().state matches DaveState::Live { move_type, .. }
            && !move_type.jetpack()),
{
}

} // verus!
