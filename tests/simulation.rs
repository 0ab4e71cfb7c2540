use dangerous_dave::dave::{Dave, DaveState, HasJetpack, MoveState, MovementType, jump_step};
use dangerous_dave::game::{
    Bullet, BulletSource, CollisionType, Direction, Game, Position, first_monster_hit, is_clear,
    is_visible, item_points, spawn_bullet, to_grid,
};
use dangerous_dave::input::Input;
use dangerous_dave::level::{Level, LevelId, Levels, MonsterPathIndex, LEVEL_DATA_LEN};
use dangerous_dave::monster::{Monster, MonsterState};
use dangerous_dave::tileset::TileId;

/// Ten copies of one level whose tiles are blank except for the given (x, y, tile) cells.
fn levels_with(cells: &[(usize, usize, u8)], path: &[(i8, i8)]) -> Levels {
    let mut bytes = vec![0u8; LEVEL_DATA_LEN];
    for (i, (dx, dy)) in path.iter().enumerate() {
        bytes[2 * i] = *dx as u8;
        bytes[2 * i + 1] = *dy as u8;
    }
    for (x, y, t) in cells {
        bytes[256 + y * 100 + x] = *t;
    }
    let level = Level::from_bytes(&bytes).unwrap();
    Levels::new(vec![level; 10]).unwrap()
}

fn live_fields(d: &Dave) -> (MovementType, MoveState, MoveState, MoveState, MoveState, bool, u8, [bool; 8]) {
    match d.state {
        DaveState::Live { move_type, left, right, toggle_jetpack, fire, on_ground, jetpack_delay, collision_point, .. } => {
            (move_type, left, right, toggle_jetpack, fire, on_ground, jetpack_delay, collision_point)
        }
        _ => panic!("player is not alive"),
    }
}

/// A live player at grid cell (2, 8) standing on the ground with every probe clear.
fn grounded_dave() -> Dave {
    let mut d = Dave::init();
    d.level_restart(Position { x: 2, y: 8 });
    if let DaveState::Live { on_ground, collision_point, .. } = &mut d.state {
        *on_ground = true;
        *collision_point = [true; 8];
    }
    d
}

fn press(f: impl Fn(&mut Input)) -> Input {
    let mut i = Input::new();
    f(&mut i);
    i
}

#[test]
fn visibility_window_boundaries() {
    assert!(!is_visible(9, 10));
    assert!(is_visible(10, 10));
    assert!(is_visible(29, 10));
    assert!(!is_visible(30, 10));
    assert!(is_visible(0, 0));
    assert!(!is_visible(-1, 0));
    assert!(!is_visible(i16::MAX, -128));
}

#[test]
fn grid_division_rounds_toward_zero() {
    assert_eq!(to_grid(Position { x: 31, y: 32 }), Position { x: 1, y: 2 });
    assert_eq!(to_grid(Position { x: -1, y: -17 }), Position { x: 0, y: -1 });
    assert_eq!(Position { x: 1i16, y: 2 }.add((3, -4)), Position { x: 4, y: -2 });
    assert_eq!(Position { x: i16::MAX, y: 0 }.add((1, 0)), Position { x: i16::MIN, y: 0 });
}

#[test]
fn classifier_priority_and_bounds() {
    let levels = levels_with(&[(1, 0, 1), (2, 0, 6), (3, 0, 47), (4, 0, 2), (5, 0, 33), (99, 9, 3)], &[]);
    let id = LevelId::first_level();
    assert_eq!(is_clear(id, &levels, Position { x: 0, y: 0 }), CollisionType::Clear);
    assert_eq!(is_clear(id, &levels, Position { x: 16, y: 15 }), CollisionType::Wall);
    assert_eq!(is_clear(id, &levels, Position { x: 32, y: 0 }), CollisionType::Hazard);
    assert_eq!(is_clear(id, &levels, Position { x: 48, y: 0 }), CollisionType::Pickup(3, 0));
    assert_eq!(is_clear(id, &levels, Position { x: 64, y: 0 }), CollisionType::Door);
    assert_eq!(is_clear(id, &levels, Position { x: 80, y: 0 }), CollisionType::Climbable);
    assert_eq!(is_clear(id, &levels, Position { x: 1599, y: 159 }), CollisionType::Wall);
    assert_eq!(is_clear(id, &levels, Position { x: 1600, y: 0 }), CollisionType::Clear);
    assert_eq!(is_clear(id, &levels, Position { x: 0, y: 160 }), CollisionType::Clear);
    assert_eq!(is_clear(id, &levels, Position { x: -1, y: 0 }), CollisionType::Clear);
}

#[test]
fn item_scores() {
    assert_eq!(item_points(47), 100);
    assert_eq!(item_points(48), 50);
    assert_eq!(item_points(49), 150);
    assert_eq!(item_points(50), 300);
    assert_eq!(item_points(51), 200);
    assert_eq!(item_points(52), 500);
    assert_eq!(item_points(12), 1000);
    assert_eq!(item_points(20), 0);
}

#[test]
fn bullet_spawn_offsets() {
    let b = spawn_bullet(BulletSource::Dave, Direction::Right, Position { x: 100, y: 50 });
    assert_eq!(b.position, Position { x: 118, y: 58 });
    let b = spawn_bullet(BulletSource::Monster, Direction::Left, Position { x: 100, y: 50 });
    assert_eq!(b.position, Position { x: 92, y: 58 });
    let b = spawn_bullet(BulletSource::Dave, Direction::Middle, Position { x: 0, y: 0 });
    assert_eq!(b.position, Position { x: 18, y: 8 });
}

#[test]
fn jump_tiers_by_timer() {
    assert_eq!(jump_step(25), 2);
    assert_eq!(jump_step(11), 2);
    assert_eq!(jump_step(10), 1);
    assert_eq!(jump_step(5), 1);
    assert_eq!(jump_step(4), 0);
    assert_eq!(jump_step(1), 0);
}

#[test]
fn full_jump_from_the_start_cell() {
    let mut d = grounded_dave();
    assert_eq!(d.pixel_position, Position { x: 32, y: 128 });
    d.input(&press(|i| i.jump = true));
    d.verify_input();
    match live_fields(&d).0 {
        MovementType::Walking { jump, .. } => assert_eq!(jump, MoveState::Do),
        _ => panic!("not walking"),
    }
    d.move_dave();
    match live_fields(&d).0 {
        MovementType::Walking { jump, jump_timer } => {
            assert_eq!(jump, MoveState::Do);
            assert_eq!(jump_timer, 24);
        }
        _ => panic!("not walking"),
    }
    assert_eq!(d.pixel_position.y, 126);
    for _ in 1..25 {
        d.move_dave();
    }
    assert_eq!(d.pixel_position.y, 128 - 36);
    match live_fields(&d).0 {
        MovementType::Walking { jump, jump_timer } => {
            assert_eq!(jump, MoveState::Idle);
            assert_eq!(jump_timer, 0);
        }
        _ => panic!("not walking"),
    }
}

#[test]
fn blocked_side_never_moves() {
    let mut d = grounded_dave();
    if let DaveState::Live { collision_point, .. } = &mut d.state {
        collision_point[2] = false;
    }
    d.input(&press(|i| i.right = true));
    d.verify_input();
    assert_eq!(live_fields(&d).2, MoveState::Try);
    d.move_dave();
    assert_eq!(d.pixel_position.x, 32);

    let mut d = grounded_dave();
    d.input(&press(|i| i.left = true));
    d.verify_input();
    assert_eq!(live_fields(&d).1, MoveState::Do);
    d.move_dave();
    assert_eq!(d.pixel_position.x, 30);
    assert_eq!(d.direction(), Direction::Left);
    assert_eq!(d.animation_tick, 2);
    assert_eq!(live_fields(&d).1, MoveState::Idle);
}

#[test]
fn input_never_overwrites_pending_requests() {
    let mut d = grounded_dave();
    if let DaveState::Live { right, .. } = &mut d.state {
        *right = MoveState::Do;
    }
    d.input(&press(|i| i.right = true));
    assert_eq!(live_fields(&d).2, MoveState::Do);
    d.input(&press(|i| i.fire = true));
    assert_eq!(live_fields(&d).4, MoveState::Try);
}

#[test]
fn firing_needs_the_gun() {
    let mut d = grounded_dave();
    d.input(&press(|i| i.fire = true));
    d.verify_input();
    assert_eq!(live_fields(&d).4, MoveState::Try);
    d.has_gun = true;
    d.verify_input();
    assert_eq!(live_fields(&d).4, MoveState::Do);
    d.move_dave();
    let b = *d.bullet().unwrap();
    assert_eq!(b.source, BulletSource::Dave);
    assert_eq!(b.position, Position { x: 50, y: 136 });
}

#[test]
fn jetpack_toggle_cooldown_and_fuel() {
    let mut d = grounded_dave();
    d.has_jetpack = HasJetpack::Yes(2);
    d.input(&press(|i| i.toggle_jetpack = true));
    d.verify_input();
    let f = live_fields(&d);
    assert_eq!(f.3, MoveState::Do);
    assert_eq!(f.6, 10);
    // The switch waits for the cooldown to run out.
    d.move_dave();
    assert!(!d.is_jetpacking());
    for _ in 0..10 {
        d.update();
    }
    assert_eq!(live_fields(&d).6, 0);
    d.move_dave();
    assert!(d.is_jetpacking());
    d.update();
    assert_eq!(d.has_jetpack, HasJetpack::Yes(1));
    assert!(d.is_jetpacking());
    d.update();
    assert_eq!(d.has_jetpack, HasJetpack::No);
    assert!(!d.is_jetpacking());
}

#[test]
fn toggle_dropped_during_cooldown() {
    let mut d = grounded_dave();
    d.has_jetpack = HasJetpack::Yes(100);
    if let DaveState::Live { jetpack_delay, .. } = &mut d.state {
        *jetpack_delay = 3;
    }
    d.input(&press(|i| i.toggle_jetpack = true));
    d.verify_input();
    assert_eq!(live_fields(&d).3, MoveState::Idle);
    assert_eq!(live_fields(&d).6, 3);
}

#[test]
fn gravity_falls_and_aligns() {
    let levels = levels_with(&[(0, 9, 1)], &[]);
    let id = LevelId::first_level();
    let mut d = Dave::init();
    d.level_restart(Position { x: 0, y: 7 });
    d.apply_gravity(id, &levels);
    assert_eq!(d.pixel_position.y, 114);
    // Both floor probes on the wall row: 3 pixels into the tile snaps up.
    d.pixel_position.y = 131;
    d.apply_gravity(id, &levels);
    assert_eq!(d.pixel_position.y, 128);
    // Above the wall row the player keeps falling.
    d.pixel_position.y = 124;
    d.apply_gravity(id, &levels);
    assert_eq!(d.pixel_position.y, 126);
    // 12 pixels into the tile snaps down to the next row.
    d.pixel_position.y = 140;
    d.apply_gravity(id, &levels);
    assert_eq!(d.pixel_position.y, 144);
}

#[test]
fn probes_record_door_pickup_and_hazard() {
    let levels = levels_with(&[(2, 8, 2), (2, 9, 1), (2, 7, 47)], &[]);
    let id = LevelId::first_level();
    let mut d = Dave::init();
    d.level_restart(Position { x: 2, y: 8 });
    d.check_door = false;
    d.check_collision(id, &levels);
    assert!(d.check_door);
    assert_eq!(d.check_pickup, Position { x: 2, y: 7 });
    let f = live_fields(&d);
    assert_eq!(f.7, [true, true, true, true, false, false, true, true]);
    assert!(f.5);

    let levels = levels_with(&[(2, 9, 6)], &[]);
    let mut d = Dave::init();
    d.level_restart(Position { x: 2, y: 8 });
    d.check_collision(id, &levels);
    assert!(matches!(d.state, DaveState::Dying { dead_timer: 30 }));
}

#[test]
fn dying_counts_down_to_dead() {
    let mut d = grounded_dave();
    d.kill();
    assert!(!d.is_alive());
    for _ in 0..29 {
        d.update();
    }
    assert!(!d.is_dead());
    d.update();
    assert!(d.is_dead());
}

#[test]
fn new_level_strips_items() {
    let mut d = grounded_dave();
    d.has_gun = true;
    d.has_jetpack = HasJetpack::Yes(9);
    d.check_door = true;
    d.level_restart(Position { x: 6, y: 1 });
    assert!(d.has_gun);
    assert_eq!(d.position, Position { x: 6, y: 1 });
    assert_eq!(d.pixel_position, Position { x: 96, y: 16 });
    assert!(!d.is_on_ground());
    d.new_level(Position { x: 1, y: 2 });
    assert!(!d.has_gun);
    assert_eq!(d.has_jetpack, HasJetpack::No);
    assert!(!d.check_door);
    assert!(d.bullet().is_none());
}

#[test]
fn monster_patrols_and_wraps_at_path_end() {
    let levels = levels_with(&[], &[(3, -1), (-22, -22)]);
    let id = LevelId::first_level();
    let tile = TileId::new(89).unwrap();
    let mut m = Monster::init_live(tile, Position { x: 5, y: 5 });
    m.move_monster(id, &levels);
    assert_eq!(m.pixel_position(), Position { x: 82, y: 79 });
    m.move_monster(id, &levels);
    // One pixel of x is left, then the end marker restarts the path.
    assert_eq!(m.pixel_position(), Position { x: 84, y: 78 });
    m.move_monster(id, &levels);
    assert_eq!(m.pixel_position(), Position { x: 86, y: 78 });
    assert_eq!(m.position(), Position { x: 5, y: 4 });
}

#[test]
fn pending_delta_is_never_taken_for_the_path_end() {
    let levels = levels_with(&[], &[(0, 0)]);
    let id = LevelId::first_level();
    let mut m = Monster {
        state: MonsterState::Live {
            position: Position { x: 6, y: 6 },
            pixel_position: Position { x: 100, y: 100 },
            tile_id: TileId::new(89).unwrap(),
            path_index: MonsterPathIndex::start(),
            next_px: Position { x: -23, y: -23 },
        },
    };
    m.move_monster(id, &levels);
    assert_eq!(m.pixel_position(), Position { x: 98, y: 98 });
    match m.state {
        MonsterState::Live { next_px, .. } => assert_eq!(next_px, Position { x: -21, y: -21 }),
        _ => panic!("monster is not alive"),
    }
}

#[test]
fn monster_fires_toward_the_player_when_visible() {
    let tile = TileId::new(93).unwrap();
    let mut m = Monster::init_live(tile, Position { x: 10, y: 4 });
    let left = m.try_fire_bullet(Position { x: 0, y: 0 }, 0).unwrap();
    assert_eq!(left.direction, Direction::Left);
    assert_eq!(left.position, Position { x: 152, y: 72 });
    let right = m.try_fire_bullet(Position { x: 200, y: 0 }, 0).unwrap();
    assert_eq!(right.direction, Direction::Right);
    assert_eq!(right.position, Position { x: 178, y: 72 });
    assert!(m.try_fire_bullet(Position { x: 0, y: 0 }, 11).is_none());
    assert!(Monster::init_dead().try_fire_bullet(Position { x: 0, y: 0 }, 0).is_none());
}

#[test]
fn monster_dies_after_countdown() {
    let mut m = Monster::init_live(TileId::new(93).unwrap(), Position { x: 1, y: 1 });
    m.kill();
    assert!(!m.is_alive());
    assert!(m.is_not_dead());
    assert_eq!(m.tile_id().value(), 129);
    assert_eq!(m.position(), Position { x: 1, y: 1 });
    for _ in 0..30 {
        m.update();
    }
    assert!(!m.is_not_dead());
    assert_eq!(m.tile_id().value(), 0);
}

#[test]
fn player_bullet_hits_monster_footprint() {
    let levels = levels_with(&[], &[]);
    let id = LevelId::first_level();
    let monsters = [
        Monster::init_dead(),
        Monster::init_live(TileId::new(89).unwrap(), Position { x: 10, y: 4 }),
    ];
    for (x, y) in [(10, 4), (11, 4), (10, 5), (11, 5)] {
        let mut b = Bullet {
            source: BulletSource::Dave,
            direction: Direction::Right,
            position: Position { x: x * 16 + 2, y: y * 16 + 3 },
        };
        let r = b.update_bullet(Position { x: 0, y: 0 }, &monsters, id, 0, &levels);
        assert_eq!(r, (CollisionType::Monster(1), true));
        assert_eq!(b.position.x, x * 16 + 6);
    }
    assert_eq!(first_monster_hit(&monsters, 12, 4), None);
    assert_eq!(first_monster_hit(&monsters, 9, 4), None);
}

#[test]
fn bullet_stops_at_walls_and_view_edge() {
    let levels = levels_with(&[(5, 2, 1)], &[]);
    let id = LevelId::first_level();
    let mut b = Bullet { source: BulletSource::Dave, direction: Direction::Left, position: Position { x: 95, y: 40 } };
    assert_eq!(b.update_bullet(Position { x: 0, y: 0 }, &[], id, 0, &levels), (CollisionType::Wall, true));
    let mut b = Bullet { source: BulletSource::Dave, direction: Direction::Right, position: Position { x: 316, y: 40 } };
    assert_eq!(b.update_bullet(Position { x: 0, y: 0 }, &[], id, 0, &levels), (CollisionType::Clear, false));
    let mut b = Bullet { source: BulletSource::Monster, direction: Direction::Left, position: Position { x: 40, y: 40 } };
    assert_eq!(b.update_bullet(Position { x: 2, y: 2 }, &[], id, 0, &levels), (CollisionType::Dave, true));
}

#[test]
fn bullet_resolution_is_repeatable() {
    let levels = levels_with(&[], &[]);
    let id = LevelId::first_level();
    let monsters = [Monster::init_live(TileId::new(89).unwrap(), Position { x: 10, y: 4 })];
    let start = Bullet { source: BulletSource::Dave, direction: Direction::Right, position: Position { x: 150, y: 70 } };
    let mut a = start;
    let mut b = start;
    let ra = a.update_bullet(Position { x: 0, y: 0 }, &monsters, id, 0, &levels);
    let rb = b.update_bullet(Position { x: 0, y: 0 }, &monsters, id, 0, &levels);
    assert_eq!(ra, rb);
    assert_eq!(a, b);
}

#[test]
fn game_starts_on_first_level() {
    let g = Game::init();
    assert_eq!(g.current_level().val(), 0);
    assert_eq!(g.lives(), 3);
    assert_eq!(g.score(), 0);
    assert_eq!(g.view_x(), 0);
    assert!(!g.quit());
    assert!(!g.has_trophy());
    assert!(!g.has_gun());
    assert_eq!(g.has_jetpack(), HasJetpack::No);
    assert_eq!(g.dave().position, Position { x: 2, y: 8 });
    assert_eq!(g.monsters().len(), 5);
    assert!(g.monster_bullet().is_none());
}

#[test]
fn extra_life_on_crossing_twenty_thousand() {
    let mut g = Game::init();
    g.misc.score = 19_900;
    g.add_score(200);
    assert_eq!(g.score(), 20_100);
    assert_eq!(g.lives(), 4);
    g.add_score(19_800);
    assert_eq!(g.lives(), 4);
    g.add_score(100);
    assert_eq!(g.lives(), 5);
}

#[test]
fn bullet_kills_monster_in_game() {
    let levels = levels_with(&[], &[]);
    let mut g = Game::init();
    g.monsters[0] = Monster::init_live(TileId::new(89).unwrap(), Position { x: 10, y: 4 });
    *g.dave.bullet_mut() = Some(Bullet {
        source: BulletSource::Dave,
        direction: Direction::Right,
        position: Position { x: 172, y: 84 },
    });
    g.update_bullets(&levels);
    assert!(g.dave().bullet().is_none());
    assert!(matches!(g.monsters()[0].state, MonsterState::Dying { dead_timer: 30, .. }));
}

#[test]
fn door_without_trophy_keeps_level() {
    let mut g = Game::init();
    g.dave.check_door = true;
    g.update_level();
    assert!(!g.dave().check_door);
    assert_eq!(g.current_level().val(), 0);
    assert_eq!(g.score(), 0);
}

#[test]
fn door_with_trophy_advances_level() {
    let mut g = Game::init();
    g.dave.check_door = true;
    g.misc.has_trophy = true;
    g.update_level();
    assert_eq!(g.current_level().val(), 1);
    assert_eq!(g.score(), 2000);
    assert!(!g.has_trophy());
    assert_eq!(g.dave().position, Position { x: 1, y: 8 });

    let mut g = Game::init();
    g.misc.level = LevelId::new(9).unwrap();
    g.dave.check_door = true;
    g.misc.has_trophy = true;
    g.update_level();
    assert!(g.quit());
}

#[test]
fn death_uses_a_life_or_ends_the_run() {
    let mut g = Game::init();
    g.dave.state = DaveState::Dead;
    g.update_level();
    assert_eq!(g.lives(), 2);
    assert!(g.dave().is_alive());
    let mut g = Game::init();
    g.misc.lives = 0;
    g.dave.state = DaveState::Dead;
    g.update_level();
    assert!(g.quit());
}

#[test]
fn monster_contact_kills_both() {
    let mut g = Game::init();
    g.monsters[3] = Monster::init_live(TileId::new(89).unwrap(), Position { x: 2, y: 8 });
    g.update_level();
    assert!(!g.dave().is_alive());
    assert!(!g.monsters()[3].is_alive());
}

#[test]
fn screen_scrolls_toward_the_player() {
    let mut g = Game::init();
    g.dave.position.x = 18;
    g.scroll_screen();
    assert_eq!(g.view_x(), 1);
    assert_eq!(g.misc.scroll_x, 14);
    g.dave.position.x = 10;
    g.scroll_screen();
    assert_eq!(g.view_x(), 2);
    g.misc.view_x = 80;
    g.dave.position.x = 100;
    g.scroll_screen();
    assert_eq!(g.view_x(), 80);
}

#[test]
fn screen_scrolls_for_any_large_gap() {
    let mut g = Game::init();
    g.misc.scroll_x = 0;
    g.dave.position.x = 300;
    g.scroll_screen();
    assert_eq!(g.view_x(), 1);
    assert_eq!(g.misc.scroll_x, 14);
    let mut g = Game::init();
    g.misc.view_x = 40;
    g.dave.position.x = -300;
    g.scroll_screen();
    assert_eq!(g.view_x(), 39);
    assert_eq!(g.misc.scroll_x, -14);
}

#[test]
fn tick_consumes_pickup_and_blanks_tile() {
    let mut levels = levels_with(&[(2, 9, 1), (3, 9, 1), (2, 7, 47)], &[]);
    let mut g = Game::init();
    g.update(&mut levels);
    assert_eq!(g.score(), 100);
    assert_eq!(levels.index(LevelId::first_level()).tiles()[702].value(), 0);
    assert_eq!(g.dave().check_pickup, Position { x: 0, y: 0 });
    assert!(g.dave().is_on_ground());
}

#[test]
fn tick_walks_the_player_right() {
    let mut levels = levels_with(&[(2, 9, 1), (3, 9, 1), (4, 9, 1)], &[]);
    let mut g = Game::init();
    g.update(&mut levels);
    g.input(&press(|i| i.right = true));
    g.update(&mut levels);
    assert_eq!(g.dave().pixel_position, Position { x: 34, y: 128 });
    assert_eq!(g.dave().direction(), Direction::Right);
}

#[test]
fn pickups_grant_gun_and_jetpack() {
    let mut levels = levels_with(&[(3, 8, 20), (4, 8, 4), (5, 8, 11)], &[]);
    let mut g = Game::init();
    g.dave.check_pickup = Position { x: 3, y: 8 };
    g.pickup_item(&mut levels);
    assert!(g.has_gun());
    g.dave.check_pickup = Position { x: 4, y: 8 };
    g.pickup_item(&mut levels);
    assert_eq!(g.has_jetpack(), HasJetpack::Yes(255));
    g.dave.check_pickup = Position { x: 5, y: 8 };
    g.pickup_item(&mut levels);
    assert!(g.has_trophy());
    assert_eq!(g.score(), 1000);
}
