use dangerous_dave::game::Position;
use dangerous_dave::level::{
    Level, LevelError, LevelId, Levels, MonsterPathIndex, LEVEL_DATA_LEN, read_i8,
};
use dangerous_dave::monster::MonsterState;
use dangerous_dave::tileset::{TileId, NUM_TILES};

fn blank_level_bytes() -> Vec<u8> {
    vec![0u8; LEVEL_DATA_LEN]
}

#[test]
fn tile_id_accepts_catalog_range() {
    assert_eq!(TileId::new(0).unwrap().value(), 0);
    assert_eq!(TileId::new(158).unwrap().value(), 158);
    let err = TileId::new(159).unwrap_err();
    assert_eq!(err.id, 159);
    assert!(TileId::new(255).is_err());
}

#[test]
fn tile_classes_are_exclusive_for_every_id() {
    for id in 0..NUM_TILES {
        let t = TileId::new(id).unwrap();
        let classes = [t.is_collidable(), t.is_hazard(), t.is_pickup(), t.is_door(), t.is_climbable()];
        let count = classes.iter().filter(|c| **c).count();
        assert!(count <= 1, "tile {} has {} classes", id, count);
        if t.is_trophy() {
            assert!(t.is_pickup());
        }
    }
}

#[test]
fn tile_classes_on_known_ids() {
    assert!(TileId::new(1).unwrap().is_collidable());
    assert!(TileId::new(30).unwrap().is_collidable());
    assert!(TileId::new(6).unwrap().is_hazard());
    assert!(TileId::new(40).unwrap().is_hazard());
    assert!(TileId::new(4).unwrap().is_pickup());
    assert!(TileId::new(52).unwrap().is_pickup());
    assert!(TileId::new(2).unwrap().is_door());
    assert!(TileId::new(33).unwrap().is_climbable());
    assert!(TileId::new(12).unwrap().is_trophy());
    assert!(!TileId::new(0).unwrap().is_collidable());
    assert!(!TileId::new(20).unwrap().is_trophy());
}

#[test]
fn animated_tiles_cycle_every_five_ticks() {
    let fire = TileId::new(6).unwrap();
    assert_eq!(fire.get_frame(0).value(), 6);
    assert_eq!(fire.get_frame(4).value(), 6);
    assert_eq!(fire.get_frame(5).value(), 7);
    assert_eq!(fire.get_frame(19).value(), 9);
    assert_eq!(fire.get_frame(20).value(), 6);
    let trophy = TileId::new(10).unwrap();
    assert_eq!(trophy.get_frame(24).value(), 14);
    assert_eq!(trophy.get_frame(25).value(), 10);
    let wall = TileId::new(1).unwrap();
    assert_eq!(wall.get_frame(123).value(), 1);
}

#[test]
fn digit_and_mask_tiles() {
    assert_eq!(TileId::get_digit_tile(0).value(), 148);
    assert_eq!(TileId::get_digit_tile(9).value(), 157);
    assert!(TileId::is_dave(53));
    assert!(!TileId::is_dave(60));
    assert_eq!(TileId::get_dave_mask(53), 60);
    assert_eq!(TileId::get_dave_mask(67), 69);
    assert_eq!(TileId::get_dave_mask(72), 75);
    assert_eq!(TileId::get_dave_mask(82), 88);
    assert!(TileId::black_mask(89));
    assert!(TileId::black_mask(142));
    assert!(!TileId::black_mask(141));
}

#[test]
fn signed_bytes_read_as_twos_complement() {
    assert_eq!(read_i8(0), 0);
    assert_eq!(read_i8(127), 127);
    assert_eq!(read_i8(0x80), -128);
    assert_eq!(read_i8(0xEA), -22);
    assert_eq!(read_i8(0xFF), -1);
}

#[test]
fn level_from_bytes_reads_path_and_tiles() {
    let mut bytes = blank_level_bytes();
    bytes[0] = 2;
    bytes[1] = 0xFE;
    bytes[254] = 0xEA;
    bytes[255] = 0xEA;
    bytes[256] = 1;
    bytes[256 + 999] = 2;
    bytes.push(200);
    let level = Level::from_bytes(&bytes).unwrap();
    assert_eq!(level.path().0[0], Position { x: 2, y: -2 });
    assert_eq!(level.path().0[127], Position { x: -22, y: -22 });
    assert_eq!(level.tiles()[0].value(), 1);
    assert_eq!(level.tiles()[999].value(), 2);
    assert_eq!(level.tiles().len(), 1000);
}

#[test]
fn level_from_bytes_rejects_short_input() {
    let bytes = vec![0u8; LEVEL_DATA_LEN - 1];
    assert_eq!(Level::from_bytes(&bytes).unwrap_err(), LevelError::TooShort(LEVEL_DATA_LEN - 1));
    assert_eq!(Level::from_bytes(&[]).unwrap_err(), LevelError::TooShort(0));
}

#[test]
fn level_from_bytes_rejects_first_invalid_tile() {
    let mut bytes = blank_level_bytes();
    bytes[256 + 5] = 170;
    bytes[256 + 9] = 200;
    match Level::from_bytes(&bytes).unwrap_err() {
        LevelError::InvalidTile(index, e) => {
            assert_eq!(index, 5);
            assert_eq!(e.id, 170);
        }
        other => panic!("unexpected error {:?}", other),
    }
}

#[test]
fn tiles_mut_changes_one_tile() {
    let mut level = Level::from_bytes(&blank_level_bytes()).unwrap();
    level.tiles_mut()[7] = TileId::new(3).unwrap();
    assert_eq!(level.tiles()[7].value(), 3);
    assert_eq!(level.tiles()[6].value(), 0);
}

#[test]
fn level_ids_are_validated() {
    let first = LevelId::first_level();
    assert_eq!(first.val(), 0);
    assert_eq!(first.next().unwrap().val(), 1);
    let last = LevelId::new(9).unwrap();
    assert!(last.next().is_none());
    assert!(LevelId::new(10).is_none());
}

#[test]
fn start_positions_per_level() {
    let expected = [(2, 8), (1, 8), (2, 5), (1, 5), (2, 8), (2, 8), (1, 2), (2, 8), (6, 1), (2, 8)];
    for (i, (x, y)) in expected.iter().enumerate() {
        assert_eq!(LevelId::new(i).unwrap().start_position(), Position { x: *x, y: *y });
    }
}

#[test]
fn level_rosters() {
    let third = LevelId::new(2).unwrap().monsters();
    assert!(third[0].is_alive());
    assert_eq!(third[0].position(), Position { x: 44, y: 4 });
    assert_eq!(third[0].pixel_position(), Position { x: 704, y: 64 });
    assert_eq!(third[0].tile_id().value(), 89);
    assert_eq!(third[1].position(), Position { x: 59, y: 4 });
    assert!(!third[2].is_not_dead());
    let fourth = LevelId::new(3).unwrap().monsters();
    assert_eq!(fourth[0].tile_id().value(), 93);
    assert_eq!(fourth[0].position(), Position { x: 32, y: 2 });
    assert!(!fourth[1].is_alive());
    let first = LevelId::first_level().monsters();
    assert!(first.iter().all(|m| matches!(m.state, MonsterState::Dead)));
}

#[test]
fn path_index_wraps_after_last_entry() {
    let mut idx = MonsterPathIndex::start();
    for _ in 0..127 {
        idx = idx.next();
    }
    let mut bytes = blank_level_bytes();
    bytes[254] = 9;
    let level = Level::from_bytes(&bytes).unwrap();
    assert_eq!(level.path().index(idx), Position { x: 9, y: 0 });
    let wrapped = idx.next();
    bytes[0] = 4;
    let level = Level::from_bytes(&bytes).unwrap();
    assert_eq!(level.path().index(wrapped), Position { x: 4, y: 0 });
}

#[test]
fn levels_need_one_level_per_number() {
    let level = Level::from_bytes(&blank_level_bytes()).unwrap();
    assert!(Levels::new(vec![level; 9]).is_none());
    assert!(Levels::new(vec![level; 11]).is_none());
    let levels = Levels::new(vec![level; 10]).unwrap();
    assert_eq!(levels.index(LevelId::new(9).unwrap()).tiles()[0].value(), 0);
}
