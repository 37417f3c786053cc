use beat_hopper::grid::{note_at, Platform, PlatformGrid, Position, Spawn, TILE_SIZE};

fn stage_grid() -> PlatformGrid {
    PlatformGrid::new(5, 4)
}

#[test]
fn notes_run_along_the_rows_and_wrap() {
    assert_eq!(note_at(0, 0, 5), 0);
    assert_eq!(note_at(4, 0, 5), 4);
    assert_eq!(note_at(0, 1, 5), 5);
    assert_eq!(note_at(4, 3, 5), 19);
    assert_eq!(note_at(0, 4, 5), 0);
    assert_eq!(note_at(2, 3, 6), 0);
    assert_eq!(note_at(3, 2, 7), 17);
    // 4294967295 leaves 15, its square leaves 5
    assert_eq!(note_at(u32::MAX, u32::MAX, u32::MAX), 0);
    assert_eq!(note_at(u32::MAX, 0, 5), 15);
}

#[test]
fn fresh_platform_is_inert_and_unoccupied() {
    let platform = Platform::new(3, 2, 5);
    assert_eq!(platform, Platform { x: 3, y: 2, has_player: false, note: 13, dead: true });
}

#[test]
fn grid_is_dense_and_row_major() {
    let grid = stage_grid();
    assert_eq!(grid.width, 5);
    assert_eq!(grid.height, 4);
    assert_eq!(grid.platforms.len(), 20);
    for y in 0..4u32 {
        for x in 0..5u32 {
            let id = grid.get(x, y).expect("inside the grid");
            assert_eq!(id, (x + y * 5) as usize);
            assert_eq!(grid.platforms[id], Platform::new(x, y, 5));
        }
    }
}

#[test]
fn grid_has_nothing_outside_its_rectangle() {
    let grid = stage_grid();
    assert_eq!(grid.get(5, 0), None);
    assert_eq!(grid.get(0, 4), None);
    assert_eq!(grid.get(u32::MAX, u32::MAX), None);
    assert_eq!(PlatformGrid::empty().get(0, 0), None);
    assert_eq!(PlatformGrid::new(0, 7).platforms.len(), 0);
    assert_eq!(PlatformGrid::new(7, 0).get(0, 0), None);
}

#[test]
fn target_stops_at_the_left_and_lower_edge() {
    let grid = stage_grid();
    let corner = grid.platforms[0];
    assert_eq!(grid.target_platform(corner, -1, 0), None);
    assert_eq!(grid.target_platform(corner, 0, -1), None);
    assert_eq!(grid.target_platform(corner, -1, 1), None);
    assert_eq!(grid.target_platform(corner, 1, -1), None);
    assert_eq!(grid.target_platform(corner, i32::MIN, 0), None);
    let left = grid.platforms[10];
    assert_eq!((left.x, left.y), (0, 2));
    assert_eq!(grid.target_platform(left, -1000, 0), None);
}

#[test]
fn target_stops_at_the_right_and_upper_edge() {
    let grid = stage_grid();
    let corner = grid.platforms[19];
    assert_eq!((corner.x, corner.y), (4, 3));
    assert_eq!(grid.target_platform(corner, 1, 0), None);
    assert_eq!(grid.target_platform(corner, 0, 1), None);
    assert_eq!(grid.target_platform(corner, -1, -1), Some(13));
    let far = Platform { x: u32::MAX, y: u32::MAX, has_player: false, note: 0, dead: false };
    assert_eq!(grid.target_platform(far, 1, 0), None);
    assert_eq!(grid.target_platform(far, 0, 1), None);
}

#[test]
fn target_without_intent_is_the_platform_itself() {
    let grid = stage_grid();
    for id in 0..20 {
        assert_eq!(grid.target_platform(grid.platforms[id], 0, 0), Some(id));
    }
    let stranger = Platform { x: 9, y: 9, has_player: false, note: 0, dead: false };
    assert_eq!(grid.target_platform(stranger, 0, 0), None);
}

#[test]
fn target_steps_one_platform_along_each_axis() {
    let grid = stage_grid();
    let middle = grid.platforms[6];
    assert_eq!((middle.x, middle.y), (1, 1));
    assert_eq!(grid.target_platform(middle, 1, 0), Some(7));
    assert_eq!(grid.target_platform(middle, -1, 0), Some(5));
    assert_eq!(grid.target_platform(middle, 0, 1), Some(11));
    assert_eq!(grid.target_platform(middle, 0, -1), Some(1));
    assert_eq!(grid.target_platform(middle, 1000, -1000), Some(2));
    assert_eq!(grid.target_platform(middle, -7, 3), Some(10));
}

#[test]
fn target_leaves_the_grid_as_it_is() {
    let grid = stage_grid();
    let before = grid.platforms.clone();
    let _ = grid.target_platform(grid.platforms[6], 1, 1);
    assert_eq!(grid.platforms, before);
}

#[test]
fn fresh_grid_is_all_dead() {
    let mut grid = stage_grid();
    assert!(grid.every_platform_dead());
    assert!(PlatformGrid::empty().every_platform_dead());
    let mut raised = grid.platforms[7];
    raised.dead = false;
    grid.put(7, raised);
    assert!(!grid.every_platform_dead());
    assert_eq!(grid.platforms[7], Platform { x: 2, y: 1, has_player: false, note: 7, dead: false });
    assert_eq!(grid.platforms[6], Platform::new(1, 1, 5));
}

#[test]
fn platforms_are_found_by_their_note() {
    let small = stage_grid();
    assert_eq!(small.platforms_with_note(7), vec![7]);
    assert_eq!(small.platforms_with_note(20), Vec::<usize>::new());
    let large = PlatformGrid::new(6, 5);
    assert_eq!(large.platforms_with_note(0), vec![0, 20]);
    assert_eq!(large.platforms_with_note(9), vec![9, 29]);
    assert_eq!(large.platforms_with_note(10), vec![10]);
}

#[test]
fn spawns_follow_the_notes_then_the_table() {
    let large = PlatformGrid::new(6, 5);
    assert_eq!(
        large.spawns_for(&vec![9, 10, 0]),
        vec![
            Spawn { platform: 9, note: 9 },
            Spawn { platform: 29, note: 9 },
            Spawn { platform: 10, note: 10 },
            Spawn { platform: 0, note: 0 },
            Spawn { platform: 20, note: 0 },
        ]
    );
    assert_eq!(large.spawns_for(&vec![]), vec![]);
    assert_eq!(large.spawns_for(&vec![25]), vec![]);
    assert_eq!(
        large.spawns_for(&vec![10, 10]),
        vec![Spawn { platform: 10, note: 10 }, Spawn { platform: 10, note: 10 }]
    );
}

#[test]
fn anchors_lie_a_tile_apart() {
    assert_eq!(TILE_SIZE, 32);
    assert_eq!(Platform::new(0, 0, 5).anchor(), Position { x: 0, y: 0, z: 0 });
    assert_eq!(Platform::new(2, 3, 5).anchor(), Position { x: 64_000, y: 48_000, z: -300 });
    assert_eq!(Platform::new(1, 1, 5).anchor(), Position { x: 32_000, y: 16_000, z: -100 });
}
