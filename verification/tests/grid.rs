use game_core::PassableTiles;

#[test]
fn walkable_lookup_by_world_point() {
    let grid = PassableTiles {
        tile_matrix: vec![
            vec![false, false, false],
            vec![false, true, false],
            vec![false, false, false],
        ],
    };
    // points inside cell (1, 1), which spans 32..=63 on both axes
    assert!(grid.walkable_at(32, 32));
    assert!(grid.walkable_at(40, 40));
    assert!(grid.walkable_at(63, 63));
    // neighbouring points just over the cell border
    assert!(!grid.walkable_at(31, 32));
    assert!(!grid.walkable_at(32, 64));
    // blocked cells
    assert!(!grid.walkable_at(0, 0));
    assert!(!grid.walkable_at(70, 70));
}

#[test]
fn points_off_the_grid_are_not_walkable() {
    let grid = PassableTiles { tile_matrix: vec![vec![true]] };
    assert!(grid.walkable_at(0, 0));
    assert!(!grid.walkable_at(-1, 0));
    assert!(!grid.walkable_at(0, -1));
    assert!(!grid.walkable_at(32, 0));
    assert!(!grid.walkable_at(0, 32));
    assert!(!grid.walkable_at(i64::MAX, 0));
    assert!(!grid.walkable_at(i64::MIN, i64::MIN));
}

#[test]
fn ragged_rows_are_looked_up_safely() {
    let grid = PassableTiles { tile_matrix: vec![vec![true, true], vec![true]] };
    assert!(grid.walkable_at(33, 0));
    assert!(!grid.walkable_at(33, 33));
}
