use game_core::{MovementSystem, PassableTiles, Position, PLAYER_SPEED};

fn center_only_grid() -> PassableTiles {
    // 3x3 grid, only cell (row 1, col 1) walkable
    PassableTiles {
        tile_matrix: vec![
            vec![false, false, false],
            vec![false, true, false],
            vec![false, false, false],
        ],
    }
}

#[test]
fn speed_constant_is_five() {
    assert_eq!(PLAYER_SPEED, 5);
}

#[test]
fn move_landing_on_walkable_center_commits() {
    let grid = center_only_grid();
    let mut system = MovementSystem;
    let mut pos = Position { x: 40, y: 40 };
    system.run(Some(&grid), &mut pos, 1, 0);
    assert_eq!(pos, Position { x: 45, y: 40 });
}

#[test]
fn move_landing_on_blocked_origin_rejects() {
    let grid = center_only_grid();
    let mut system = MovementSystem;
    let mut pos = Position { x: 40, y: 40 };
    // goal (30, 30) lies in cell (0, 0), which is blocked
    system.run(Some(&grid), &mut pos, -2, -2);
    assert_eq!(pos, Position { x: 40, y: 40 });
}

#[test]
fn move_landing_on_blocked_far_corner_rejects() {
    let grid = center_only_grid();
    let mut system = MovementSystem;
    let mut pos = Position { x: 65, y: 65 };
    // goal (70, 70) lies in cell (2, 2), which is blocked
    system.run(Some(&grid), &mut pos, 1, 1);
    assert_eq!(pos, Position { x: 65, y: 65 });
}

#[test]
fn move_landing_outside_grid_rejects() {
    let grid = center_only_grid();
    let mut system = MovementSystem;
    let mut pos = Position { x: 92, y: 40 };
    // goal (97, 40) lies in column 3, beyond the 3x3 grid
    system.run(Some(&grid), &mut pos, 1, 0);
    assert_eq!(pos, Position { x: 92, y: 40 });
}

#[test]
fn move_to_negative_coordinate_rejects() {
    let grid = center_only_grid();
    let mut system = MovementSystem;
    let mut pos = Position { x: 2, y: 40 };
    system.run(Some(&grid), &mut pos, -1, 0);
    assert_eq!(pos, Position { x: 2, y: 40 });
}

#[test]
fn scenario_same_cell_walkable_commits() {
    // tile_size 32, player at (64, 64) = tile (2, 2), input ax=1 ay=0,
    // speed 5: goal (69, 64) still lies in tile (2, 2)
    let grid = PassableTiles {
        tile_matrix: vec![
            vec![false, false, false],
            vec![false, false, false],
            vec![false, false, true],
        ],
    };
    let mut system = MovementSystem;
    let mut pos = Position { x: 64, y: 64 };
    system.run(Some(&grid), &mut pos, 1, 0);
    assert_eq!(pos, Position { x: 69, y: 64 });
}

#[test]
fn scenario_same_cell_blocked_rejects() {
    let grid = PassableTiles {
        tile_matrix: vec![
            vec![true, true, true],
            vec![true, true, true],
            vec![true, true, false],
        ],
    };
    let mut system = MovementSystem;
    let mut pos = Position { x: 64, y: 64 };
    system.run(Some(&grid), &mut pos, 1, 0);
    assert_eq!(pos, Position { x: 64, y: 64 });
}

#[test]
fn zero_axes_never_move() {
    let grids = [center_only_grid(), PassableTiles { tile_matrix: vec![] }];
    for grid in &grids {
        let mut system = MovementSystem;
        let mut pos = Position { x: 40, y: 40 };
        for _ in 0..10 {
            system.run(Some(grid), &mut pos, 0, 0);
            assert_eq!(pos, Position { x: 40, y: 40 });
        }
    }
}

#[test]
fn absent_grid_is_a_noop() {
    let mut system = MovementSystem;
    let mut pos = Position { x: 40, y: 40 };
    system.run(None, &mut pos, 1, 1);
    assert_eq!(pos, Position { x: 40, y: 40 });
}
