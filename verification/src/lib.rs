use vstd::prelude::*;

pub mod animation;
pub mod grid;
pub mod movement;
pub mod tilemap;

pub use animation::AAnimation;
pub use animation::Frame;
pub use grid::PassableTiles;
pub use movement::MovementSystem;
pub use movement::Player;
pub use movement::Position;
pub use movement::PLAYER_SPEED;
pub use tilemap::map_static_tiles;
pub use tilemap::sprite_coords;
pub use tilemap::MapError;
pub use tilemap::StaticTile;
pub use tilemap::EMPTY_TILE_ID;
pub use tilemap::FLOOR_TILE_ID;
pub use tilemap::SKIP_TILE_ID;

verus! {

/// Side length of one square tile, in world units.
pub const TILE_SIZE: u64 = 32;

} // verus!
