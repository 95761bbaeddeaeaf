//! Core simulation of a top-down block-pushing puzzle game: tiles that tween
//! toward a target position with backtracking collision rejection, colored
//! "eye" sensors that scan for a matching block along a sight line, player
//! movement with axis-ordered collision resolution and resistance-gated block
//! pushes, a text-grid level decoder, and the menu/level-select/game screen
//! state machine that sequences it all.

use vstd::prelude::*;

pub mod camera;
pub mod eye;
pub mod fire;
pub mod level;
pub mod physics;
pub mod player;
mod rng;
pub mod screens;
pub mod tile;

pub use camera::Camera;
pub use eye::Direction;
pub use eye::Eye;
pub use fire::Fire;
pub use level::Level;
pub use level::decode_level;
pub use physics::handle_collisions;
pub use player::Animation;
pub use player::Bounds;
pub use player::MoveInput;
pub use player::Player;
pub use screens::CreditsState;
pub use screens::GameInput;
pub use screens::GameState;
pub use screens::HelpState;
pub use screens::LevelSelectState;
pub use screens::MenuInput;
pub use screens::Screen;
pub use screens::SoundEffect;
pub use screens::StartMenuState;
pub use screens::Transition;
pub use screens::UpdateOutcome;
pub use tile::Color;
pub use tile::Tile;
pub use tile::TileTexture;
pub use tile::does_intersect;

verus! {

/// Largest magnitude any world coordinate is allowed to take. Keeps every
/// coordinate computation (steps of at most one tile width) far away from
/// `i32` overflow.
pub const COORD_LIMIT: i32 = 1_000_000_000;

/// Largest magnitude the player's per-frame velocity is allowed to take.
pub const VEL_LIMIT: i32 = 1_000_000;

/// A world coordinate small enough that adding a tile width or a movement
/// step can never overflow an `i32`.
pub open spec fn coord_ok(c: int) -> bool {
    -COORD_LIMIT <= c <= COORD_LIMIT
}

} // verus!
