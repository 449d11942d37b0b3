//! Simulation core of a two-player terminal tank game: tank movement with
//! collision avoidance, turning, and the lifecycle of bullets.

mod bullet;
mod color;
mod direction;
mod game;
mod game_state;
mod tank;
mod viewport;

pub use bullet::{advance_bullets, advanced, lemma_edge_bullet_is_swept, sweep_bullets, Bullet};
pub use color::Color;
pub use direction::Direction;
pub use game::Game;
pub use game_state::{
    after_update, all_placeable, attempt_move, clear_of_others, lemma_separated_boxes_disjoint,
    lemma_turn_then_move, no_overlap, overlaps, separated, GameState, Update,
};
pub use tank::{grapheme_count_of, Tank, TankPicture, TANK_DOWN, TANK_LEFT, TANK_RIGHT, TANK_UP};
pub use viewport::Viewport;

use vstd::prelude::*;

verus! {

/// A cell of the grid: (column, row).
pub type Position = (u16, u16);

/// An axis-aligned box given by its top-left and bottom-right corners.
pub type Boundary = (Position, Position);

} // verus!
