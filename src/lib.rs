//! Grid occupancy, coordinate transforms and card-action targeting for a
//! small tactical dice board game.

pub mod coords;
mod random;
pub mod tile_map;
pub mod grid;
pub mod die;
pub mod action;
pub mod card_effect;
pub mod piece;
pub mod pile;
pub mod observer;
pub mod level;
