//! Battle simulation and breeding rules of a small herding game.
//!
//! All quantities are fixed-point integers counted in thousandths: positions
//! and ranges in thousandths of a world unit, health and damage in
//! thousandths of a hit point, colours in thousandths of full brightness and
//! time in milliseconds.

pub mod geometry;
pub mod targeting;
pub mod utils;
pub mod battle;
pub mod battle_report;
mod random;
pub mod sheep;
pub mod game;
pub mod animation;
