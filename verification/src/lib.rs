//! Deterministic game-state core of a single-player grid game that is driven
//! by a fixed-rate timer and a keyboard.

pub mod dir;
pub mod position;
pub mod cell;
pub mod key;
pub mod food;
pub mod snake;
pub mod start;
pub mod board;
pub mod text;
pub mod model;
pub mod game;
pub mod laws;
pub mod display;
