//! Core logic of a terminal snake game: a fixed-size character grid, a snake
//! that advances one cell per tick, randomly placed food, collision detection,
//! and rendering of each frame into a byte buffer. All terminal I/O (raw mode,
//! key polling, writing the frame) lives outside this crate; the functions
//! here work on plain values and carry contracts.

pub mod direction;
pub mod grid;
pub mod rng;
pub mod snake;
pub mod food;
pub mod render;
pub mod game;
