//! The rules of a small platformer: where the floor and platforms lie, how the
//! player moves, jumps and falls each frame, which way it faces, and which sprite
//! tile shows it. Lengths are integers in micro-pixels and times in microseconds,
//! so every rule is exact.
use vstd::prelude::*;

pub mod animation;
pub mod direction;
pub mod jump;
pub mod layout;
pub mod motion;
pub mod platform;
pub mod sprite;
