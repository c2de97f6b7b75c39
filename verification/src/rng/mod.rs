//! The random number generators of the games, and the trackers that follow them.

pub mod mt;

pub mod tinymt;
pub mod gen6;
pub mod gen2;
