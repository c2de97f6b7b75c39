//! The overlay's views: which of them show, and the slots they show.

pub mod gen2;
pub mod gen7;
