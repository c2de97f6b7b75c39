//! Game-state tracking for the Pokémon RNG reader: the random number
//! generators that the games run, the frame counters kept beside them, the
//! command stream that drives input redirection, and the small state machines
//! behind the overlay's views and notifications.

pub mod bytes;
pub mod command_handler;
pub mod frame_pause;
pub mod game;
pub mod notification;
pub mod reader;
pub mod rng;
pub mod views;
