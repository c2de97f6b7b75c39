//! Pokémon Crystal on the Virtual Console.

pub mod hook;
pub mod reader;
