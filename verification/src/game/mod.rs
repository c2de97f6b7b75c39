//! The games that the reader supports.

pub mod c;
