//! A four-by-four token board with win detection, its seeded random fill,
//! and a refilling milk counter.

pub mod board;
pub mod game;
pub mod laws;
pub mod milk;
pub mod render;
pub mod rules;
pub mod state;
pub mod stream;
pub mod text;
pub mod tile;
