//! Board and tile model of a grid-based tactical game: the map layout, the
//! gameplay state of each cell, and what each cell looks like when drawn.

pub mod board;
pub mod tile;
