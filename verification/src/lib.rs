pub mod chance;
pub mod game;
pub mod geometry;
pub mod input;
pub mod piece;
pub mod rotation;
pub mod rows;
pub mod tetrimino;
pub mod tile;
