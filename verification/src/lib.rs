//! A snake game on a tile grid, with the rules of movement, growth and collision,
//! the mapping of touch input to a heading, the list of squares to paint, and the
//! exchange of head positions with one peer over UDP.

pub mod grid;
pub mod model;
pub mod rules;
pub mod laws;
pub mod game;
pub mod input;
pub mod render;
pub mod packet;
pub mod network;
pub mod ticker;
