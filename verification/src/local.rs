//! Positions inside one room, as opposed to positions in the world.

pub mod coordinate_order;
pub mod room_coordinate;
pub mod text;
pub mod wire;
