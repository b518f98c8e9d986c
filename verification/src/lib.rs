//! A bounded coordinate model for a square room grid, together with the
//! closed-form progression formulas that depend on the same constants.

pub mod constants;
pub mod local;

pub use crate::constants::math::power_for_gpl;
pub use crate::constants::{POWER_LEVEL_MULTIPLY, POWER_LEVEL_POW, ROOM_SIZE};
pub use crate::local::room_coordinate::{
    linear_index_to_xy, xy_to_linear_index, OutOfBoundsError, RoomCoordinate, RoomXY, ROOM_AREA,
};
pub use crate::local::wire::{ReadableXY, WireXY};
