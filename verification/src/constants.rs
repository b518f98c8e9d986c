//! Fixed numeric parameters of the grid and of the progression formulas.
use vstd::prelude::*;

pub mod math;

verus! {

/// Side length of a room: both axes run over `0..ROOM_SIZE`.
pub const ROOM_SIZE: u8 = 50;

/// Exponent of the processed-power curve.
pub const POWER_LEVEL_POW: u32 = 2;

/// Multiplier of the processed-power curve.
pub const POWER_LEVEL_MULTIPLY: u32 = 1000;

} // verus!
