//! The order of coordinates: that of the numbers they hold.
use vstd::prelude::*;
use core::cmp::Ordering;
use crate::local::room_coordinate::RoomCoordinate;

verus! {

impl PartialOrd for RoomCoordinate {
    fn partial_cmp(&self, other: &RoomCoordinate) -> (r: Option<Ordering>) {
        let a: u8 = self.u8();
        let b: u8 = other.u8();
        if a < b {
            Some(Ordering::Less)
        } else if a == b {
            Some(Ordering::Equal)
        } else {
            Some(Ordering::Greater)
        }
    }
}

impl vstd::std_specs::cmp::PartialOrdSpecImpl for RoomCoordinate {
    open spec fn obeys_partial_cmp_spec() -> bool {
        true
    }

    open spec fn partial_cmp_spec(&self, other: &RoomCoordinate) -> Option<Ordering> {
        if self@ < other@ {
            Some(Ordering::Less)
        } else if self@ == other@ {
            Some(Ordering::Equal)
        } else {
            Some(Ordering::Greater)
        }
    }
}

} // verus!
