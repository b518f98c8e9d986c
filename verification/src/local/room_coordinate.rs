//! A single axis value inside a room, a cell made of two of them, and the
//! flat row-major index of a cell.
use vstd::prelude::*;
use crate::constants::ROOM_SIZE;

verus! {

/// Number of cells in a room.
pub const ROOM_AREA: usize = 2500;

/// A room is a square of side `ROOM_SIZE`.
pub proof fn lemma_room_area_is_square()
    ensures
        ROOM_AREA == ROOM_SIZE * ROOM_SIZE,
{
}

/// The one error of this module: a raw value that lies outside `0..ROOM_SIZE`.
/// It carries the rejected value.
#[derive(Debug, Clone, Copy, PartialEq, Eq, Structural)]
pub struct OutOfBoundsError(pub u8);

/// One axis of a position in a room. Every value of this type lies in
/// `0..ROOM_SIZE`.
#[derive(Debug, Hash, Clone, Copy, PartialEq, Eq, Structural, Ord)]
pub struct RoomCoordinate(u8);

impl View for RoomCoordinate {
    type V = int;

    closed spec fn view(&self) -> int {
        self.0 as int
    }
}

impl RoomCoordinate {
    /// The bound that every coordinate obeys.
    pub open spec fn wf(&self) -> bool {
        0 <= self@ < ROOM_SIZE
    }

    #[verifier::type_invariant]
    spec fn in_room(&self) -> bool {
        self.0 < ROOM_SIZE
    }

    /// A coordinate is its number and nothing else.
    pub proof fn lemma_view_injective(a: RoomCoordinate, b: RoomCoordinate)
        ensures
            a@ == b@ <==> a == b,
            0 <= a@ < 256,
    {
    }

    /// Checked construction: succeeds exactly on `0..ROOM_SIZE`, and otherwise
    /// hands the rejected value back inside the error.
    pub fn new(coord: u8) -> (r: Result<Self, OutOfBoundsError>)
        ensures
            coord < ROOM_SIZE ==> (r matches Ok(c) && c@ == coord && c.wf()),
            coord >= ROOM_SIZE ==> r == Err::<Self, OutOfBoundsError>(OutOfBoundsError(coord)),
    {
        if coord < ROOM_SIZE {
            Ok(RoomCoordinate(coord))
        } else {
            Err(OutOfBoundsError(coord))
        }
    }

    /// Construction for callers that already know the value to be in range.
    #[must_use]
    pub fn unchecked_new(coord: u8) -> (c: Self)
        requires
            coord < ROOM_SIZE,
        ensures
            c@ == coord,
            c.wf(),
    {
        RoomCoordinate(coord)
    }

    /// The number that this coordinate holds.
    #[must_use]
    pub fn u8(self) -> (v: u8)
        ensures
            v == self@,
            v < ROOM_SIZE,
            self.wf(),
    {
        proof {
            use_type_invariant(&self);
        }
        self.0
    }
}

impl Default for RoomCoordinate {
    /// The first coordinate of an axis.
    fn default() -> (c: Self)
        ensures
            c@ == 0,
            c.wf(),
    {
        RoomCoordinate(0)
    }
}

/// A cell of a room: `x` is the major axis of the flat index, `y` the minor.
#[derive(Debug, Hash, Clone, Copy, PartialEq, Eq, Structural)]
pub struct RoomXY {
    pub x: RoomCoordinate,
    pub y: RoomCoordinate,
}

impl View for RoomXY {
    type V = (int, int);

    open spec fn view(&self) -> (int, int) {
        (self.x@, self.y@)
    }
}

impl RoomXY {
    /// Both axes obey the coordinate bound.
    pub open spec fn wf(&self) -> bool {
        self.x.wf() && self.y.wf()
    }

    /// A cell is its pair of numbers and nothing else.
    pub proof fn lemma_view_injective(a: RoomXY, b: RoomXY)
        ensures
            a@ == b@ <==> a == b,
    {
        RoomCoordinate::lemma_view_injective(a.x, b.x);
        RoomCoordinate::lemma_view_injective(a.y, b.y);
    }

    /// Construction for callers that already know both values to be in range.
    #[must_use]
    pub fn unchecked_new(x: u8, y: u8) -> (xy: Self)
        requires
            x < ROOM_SIZE,
            y < ROOM_SIZE,
        ensures
            xy@ == (x as int, y as int),
            xy.wf(),
    {
        RoomXY { x: RoomCoordinate::unchecked_new(x), y: RoomCoordinate::unchecked_new(y) }
    }
}

impl Default for RoomXY {
    /// The cell at the origin of the room.
    fn default() -> (xy: Self)
        ensures
            xy@ == (0int, 0int),
            xy.wf(),
    {
        RoomXY { x: RoomCoordinate::default(), y: RoomCoordinate::default() }
    }
}

/// The flat index of a cell given by its two numbers: `x` counts whole rows
/// of `ROOM_SIZE` cells, `y` the place inside the row.
pub open spec fn linear_index_spec(xy: (int, int)) -> int {
    xy.0 * ROOM_SIZE + xy.1
}

/// The two numbers of the cell at a flat index: quotient and remainder by
/// `ROOM_SIZE`.
pub open spec fn xy_of_linear_index_spec(idx: int) -> (int, int) {
    (idx / (ROOM_SIZE as int), idx % (ROOM_SIZE as int))
}

/// The flat index of a cell. Total: every cell has one, below `ROOM_AREA`.
#[inline]
#[must_use]
pub fn xy_to_linear_index(xy: RoomXY) -> (idx: usize)
    ensures
        idx == linear_index_spec(xy@),
        idx < ROOM_AREA,
{
    let x: u8 = xy.x.u8();
    let y: u8 = xy.y.u8();
    let size: usize = ROOM_SIZE as usize;
    let row: usize = (x as usize) * size;
    row + (y as usize)
}

/// The cell at a flat index. An index of `ROOM_AREA` or more names no cell
/// and is the caller's mistake.
#[inline]
#[must_use]
pub fn linear_index_to_xy(idx: usize) -> (xy: RoomXY)
    requires
        idx < ROOM_AREA,
    ensures
        xy@ == xy_of_linear_index_spec(idx as int),
        xy.wf(),
{
    let size: usize = ROOM_SIZE as usize;
    let x: usize = idx / size;
    let y: usize = idx % size;
    RoomXY { x: RoomCoordinate::unchecked_new(x as u8), y: RoomCoordinate::unchecked_new(y as u8) }
}

/// Going from a cell to its index and back gives the cell again, and the
/// index lies below `ROOM_AREA`.
pub proof fn lemma_xy_index_round_trip(xy: RoomXY)
    requires
        xy.wf(),
    ensures
        0 <= linear_index_spec(xy@) < ROOM_AREA,
        xy_of_linear_index_spec(linear_index_spec(xy@)) == xy@,
{
}

/// Going from an index below `ROOM_AREA` to its cell and back gives the
/// index again, and both numbers of the cell lie in `0..ROOM_SIZE`.
pub proof fn lemma_index_xy_round_trip(idx: int)
    requires
        0 <= idx < ROOM_AREA,
    ensures
        0 <= xy_of_linear_index_spec(idx).0 < ROOM_SIZE,
        0 <= xy_of_linear_index_spec(idx).1 < ROOM_SIZE,
        linear_index_spec(xy_of_linear_index_spec(idx)) == idx,
{
}

/// The first of two raw values that lies outside the room, if either does:
/// `x` is looked at before `y`.
pub open spec fn first_out_of_bounds(x: u8, y: u8) -> Option<u8> {
    if x >= ROOM_SIZE {
        Some(x)
    } else if y >= ROOM_SIZE {
        Some(y)
    } else {
        None
    }
}

/// What checked construction makes of two raw values: the pair itself when
/// both lie inside the room, else the error that holds the first one that
/// does not.
pub open spec fn checked_xy_spec(x: u8, y: u8) -> Result<(int, int), OutOfBoundsError> {
    match first_out_of_bounds(x, y) {
        None => Ok((x as int, y as int)),
        Some(v) => Err(OutOfBoundsError(v)),
    }
}

/// The outcome of building a cell, with the cell taken by its two numbers.
pub open spec fn xy_result_view(r: Result<RoomXY, OutOfBoundsError>) -> Result<
    (int, int),
    OutOfBoundsError,
> {
    match r {
        Ok(xy) => Ok(xy@),
        Err(e) => Err(e),
    }
}

impl From<RoomCoordinate> for u8 {
    fn from(coord: RoomCoordinate) -> (v: u8) {
        coord.0
    }
}

impl vstd::std_specs::convert::FromSpecImpl<RoomCoordinate> for u8 {
    open spec fn obeys_from_spec() -> bool {
        true
    }

    open spec fn from_spec(coord: RoomCoordinate) -> u8 {
        coord@ as u8
    }
}

impl TryFrom<u8> for RoomCoordinate {
    type Error = OutOfBoundsError;

    fn try_from(coord: u8) -> (r: Result<Self, OutOfBoundsError>)
        ensures
            coord < ROOM_SIZE ==> (r matches Ok(c) && c@ == coord && c.wf()),
            coord >= ROOM_SIZE ==> r == Err::<Self, OutOfBoundsError>(OutOfBoundsError(coord)),
    {
        RoomCoordinate::new(coord)
    }
}

impl vstd::std_specs::convert::TryFromSpecImpl<u8> for RoomCoordinate {
    open spec fn obeys_try_from_spec() -> bool {
        true
    }

    closed spec fn try_from_spec(coord: u8) -> Result<Self, OutOfBoundsError> {
        if coord < ROOM_SIZE {
            Ok(RoomCoordinate(coord))
        } else {
            Err(OutOfBoundsError(coord))
        }
    }
}

impl From<RoomXY> for (u8, u8) {
    fn from(xy: RoomXY) -> (pair: (u8, u8)) {
        (xy.x.0, xy.y.0)
    }
}

impl vstd::std_specs::convert::FromSpecImpl<RoomXY> for (u8, u8) {
    open spec fn obeys_from_spec() -> bool {
        true
    }

    open spec fn from_spec(xy: RoomXY) -> (u8, u8) {
        (xy.x@ as u8, xy.y@ as u8)
    }
}

impl TryFrom<(u8, u8)> for RoomXY {
    type Error = OutOfBoundsError;

    /// Checked construction of a cell from two raw values. It fails on the
    /// first value that lies outside the room, `x` before `y`, and on
    /// nothing else.
    fn try_from(xy: (u8, u8)) -> (r: Result<RoomXY, OutOfBoundsError>)
        ensures
            xy_result_view(r) == checked_xy_spec(xy.0, xy.1),
            r matches Ok(cell) ==> cell.wf(),
    {
        let x = match RoomCoordinate::new(xy.0) {
            Ok(x) => x,
            Err(e) => {
                return Err(e);
            },
        };
        let y = match RoomCoordinate::new(xy.1) {
            Ok(y) => y,
            Err(e) => {
                return Err(e);
            },
        };
        Ok(RoomXY { x, y })
    }
}

impl vstd::std_specs::convert::TryFromSpecImpl<(u8, u8)> for RoomXY {
    open spec fn obeys_try_from_spec() -> bool {
        true
    }

    closed spec fn try_from_spec(xy: (u8, u8)) -> Result<Self, OutOfBoundsError> {
        match first_out_of_bounds(xy.0, xy.1) {
            None => Ok(RoomXY { x: RoomCoordinate(xy.0), y: RoomCoordinate(xy.1) }),
            Some(v) => Err(OutOfBoundsError(v)),
        }
    }
}

impl From<(RoomCoordinate, RoomCoordinate)> for RoomXY {
    fn from(xy: (RoomCoordinate, RoomCoordinate)) -> (cell: RoomXY) {
        RoomXY { x: xy.0, y: xy.1 }
    }
}

impl vstd::std_specs::convert::FromSpecImpl<(RoomCoordinate, RoomCoordinate)> for RoomXY {
    open spec fn obeys_from_spec() -> bool {
        true
    }

    open spec fn from_spec(xy: (RoomCoordinate, RoomCoordinate)) -> RoomXY {
        RoomXY { x: xy.0, y: xy.1 }
    }
}

impl From<RoomXY> for (RoomCoordinate, RoomCoordinate) {
    fn from(xy: RoomXY) -> (pair: (RoomCoordinate, RoomCoordinate)) {
        (xy.x, xy.y)
    }
}

impl vstd::std_specs::convert::FromSpecImpl<RoomXY> for (RoomCoordinate, RoomCoordinate) {
    open spec fn obeys_from_spec() -> bool {
        true
    }

    open spec fn from_spec(xy: RoomXY) -> (RoomCoordinate, RoomCoordinate) {
        (xy.x, xy.y)
    }
}

} // verus!
