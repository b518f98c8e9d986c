//! The two shapes in which a cell travels: a readable record of two named
//! numbers, and one 16-bit integer with `x` in the high byte and `y` in the
//! low byte. The caller says which shape is in use; nothing here guesses it
//! from the data.
use vstd::prelude::*;
use crate::local::room_coordinate::{checked_xy_spec, xy_result_view, OutOfBoundsError, RoomXY};

verus! {

/// The readable shape: two named numbers, not yet checked against the room.
#[derive(Debug, Clone, Copy, PartialEq, Eq, Structural)]
pub struct ReadableXY {
    pub x: u8,
    pub y: u8,
}

/// A cell on the wire, in one of its two shapes.
#[derive(Debug, Clone, Copy, PartialEq, Eq, Structural)]
pub enum WireXY {
    Readable(ReadableXY),
    Packed(u16),
}

/// The packed shape of a pair: `x` in bits 15 to 8, `y` in bits 7 to 0.
pub open spec fn packed_spec(xy: (int, int)) -> u16 {
    ((xy.0 as u16) << 8) | (xy.1 as u16)
}

/// Bits 15 to 8 of a packed value.
pub open spec fn high_byte(packed: u16) -> u8 {
    ((packed >> 8) & 0xFF) as u8
}

/// Bits 7 to 0 of a packed value.
pub open spec fn low_byte(packed: u16) -> u8 {
    (packed & 0xFF) as u8
}

/// What decoding makes of a packed value: checked construction on its two
/// bytes.
pub open spec fn unpacked_spec(packed: u16) -> Result<(int, int), OutOfBoundsError> {
    checked_xy_spec(high_byte(packed), low_byte(packed))
}

/// The readable shape of a pair.
pub open spec fn readable_spec(xy: (int, int)) -> ReadableXY {
    ReadableXY { x: xy.0 as u8, y: xy.1 as u8 }
}

/// What decoding makes of a readable record: checked construction on its
/// two fields.
pub open spec fn unreadable_spec(rec: ReadableXY) -> Result<(int, int), OutOfBoundsError> {
    checked_xy_spec(rec.x, rec.y)
}

/// The wire value of a pair under a given mode.
pub open spec fn wire_spec(xy: (int, int), human_readable: bool) -> WireXY {
    if human_readable {
        WireXY::Readable(readable_spec(xy))
    } else {
        WireXY::Packed(packed_spec(xy))
    }
}

/// What decoding makes of a wire value, by its shape.
pub open spec fn unwire_spec(wire: WireXY) -> Result<(int, int), OutOfBoundsError> {
    match wire {
        WireXY::Readable(rec) => unreadable_spec(rec),
        WireXY::Packed(packed) => unpacked_spec(packed),
    }
}

/// The packed layout in plain arithmetic: the high byte counts 256s.
pub proof fn lemma_packed_is_positional(x: u8, y: u8)
    ensures
        packed_spec((x as int, y as int)) == x * 256 + y,
        high_byte(packed_spec((x as int, y as int))) == x,
        low_byte(packed_spec((x as int, y as int))) == y,
{
    let p: u16 = ((x as u16) << 8) | (y as u16);
    assert(p == x * 256 + y) by (bit_vector)
        requires
            p == ((x as u16) << 8) | (y as u16),
    ;
    assert(((p >> 8) & 0xFF) as u8 == x && (p & 0xFF) as u8 == y) by (bit_vector)
        requires
            p == ((x as u16) << 8) | (y as u16),
    ;
}

/// Every packed value is made of its two bytes, whether or not they name a
/// cell.
pub proof fn lemma_bytes_make_packed(packed: u16)
    ensures
        packed == high_byte(packed) * 256 + low_byte(packed),
        packed_spec((high_byte(packed) as int, low_byte(packed) as int)) == packed,
{
    let hi: u8 = ((packed >> 8) & 0xFF) as u8;
    let lo: u8 = (packed & 0xFF) as u8;
    assert(packed == hi * 256 + lo && ((hi as u16) << 8) | (lo as u16) == packed) by (bit_vector)
        requires
            hi == ((packed >> 8) & 0xFF) as u8,
            lo == (packed & 0xFF) as u8,
    ;
}

impl RoomXY {
    /// The packed shape of this cell.
    #[must_use]
    pub fn encode_compact(self) -> (packed: u16)
        ensures
            packed == packed_spec(self@),
            high_byte(packed) == self.x@,
            low_byte(packed) == self.y@,
    {
        let x: u8 = self.x.u8();
        let y: u8 = self.y.u8();
        proof {
            lemma_packed_is_positional(x, y);
        }
        ((x as u16) << 8) | (y as u16)
    }

    /// The cell that a packed value names. It fails exactly when one of the
    /// two bytes lies outside the room, with the first such byte in the
    /// error, the high byte before the low one.
    pub fn decode_compact(packed: u16) -> (r: Result<RoomXY, OutOfBoundsError>)
        ensures
            xy_result_view(r) == unpacked_spec(packed),
            r matches Ok(cell) ==> cell.wf(),
    {
        let hi: u16 = (packed >> 8) & 0xFF;
        let lo: u16 = packed & 0xFF;
        assert(hi < 256 && lo < 256) by (bit_vector)
            requires
                hi == (packed >> 8) & 0xFF,
                lo == packed & 0xFF,
        ;
        RoomXY::try_from((hi as u8, lo as u8))
    }

    /// The readable shape of this cell.
    #[must_use]
    pub fn encode_readable(self) -> (rec: ReadableXY)
        ensures
            rec == readable_spec(self@),
            rec.x == self.x@,
            rec.y == self.y@,
    {
        ReadableXY { x: self.x.u8(), y: self.y.u8() }
    }

    /// The cell that a readable record names. Each field is checked on its
    /// own; it fails exactly when one of them lies outside the room, with
    /// the first such field's value in the error, `x` before `y`.
    pub fn decode_readable(rec: ReadableXY) -> (r: Result<RoomXY, OutOfBoundsError>)
        ensures
            xy_result_view(r) == unreadable_spec(rec),
            r matches Ok(cell) ==> cell.wf(),
    {
        RoomXY::try_from((rec.x, rec.y))
    }

    /// The wire value of this cell: the readable record where the target
    /// format is meant for people, the packed integer where it is not.
    pub fn serialize(&self, human_readable: bool) -> (wire: WireXY)
        ensures
            wire == wire_spec(self@, human_readable),
            human_readable <==> wire is Readable,
    {
        if human_readable {
            WireXY::Readable(self.encode_readable())
        } else {
            WireXY::Packed(self.encode_compact())
        }
    }

    /// The cell that a wire value names, decoded by the shape it came in.
    pub fn deserialize(wire: WireXY) -> (r: Result<RoomXY, OutOfBoundsError>)
        ensures
            xy_result_view(r) == unwire_spec(wire),
            r matches Ok(cell) ==> cell.wf(),
    {
        match wire {
            WireXY::Readable(rec) => RoomXY::decode_readable(rec),
            WireXY::Packed(packed) => RoomXY::decode_compact(packed),
        }
    }
}

/// Packing a cell and unpacking the result gives the cell again.
pub proof fn lemma_compact_round_trip(xy: RoomXY)
    requires
        xy.wf(),
    ensures
        unpacked_spec(packed_spec(xy@)) == Ok::<(int, int), OutOfBoundsError>(xy@),
{
    lemma_packed_is_positional(xy.x@ as u8, xy.y@ as u8);
}

/// Writing a cell as a readable record and reading the record gives the
/// cell again.
pub proof fn lemma_readable_round_trip(xy: RoomXY)
    requires
        xy.wf(),
    ensures
        unreadable_spec(readable_spec(xy@)) == Ok::<(int, int), OutOfBoundsError>(xy@),
{
}

/// Under either mode, decoding what was encoded gives the cell again.
pub proof fn lemma_wire_round_trip(xy: RoomXY, human_readable: bool)
    requires
        xy.wf(),
    ensures
        unwire_spec(wire_spec(xy@, human_readable)) == Ok::<(int, int), OutOfBoundsError>(xy@),
{
    lemma_compact_round_trip(xy);
    lemma_readable_round_trip(xy);
}

/// Decoding accepts nothing but encodings: a wire value that decodes to a
/// pair is what that pair encodes to in the same shape.
pub proof fn lemma_decoded_wire_is_encoding(wire: WireXY)
    requires
        unwire_spec(wire) is Ok,
    ensures
        wire_spec(unwire_spec(wire)->Ok_0, wire is Readable) == wire,
{
    match wire {
        WireXY::Readable(rec) => {},
        WireXY::Packed(packed) => {
            lemma_bytes_make_packed(packed);
        },
    }
}

} // verus!
