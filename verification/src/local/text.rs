//! How coordinates, cells and the out-of-bounds error read as text.
use vstd::prelude::*;
use vstd::string::StringExecFns;
use crate::local::room_coordinate::{OutOfBoundsError, RoomCoordinate, RoomXY};

verus! {

/// The character of one decimal digit.
pub open spec fn digit_char(d: int) -> char {
    if d == 0 {
        '0'
    } else if d == 1 {
        '1'
    } else if d == 2 {
        '2'
    } else if d == 3 {
        '3'
    } else if d == 4 {
        '4'
    } else if d == 5 {
        '5'
    } else if d == 6 {
        '6'
    } else if d == 7 {
        '7'
    } else if d == 8 {
        '8'
    } else {
        '9'
    }
}

/// The decimal numeral of a number: most significant digit first, no
/// leading zero, and `"0"` for zero.
pub open spec fn decimal_spec(n: nat) -> Seq<char>
    decreases n,
{
    if n < 10 {
        seq![digit_char(n as int)]
    } else {
        decimal_spec(n / 10).push(digit_char((n % 10) as int))
    }
}

/// The text of the out-of-bounds error for a rejected value.
pub open spec fn out_of_bounds_text(value: u8) -> Seq<char> {
    "Out of bounds coordinate: "@ + decimal_spec(value as nat)
}

/// The text of a cell: its two numbers in round brackets.
pub open spec fn xy_text(xy: (int, int)) -> Seq<char> {
    "("@ + decimal_spec(xy.0 as nat) + ", "@ + decimal_spec(xy.1 as nat) + ")"@
}

fn digit_str(d: u8) -> (s: &'static str)
    requires
        d < 10,
    ensures
        s@ == seq![digit_char(d as int)],
{
    proof {
        reveal_strlit("0");
        reveal_strlit("1");
        reveal_strlit("2");
        reveal_strlit("3");
        reveal_strlit("4");
        reveal_strlit("5");
        reveal_strlit("6");
        reveal_strlit("7");
        reveal_strlit("8");
        reveal_strlit("9");
    }
    let s = match d {
        0 => "0",
        1 => "1",
        2 => "2",
        3 => "3",
        4 => "4",
        5 => "5",
        6 => "6",
        7 => "7",
        8 => "8",
        _ => "9",
    };
    assert(s@ =~= seq![digit_char(d as int)]);
    s
}

/// Appends the decimal numeral of `value` to `out`.
fn push_decimal(out: &mut String, value: u8)
    ensures
        final(out)@ == old(out)@ + decimal_spec(value as nat),
{
    proof {
        reveal_with_fuel(decimal_spec, 3);
    }
    if value >= 100 {
        out.append(digit_str(value / 100));
    }
    if value >= 10 {
        out.append(digit_str((value / 10) % 10));
    }
    out.append(digit_str(value % 10));
    assert(out@ =~= old(out)@ + decimal_spec(value as nat));
}

impl OutOfBoundsError {
    /// The message of this error, which names the rejected value.
    pub fn to_string(&self) -> (s: String)
        ensures
            s@ == out_of_bounds_text(self.0),
    {
        let mut s = String::from_str("Out of bounds coordinate: ");
        push_decimal(&mut s, self.0);
        s
    }
}

impl RoomCoordinate {
    /// The decimal numeral of this coordinate.
    pub fn to_string(&self) -> (s: String)
        ensures
            s@ == decimal_spec(self@ as nat),
    {
        let mut s = String::new();
        push_decimal(&mut s, self.u8());
        assert(s@ =~= decimal_spec(self@ as nat));
        s
    }
}

impl RoomXY {
    /// This cell as text: `(x, y)`.
    pub fn to_string(&self) -> (s: String)
        ensures
            s@ == xy_text(self@),
    {
        let mut s = String::from_str("(");
        push_decimal(&mut s, self.x.u8());
        s.append(", ");
        push_decimal(&mut s, self.y.u8());
        s.append(")");
        s
    }
}

} // verus!
