use vstd::prelude::*;
use vstd::string::StringExecFns;
use crate::text::{decimal_text, push_decimal};

verus! {

/// The size of a window's client area, in pixels.
#[derive(PartialEq, Eq, Structural, Clone, Copy, Debug)]
pub struct WindowSize {
    pub width: u16,
    pub height: u16,
}

/// The position of a window on the screen, in pixels.
#[derive(PartialEq, Eq, Structural, Clone, Copy, Debug)]
pub struct WindowPosition {
    pub x: i16,
    pub y: i16,
}

/// A change of a window's state.
#[derive(PartialEq, Eq, Structural, Clone, Copy, Debug)]
pub enum WindowState {
    Close,
    Show,
    Hide,
    SizeChanged(WindowSize),
    PositionChanged(WindowPosition),
}

/// An integer in decimal, with a `-` before a negative one.
pub open spec fn signed_text(v: int) -> Seq<char> {
    if v < 0 {
        "-"@ + decimal_text((-v) as nat)
    } else {
        decimal_text(v as nat)
    }
}

fn push_signed(s: &mut String, v: i16)
    ensures
        final(s)@ == old(s)@ + signed_text(v as int),
{
    if v < 0 {
        s.append("-");
        push_decimal(s, (-(v as i32)) as u64);
        assert(s@ =~= old(s)@ + signed_text(v as int));
    } else {
        push_decimal(s, v as u64);
    }
}

impl WindowSize {
    /// The size as `(width = W, height = H)`.
    pub fn to_text(&self) -> (r: String)
        ensures
            r@ == "(width = "@ + decimal_text(self.width as nat) + ", height = "@ + decimal_text(
                self.height as nat,
            ) + ")"@,
    {
        let mut s = String::from_str("(width = ");
        push_decimal(&mut s, self.width as u64);
        s.append(", height = ");
        push_decimal(&mut s, self.height as u64);
        s.append(")");
        s
    }
}

impl WindowPosition {
    /// The position as `(x = X, y = Y)`.
    pub fn to_text(&self) -> (r: String)
        ensures
            r@ == "(x = "@ + signed_text(self.x as int) + ", y = "@ + signed_text(self.y as int)
                + ")"@,
    {
        let mut s = String::from_str("(x = ");
        push_signed(&mut s, self.x);
        s.append(", y = ");
        push_signed(&mut s, self.y);
        s.append(")");
        s
    }
}

} // verus!
