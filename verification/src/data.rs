//! Plain geometric data: points, rectangles, colours, and text annotations.

use vstd::prelude::*;

verus! {

/// Bound on the magnitude of a screen coordinate held by the editor.
///
/// Coordinates are modeled as `i64` so that rectangle arithmetic (corner
/// differences, decoration padding) can be verified free of overflow; every
/// coordinate that enters the document is kept within `[-MAX_COORD,
/// MAX_COORD]`, far beyond any real screen, which keeps all derived sums and
/// differences well inside the `i64` range.
pub const MAX_COORD: i64 = 0x4000_0000;

/// A screen coordinate.
#[derive(Clone, Copy, Debug, PartialEq, Eq, Structural)]
pub struct Point {
    pub x: i64,
    pub y: i64,
}

impl Point {
    /// Whether both coordinates lie within the editor's coordinate range.
    pub open spec fn bounded(self) -> bool {
        &&& -MAX_COORD <= self.x <= MAX_COORD
        &&& -MAX_COORD <= self.y <= MAX_COORD
    }
}

/// An RGBA colour with 8-bit channels.
#[derive(Clone, Copy, Debug, PartialEq, Eq, Structural)]
pub struct Colour {
    pub red: u8,
    pub green: u8,
    pub blue: u8,
    pub alpha: u8,
}

impl Colour {
    /// Opaque black, the default colour of a fresh document.
    pub open spec fn spec_black() -> Colour {
        Colour { red: 0, green: 0, blue: 0, alpha: 255 }
    }

    /// Opaque black, the default colour of a fresh document.
    #[verifier::when_used_as_spec(spec_black)]
    pub fn black() -> (c: Colour)
        ensures
            c == Colour::spec_black(),
    {
        Colour { red: 0, green: 0, blue: 0, alpha: 255 }
    }
}

/// An axis-aligned box. `w` and `h` may be negative until the box is
/// normalised; the covered region is always the one spanned between the two
/// opposite corners `(x, y)` and `(x + w, y + h)`.
#[derive(Clone, Copy, Debug, PartialEq, Eq, Structural)]
pub struct Rectangle {
    pub x: i64,
    pub y: i64,
    pub w: i64,
    pub h: i64,
}

impl Rectangle {
    /// Left edge of the covered region.
    pub open spec fn x_lo(self) -> int {
        if self.w < 0 {
            self.x + self.w
        } else {
            self.x as int
        }
    }

    /// Right edge of the covered region.
    pub open spec fn x_hi(self) -> int {
        if self.w < 0 {
            self.x as int
        } else {
            self.x + self.w
        }
    }

    /// Top edge of the covered region.
    pub open spec fn y_lo(self) -> int {
        if self.h < 0 {
            self.y + self.h
        } else {
            self.y as int
        }
    }

    /// Bottom edge of the covered region.
    pub open spec fn y_hi(self) -> int {
        if self.h < 0 {
            self.y as int
        } else {
            self.y + self.h
        }
    }

    /// The absolute region covered by the box, as the set of integer cells
    /// between its edges. Two boxes with the same `covered` set select the
    /// same pixels whichever corner they were dragged from.
    pub open spec fn covered(self) -> Set<(int, int)> {
        Set::new(
            |p: (int, int)|
                self.x_lo() <= p.0 < self.x_hi() && self.y_lo() <= p.1 < self.y_hi(),
        )
    }

    /// A box is normalised once both extents are non-negative.
    pub open spec fn normalised(self) -> bool {
        self.w >= 0 && self.h >= 0
    }

    /// Whether all four corners lie within the editor's coordinate range.
    pub open spec fn bounded(self) -> bool {
        &&& -MAX_COORD <= self.x_lo() <= MAX_COORD
        &&& -MAX_COORD <= self.x_hi() <= MAX_COORD
        &&& -MAX_COORD <= self.y_lo() <= MAX_COORD
        &&& -MAX_COORD <= self.y_hi() <= MAX_COORD
    }

    /// Shift the origin so that both extents become non-negative, leaving the
    /// covered region unchanged.
    pub fn normalise(&mut self)
        requires
            i64::MIN < old(self).w,
            i64::MIN < old(self).h,
            old(self).w < 0 ==> i64::MIN <= old(self).x + old(self).w,
            old(self).h < 0 ==> i64::MIN <= old(self).y + old(self).h,
        ensures
            final(self).normalised(),
            final(self).x_lo() == old(self).x_lo(),
            final(self).x_hi() == old(self).x_hi(),
            final(self).y_lo() == old(self).y_lo(),
            final(self).y_hi() == old(self).y_hi(),
            final(self).covered() == old(self).covered(),
    {
        if self.w < 0 {
            self.x = self.x + self.w;
            self.w = -self.w;
        }
        if self.h < 0 {
            self.y = self.y + self.h;
            self.h = -self.h;
        }
        proof {
            assert(self.covered() =~= old(self).covered());
        }
    }
}

/// An ellipse inscribed in an axis-aligned box.
///
/// Properties:
/// * has a radius of w/2 (= a) in the x axis
/// * has a radius of h/2 (= b) in the y axis
/// * center is at (x + w/2, y + h/2) (= (x0, y0))
#[derive(Clone, Copy, Debug, PartialEq, Eq, Structural)]
pub struct Ellipse {
    pub x: i64,
    pub y: i64,
    pub w: i64,
    pub h: i64,
}

/// Mathematical value of a [`Text`] annotation.
pub ghost struct TextView {
    pub string: Seq<char>,
    pub font_description: Seq<char>,
    pub colour: Colour,
}

/// A text annotation: the string to draw, the font it is drawn with, and its
/// colour.
#[derive(Debug, PartialEq, Eq)]
pub struct Text {
    pub string: String,
    pub font_description: String,
    pub colour: Colour,
}

impl View for Text {
    type V = TextView;

    open spec fn view(&self) -> TextView {
        TextView {
            string: self.string@,
            font_description: self.font_description@,
            colour: self.colour,
        }
    }
}

} // verus!
