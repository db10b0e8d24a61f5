//! Positions and sizes in the two display coordinate spaces.
//!
//! A value is either *physical* (device pixels) or *logical* (scale-factor
//! normalized). Conversion between the spaces divides or multiplies by a
//! display scale factor; with an integral scale factor the conversion to
//! logical pixels rounds down, and the rounding loss is bounded by the scale
//! factor itself (see [`lemma_to_logical_round_trip`]).

use vstd::prelude::*;

verus! {

/// A position in either coordinate space.
#[derive(Debug, Clone, PartialEq, Eq, Structural)]
pub enum Position {
    Physical(PhysicalPosition),
    Logical(LogicalPosition),
}

/// A size in either coordinate space.
#[derive(Debug, Clone, PartialEq, Eq, Structural)]
pub enum Size {
    Physical(PhysicalSize),
    Logical(LogicalSize),
}

/// A position represented in logical pixels.
#[derive(Debug, Clone, PartialEq, Eq, Structural)]
pub struct LogicalPosition {
    pub x: i32,
    pub y: i32,
}

impl LogicalPosition {
    pub fn new(x: i32, y: i32) -> (r: Self)
        ensures
            r.x == x,
            r.y == y,
    {
        LogicalPosition { x, y }
    }

    pub fn x(&self) -> (r: i32)
        ensures
            r == self.x,
    {
        self.x
    }

    pub fn set_x(&mut self, x: i32)
        ensures
            final(self).x == x,
            final(self).y == old(self).y,
    {
        self.x = x;
    }

    pub fn y(&self) -> (r: i32)
        ensures
            r == self.y,
    {
        self.y
    }

    pub fn set_y(&mut self, y: i32)
        ensures
            final(self).y == y,
            final(self).x == old(self).x,
    {
        self.y = y;
    }
}

impl From<LogicalPosition> for Position {
    fn from(pos: LogicalPosition) -> (r: Self) {
        Position::Logical(pos)
    }
}

impl vstd::std_specs::convert::FromSpecImpl<LogicalPosition> for Position {
    open spec fn obeys_from_spec() -> bool {
        true
    }

    open spec fn from_spec(pos: LogicalPosition) -> Self {
        Position::Logical(pos)
    }
}

/// A size represented in logical pixels.
#[derive(Debug, Clone, PartialEq, Eq, Structural)]
pub struct LogicalSize {
    pub width: u32,
    pub height: u32,
}

impl LogicalSize {
    pub fn new(x: u32, y: u32) -> (r: Self)
        ensures
            r.width == x,
            r.height == y,
    {
        LogicalSize { width: x, height: y }
    }

    pub fn width(&self) -> (r: u32)
        ensures
            r == self.width,
    {
        self.width
    }

    pub fn set_width(&mut self, x: u32)
        ensures
            final(self).width == x,
            final(self).height == old(self).height,
    {
        self.width = x;
    }

    pub fn height(&self) -> (r: u32)
        ensures
            r == self.height,
    {
        self.height
    }

    pub fn set_height(&mut self, y: u32)
        ensures
            final(self).height == y,
            final(self).width == old(self).width,
    {
        self.height = y;
    }
}

impl From<LogicalSize> for Size {
    fn from(size: LogicalSize) -> (r: Self) {
        Size::Logical(size)
    }
}

impl vstd::std_specs::convert::FromSpecImpl<LogicalSize> for Size {
    open spec fn obeys_from_spec() -> bool {
        true
    }

    open spec fn from_spec(size: LogicalSize) -> Self {
        Size::Logical(size)
    }
}

/// A position represented in physical pixels.
#[derive(Debug, Clone, PartialEq, Eq, Structural)]
pub struct PhysicalPosition {
    pub x: i32,
    pub y: i32,
}

impl PhysicalPosition {
    pub fn new(x: i32, y: i32) -> (r: Self)
        ensures
            r.x == x,
            r.y == y,
    {
        PhysicalPosition { x, y }
    }

    pub fn x(&self) -> (r: i32)
        ensures
            r == self.x,
    {
        self.x
    }

    pub fn set_x(&mut self, x: i32)
        ensures
            final(self).x == x,
            final(self).y == old(self).y,
    {
        self.x = x;
    }

    pub fn y(&self) -> (r: i32)
        ensures
            r == self.y,
    {
        self.y
    }

    pub fn set_y(&mut self, y: i32)
        ensures
            final(self).y == y,
            final(self).x == old(self).x,
    {
        self.y = y;
    }
}

impl From<PhysicalPosition> for Position {
    fn from(pos: PhysicalPosition) -> (r: Self) {
        Position::Physical(pos)
    }
}

impl vstd::std_specs::convert::FromSpecImpl<PhysicalPosition> for Position {
    open spec fn obeys_from_spec() -> bool {
        true
    }

    open spec fn from_spec(pos: PhysicalPosition) -> Self {
        Position::Physical(pos)
    }
}

/// A size represented in physical pixels.
#[derive(Debug, Clone, PartialEq, Eq, Structural)]
pub struct PhysicalSize {
    pub width: u32,
    pub height: u32,
}

impl PhysicalSize {
    /// The logical size that dividing both extents by `scale_factor` yields,
    /// rounding down.
    pub open spec fn spec_to_logical(self, scale_factor: u32) -> LogicalSize
        recommends
            scale_factor > 0,
    {
        LogicalSize {
            width: (self.width / scale_factor) as u32,
            height: (self.height / scale_factor) as u32,
        }
    }

    pub fn new(x: u32, y: u32) -> (r: Self)
        ensures
            r.width == x,
            r.height == y,
    {
        PhysicalSize { width: x, height: y }
    }

    /// Convert to logical pixels by dividing by the display scale factor.
    pub fn to_logical(self, scale_factor: u32) -> (r: LogicalSize)
        requires
            scale_factor > 0,
        ensures
            r == self.spec_to_logical(scale_factor),
    {
        LogicalSize { width: self.width / scale_factor, height: self.height / scale_factor }
    }

    pub fn width(&self) -> (r: u32)
        ensures
            r == self.width,
    {
        self.width
    }

    pub fn set_width(&mut self, x: u32)
        ensures
            final(self).width == x,
            final(self).height == old(self).height,
    {
        self.width = x;
    }

    pub fn height(&self) -> (r: u32)
        ensures
            r == self.height,
    {
        self.height
    }

    pub fn set_height(&mut self, y: u32)
        ensures
            final(self).height == y,
            final(self).width == old(self).width,
    {
        self.height = y;
    }
}

impl From<PhysicalSize> for Size {
    fn from(size: PhysicalSize) -> (r: Self) {
        Size::Physical(size)
    }
}

impl vstd::std_specs::convert::FromSpecImpl<PhysicalSize> for Size {
    open spec fn obeys_from_spec() -> bool {
        true
    }

    open spec fn from_spec(size: PhysicalSize) -> Self {
        Size::Physical(size)
    }
}

/// Scaling the logical size back up recovers the physical size except for the
/// rounding loss, which is smaller than the scale factor in each extent; when
/// both extents are multiples of the scale factor the round trip is exact.
pub proof fn lemma_to_logical_round_trip(s: PhysicalSize, scale_factor: u32)
    requires
        scale_factor > 0,
    ensures
        s.spec_to_logical(scale_factor).width * scale_factor <= s.width < (
        s.spec_to_logical(scale_factor).width + 1) * scale_factor,
        s.spec_to_logical(scale_factor).height * scale_factor <= s.height < (
        s.spec_to_logical(scale_factor).height + 1) * scale_factor,
        s.width % scale_factor == 0 ==> s.spec_to_logical(scale_factor).width * scale_factor
            == s.width,
        s.height % scale_factor == 0 ==> s.spec_to_logical(scale_factor).height * scale_factor
            == s.height,
{
    lemma_div_bounds(s.width, scale_factor);
    lemma_div_bounds(s.height, scale_factor);
}

/// Integer division rounds down by less than the divisor, and is exact on
/// multiples of the divisor.
proof fn lemma_div_bounds(a: u32, b: u32)
    requires
        b > 0,
    ensures
        (a / b) * b <= a < (a / b + 1) * b,
        a % b == 0 ==> (a / b) * b == a,
{
    assert((a / b) * b <= a < (a / b + 1) * b) by (nonlinear_arith)
        requires
            b > 0,
    ;
    assert(a % b == 0 ==> (a / b) * b == a) by (nonlinear_arith)
        requires
            b > 0,
    ;
}

} // verus!
