//! Screen layout in whole pixels: anchoring offsets to the corners of a
//! rectangle, and laying out cells in a row or a column.
use vstd::prelude::*;

verus! {

#[derive(Clone, Copy, PartialEq, Eq, Debug, Structural)]
pub struct Vec2 {
    pub x: i64,
    pub y: i64,
}

#[derive(Clone, Copy, PartialEq, Eq, Debug, Structural)]
pub struct Rect {
    pub x: i64,
    pub y: i64,
    pub w: i64,
    pub h: i64,
}

pub open spec fn fits(v: int) -> bool {
    i64::MIN <= v <= i64::MAX
}

/// Half of `v`, rounded toward zero.
pub open spec fn half(v: int) -> int {
    if v >= 0 {
        v / 2
    } else {
        -((-v) / 2)
    }
}

fn compute_half(v: i64) -> (r: i64)
    requires
        v > i64::MIN,
    ensures
        r == half(v as int),
{
    if v >= 0 {
        v / 2
    } else {
        -((-v) / 2)
    }
}

/// A corner (or the centre) of a rectangle that offsets are measured from.
#[derive(Clone, Copy, PartialEq, Eq, Debug, Structural)]
pub enum Position {
    TopLeft,
    TopRight,
    BottomLeft,
    BottomRight,
    Center,
}

impl Position {
    /// The point `offset` away from this anchor of `rect`, measured
    /// inwards: from the right edge an x offset goes left, from the bottom
    /// edge a y offset goes up.
    pub open spec fn spec_add_in_from(self, rect: Rect, offset: Vec2) -> (int, int) {
        let right = rect.x + rect.w;
        let bottom = rect.y + rect.h;
        match self {
            Position::TopLeft => (rect.x + offset.x, rect.y + offset.y),
            Position::TopRight => (right - offset.x, rect.y + offset.y),
            Position::BottomLeft => (rect.x + offset.x, bottom - offset.y),
            Position::BottomRight => (right - offset.x, bottom - offset.y),
            Position::Center => (half(right) + offset.x, half(bottom) + offset.y),
        }
    }

    /// Whether every coordinate `add_in_from` computes fits in an `i64`.
    pub open spec fn fits_in(self, rect: Rect, offset: Vec2) -> bool {
        &&& fits(rect.x + rect.w)
        &&& fits(rect.y + rect.h)
        &&& rect.x + rect.w > i64::MIN
        &&& rect.y + rect.h > i64::MIN
        &&& fits(self.spec_add_in_from(rect, offset).0)
        &&& fits(self.spec_add_in_from(rect, offset).1)
    }

    pub fn add_in_from(&self, rect: &Rect, offset: Vec2) -> (r: Vec2)
        requires
            self.fits_in(*rect, offset),
        ensures
            (r.x as int, r.y as int) == self.spec_add_in_from(*rect, offset),
    {
        let right = rect.x + rect.w;
        let bottom = rect.y + rect.h;
        match self {
            Position::TopLeft => Vec2 { x: rect.x + offset.x, y: rect.y + offset.y },
            Position::TopRight => Vec2 { x: right - offset.x, y: rect.y + offset.y },
            Position::BottomLeft => Vec2 { x: rect.x + offset.x, y: bottom - offset.y },
            Position::BottomRight => Vec2 { x: right - offset.x, y: bottom - offset.y },
            Position::Center => Vec2 {
                x: compute_half(right) + offset.x,
                y: compute_half(bottom) + offset.y,
            },
        }
    }
}

/// The rectangle spanned from corner `a` to corner `b`.
pub fn points_to_rect(a: Vec2, b: Vec2) -> (r: Rect)
    requires
        fits(b.x - a.x),
        fits(b.y - a.y),
    ensures
        r.x == a.x,
        r.y == a.y,
        r.w == b.x - a.x,
        r.h == b.y - a.y,
{
    Rect { x: a.x, y: a.y, w: b.x - a.x, h: b.y - a.y }
}

/// Direction in which a stack lays out its cells.
#[derive(Clone, Copy, PartialEq, Eq, Debug, Structural)]
pub enum Direction {
    Horizontal,
    Vertical,
}

/// Children laid out in equal cells, one after another, with spacing.
pub struct StackContainer<T, D> {
    pub children: Vec<(T, D)>,
    pub position: Vec2,
    pub spacing: i64,
    pub cell_size: (i64, i64),
    pub direction: Direction,
}

impl<T, D> StackContainer<T, D> {
    /// Cell `n` starts `n` steps of (cell size + spacing) from the position.
    pub open spec fn spec_rect_for(self, n: int) -> (int, int, int, int) {
        match self.direction {
            Direction::Vertical => (
                self.position.x as int,
                self.position.y + n * (self.cell_size.1 + self.spacing),
                self.cell_size.0 as int,
                self.cell_size.1 as int,
            ),
            Direction::Horizontal => (
                self.position.x + n * (self.cell_size.0 + self.spacing),
                self.position.y as int,
                self.cell_size.0 as int,
                self.cell_size.1 as int,
            ),
        }
    }

    pub fn new(
        position: Vec2,
        spacing: i64,
        cell_size: (i64, i64),
        direction: Direction,
    ) -> (r: StackContainer<T, D>)
        ensures
            r.children@.len() == 0,
            r.position == position,
            r.spacing == spacing,
            r.cell_size == cell_size,
            r.direction == direction,
    {
        StackContainer { children: Vec::new(), position, spacing, cell_size, direction }
    }

    /// The rectangle of cell `n`.
    pub fn get_rect_for(&self, n: i64) -> (r: Rect)
        requires
            ({
                let step = match self.direction {
                    Direction::Vertical => self.cell_size.1 + self.spacing,
                    Direction::Horizontal => self.cell_size.0 + self.spacing,
                };
                &&& fits(step)
                &&& fits(n * step)
                &&& fits(self.spec_rect_for(n as int).0)
                &&& fits(self.spec_rect_for(n as int).1)
            }),
        ensures
            (r.x as int, r.y as int, r.w as int, r.h as int) == self.spec_rect_for(n as int),
    {
        match self.direction {
            Direction::Vertical => {
                let step = self.cell_size.1 + self.spacing;
                Rect {
                    x: self.position.x,
                    y: self.position.y + n * step,
                    w: self.cell_size.0,
                    h: self.cell_size.1,
                }
            },
            Direction::Horizontal => {
                let step = self.cell_size.0 + self.spacing;
                Rect {
                    x: self.position.x + n * step,
                    y: self.position.y,
                    w: self.cell_size.0,
                    h: self.cell_size.1,
                }
            },
        }
    }
}

} // verus!
