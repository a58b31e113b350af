use vstd::prelude::*;
use super::point::Point;

verus! {

/// `w as i16` for a `u16` (two's-complement reinterpretation).
pub open spec fn as_i16(w: u16) -> int {
    if w <= 32767 {
        w as int
    } else {
        w as int - 65536
    }
}

/// `v as u16` for a value in the `i16` range.
pub open spec fn as_u16(v: int) -> int {
    if v >= 0 {
        v
    } else {
        v + 65536
    }
}

/// `v` clamped to the `i16` range (saturating arithmetic).
pub open spec fn sat_i16(v: int) -> int {
    if v > 32767 {
        32767
    } else if v < -32768 {
        -32768
    } else {
        v
    }
}

pub open spec fn imax(a: int, b: int) -> int {
    if a >= b {
        a
    } else {
        b
    }
}

pub open spec fn imin(a: int, b: int) -> int {
    if a <= b {
        a
    } else {
        b
    }
}

/// `w as i16`.
pub fn u16_as_i16(w: u16) -> (r: i16)
    ensures
        r == as_i16(w),
{
    if w <= 32767 {
        w as i16
    } else {
        ((w as i32) - 65536) as i16
    }
}

/// `v as u16`.
pub fn i16_as_u16(v: i16) -> (r: u16)
    ensures
        r == as_u16(v as int),
{
    if v >= 0 {
        v as u16
    } else {
        ((v as i32) + 65536) as u16
    }
}

/// `a.saturating_add(b)`.
pub fn sat_add_i16(a: i16, b: i16) -> (r: i16)
    ensures
        r == sat_i16(a + b),
{
    let s = (a as i32) + (b as i32);
    if s > 32767 {
        32767
    } else if s < -32768 {
        -32768
    } else {
        s as i16
    }
}

/// `a.saturating_sub(b)`.
pub fn sat_sub_i16(a: i16, b: i16) -> (r: i16)
    ensures
        r == sat_i16(a - b),
{
    let s = (a as i32) - (b as i32);
    if s > 32767 {
        32767
    } else if s < -32768 {
        -32768
    } else {
        s as i16
    }
}

/// An axis-aligned rectangle in screen coordinates.
#[derive(Debug, Clone, Copy, PartialEq, Eq, Default, Structural)]
pub struct Rectangle {
    pub x: i16,
    pub y: i16,
    pub width: u16,
    pub height: u16,
}

impl Rectangle {
    /// The right edge (exclusive), computed with saturating `i16` arithmetic.
    pub open spec fn spec_right(self) -> int {
        sat_i16(self.x + as_i16(self.width))
    }

    /// The bottom edge (exclusive), computed with saturating `i16` arithmetic.
    pub open spec fn spec_bottom(self) -> int {
        sat_i16(self.y + as_i16(self.height))
    }

    pub open spec fn spec_contains(self, px: int, py: int) -> bool {
        px >= self.x && px < self.spec_right() && py >= self.y && py < self.spec_bottom()
    }

    pub open spec fn spec_intersects(self, other: Rectangle) -> bool {
        self.x < other.spec_right() && self.spec_right() > other.x && self.y < other.spec_bottom()
            && self.spec_bottom() > other.y
    }

    /// Where `intersect` would subtract outside the `i16` range (it panics
    /// there).
    pub open spec fn intersect_fits(self, other: Rectangle) -> bool {
        let x1 = imax(self.x as int, other.x as int);
        let y1 = imax(self.y as int, other.y as int);
        let x2 = imin(self.spec_right(), other.spec_right());
        let y2 = imin(self.spec_bottom(), other.spec_bottom());
        (x1 < x2 && y1 < y2) ==> (x2 - x1 <= 32767 && y2 - y1 <= 32767)
    }

    pub open spec fn spec_intersect(self, other: Rectangle) -> Option<Rectangle> {
        let x1 = imax(self.x as int, other.x as int);
        let y1 = imax(self.y as int, other.y as int);
        let x2 = imin(self.spec_right(), other.spec_right());
        let y2 = imin(self.spec_bottom(), other.spec_bottom());
        if x1 < x2 && y1 < y2 {
            Some(
                Rectangle {
                    x: x1 as i16,
                    y: y1 as i16,
                    width: (x2 - x1) as u16,
                    height: (y2 - y1) as u16,
                },
            )
        } else {
            None
        }
    }

    pub open spec fn spec_union(self, other: Rectangle) -> Rectangle {
        let x1 = imin(self.x as int, other.x as int);
        let y1 = imin(self.y as int, other.y as int);
        let x2 = imax(self.spec_right(), other.spec_right());
        let y2 = imax(self.spec_bottom(), other.spec_bottom());
        Rectangle {
            x: x1 as i16,
            y: y1 as i16,
            width: as_u16(sat_i16(x2 - x1)) as u16,
            height: as_u16(sat_i16(y2 - y1)) as u16,
        }
    }

    pub fn new(x: i16, y: i16, width: u16, height: u16) -> (r: Rectangle)
        ensures
            r == (Rectangle { x, y, width, height }),
    {
        Rectangle { x, y, width, height }
    }

    pub fn zero() -> (r: Rectangle)
        ensures
            r == (Rectangle { x: 0, y: 0, width: 0, height: 0 }),
    {
        Rectangle { x: 0, y: 0, width: 0, height: 0 }
    }

    pub fn contains(&self, px: i16, py: i16) -> (r: bool)
        ensures
            r == self.spec_contains(px as int, py as int),
    {
        px >= self.x && px < self.right() && py >= self.y && py < self.bottom()
    }

    pub fn intersects(&self, other: &Rectangle) -> (r: bool)
        ensures
            r == self.spec_intersects(*other),
    {
        let ax1 = self.x;
        let ay1 = self.y;
        let ax2 = self.right();
        let ay2 = self.bottom();
        let bx1 = other.x;
        let by1 = other.y;
        let bx2 = other.right();
        let by2 = other.bottom();
        ax1 < bx2 && ax2 > bx1 && ay1 < by2 && ay2 > by1
    }

    pub fn intersect(&self, other: &Rectangle) -> (r: Option<Rectangle>)
        requires
            self.intersect_fits(*other),
        ensures
            r == self.spec_intersect(*other),
    {
        let x1 = if self.x >= other.x {
            self.x
        } else {
            other.x
        };
        let y1 = if self.y >= other.y {
            self.y
        } else {
            other.y
        };
        let sr = self.right();
        let orr = other.right();
        let sb = self.bottom();
        let ob = other.bottom();
        let x2 = if sr <= orr {
            sr
        } else {
            orr
        };
        let y2 = if sb <= ob {
            sb
        } else {
            ob
        };
        if x1 < x2 && y1 < y2 {
            Some(Rectangle { x: x1, y: y1, width: (x2 - x1) as u16, height: (y2 - y1) as u16 })
        } else {
            None
        }
    }

    pub fn union(&self, other: &Rectangle) -> (r: Rectangle)
        ensures
            r == self.spec_union(*other),
    {
        let x1 = if self.x <= other.x {
            self.x
        } else {
            other.x
        };
        let y1 = if self.y <= other.y {
            self.y
        } else {
            other.y
        };
        let sr = self.right();
        let orr = other.right();
        let sb = self.bottom();
        let ob = other.bottom();
        let x2 = if sr >= orr {
            sr
        } else {
            orr
        };
        let y2 = if sb >= ob {
            sb
        } else {
            ob
        };
        Rectangle {
            x: x1,
            y: y1,
            width: i16_as_u16(sat_sub_i16(x2, x1)),
            height: i16_as_u16(sat_sub_i16(y2, y1)),
        }
    }

    pub fn right(&self) -> (r: i16)
        ensures
            r == self.spec_right(),
    {
        sat_add_i16(self.x, u16_as_i16(self.width))
    }

    pub fn bottom(&self) -> (r: i16)
        ensures
            r == self.spec_bottom(),
    {
        sat_add_i16(self.y, u16_as_i16(self.height))
    }

    pub fn center(&self) -> (p: Point)
        ensures
            p.x == sat_i16(self.x + self.width / 2),
            p.y == sat_i16(self.y + self.height / 2),
    {
        Point::new(
            sat_add_i16(self.x, (self.width / 2) as i16),
            sat_add_i16(self.y, (self.height / 2) as i16),
        )
    }

    pub fn is_empty(&self) -> (r: bool)
        ensures
            r == (self.width == 0 || self.height == 0),
    {
        self.width == 0 || self.height == 0
    }

    pub fn area(&self) -> (r: u32)
        ensures
            r == self.width * self.height,
    {
        proof {
            assert(self.width * self.height <= 65535 * 65535) by (nonlinear_arith)
                requires
                    self.width <= 65535,
                    self.height <= 65535,
            ;
        }
        (self.width as u32) * (self.height as u32)
    }

    pub fn translate(&self, dx: i16, dy: i16) -> (r: Rectangle)
        ensures
            r == (Rectangle {
                x: sat_i16(self.x + dx) as i16,
                y: sat_i16(self.y + dy) as i16,
                width: self.width,
                height: self.height,
            }),
    {
        Rectangle {
            x: sat_add_i16(self.x, dx),
            y: sat_add_i16(self.y, dy),
            width: self.width,
            height: self.height,
        }
    }
}

/// Overlap is symmetric; the intersection is symmetric and exists exactly
/// when both rectangles cover a common point, which it then covers too.
pub proof fn lemma_intersection_laws(a: Rectangle, b: Rectangle, px: int, py: int)
    requires
        a.intersect_fits(b),
    ensures
        a.spec_intersects(b) == b.spec_intersects(a),
        a.spec_intersect(b) == b.spec_intersect(a),
        a.spec_intersect(b) is Some ==> a.spec_intersects(b),
        (a.spec_contains(px, py) && b.spec_contains(px, py)) ==> (a.spec_intersect(b) is Some
            && a.spec_intersect(b)->0.spec_contains(px, py)),
        (a.spec_intersect(b) is Some && a.spec_intersect(b)->0.spec_contains(px, py)) ==> (
        a.spec_contains(px, py) && b.spec_contains(px, py)),
{
}

/// Translating moves every covered point by the same offset, as long as no
/// coordinate saturates.
pub proof fn lemma_translate_contains(r: Rectangle, dx: int, dy: int, px: int, py: int)
    requires
        -32768 <= r.x + dx <= 32767,
        -32768 <= r.y + dy <= 32767,
        r.x + dx + r.width <= 32767,
        r.y + dy + r.height <= 32767,
        r.x + r.width <= 32767,
        r.y + r.height <= 32767,
        r.width <= 32767,
        r.height <= 32767,
    ensures
        ({
            let t = Rectangle {
                x: (r.x + dx) as i16,
                y: (r.y + dy) as i16,
                width: r.width,
                height: r.height,
            };
            t.spec_contains(px + dx, py + dy) == r.spec_contains(px, py)
        }),
{
}

} // verus!
