use vstd::prelude::*;

verus! {

/// An axis-aligned rectangle of squares, from corner `(x1, y1)` to `(x2, y2)`.
#[derive(Clone, Copy, PartialEq, Eq, Structural, Debug)]
pub struct Rect {
    pub x1: i32,
    pub x2: i32,
    pub y1: i32,
    pub y2: i32,
}

impl Rect {
    /// The rectangle with corner `(x, y)`, `w` wide and `h` high.
    pub fn new(x: i32, y: i32, w: i32, h: i32) -> (r: Rect)
        requires
            i32::MIN <= x + w <= i32::MAX,
            i32::MIN <= y + h <= i32::MAX,
        ensures
            r.x1 == x && r.y1 == y,
            r.x2 == x + w && r.y2 == y + h,
    {
        Rect { x1: x, y1: y, x2: x + w, y2: y + h }
    }

    /// The middle square (coordinates halved toward zero).
    pub fn center(&self) -> (c: (i32, i32))
        ensures
            c.0 as int == half_toward_zero(self.x1 + self.x2),
            c.1 as int == half_toward_zero(self.y1 + self.y2),
    {
        (half(self.x1 as i64 + self.x2 as i64), half(self.y1 as i64 + self.y2 as i64))
    }
}

/// Half of `v`, rounded toward zero as integer division does.
pub open spec fn half_toward_zero(v: int) -> int {
    if v >= 0 {
        v / 2
    } else {
        -((-v) / 2)
    }
}

fn half(v: i64) -> (r: i32)
    requires
        2 * i32::MIN <= v <= 2 * i32::MAX + 1,
    ensures
        r as int == half_toward_zero(v as int),
{
    if v >= 0 {
        let u: u64 = v as u64;
        assert(u / 2 <= i32::MAX);
        (u / 2) as i32
    } else {
        let u: u64 = (-v) as u64;
        let h: i64 = (u / 2) as i64;
        assert(-h >= i32::MIN);
        (-h) as i32
    }
}

} // verus!
