//! Points and rectangles of the playfield, in thousandths of a world unit.

use vstd::prelude::*;

verus! {

/// A point or a vector of the plane.
#[derive(Clone, Copy, Debug, PartialEq, Eq, Structural)]
pub struct Vec2 {
    pub x: i32,
    pub y: i32,
}

/// An axis-parallel rectangle with its border.
#[derive(Clone, Copy, Debug, PartialEq, Eq, Structural)]
pub struct Rect {
    pub min: Vec2,
    pub max: Vec2,
}

/// Square of the distance between two points.
pub open spec fn dist2(a: Vec2, b: Vec2) -> int {
    (a.x - b.x) * (a.x - b.x) + (a.y - b.y) * (a.y - b.y)
}

/// The square of a difference of two coordinates fits 65 bits.
pub proof fn lemma_square_bound(d: int)
    requires
        -0x1_0000_0000 <= d <= 0x1_0000_0000,
    ensures
        0 <= d * d <= 0x1_0000_0000 * 0x1_0000_0000,
{
    assert(0 <= d * d <= 0x1_0000_0000 * 0x1_0000_0000) by (nonlinear_arith)
        requires
            -0x1_0000_0000 <= d <= 0x1_0000_0000,
    ;
}

impl Vec2 {
    /// Square of the distance to `other`.
    pub fn distance_squared(self, other: Vec2) -> (r: u128)
        ensures
            r == dist2(self, other),
    {
        let dx: i128 = (self.x as i128) - (other.x as i128);
        let dy: i128 = (self.y as i128) - (other.y as i128);
        proof {
            lemma_square_bound(dx as int);
            lemma_square_bound(dy as int);
        }
        (dx * dx + dy * dy) as u128
    }
}

impl Rect {
    /// Whether `p` lies in the rectangle or on its border.
    pub open spec fn spec_contains(&self, p: Vec2) -> bool {
        self.min.x <= p.x && p.x <= self.max.x && self.min.y <= p.y && p.y <= self.max.y
    }

    /// Whether `p` lies in the rectangle or on its border.
    #[verifier::when_used_as_spec(spec_contains)]
    pub fn contains(&self, p: Vec2) -> (r: bool)
        ensures
            r == self.spec_contains(p),
    {
        self.min.x <= p.x && p.x <= self.max.x && self.min.y <= p.y && p.y <= self.max.y
    }
}

} // verus!
