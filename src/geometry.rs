//! Axis-aligned rectangles and the strict overlap test.
use vstd::prelude::*;

use crate::config::LIMIT;

verus! {

/// An axis-aligned rectangle: `x`, `y` is its top-left corner, `y` grows
/// downwards.
#[derive(Clone, Copy, Debug, PartialEq, Eq, Structural)]
pub struct Rect {
    pub x: i64,
    pub y: i64,
    pub width: i64,
    pub height: i64,
}

impl Rect {
    /// Corners within `LIMIT` of the origin and sizes in `0..=LIMIT`.
    pub open spec fn fits(self) -> bool {
        -LIMIT <= self.x <= LIMIT && -LIMIT <= self.y <= LIMIT && 0 <= self.width <= LIMIT && 0
            <= self.height <= LIMIT
    }

    pub open spec fn left(self) -> int {
        self.x as int
    }

    pub open spec fn right(self) -> int {
        self.x + self.width
    }

    pub open spec fn top(self) -> int {
        self.y as int
    }

    pub open spec fn bottom(self) -> int {
        self.y + self.height
    }

    pub open spec fn at(self, x: int, y: int) -> Rect {
        Rect { x: x as i64, y: y as i64, ..self }
    }

    pub fn new(x: i64, y: i64, width: i64, height: i64) -> (r: Rect)
        ensures
            r == (Rect { x, y, width, height }),
    {
        Rect { x, y, width, height }
    }
}

/// Strict overlap: rectangles that only share an edge do not overlap.
pub open spec fn overlaps_spec(a: Rect, b: Rect) -> bool {
    a.left() < b.right() && a.right() > b.left() && a.top() < b.bottom() && a.bottom() > b.top()
}

/// Whether a rectangle whose corner may lie up to `bound` from the origin
/// still has all its edges within `i64`.
pub open spec fn within(r: Rect, bound: int) -> bool {
    -bound <= r.x <= bound && -bound <= r.y <= bound && 0 <= r.width <= LIMIT && 0 <= r.height
        <= LIMIT
}

/// The coordinate bound under which the collision code computes edges
/// without overflow.
pub open spec fn wide() -> int {
    0x1000_0000_0000_0000
}

pub fn overlaps(a: &Rect, b: &Rect) -> (r: bool)
    requires
        within(*a, wide()),
        within(*b, wide()),
    ensures
        r == overlaps_spec(*a, *b),
{
    a.x < b.x + b.width && a.x + a.width > b.x && a.y < b.y + b.height && a.y + a.height > b.y
}

/// Rectangles that only touch along a vertical or a horizontal edge do not
/// overlap.
pub proof fn lemma_touching_edges_do_not_overlap(a: Rect, b: Rect)
    requires
        a.right() == b.left() || b.right() == a.left() || a.bottom() == b.top() || b.bottom()
            == a.top(),
    ensures
        !overlaps_spec(a, b),
        !overlaps_spec(b, a),
{
}

} // verus!
