//! Gravity, velocity integration and resolution against static platforms.
use vstd::prelude::*;

use crate::config::{DAMP_DEN, DAMP_NUM, GRAVITY, LIMIT, MAX_DT_MS, STAND_TOLERANCE};
use crate::geometry::{overlaps, overlaps_spec, within, Rect};

verus! {

/// Bound on a corner coordinate during a frame's collision passes.
pub open spec fn reach() -> int {
    0x0400_0000_0000_0000
}

/// Every platform of the list fits the world bounds.
pub open spec fn platforms_fit(ps: Seq<Rect>) -> bool {
    forall|i: int| 0 <= i < ps.len() ==> #[trigger] ps[i].fits()
}

pub open spec fn valid_dt(dt: i64) -> bool {
    0 <= dt <= MAX_DT_MS
}

/// Velocity after gravity has acted for `dt` milliseconds.
pub open spec fn fall_speed(v: int, dt: int) -> int {
    v + GRAVITY * dt
}

/// A length travelled at `v` milli-units per second for `dt` milliseconds,
/// in micro-units.
pub open spec fn travel(v: int, dt: int) -> int {
    v * dt
}

/// Horizontal velocity after one frame of damping, rounded towards zero.
pub open spec fn damp(v: int) -> int {
    if v >= 0 {
        v * (DAMP_NUM as int) / (DAMP_DEN as int)
    } else {
        -((-v) * (DAMP_NUM as int) / (DAMP_DEN as int))
    }
}

/// Pushes a body moving horizontally out of one platform that it overlaps:
/// to the platform's left when moving right, to its right when moving left.
/// Any contact stops horizontal motion.
pub open spec fn push_out_x(b: Rect, vx: i64, p: Rect) -> (Rect, i64) {
    if overlaps_spec(b, p) {
        if vx > 0 {
            (b.at(p.left() - b.width, b.y as int), 0)
        } else if vx < 0 {
            (b.at(p.right(), b.y as int), 0)
        } else {
            (b, 0)
        }
    } else {
        (b, vx)
    }
}

/// Horizontal resolution against each platform in turn.
pub open spec fn resolve_x_spec(b: Rect, vx: i64, ps: Seq<Rect>) -> (Rect, i64)
    decreases ps.len(),
{
    if ps.len() == 0 {
        (b, vx)
    } else {
        let (b1, v1) = resolve_x_spec(b, vx, ps.drop_last());
        push_out_x(b1, v1, ps.last())
    }
}

/// Resolves a body moving vertically against one platform that it
/// overlaps: a falling body lands on the platform's top and is grounded, a
/// rising one is stopped at the platform's bottom.
pub open spec fn push_out_y(b: Rect, vy: i64, grounded: bool, p: Rect) -> (Rect, i64, bool) {
    if overlaps_spec(b, p) {
        if vy > 0 {
            (b.at(b.x as int, p.top() - b.height), 0, true)
        } else if vy < 0 {
            (b.at(b.x as int, p.bottom()), 0, grounded)
        } else {
            (b, vy, grounded)
        }
    } else {
        (b, vy, grounded)
    }
}

/// Vertical resolution against each platform in turn.
pub open spec fn resolve_y_spec(b: Rect, vy: i64, grounded: bool, ps: Seq<Rect>) -> (
    Rect,
    i64,
    bool,
)
    decreases ps.len(),
{
    if ps.len() == 0 {
        (b, vy, grounded)
    } else {
        let (b1, v1, g1) = resolve_y_spec(b, vy, grounded, ps.drop_last());
        push_out_y(b1, v1, g1, ps.last())
    }
}

/// A falling body that overlaps a platform lands on its top; nothing else
/// is corrected.
pub open spec fn land_on(b: Rect, vy: i64, p: Rect) -> (Rect, i64) {
    if overlaps_spec(b, p) && vy > 0 {
        (b.at(b.x as int, p.top() - b.height), 0)
    } else {
        (b, vy)
    }
}

pub open spec fn land_spec(b: Rect, vy: i64, ps: Seq<Rect>) -> (Rect, i64)
    decreases ps.len(),
{
    if ps.len() == 0 {
        (b, vy)
    } else {
        let (b1, v1) = land_spec(b, vy, ps.drop_last());
        land_on(b1, v1, ps.last())
    }
}

/// The body rests on the platform: they overlap horizontally and the
/// body's bottom lies between the platform's top and a small tolerance
/// below it.
pub open spec fn stands_on(b: Rect, p: Rect) -> bool {
    b.right() > p.left() && b.left() < p.right() && b.bottom() >= p.top() && b.bottom() <= p.top()
        + STAND_TOLERANCE
}

/// A patrolling body turns back at the edge of the platform it stands on.
pub open spec fn turn_at_edge(b: Rect, dir: i64, p: Rect) -> i64 {
    if stands_on(b, p) {
        if dir > 0 && b.right() >= p.right() {
            -1i64
        } else if dir < 0 && b.left() <= p.left() {
            1i64
        } else {
            dir
        }
    } else {
        dir
    }
}

pub open spec fn turn_spec(b: Rect, dir: i64, ps: Seq<Rect>) -> i64
    decreases ps.len(),
{
    if ps.len() == 0 {
        dir
    } else {
        turn_at_edge(b, turn_spec(b, dir, ps.drop_last()), ps.last())
    }
}

pub fn damp_velocity(v: i64) -> (r: i64)
    requires
        -LIMIT <= v <= LIMIT,
    ensures
        r == damp(v as int),
        -LIMIT <= r <= LIMIT,
{
    if v >= 0 {
        let u = v as u64;
        (u * 4 / 5) as i64
    } else {
        let u = (-v) as u64;
        -((u * 4 / 5) as i64)
    }
}

pub fn push_out_x_one(b: Rect, vx: i64, p: &Rect) -> (r: (Rect, i64))
    requires
        within(b, reach()),
        p.fits(),
    ensures
        r == push_out_x(b, vx, *p),
        within(r.0, reach()),
{
    if overlaps(&b, p) {
        if vx > 0 {
            (Rect { x: p.x - b.width, ..b }, 0)
        } else if vx < 0 {
            (Rect { x: p.x + p.width, ..b }, 0)
        } else {
            (b, 0)
        }
    } else {
        (b, vx)
    }
}

/// Horizontal collision pass over all platforms.
pub fn resolve_horizontal(b: Rect, vx: i64, ps: &Vec<Rect>) -> (r: (Rect, i64))
    requires
        within(b, reach()),
        platforms_fit(ps@),
    ensures
        r == resolve_x_spec(b, vx, ps@),
        within(r.0, reach()),
{
    let mut cur = b;
    let mut v = vx;
    let mut i: usize = 0;
    while i < ps.len()
        invariant
            i <= ps.len(),
            platforms_fit(ps@),
            within(cur, reach()),
            (cur, v) == resolve_x_spec(b, vx, ps@.take(i as int)),
        decreases ps.len() - i,
    {
        assert(ps@.take(i + 1).drop_last() =~= ps@.take(i as int));
        assert(ps@[i as int].fits());
        let (c1, v1) = push_out_x_one(cur, v, &ps[i]);
        cur = c1;
        v = v1;
        i += 1;
    }
    assert(ps@.take(ps.len() as int) =~= ps@);
    (cur, v)
}

pub fn push_out_y_one(b: Rect, vy: i64, g: bool, p: &Rect) -> (r: (Rect, i64, bool))
    requires
        within(b, reach()),
        p.fits(),
    ensures
        r == push_out_y(b, vy, g, *p),
        within(r.0, reach()),
{
    if overlaps(&b, p) {
        if vy > 0 {
            (Rect { y: p.y - b.height, ..b }, 0, true)
        } else if vy < 0 {
            (Rect { y: p.y + p.height, ..b }, 0, g)
        } else {
            (b, vy, g)
        }
    } else {
        (b, vy, g)
    }
}

/// Vertical collision pass over all platforms; the body starts ungrounded.
pub fn resolve_vertical(b: Rect, vy: i64, ps: &Vec<Rect>) -> (r: (Rect, i64, bool))
    requires
        within(b, reach()),
        platforms_fit(ps@),
    ensures
        r == resolve_y_spec(b, vy, false, ps@),
        within(r.0, reach()),
{
    let mut cur = b;
    let mut v = vy;
    let mut g = false;
    let mut i: usize = 0;
    while i < ps.len()
        invariant
            i <= ps.len(),
            platforms_fit(ps@),
            within(cur, reach()),
            (cur, v, g) == resolve_y_spec(b, vy, false, ps@.take(i as int)),
        decreases ps.len() - i,
    {
        assert(ps@.take(i + 1).drop_last() =~= ps@.take(i as int));
        assert(ps@[i as int].fits());
        let (c1, v1, g1) = push_out_y_one(cur, v, g, &ps[i]);
        cur = c1;
        v = v1;
        g = g1;
        i += 1;
    }
    assert(ps@.take(ps.len() as int) =~= ps@);
    (cur, v, g)
}

/// Landing pass for a falling body over all platforms.
pub fn land(b: Rect, vy: i64, ps: &Vec<Rect>) -> (r: (Rect, i64))
    requires
        within(b, reach()),
        platforms_fit(ps@),
    ensures
        r == land_spec(b, vy, ps@),
        within(r.0, reach()),
{
    let mut cur = b;
    let mut v = vy;
    let mut i: usize = 0;
    while i < ps.len()
        invariant
            i <= ps.len(),
            platforms_fit(ps@),
            within(cur, reach()),
            (cur, v) == land_spec(b, vy, ps@.take(i as int)),
        decreases ps.len() - i,
    {
        assert(ps@.take(i + 1).drop_last() =~= ps@.take(i as int));
        assert(ps@[i as int].fits());
        let p = &ps[i];
        if overlaps(&cur, p) && v > 0 {
            cur = Rect { y: p.y - cur.height, ..cur };
            v = 0;
        }
        i += 1;
    }
    assert(ps@.take(ps.len() as int) =~= ps@);
    (cur, v)
}

/// Edge-detection pass: the patrol direction after checking every platform
/// the body stands on.
pub fn turn(b: Rect, dir: i64, ps: &Vec<Rect>) -> (r: i64)
    requires
        within(b, reach()),
        platforms_fit(ps@),
        dir == 1 || dir == -1,
    ensures
        r == turn_spec(b, dir, ps@),
        r == 1 || r == -1,
{
    let mut d = dir;
    let mut i: usize = 0;
    while i < ps.len()
        invariant
            i <= ps.len(),
            platforms_fit(ps@),
            within(b, reach()),
            d == 1 || d == -1,
            d == turn_spec(b, dir, ps@.take(i as int)),
        decreases ps.len() - i,
    {
        assert(ps@.take(i + 1).drop_last() =~= ps@.take(i as int));
        assert(ps@[i as int].fits());
        let p = &ps[i];
        if b.x + b.width > p.x && b.x < p.x + p.width && b.y + b.height >= p.y && b.y + b.height
            <= p.y + STAND_TOLERANCE {
            if d > 0 && b.x + b.width >= p.x + p.width {
                d = -1;
            } else if d < 0 && b.x <= p.x {
                d = 1;
            }
        }
        i += 1;
    }
    assert(ps@.take(ps.len() as int) =~= ps@);
    d
}

/// A falling body that overlaps a platform ends with its bottom on the
/// platform's top, at rest and grounded.
pub proof fn lemma_falling_body_lands(b: Rect, vy: i64, grounded: bool, p: Rect)
    requires
        overlaps_spec(b, p),
        vy > 0,
        within(b, reach()),
        p.fits(),
    ensures
        push_out_y(b, vy, grounded, p).0.bottom() == p.top(),
        push_out_y(b, vy, grounded, p).1 == 0,
        push_out_y(b, vy, grounded, p).2,
        land_on(b, vy, p).0.bottom() == p.top(),
        land_on(b, vy, p).1 == 0,
{
}

} // verus!
