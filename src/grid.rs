use vstd::prelude::*;

use crate::triangulation::PolygonGeometry;

verus! {

/// The largest magnitude the exact tests multiply: coordinates and their differences
/// stay well below it.
pub const PRODUCT_BOUND: i128 = 0x1_0000_0000_0000;

/// A polygon whose points lie on an integer grid, tested exactly. A position past the
/// last point stands for the origin.
pub struct GridPolygon {
    pub points: Vec<(i32, i32)>,
}

/// Twice the signed area of triangle `t0`, `t1`, `t2`: positive when it winds
/// counter-clockwise.
pub open spec fn double_area(t0: (int, int), t1: (int, int), t2: (int, int)) -> int {
    -(t1.1 * t2.0) + t0.1 * (-t1.0 + t2.0) + t0.0 * (t1.1 - t2.1) + t1.0 * t2.1
}

/// The corner at `b`, coming from `a` and going to `c`, turns left.
pub open spec fn turns_left(a: (int, int), b: (int, int), c: (int, int)) -> bool {
    (b.0 - a.0) * (c.1 - b.1) - (c.0 - b.0) * (b.1 - a.1) > 0
}

/// `p` lies in triangle `t0`, `t1`, `t2` or on its edges, by barycentric coordinates
/// whose signs follow the triangle's own winding.
pub open spec fn in_triangle(p: (int, int), t0: (int, int), t1: (int, int), t2: (int, int)) -> bool {
    let d = double_area(t0, t1, t2);
    let s0 = t0.1 * t2.0 - t0.0 * t2.1 + (t2.1 - t0.1) * p.0 + (t0.0 - t2.0) * p.1;
    let t0_ = t0.0 * t1.1 - t0.1 * t1.0 + (t0.1 - t1.1) * p.0 + (t1.0 - t0.0) * p.1;
    let s = if d < 0 { -s0 } else { s0 };
    let t = if d < 0 { -t0_ } else { t0_ };
    let area = if d < 0 { -d } else { d };
    s >= 0 && t >= 0 && s + t <= area
}

fn product(x: i128, y: i128) -> (r: i128)
    requires
        -PRODUCT_BOUND <= x <= PRODUCT_BOUND,
        -PRODUCT_BOUND <= y <= PRODUCT_BOUND,
    ensures
        r == x * y,
        -PRODUCT_BOUND * PRODUCT_BOUND <= r <= PRODUCT_BOUND * PRODUCT_BOUND,
{
    proof {
        assert(-PRODUCT_BOUND * PRODUCT_BOUND <= x * y <= PRODUCT_BOUND * PRODUCT_BOUND)
            by (nonlinear_arith)
            requires
                -PRODUCT_BOUND <= x <= PRODUCT_BOUND,
                -PRODUCT_BOUND <= y <= PRODUCT_BOUND,
        ;
    }
    x * y
}

impl GridPolygon {
    /// Point `i` as integers.
    pub open spec fn point_at(&self, i: usize) -> (int, int) {
        if i < self.points@.len() {
            (self.points@[i as int].0 as int, self.points@[i as int].1 as int)
        } else {
            (0, 0)
        }
    }

    fn point(&self, i: usize) -> (r: (i128, i128))
        ensures
            r.0 == self.point_at(i).0,
            r.1 == self.point_at(i).1,
    {
        if i < self.points.len() {
            (self.points[i].0 as i128, self.points[i].1 as i128)
        } else {
            (0, 0)
        }
    }
}

impl PolygonGeometry for GridPolygon {
    open spec fn convex_spec(&self, before: usize, current: usize, after: usize) -> bool {
        turns_left(self.point_at(before), self.point_at(current), self.point_at(after))
    }

    open spec fn inside_spec(&self, p: usize, a: usize, b: usize, c: usize) -> bool {
        in_triangle(self.point_at(p), self.point_at(a), self.point_at(b), self.point_at(c))
    }

    fn is_convex_corner(&self, before: usize, current: usize, after: usize) -> (r: bool) {
        let a = self.point(before);
        let b = self.point(current);
        let c = self.point(after);
        product(b.0 - a.0, c.1 - b.1) - product(c.0 - b.0, b.1 - a.1) > 0
    }

    fn point_in_triangle(&self, p: usize, a: usize, b: usize, c: usize) -> (r: bool) {
        let p = self.point(p);
        let t0 = self.point(a);
        let t1 = self.point(b);
        let t2 = self.point(c);
        let d = -product(t1.1, t2.0) + product(t0.1, -t1.0 + t2.0) + product(t0.0, t1.1 - t2.1) + product(
            t1.0,
            t2.1,
        );
        let s0 = product(t0.1, t2.0) - product(t0.0, t2.1) + product(t2.1 - t0.1, p.0) + product(t0.0 - t2.0, p.1);
        let t0_ = product(t0.0, t1.1) - product(t0.1, t1.0) + product(t0.1 - t1.1, p.0) + product(t1.0 - t0.0, p.1);
        let s = if d < 0 { -s0 } else { s0 };
        let t = if d < 0 { -t0_ } else { t0_ };
        let area = if d < 0 { -d } else { d };
        s >= 0 && t >= 0 && s + t <= area
    }
}

} // verus!
