use shape_batch::grid::GridPolygon;
use shape_batch::triangulation::{ear_clipping, PolygonGeometry, TriangulationError};

struct Points(Vec<(f32, f32)>);

impl PolygonGeometry for Points {
    fn convex_spec(&self, before: usize, current: usize, after: usize) -> bool {
        self.is_convex_corner(before, current, after)
    }

    fn inside_spec(&self, p: usize, a: usize, b: usize, c: usize) -> bool {
        self.point_in_triangle(p, a, b, c)
    }

    fn is_convex_corner(&self, before: usize, current: usize, after: usize) -> bool {
        let (a, b, c) = (self.0[before], self.0[current], self.0[after]);
        (b.0 - a.0) * (c.1 - b.1) - (c.0 - b.0) * (b.1 - a.1) > 0.0
    }

    fn point_in_triangle(&self, p: usize, a: usize, b: usize, c: usize) -> bool {
        let (p, t0, t1, t2) = (self.0[p], self.0[a], self.0[b], self.0[c]);
        let double_area = -t1.1 * t2.0 + t0.1 * (-t1.0 + t2.0) + t0.0 * (t1.1 - t2.1) + t1.0 * t2.1;
        let sign = double_area.signum();
        let s = sign * (t0.1 * t2.0 - t0.0 * t2.1 + (t2.1 - t0.1) * p.0 + (t0.0 - t2.0) * p.1);
        if s < 0.0 {
            return false;
        }
        let t = sign * (t0.0 * t1.1 - t0.1 * t1.0 + (t0.1 - t1.1) * p.0 + (t1.0 - t0.0) * p.1);
        if t < 0.0 {
            return false;
        }
        s + t <= double_area.abs()
    }
}

fn polygon_area(pts: &[(f32, f32)]) -> f32 {
    let n = pts.len();
    let mut sum = 0.0;
    for i in 0..n {
        let (a, b) = (pts[i], pts[(i + 1) % n]);
        sum += a.0 * b.1 - b.0 * a.1;
    }
    sum.abs() / 2.0
}

fn triangles_area(pts: &[(f32, f32)], indices: &[u16]) -> f32 {
    indices
        .chunks(3)
        .map(|t| {
            let (a, b, c) = (pts[t[0] as usize], pts[t[1] as usize], pts[t[2] as usize]);
            ((b.0 - a.0) * (c.1 - a.1) - (c.0 - a.0) * (b.1 - a.1)).abs() / 2.0
        })
        .sum()
}

fn regular(n: usize) -> Vec<(f32, f32)> {
    (0..n)
        .map(|i| {
            let a = 2.0 * std::f32::consts::PI * i as f32 / n as f32;
            (a.cos(), a.sin())
        })
        .collect()
}

fn check_triangulation(pts: Vec<(f32, f32)>) {
    let n = pts.len();
    let geometry = Points(pts.clone());
    let indices = ear_clipping(&geometry, n).expect("a convex polygon has ears");
    assert_eq!(indices.len(), 3 * (n - 2));
    for p in 0..n {
        assert!(indices.contains(&(p as u16)));
    }
    assert!(indices.iter().all(|&i| (i as usize) < n));
    assert!((triangles_area(&pts, &indices) - polygon_area(&pts)).abs() < 1e-4);
}

#[test]
fn triangle_is_taken_as_is() {
    let g = Points(vec![(0.0, 0.0), (1.0, 0.0), (0.0, 1.0)]);
    assert_eq!(ear_clipping(&g, 3), Ok(vec![0, 1, 2]));
}

#[test]
fn quad_is_split_along_the_fixed_diagonal() {
    let g = Points(vec![(-0.5, -0.5), (0.5, -0.5), (0.5, 0.5), (-0.5, 0.5)]);
    assert_eq!(ear_clipping(&g, 4), Ok(vec![0, 1, 3, 1, 2, 3]));
}

#[test]
fn quad_split_ignores_the_winding() {
    let g = Points(vec![(-0.5, 0.5), (0.5, 0.5), (0.5, -0.5), (-0.5, -0.5)]);
    assert_eq!(ear_clipping(&g, 4), Ok(vec![0, 1, 3, 1, 2, 3]));
}

#[test]
fn convex_pentagon_gives_three_triangles() {
    check_triangulation(regular(5));
}

#[test]
fn convex_polygons_give_n_minus_two_triangles() {
    for n in 5..20 {
        check_triangulation(regular(n));
    }
}

#[test]
fn first_ear_of_a_pentagon_is_clipped_first() {
    let g = Points(regular(5));
    let indices = ear_clipping(&g, 5).unwrap();
    assert_eq!(&indices[0..3], &[4, 0, 1]);
    assert_eq!(&indices[3..], &[1, 2, 4, 2, 3, 4]);
}

#[test]
fn concave_star_is_triangulated() {
    let pts = vec![
        (0.00, 1.00),
        (-0.24, 0.31),
        (-1.00, 0.31),
        (-0.38, -0.10),
        (-0.62, -0.79),
        (0.00, -0.36),
        (0.62, -0.79),
        (0.38, -0.10),
        (1.00, 0.31),
        (0.24, 0.31),
    ];
    check_triangulation(pts);
}

#[test]
fn too_few_points_is_an_error() {
    let g = Points(vec![(0.0, 0.0), (1.0, 0.0)]);
    assert_eq!(ear_clipping(&g, 2), Err(TriangulationError::TooFewPoints));
    assert_eq!(ear_clipping(&g, 0), Err(TriangulationError::TooFewPoints));
}

#[test]
fn clockwise_polygon_has_no_ear() {
    let mut pts = regular(6);
    pts.reverse();
    let g = Points(pts);
    assert_eq!(ear_clipping(&g, 6), Err(TriangulationError::NoEar { remaining: 6 }));
}

fn grid(points: &[(i32, i32)]) -> GridPolygon {
    GridPolygon { points: points.to_vec() }
}

#[test]
fn grid_corner_tests_are_exact() {
    let g = grid(&[(0, 0), (10, 0), (0, 10)]);
    assert!(g.is_convex_corner(0, 1, 2));
    assert!(!g.is_convex_corner(2, 1, 0));
    assert!(g.point_in_triangle(0, 0, 1, 2));
    let h = grid(&[(0, 0), (10, 0), (0, 10), (3, 3), (9, 9)]);
    assert!(h.point_in_triangle(3, 0, 1, 2));
    assert!(!h.point_in_triangle(4, 0, 1, 2));
    assert!(h.point_in_triangle(3, 2, 1, 0));
}

#[test]
fn convex_grid_hexagon_gives_four_triangles() {
    let g = grid(&[(2, 0), (4, 0), (6, 2), (4, 4), (2, 4), (0, 2)]);
    let v = ear_clipping(&g, 6).unwrap();
    assert_eq!(v, vec![5, 0, 1, 5, 1, 2, 2, 3, 5, 3, 4, 5]);
}

#[test]
fn concave_grid_star_is_triangulated() {
    let g = grid(&[
        (0, 100),
        (-24, 31),
        (-100, 31),
        (-38, -10),
        (-62, -79),
        (0, -36),
        (62, -79),
        (38, -10),
        (100, 31),
        (24, 31),
    ]);
    let v = ear_clipping(&g, 10).unwrap();
    assert_eq!(v.len(), 24);
    for p in 0..10u16 {
        assert!(v.contains(&p));
    }
}

#[test]
fn clockwise_grid_pentagon_has_no_ear() {
    let g = grid(&[(0, 0), (0, 10), (10, 20), (20, 10), (20, 0)]);
    assert_eq!(ear_clipping(&g, 5), Err(TriangulationError::NoEar { remaining: 5 }));
}
