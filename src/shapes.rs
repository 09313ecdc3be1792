use vstd::prelude::*;

verus! {

/// The two triangles of a rectangle whose corners run top-left, top-right,
/// bottom-right, bottom-left.
pub fn rectangle_indices() -> (r: Vec<u16>)
    ensures
        r@ == seq![0u16, 1, 3, 1, 3, 2],
{
    vec![0, 1, 3, 1, 3, 2]
}

/// The texture coordinates (u, v) of a rectangle's corners, in the order of its
/// vertices: the texture covers it once, v growing downwards.
pub fn rectangle_texture_corners() -> (r: Vec<(u8, u8)>)
    ensures
        r@ == seq![(0u8, 0u8), (1u8, 0u8), (1u8, 1u8), (0u8, 1u8)],
{
    vec![(0, 0), (1, 0), (1, 1), (0, 1)]
}

/// The one triangle of a triangle.
pub fn triangle_indices() -> (r: Vec<u16>)
    ensures
        r@ == seq![0u16, 1, 2],
{
    vec![0, 1, 2]
}

/// The two triangles of a line segment's quad, whose corners are the start pushed to
/// one side, the start pushed to the other, the end on that other side, and the end
/// on the first side.
pub fn line_indices() -> (r: Vec<u16>)
    ensures
        r@ == seq![0u16, 1, 2, 2, 3, 0],
{
    vec![0, 1, 2, 2, 3, 0]
}

/// A shape that gives itself a flat color draws with no texture: a texture named
/// beside a color is dropped.
pub fn texture_for_filled_shape(texture: Option<String>, has_color: bool) -> (r: Option<String>)
    ensures
        has_color ==> r is None,
        !has_color ==> r == texture,
{
    if has_color {
        None
    } else {
        texture
    }
}

/// The indices that a strip segment whose quad starts at vertex `v` adds: its own
/// quad, and, after the first segment, the quad that joins it to the segment before
/// (whose last two vertices are `v - 2` and `v - 1`).
pub open spec fn segment_indices(v: int) -> Seq<u16> {
    let quad = seq![v as u16, (v + 1) as u16, (v + 2) as u16, (v + 2) as u16, (v + 3) as u16, v as u16];
    if v >= 4 {
        quad + seq![(v - 1) as u16, (v - 2) as u16, (v + 1) as u16, (v + 1) as u16, v as u16, (v - 1) as u16]
    } else {
        quad
    }
}

/// The indices of a strip of `k` segments, four vertices each, in order.
pub open spec fn strip_indices(k: nat) -> Seq<u16>
    decreases k,
{
    if k == 0 {
        Seq::empty()
    } else {
        strip_indices((k - 1) as nat) + segment_indices(4 * (k - 1))
    }
}

/// Appends the indices of a strip segment whose four vertices start at `first_vertex`.
pub fn push_segment_indices(indices: &mut Vec<u16>, first_vertex: u16)
    requires
        first_vertex as int + 3 <= u16::MAX,
    ensures
        final(indices)@ == old(indices)@ + segment_indices(first_vertex as int),
{
    let v = first_vertex;
    indices.push(v);
    indices.push(v + 1);
    indices.push(v + 2);
    indices.push(v + 2);
    indices.push(v + 3);
    indices.push(v);
    if v >= 4 {
        indices.push(v - 1);
        indices.push(v - 2);
        indices.push(v + 1);
        indices.push(v + 1);
        indices.push(v);
        indices.push(v - 1);
    }
    assert(final(indices)@ =~= old(indices)@ + segment_indices(first_vertex as int));
}

proof fn lemma_strip_indices_shape(k: nat)
    requires
        4 * k <= 65536,
    ensures
        strip_indices(k).len() == if k == 0 { 0 } else { 12 * k - 6 },
        forall|i: int| 0 <= i < strip_indices(k).len() ==> strip_indices(k)[i] < 4 * k,
    decreases k,
{
    if k > 0 {
        let k1 = (k - 1) as nat;
        lemma_strip_indices_shape(k1);
        let prev = strip_indices(k1);
        let seg = segment_indices(4 * k1 as int);
        assert forall|i: int| 0 <= i < strip_indices(k).len() implies strip_indices(k)[i] < 4 * k by {
            if i < prev.len() {
                assert(strip_indices(k)[i] == prev[i]);
            } else {
                assert(strip_indices(k)[i] == seg[i - prev.len()]);
            }
        }
    }
}

/// The indices of a line strip through `point_count` points: a quad for each
/// consecutive pair, and a joining quad between consecutive segments.
pub fn line_strip_indices(point_count: usize) -> (r: Vec<u16>)
    requires
        point_count >= 2,
        4 * (point_count - 1) <= 65536,
    ensures
        r@ == strip_indices((point_count - 1) as nat),
        r@.len() == 12 * (point_count - 1) - 6,
        forall|i: int| 0 <= i < r@.len() ==> r@[i] < 4 * (point_count - 1),
{
    let mut r: Vec<u16> = Vec::new();
    let mut s: usize = 0;
    while s + 1 < point_count
        invariant
            s + 1 <= point_count,
            4 * (point_count - 1) <= 65536,
            r@ == strip_indices(s as nat),
        decreases point_count - s,
    {
        push_segment_indices(&mut r, (4 * s) as u16);
        assert(strip_indices((s + 1) as nat) == strip_indices(s as nat) + segment_indices(4 * s));
        s = s + 1;
    }
    proof {
        lemma_strip_indices_shape((point_count - 1) as nat);
    }
    r
}

} // verus!
