use vstd::prelude::*;

verus! {

/// The geometric tests that ear clipping asks of a polygon, whose points it names by
/// their position in the polygon's point list. Each test answers as a function of its
/// arguments alone.
pub trait PolygonGeometry {
    /// The corner at `current`, coming from `before` and going on to `after`, turns
    /// the way the polygon winds (counter-clockwise), so it can be the tip of an ear.
    spec fn convex_spec(&self, before: usize, current: usize, after: usize) -> bool;

    /// Point `p` lies inside the triangle `a`, `b`, `c` or on its edges.
    spec fn inside_spec(&self, p: usize, a: usize, b: usize, c: usize) -> bool;

    fn is_convex_corner(&self, before: usize, current: usize, after: usize) -> (r: bool)
        ensures
            r == self.convex_spec(before, current, after),
    ;

    fn point_in_triangle(&self, p: usize, a: usize, b: usize, c: usize) -> (r: bool)
        ensures
            r == self.inside_spec(p, a, b, c),
    ;
}

/// The corner at position `i` of polygon `rem` is an ear: it is convex, and no other
/// point of `rem` lies in the triangle it makes with its two neighbours.
pub open spec fn is_ear_at<G: PolygonGeometry>(g: &G, rem: Seq<usize>, i: int) -> bool {
    let len = rem.len() as int;
    let b = rem[if i == 0 { len - 1 } else { i - 1 }];
    let c = rem[i];
    let a = rem[if i + 1 == len { 0 } else { i + 1 }];
    &&& 0 <= i < len
    &&& g.convex_spec(b, c, a)
    &&& forall|j: int|
        0 <= j < len && rem[j] != b && rem[j] != c && rem[j] != a ==> !g.inside_spec(
            #[trigger] rem[j],
            b,
            c,
            a,
        )
}

/// Position `i` holds the first ear of polygon `rem`.
pub open spec fn is_first_ear<G: PolygonGeometry>(g: &G, rem: Seq<usize>, i: int) -> bool {
    &&& is_ear_at(g, rem, i)
    &&& forall|j: int| 0 <= j < i ==> !is_ear_at(g, rem, j)
}

/// Polygon `rem` has no ear.
pub open spec fn has_no_ear<G: PolygonGeometry>(g: &G, rem: Seq<usize>) -> bool {
    forall|j: int| 0 <= j < rem.len() ==> !is_ear_at(g, rem, j)
}

/// Each step of `order` clipped the first ear of what was left of the `n`-gon.
pub open spec fn clips_first_ears<G: PolygonGeometry>(g: &G, n: nat, order: Seq<int>) -> bool {
    forall|k: int|
        0 <= k < order.len() ==> is_first_ear(
            g,
            clipped_polygon(whole_polygon(n), order.take(k)),
            #[trigger] order[k],
        )
}

/// Why a polygon could not be cut into triangles.
#[derive(Debug, Clone, Copy, PartialEq, Eq, Structural)]
pub enum TriangulationError {
    /// A polygon needs at least three points.
    TooFewPoints,
    /// No ear was left to clip while `remaining` points were still uncut; the input
    /// was not a simple polygon wound counter-clockwise.
    NoEar { remaining: usize },
}

/// Every index of `v` names one of the `n` points.
pub open spec fn indices_below(v: Seq<u16>, n: nat) -> bool {
    forall|i: int| 0 <= i < v.len() ==> v[i] < n
}

/// Each of the `n` points is a corner of some triangle of `v`.
pub open spec fn covers_all(v: Seq<u16>, n: nat) -> bool {
    forall|p: u16| (p as nat) < n ==> #[trigger] v.contains(p)
}

/// Each triangle of `v` has three different corners.
pub open spec fn corners_distinct(v: Seq<u16>) -> bool {
    forall|t: int|
        0 <= t < v.len() / 3 ==> {
            &&& #[trigger] v[3 * t] != v[3 * t + 1]
            &&& v[3 * t + 1] != v[3 * t + 2]
            &&& v[3 * t] != v[3 * t + 2]
        }
}

/// `v` lists the `n - 2` triangles of an `n`-gon, three indices each, with every point
/// used and no triangle degenerate in its indices.
pub open spec fn is_triangle_list_of(v: Seq<u16>, n: nat) -> bool {
    &&& n >= 3
    &&& v.len() == 3 * (n - 2)
    &&& indices_below(v, n)
    &&& covers_all(v, n)
    &&& corners_distinct(v)
}

/// The triangle of the corner at position `i` of polygon `rem`: the corner between
/// its two neighbours.
pub open spec fn corner_triangle(rem: Seq<usize>, i: int) -> Seq<u16> {
    let len = rem.len() as int;
    let before = if i == 0 { len - 1 } else { i - 1 };
    let after = if i + 1 == len { 0 } else { i + 1 };
    seq![rem[before] as u16, rem[i] as u16, rem[after] as u16]
}

/// The polygon left of `rem` once the corners at positions `order` are clipped in
/// turn.
pub open spec fn clipped_polygon(rem: Seq<usize>, order: Seq<int>) -> Seq<usize>
    decreases order.len(),
{
    if order.len() == 0 {
        rem
    } else {
        clipped_polygon(rem, order.drop_last()).remove(order.last())
    }
}

/// The triangles cut off while clipping the corners at positions `order` in turn.
pub open spec fn ear_triangles(rem: Seq<usize>, order: Seq<int>) -> Seq<u16>
    decreases order.len(),
{
    if order.len() == 0 {
        Seq::empty()
    } else {
        ear_triangles(rem, order.drop_last()) + corner_triangle(
            clipped_polygon(rem, order.drop_last()),
            order.last(),
        )
    }
}

/// The last triangle, or the last quad split along the diagonal from its second to
/// its fourth corner.
pub open spec fn closing_triangles(rem: Seq<usize>) -> Seq<u16> {
    if rem.len() == 4 {
        seq![rem[0] as u16, rem[1] as u16, rem[3] as u16, rem[1] as u16, rem[2] as u16, rem[3] as u16]
    } else {
        seq![rem[0] as u16, rem[1] as u16, rem[2] as u16]
    }
}

/// The polygon of points `0 .. n` in order.
pub open spec fn whole_polygon(n: nat) -> Seq<usize> {
    Seq::new(n, |i: int| i as usize)
}

/// `order` clips an `n`-gon down to a quad, one corner of the polygon left at each step.
pub open spec fn is_clip_order(n: nat, order: Seq<int>) -> bool {
    &&& order.len() == if n > 4 { n - 4 } else { 0 }
    &&& forall|k: int| 0 <= k < order.len() ==> 0 <= #[trigger] order[k] < n - k
}

/// `v` is what clipping the first ear of an `n`-gon, again and again down to a quad,
/// gives.
pub open spec fn is_ear_clipping_of<G: PolygonGeometry>(g: &G, v: Seq<u16>, n: nat) -> bool {
    exists|order: Seq<int>|
        #![trigger is_clip_order(n, order)]
        is_clip_order(n, order) && clips_first_ears(g, n, order) && v == ear_triangles(
            whole_polygon(n),
            order,
        ) + closing_triangles(clipped_polygon(whole_polygon(n), order))
}

/// Clipping first ears from an `n`-gon left `remaining` points, and no ear among them.
pub open spec fn stuck_after_clipping<G: PolygonGeometry>(g: &G, n: nat, remaining: nat) -> bool {
    exists|order: Seq<int>|
        #![trigger clipped_polygon(whole_polygon(n), order)]
        order.len() + remaining == n && (forall|k: int|
            0 <= k < order.len() ==> 0 <= #[trigger] order[k] < n - k) && clips_first_ears(
            g,
            n,
            order,
        ) && has_no_ear(g, clipped_polygon(whole_polygon(n), order))
}

/// No value occurs twice in `s`.
pub open spec fn all_distinct(s: Seq<usize>) -> bool {
    forall|i: int, j: int| 0 <= i < s.len() && 0 <= j < s.len() && i != j ==> s[i] != s[j]
}

/// What the clipping loop keeps true: `remaining` is the uncut polygon, `result` the
/// triangles cut off so far, and every point is in one or the other.
pub open spec fn clipping_state(remaining: Seq<usize>, result: Seq<u16>, n: nat) -> bool {
    &&& 3 <= remaining.len() <= n
    &&& all_distinct(remaining)
    &&& forall|i: int| 0 <= i < remaining.len() ==> remaining[i] < n
    &&& result.len() == 3 * (n - remaining.len())
    &&& indices_below(result, n)
    &&& corners_distinct(result)
    &&& forall|p: u16| (p as nat) < n ==> remaining.contains(p as usize) || #[trigger] result.contains(p)
}

/// Cutting off the ear at position `i` of the uncut polygon keeps the loop's state.
proof fn lemma_clip_ear(remaining: Seq<usize>, result: Seq<u16>, n: nat, i: int)
    requires
        clipping_state(remaining, result, n),
        remaining.len() > 4,
        n <= 65536,
        0 <= i < remaining.len(),
    ensures
        ({
            let len = remaining.len() as int;
            let before = if i == 0 { len - 1 } else { i - 1 };
            let after = if i + 1 == len { 0 } else { i + 1 };
            clipping_state(
                remaining.remove(i),
                result.push(remaining[before] as u16).push(remaining[i] as u16).push(
                    remaining[after] as u16,
                ),
                n,
            )
        }),
{
    let len = remaining.len() as int;
    let before = if i == 0 { len - 1 } else { i - 1 };
    let after = if i + 1 == len { 0 } else { i + 1 };
    let rem = remaining.remove(i);
    let res = result.push(remaining[before] as u16).push(remaining[i] as u16).push(
        remaining[after] as u16,
    );
    remaining.remove_ensures(i);
    assert(res.len() == result.len() + 3);
    assert forall|a: int, b: int| 0 <= a < rem.len() && 0 <= b < rem.len() && a != b implies rem[a]
        != rem[b] by {
        let a0 = if a < i { a } else { a + 1 };
        let b0 = if b < i { b } else { b + 1 };
        assert(rem[a] == remaining[a0]);
        assert(rem[b] == remaining[b0]);
    }
    assert forall|k: int| 0 <= k < res.len() implies res[k] < n by {
        if k < result.len() {
            assert(res[k] == result[k]);
        }
    }
    assert forall|t: int| 0 <= t < res.len() / 3 implies {
        &&& #[trigger] res[3 * t] != res[3 * t + 1]
        &&& res[3 * t + 1] != res[3 * t + 2]
        &&& res[3 * t] != res[3 * t + 2]
    } by {
        if t < result.len() / 3 {
            assert(res[3 * t] == result[3 * t]);
            assert(res[3 * t + 1] == result[3 * t + 1]);
            assert(res[3 * t + 2] == result[3 * t + 2]);
        } else {
            assert(t == result.len() / 3);
            assert(remaining[before] != remaining[i]);
            assert(remaining[i] != remaining[after]);
            assert(remaining[before] != remaining[after]);
        }
    }
    assert forall|p: u16| (p as nat) < n implies rem.contains(p as usize) || res.contains(
        p,
    ) by {
        if result.contains(p) {
            let k = choose|k: int| 0 <= k < result.len() && result[k] == p;
            assert(res[k] == p);
        } else {
            assert(remaining.contains(p as usize));
            let j = choose|j: int| 0 <= j < remaining.len() && remaining[j] == p as usize;
            if j < i {
                assert(rem[j] == p as usize);
            } else if j > i {
                assert(rem[j - 1] == p as usize);
            } else {
                assert(res[result.len() as int + 1] == p);
            }
        }
    }
}

/// The position, in the uncut polygon `remaining`, of the first corner that is an
/// ear: convex, with no other uncut point in its triangle.
fn find_ear<G: PolygonGeometry>(geometry: &G, remaining: &Vec<usize>) -> (r: Option<usize>)
    requires
        remaining@.len() >= 3,
    ensures
        match r {
            Some(i) => is_first_ear(geometry, remaining@, i as int),
            None => has_no_ear(geometry, remaining@),
        },
{
    let len = remaining.len();
    let ghost rem = remaining@;
    let mut i: usize = 0;
    while i < len
        invariant
            len == rem.len(),
            rem == remaining@,
            len >= 3,
            i <= len,
            forall|j: int| 0 <= j < i ==> !is_ear_at(geometry, rem, j),
        decreases len - i,
    {
        let before = if i == 0 { remaining[len - 1] } else { remaining[i - 1] };
        let current = remaining[i];
        let after = if i + 1 == len { remaining[0] } else { remaining[i + 1] };
        if geometry.is_convex_corner(before, current, after) {
            let mut is_ear = true;
            let mut j: usize = 0;
            while j < len && is_ear
                invariant
                    len == rem.len(),
                    rem == remaining@,
                    j <= len,
                    is_ear <==> forall|j2: int|
                        0 <= j2 < j && rem[j2] != before && rem[j2] != current && rem[j2] != after
                            ==> !geometry.inside_spec(#[trigger] rem[j2], before, current, after),
                decreases len - j,
            {
                let q = remaining[j];
                if q != before && q != current && q != after && geometry.point_in_triangle(
                    q,
                    before,
                    current,
                    after,
                ) {
                    is_ear = false;
                }
                j = j + 1;
            }
            if is_ear {
                return Some(i);
            }
        }
        i = i + 1;
    }
    None
}

/// Cuts a simple polygon of `point_count` points, wound counter-clockwise, into
/// triangles by clipping ears: three indices per triangle. A triangle is taken as it
/// is, and a quad is split along its diagonal from the second to the fourth point.
#[verifier::rlimit(60)]
pub fn ear_clipping<G: PolygonGeometry>(geometry: &G, point_count: usize) -> (r: Result<
    Vec<u16>,
    TriangulationError,
>)
    requires
        point_count <= 65536,
    ensures
        point_count < 3 <==> r == Err::<Vec<u16>, TriangulationError>(
            TriangulationError::TooFewPoints,
        ),
        point_count == 3 ==> (r matches Ok(v) && v@ == seq![0u16, 1, 2]),
        point_count == 4 ==> (r matches Ok(v) && v@ == seq![0u16, 1, 3, 1, 2, 3]),
        match r {
            Ok(v) => is_triangle_list_of(v@, point_count as nat) && is_ear_clipping_of(
                geometry,
                v@,
                point_count as nat,
            ),
            Err(TriangulationError::NoEar { remaining }) => 4 < remaining <= point_count
                && stuck_after_clipping(geometry, point_count as nat, remaining as nat),
            Err(TriangulationError::TooFewPoints) => true,
        },
{
    if point_count < 3 {
        return Err(TriangulationError::TooFewPoints);
    }
    let n = point_count;
    let mut remaining: Vec<usize> = Vec::new();
    let mut k: usize = 0;
    while k < n
        invariant
            k <= n,
            remaining@.len() == k,
            forall|i: int| 0 <= i < k ==> remaining@[i] == i,
        decreases n - k,
    {
        remaining.push(k);
        k = k + 1;
    }
    let mut result: Vec<u16> = Vec::new();
    let ghost order: Seq<int> = Seq::empty();
    assert(remaining@ =~= whole_polygon(n as nat));
    assert forall|p: u16| (p as nat) < n implies remaining@.contains(p as usize) || result@.contains(
        p,
    ) by {
        assert(remaining@[p as int] == p as usize);
    }
    while remaining.len() > 4
        invariant
            n == point_count,
            n <= 65536,
            n >= 3,
            clipping_state(remaining@, result@, n as nat),
            n <= 4 ==> forall|i: int| 0 <= i < n ==> remaining@[i] == i,
            n <= 4 ==> remaining@.len() == n,
            n > 4 ==> remaining@.len() >= 4,
            remaining@ == clipped_polygon(whole_polygon(n as nat), order),
            result@ == ear_triangles(whole_polygon(n as nat), order),
            order.len() == n - remaining@.len(),
            forall|k: int| 0 <= k < order.len() ==> 0 <= #[trigger] order[k] < n - k,
            clips_first_ears(geometry, n as nat, order),
        decreases remaining@.len(),
    {
        let len = remaining.len();
        match find_ear(geometry, &remaining) {
            None => {
                    return Err(TriangulationError::NoEar { remaining: len });
            },
            Some(i) => {
                let before = if i == 0 { remaining[len - 1] } else { remaining[i - 1] };
                let after = if i + 1 == len { remaining[0] } else { remaining[i + 1] };
                proof {
                    lemma_clip_ear(remaining@, result@, n as nat, i as int);
                }
                let ghost old_order = order;
                let ghost old_remaining = remaining@;
                let current = remaining.remove(i);
                result.push(before as u16);
                result.push(current as u16);
                result.push(after as u16);
                proof {
                    lemma_clip_first_ear(geometry, n as nat, old_order, i as int);
                    order = order.push(i as int);
                    assert(result@ =~= ear_triangles(whole_polygon(n as nat), old_order)
                        + corner_triangle(old_remaining, i as int));
                }
            },
        }
    }
    let ghost rem = remaining@;
    let ghost res = result@;
    if remaining.len() == 4 {
        result.push(remaining[0] as u16);
        result.push(remaining[1] as u16);
        result.push(remaining[3] as u16);
        result.push(remaining[1] as u16);
        result.push(remaining[2] as u16);
        result.push(remaining[3] as u16);
    } else {
        result.push(remaining[0] as u16);
        result.push(remaining[1] as u16);
        result.push(remaining[2] as u16);
    }
    proof {
        if rem.len() == 4 {
            assert(result@ =~= res + seq![
                rem[0] as u16,
                rem[1] as u16,
                rem[3] as u16,
                rem[1] as u16,
                rem[2] as u16,
                rem[3] as u16,
            ]);
        } else {
            assert(result@ =~= res + seq![rem[0] as u16, rem[1] as u16, rem[2] as u16]);
        }
        lemma_close_polygon(rem, res, result@, n as nat);
        assert(result@ =~= res + closing_triangles(rem));
        assert(is_clip_order(n as nat, order));
        if n == 3 {
            assert(result@ =~= seq![0u16, 1, 2]);
        }
        if n == 4 {
            assert(result@ =~= seq![0u16, 1, 3, 1, 2, 3]);
        }
    }
    Ok(result)
}

/// Clipping the first ear of what is left extends a run of first-ear clips by one step.
proof fn lemma_clip_first_ear<G: PolygonGeometry>(g: &G, n: nat, order: Seq<int>, i: int)
    requires
        clips_first_ears(g, n, order),
        is_first_ear(g, clipped_polygon(whole_polygon(n), order), i),
    ensures
        clips_first_ears(g, n, order.push(i)),
        clipped_polygon(whole_polygon(n), order.push(i)) == clipped_polygon(
            whole_polygon(n),
            order,
        ).remove(i),
        ear_triangles(whole_polygon(n), order.push(i)) == ear_triangles(whole_polygon(n), order)
            + corner_triangle(clipped_polygon(whole_polygon(n), order), i),
{
    let next = order.push(i);
    assert(next.drop_last() =~= order);
    assert(next.take(order.len() as int) =~= order);
    assert forall|k: int| 0 <= k < next.len() implies is_first_ear(
        g,
        clipped_polygon(whole_polygon(n), next.take(k)),
        #[trigger] next[k],
    ) by {
        if k < order.len() {
            assert(next.take(k) =~= order.take(k));
            assert(next[k] == order[k]);
        }
    }
}

/// A run of first-ear clips that reaches a polygon with no ear is stuck there.
proof fn lemma_stuck<G: PolygonGeometry>(g: &G, n: nat, order: Seq<int>, rem: Seq<usize>)
    requires
        clips_first_ears(g, n, order),
        forall|k: int| 0 <= k < order.len() ==> 0 <= #[trigger] order[k] < n - k,
        rem == clipped_polygon(whole_polygon(n), order),
        order.len() + rem.len() == n,
        has_no_ear(g, rem),
    ensures
        stuck_after_clipping(g, n, rem.len()),
{
}

/// Emitting the last triangle, or the last quad as two triangles, completes the list.
proof fn lemma_close_polygon(rem: Seq<usize>, res: Seq<u16>, out: Seq<u16>, n: nat)
    requires
        clipping_state(rem, res, n),
        rem.len() <= 4,
        n <= 65536,
        rem.len() == 4 ==> out == res + seq![
            rem[0] as u16,
            rem[1] as u16,
            rem[3] as u16,
            rem[1] as u16,
            rem[2] as u16,
            rem[3] as u16,
        ],
        rem.len() == 3 ==> out == res + seq![rem[0] as u16, rem[1] as u16, rem[2] as u16],
    ensures
        is_triangle_list_of(out, n),
{
    let tail = out.subrange(res.len() as int, out.len() as int);
    assert forall|k: int| 0 <= k < out.len() implies out[k] < n by {
        if k < res.len() {
            assert(out[k] == res[k]);
        }
    }
    assert forall|t: int| 0 <= t < out.len() / 3 implies {
        &&& #[trigger] out[3 * t] != out[3 * t + 1]
        &&& out[3 * t + 1] != out[3 * t + 2]
        &&& out[3 * t] != out[3 * t + 2]
    } by {
        if t < res.len() / 3 {
            assert(out[3 * t] == res[3 * t]);
            assert(out[3 * t + 1] == res[3 * t + 1]);
            assert(out[3 * t + 2] == res[3 * t + 2]);
        } else {
            assert(rem[0] != rem[1] && rem[1] != rem[2] && rem[0] != rem[2]);
            if rem.len() == 4 {
                assert(rem[0] != rem[3] && rem[1] != rem[3] && rem[2] != rem[3]);
            }
        }
    }
    assert forall|p: u16| (p as nat) < n implies out.contains(p) by {
        if res.contains(p) {
            let k = choose|k: int| 0 <= k < res.len() && res[k] == p;
            assert(out[k] == p);
        } else {
            let j = choose|j: int| 0 <= j < rem.len() && rem[j] == p as usize;
            if j == 0 {
                assert(out[res.len() as int] == p);
            } else if j == 1 {
                assert(out[res.len() as int + 1] == p);
            } else if j == 2 {
                if rem.len() == 4 {
                    assert(out[res.len() as int + 4] == p);
                } else {
                    assert(out[res.len() as int + 2] == p);
                }
            } else {
                assert(out[res.len() as int + 2] == p);
            }
        }
    }
}

} // verus!
