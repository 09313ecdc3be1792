use vstd::prelude::*;

verus! {

/// The points a curve is drawn through: its first control point, the samples taken
/// strictly inside it, and its last control point, each end taken exactly as given.
pub fn curve_point_sequence<P: Copy>(control_points: &Vec<P>, samples: &Vec<P>) -> (r: Vec<P>)
    requires
        control_points@.len() >= 1,
        samples@.len() + 2 <= usize::MAX,
    ensures
        r@ == seq![control_points@[0]] + samples@ + seq![control_points@.last()],
        r@.len() == samples@.len() + 2,
        r@[0] == control_points@[0],
        r@.last() == control_points@.last(),
{
    let mut r: Vec<P> = Vec::new();
    r.push(control_points[0]);
    let mut i: usize = 0;
    while i < samples.len()
        invariant
            i <= samples@.len(),
            control_points@.len() >= 1,
            r@ == seq![control_points@[0]] + samples@.subrange(0, i as int),
        decreases samples@.len() - i,
    {
        r.push(samples[i]);
        i = i + 1;
        assert(r@ =~= seq![control_points@[0]] + samples@.subrange(0, i as int));
    }
    r.push(control_points[control_points.len() - 1]);
    assert(samples@.subrange(0, samples@.len() as int) =~= samples@);
    r
}

/// One tangent handle of a spline to derive again: the handle at `target` becomes
/// the automatic handle at end point `curr`, coming from end point `prev` and going on
/// to end point `next` (or mirrored from `prev` where there is none), with its two
/// control points swapped afterwards where `reverse` is set.
#[derive(Debug, Clone, Copy, PartialEq, Eq)]
pub struct HandleUpdate {
    pub target: usize,
    pub prev: usize,
    pub curr: usize,
    pub next: Option<usize>,
    pub reverse: bool,
}

pub open spec fn handle_update(target: nat, prev: nat, curr: nat, next: Option<usize>, reverse: bool) -> HandleUpdate {
    HandleUpdate { target: target as usize, prev: prev as usize, curr: curr as usize, next, reverse }
}

/// The handles to derive again, in order, once the end point with index `m` has been
/// appended to a spline of `m` end points: the new one, and those whose neighbours
/// it changed (the first one too, on a closed spline).
pub open spec fn handle_updates(m: nat, closed: bool) -> Seq<HandleUpdate> {
    if m == 0 {
        Seq::empty()
    } else if m == 1 {
        seq![handle_update(1, 0, 1, None, false), handle_update(0, 1, 0, None, true)]
    } else {
        let own = handle_update(m, (m - 1) as nat, m, if closed { Some(0usize) } else { None }, false);
        let before = handle_update((m - 1) as nat, (m - 2) as nat, (m - 1) as nat, Some(m as usize), false);
        if closed {
            seq![own, before, handle_update(0, m, 0, Some(1usize), false)]
        } else {
            seq![own, before]
        }
    }
}

/// The handles to derive again after a spline of `existing` end points gets one more.
pub fn bezier_handle_updates(existing: usize, closed: bool) -> (r: Vec<HandleUpdate>)
    requires
        existing < usize::MAX,
    ensures
        r@ == handle_updates(existing as nat, closed),
{
    let m = existing;
    let mut r: Vec<HandleUpdate> = Vec::new();
    if m == 1 {
        r.push(HandleUpdate { target: 1, prev: 0, curr: 1, next: None, reverse: false });
        r.push(HandleUpdate { target: 0, prev: 1, curr: 0, next: None, reverse: true });
    } else if m >= 2 {
        let next = if closed { Some(0usize) } else { None };
        r.push(HandleUpdate { target: m, prev: m - 1, curr: m, next, reverse: false });
        r.push(HandleUpdate { target: m - 1, prev: m - 2, curr: m - 1, next: Some(m), reverse: false });
        if closed {
            r.push(HandleUpdate { target: 0, prev: m, curr: 0, next: Some(1), reverse: false });
        }
    }
    assert(r@ =~= handle_updates(existing as nat, closed));
    r
}

/// The pairs of handles that bound each cubic piece of a spline of `handle_count`
/// handles: each handle with the next, and on a closed spline the last with the
/// first.
pub fn spline_segments(handle_count: usize, closed: bool) -> (r: Vec<(usize, usize)>)
    requires
        handle_count >= 1,
    ensures
        r@.len() == handle_count - 1 + if closed { 1int } else { 0int },
        forall|i: int| 0 <= i < handle_count - 1 ==> r@[i] == (i as usize, (i + 1) as usize),
        closed ==> r@[handle_count - 1] == ((handle_count - 1) as usize, 0usize),
{
    let mut r: Vec<(usize, usize)> = Vec::new();
    let mut i: usize = 0;
    while i + 1 < handle_count
        invariant
            i + 1 <= handle_count,
            r@.len() == i,
            forall|j: int| 0 <= j < i ==> r@[j] == (j as usize, (j + 1) as usize),
        decreases handle_count - i,
    {
        r.push((i, i + 1));
        i = i + 1;
    }
    if closed {
        r.push((handle_count - 1, 0));
    }
    r
}

} // verus!
