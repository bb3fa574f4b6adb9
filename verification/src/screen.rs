use vstd::prelude::*;

verus! {

/// How a 3D segment is brought onto the screen, by which of its ends project
/// in front of the camera.
#[derive(Debug, Clone, Copy, PartialEq, Eq, Structural)]
pub enum SegmentClip {
    /// Both ends project: draw between them.
    Direct,
    /// Only the start projects: draw from it to where the segment leaves the screen.
    ClipEnd,
    /// Only the end projects: draw from where the segment enters the screen to it.
    ClipStart,
    /// Neither end projects: look for the visible stretch in between.
    ClipBoth,
}

/// Picks how to draw a segment from whether its start and its end project.
pub fn clip_strategy(start_visible: bool, end_visible: bool) -> (r: SegmentClip)
    ensures
        start_visible && end_visible ==> r == SegmentClip::Direct,
        start_visible && !end_visible ==> r == SegmentClip::ClipEnd,
        !start_visible && end_visible ==> r == SegmentClip::ClipStart,
        !start_visible && !end_visible ==> r == SegmentClip::ClipBoth,
{
    match (start_visible, end_visible) {
        (true, true) => SegmentClip::Direct,
        (true, false) => SegmentClip::ClipEnd,
        (false, true) => SegmentClip::ClipStart,
        (false, false) => SegmentClip::ClipBoth,
    }
}

/// Samples `from`, `from + 1`, ..., `to - 1` in order and returns the first
/// answer of `probe` that is not `None`; `None` when every sample gave `None`.
///
/// This is the search for the point where a ray leaves the screen: `probe`
/// tests one sample along the ray.
pub fn first_sample<T>(from: u32, to: u32, probe: impl Fn(u32) -> Option<T>) -> (r: Option<T>)
    requires
        forall|i: u32| call_requires(probe, (i,)),
    ensures
        r is None ==> forall|j: u32| from <= j < to ==> #[trigger] call_ensures(probe, (j,), None),
        r matches Some(v) ==> exists|i: u32|
            from <= i < to && #[trigger] call_ensures(probe, (i,), Some(v)) && forall|j: u32|
                from <= j < i ==> #[trigger] call_ensures(probe, (j,), None),
{
    let mut i = from;
    while i < to
        invariant
            from <= i,
            forall|k: u32| call_requires(probe, (k,)),
            forall|j: u32| from <= j < i ==> #[trigger] call_ensures(probe, (j,), None),
        decreases to - i,
    {
        let answer = probe(i);
        match answer {
            Some(v) => {
                assert(call_ensures(probe, (i,), Some(v)));
                return Some(v);
            },
            None => {},
        }
        i = i + 1;
    }
    None
}

/// The values among `outs`, in order, skipping the `None`s.
pub open spec fn present_values<T>(outs: Seq<Option<T>>) -> Seq<T>
    decreases outs.len(),
{
    if outs.len() == 0 {
        Seq::empty()
    } else {
        let rest = present_values(outs.drop_last());
        match outs.last() {
            Some(v) => rest.push(v),
            None => rest,
        }
    }
}

/// The first and the last of `vis` when it holds at least two values.
pub open spec fn ends_of<T>(vis: Seq<T>) -> Option<(T, T)> {
    if vis.len() >= 2 {
        Some((vis[0], vis.last()))
    } else {
        None
    }
}

/// Samples `0`, `1`, ..., `last` (inclusive) and returns the first and the
/// last value that `probe` found, if it found at least two.
///
/// This is how a segment whose ends both lie off screen is clipped: `probe`
/// projects one sample point and keeps it when it lands on the screen.
pub fn first_and_last_visible<T: Copy>(last: u32, probe: impl Fn(u32) -> Option<T>) -> (r: Option<
    (T, T),
>)
    requires
        last < u32::MAX,
        forall|i: u32| call_requires(probe, (i,)),
    ensures
        exists|outs: Seq<Option<T>>|
            {
                &&& outs.len() == last + 1
                &&& (forall|i: int|
                    0 <= i < outs.len() ==> #[trigger] call_ensures(probe, (i as u32,), outs[i]))
                &&& r == ends_of(#[trigger] present_values(outs))
                &&& (r matches Some((a, b)) ==> exists|i: int, j: int|
                    0 <= i < j < outs.len() && outs[i] == Some(a) && outs[j] == Some(b) && (forall|
                        k: int,
                    |
                        0 <= k < i ==> #[trigger] outs[k] is None) && (forall|k: int|
                        j < k < outs.len() ==> #[trigger] outs[k] is None))
                &&& (r is None ==> forall|i: int, j: int|
                    0 <= i < j < outs.len() && #[trigger] outs[i] is Some ==> #[trigger] outs[j] is None)
            },
{
    let mut clipped: Vec<T> = Vec::new();
    let ghost mut outs: Seq<Option<T>> = Seq::empty();
    let ghost mut fi: int = 0;
    let ghost mut li: int = 0;
    let mut i: u32 = 0;
    while i <= last
        invariant
            last < u32::MAX,
            i <= last + 1,
            outs.len() == i,
            forall|k: u32| call_requires(probe, (k,)),
            forall|k: int| 0 <= k < outs.len() ==> #[trigger] call_ensures(probe, (k as u32,), outs[k]),
            clipped@ == present_values(outs),
            clipped@.len() == 0 ==> forall|k: int| 0 <= k < i ==> #[trigger] outs[k] is None,
            clipped@.len() > 0 ==> {
                &&& 0 <= fi <= li < i
                &&& outs[fi] == Some(clipped@[0])
                &&& outs[li] == Some(clipped@.last())
                &&& forall|k: int| 0 <= k < fi ==> #[trigger] outs[k] is None
                &&& forall|k: int| li < k < i ==> #[trigger] outs[k] is None
            },
            clipped@.len() == 1 ==> fi == li,
            clipped@.len() >= 2 ==> fi < li,
        decreases last + 1 - i,
    {
        let answer = probe(i);
        let ghost prev = outs;
        proof {
            outs = outs.push(answer);
            assert(outs.drop_last() =~= prev);
            assert forall|k: int| 0 <= k < prev.len() implies #[trigger] outs[k] == prev[k] by {}
        }
        match answer {
            Some(v) => {
                proof {
                    if clipped@.len() == 0 {
                        fi = i as int;
                    }
                    li = i as int;
                }
                clipped.push(v);
            },
            None => {},
        }
        i = i + 1;
    }
    let r = if clipped.len() >= 2 {
        Some((clipped[0], clipped[clipped.len() - 1]))
    } else {
        None
    };
    proof {
        if clipped@.len() >= 2 {
            assert(0 <= fi < li < outs.len() && outs[fi] == Some(clipped@[0]) && outs[li] == Some(
                clipped@.last(),
            ));
        }
        if clipped@.len() == 1 {
            assert forall|a: int, b: int|
                0 <= a < b < outs.len() && #[trigger] outs[a] is Some implies #[trigger] outs[b] is None by {
                if a < fi {
                    assert(outs[a] is None);
                } else if a > li {
                    assert(outs[a] is None);
                } else {
                    assert(b > li);
                }
            }
        }
    }
    assert(r == ends_of(present_values(outs)));
    r
}

/// Two visible samples are enough: whenever the samples hold at least two
/// values, the segment runs from the first value to the last one, and with
/// fewer there is nothing to draw.
pub proof fn lemma_two_visible_suffice<T>(vis: Seq<T>)
    ensures
        vis.len() >= 2 ==> ends_of(vis) == Some((vis[0], vis[vis.len() - 1])),
        vis.len() < 2 ==> ends_of(vis) is None,
{
}

/// The values among the samples are exactly the samples that found one, in
/// order: taking one more sample adds its value at the end when it found
/// one, and nothing when it did not.
pub proof fn lemma_present_values_step<T>(outs: Seq<Option<T>>, o: Option<T>)
    ensures
        present_values(Seq::<Option<T>>::empty()) == Seq::<T>::empty(),
        o matches Some(v) ==> present_values(outs.push(o)) == present_values(outs).push(v),
        o is None ==> present_values(outs.push(o)) == present_values(outs),
{
    assert(outs.push(o).drop_last() =~= outs);
}

/// The edges of a closed ring of `n` points: point `i` joins point
/// `(i + 1) % n`, for each `i` in order.
pub fn ring_edges(n: usize) -> (r: Vec<(usize, usize)>)
    ensures
        r@.len() == n,
        forall|i: int| 0 <= i < n ==> #[trigger] r@[i] == (i as usize, ((i + 1) % (n as int)) as usize),
{
    let mut edges: Vec<(usize, usize)> = Vec::new();
    let mut i: usize = 0;
    while i < n
        invariant
            i <= n,
            edges@.len() == i,
            forall|k: int| 0 <= k < i ==> #[trigger] edges@[k] == (k as usize, ((k + 1) % (n as int)) as usize),
        decreases n - i,
    {
        let next = if i + 1 < n {
            i + 1
        } else {
            0
        };
        proof {
            if i + 1 < n {
                assert((i + 1) % (n as int) == i + 1) by (nonlinear_arith)
                    requires
                        0 <= i + 1 < n,
                ;
            } else {
                assert((i + 1) % (n as int) == 0) by (nonlinear_arith)
                    requires
                        i + 1 == n,
                        n > 0,
                ;
            }
        }
        edges.push((i, next));
        i = i + 1;
    }
    edges
}

} // verus!
