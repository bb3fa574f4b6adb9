use vstd::prelude::*;

verus! {

/// The colour a debug-ray segment is drawn in, picked by its bounce.
#[derive(Debug, Clone, Copy, PartialEq, Eq, Structural)]
pub enum BounceColor {
    Yellow,
    Green,
    Blue,
    Magenta,
    Orange,
    Cyan,
}

/// Colour of the segment traced at bounce `bounce_count`: the first five
/// bounces each have their own colour, every later one is cyan.
pub open spec fn color_for_bounce(bounce_count: u32) -> BounceColor {
    if bounce_count == 0 {
        BounceColor::Yellow
    } else if bounce_count == 1 {
        BounceColor::Green
    } else if bounce_count == 2 {
        BounceColor::Blue
    } else if bounce_count == 3 {
        BounceColor::Magenta
    } else if bounce_count == 4 {
        BounceColor::Orange
    } else {
        BounceColor::Cyan
    }
}

/// Colour of the segment traced at bounce `bounce_count`.
pub fn bounce_color(bounce_count: u32) -> (r: BounceColor)
    ensures
        r == color_for_bounce(bounce_count),
        bounce_count == 0 ==> r == BounceColor::Yellow,
        bounce_count == 1 ==> r == BounceColor::Green,
        bounce_count == 2 ==> r == BounceColor::Blue,
        bounce_count == 3 ==> r == BounceColor::Magenta,
        bounce_count == 4 ==> r == BounceColor::Orange,
        bounce_count >= 5 ==> r == BounceColor::Cyan,
{
    match bounce_count {
        0 => BounceColor::Yellow,
        1 => BounceColor::Green,
        2 => BounceColor::Blue,
        3 => BounceColor::Magenta,
        4 => BounceColor::Orange,
        _ => BounceColor::Cyan,
    }
}

/// The palette never repeats: each of the first five bounces has a colour
/// no other bounce has, and every bounce from the sixth on is cyan.
pub proof fn lemma_bounce_palette(b: u32, c: u32)
    ensures
        b >= 5 ==> color_for_bounce(b) == BounceColor::Cyan,
        b < 5 ==> color_for_bounce(b) != BounceColor::Cyan,
        b < 5 && color_for_bounce(b) == color_for_bounce(c) ==> b == c,
        color_for_bounce(0) == BounceColor::Yellow,
        color_for_bounce(1) == BounceColor::Green,
        color_for_bounce(2) == BounceColor::Blue,
        color_for_bounce(3) == BounceColor::Magenta,
        color_for_bounce(4) == BounceColor::Orange,
{
}

/// Whether a segment leaves the camera or comes out of a portal.
#[derive(Debug, Clone, Copy, PartialEq, Eq, Structural)]
pub enum SegmentKind {
    Primary,
    ThroughPortal,
}

/// Kind and colour of a segment in the two-colour scheme: the segment of
/// bounce 0 is a yellow primary ray, every later one a cyan ray out of a portal.
pub fn segment_style(bounce: u32) -> (r: (SegmentKind, BounceColor))
    ensures
        bounce == 0 ==> r == (SegmentKind::Primary, BounceColor::Yellow),
        bounce != 0 ==> r == (SegmentKind::ThroughPortal, BounceColor::Cyan),
{
    if bounce == 0 {
        (SegmentKind::Primary, BounceColor::Yellow)
    } else {
        (SegmentKind::ThroughPortal, BounceColor::Cyan)
    }
}

/// What one bounce of a debug ray produced: the segment to draw, and either
/// the ray state to carry on from or the end of the ray.
pub enum BounceStep<St, Seg> {
    Continue(Seg, St),
    Stop(Seg),
}

/// The segment a bounce produced.
pub open spec fn step_segment<St, Seg>(o: BounceStep<St, Seg>) -> Seg {
    match o {
        BounceStep::Continue(seg, _) => seg,
        BounceStep::Stop(seg) => seg,
    }
}

/// `segs` is a run of the bounce loop from `start` with at most `max_bounces`
/// bounces: bounce `i` was fed `states[i]` and its number `i`, gave
/// `outs[i]`, and drew `segs[i]`; every bounce but the last carried on with
/// the state the next one was fed; the run stops at the first `Stop`, and
/// otherwise only when `max_bounces` bounces were made.
pub open spec fn is_bounce_trace<St, Seg, F: Fn(St, u32) -> BounceStep<St, Seg>>(
    step: F,
    start: St,
    max_bounces: u32,
    states: Seq<St>,
    outs: Seq<BounceStep<St, Seg>>,
    segs: Seq<Seg>,
) -> bool {
    &&& states.len() == segs.len()
    &&& outs.len() == segs.len()
    &&& segs.len() <= max_bounces
    &&& max_bounces > 0 ==> segs.len() > 0
    &&& segs.len() > 0 ==> states[0] == start
    &&& forall|i: int|
        0 <= i < segs.len() ==> #[trigger] call_ensures(step, (states[i], i as u32), outs[i])
            && step_segment(outs[i]) == segs[i]
    &&& forall|i: int|
        0 <= i < segs.len() - 1 ==> (#[trigger] outs[i] matches BounceStep::Continue(_, next)
            && next == states[i + 1])
    &&& 0 < segs.len() < max_bounces ==> outs[segs.len() - 1] is Stop
}

/// Follows a debug ray for at most `max_bounces` bounces.
///
/// Bounce `i` hands the current ray state and its number to `step`, which
/// traces it through the scene and says which segment to draw and whether
/// the ray goes on (through a portal or off a mirror) or ends. The segments
/// are returned in the order they were traced.
pub fn trace_debug_ray<St, Seg>(
    start: St,
    max_bounces: u32,
    step: impl Fn(St, u32) -> BounceStep<St, Seg>,
) -> (r: Vec<Seg>)
    requires
        forall|s: St, b: u32| call_requires(step, (s, b)),
    ensures
        exists|states: Seq<St>, outs: Seq<BounceStep<St, Seg>>|
            #[trigger] is_bounce_trace(step, start, max_bounces, states, outs, r@),
{
    let mut segs: Vec<Seg> = Vec::new();
    let ghost mut states: Seq<St> = Seq::empty();
    let ghost mut outs: Seq<BounceStep<St, Seg>> = Seq::empty();
    let mut cur = start;
    let mut bounce: u32 = 0;
    let ghost start_state = start;
    while bounce < max_bounces
        invariant_except_break
            forall|s: St, b: u32| call_requires(step, (s, b)),
            bounce <= max_bounces,
            segs@.len() == bounce,
            states.len() == bounce,
            outs.len() == bounce,
            bounce == 0 ==> cur == start_state,
            bounce > 0 ==> states[0] == start_state,
            forall|i: int|
                0 <= i < bounce ==> #[trigger] call_ensures(step, (states[i], i as u32), outs[i])
                    && step_segment(outs[i]) == segs@[i],
            forall|i: int|
                0 <= i < bounce ==> (#[trigger] outs[i] matches BounceStep::Continue(_, next) && next
                    == (if i + 1 < bounce {
                    states[i + 1]
                } else {
                    cur
                })),
        ensures
            is_bounce_trace(step, start_state, max_bounces, states, outs, segs@),
        decreases max_bounces - bounce,
    {
        let ghost fed = cur;
        let out = step(cur, bounce);
        proof {
            states = states.push(fed);
            outs = outs.push(out);
        }
        match out {
            BounceStep::Continue(seg, next) => {
                segs.push(seg);
                cur = next;
                bounce = bounce + 1;
            },
            BounceStep::Stop(seg) => {
                segs.push(seg);
                break ;
            },
        }
    }
    proof {
        assert(is_bounce_trace(step, start, max_bounces, states, outs, segs@));
    }
    segs
}

} // verus!
