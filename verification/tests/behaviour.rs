use portal_scenes::nearest::nearest_hit;
use portal_scenes::controls::{
    focused_viewport, movement_axes, roll_direction, MouseLocks, MovementAxes, MovementKeys,
};
use portal_scenes::debug_ray::{bounce_color, segment_style, trace_debug_ray, BounceColor, BounceStep, SegmentKind};
use portal_scenes::navigation::{SceneCursor, SwitchOutcome};
use portal_scenes::portal::{first_portal_passage, partner_side, PairSide, PortalPair};
use portal_scenes::screen::{clip_strategy, first_and_last_visible, first_sample, ring_edges, SegmentClip};

fn keys(forward: bool, left: bool, back: bool, right: bool, up: bool, down: bool) -> MovementKeys {
    MovementKeys { forward, left, back, right, up, down }
}

#[test]
fn partner_of_partner_is_self() {
    for s in [PairSide::A, PairSide::B] {
        assert_ne!(partner_side(s), s);
        assert_eq!(partner_side(partner_side(s)), s);
    }
    let pair = PortalPair::new("orange", "blue");
    assert_eq!(*pair.partner(PairSide::A), "blue");
    assert_eq!(*pair.partner(PairSide::B), "orange");
    assert_eq!(*pair.portal(PairSide::A), "orange");
}

#[test]
fn teleport_takes_first_hit_in_pair_order() {
    let pairs = vec![PortalPair::new(1, 2), PortalPair::new(3, 4), PortalPair::new(5, 6)];
    // Entering portal 2 (side B of the first pair) comes before entering portal 3.
    let r = first_portal_passage(&pairs, |a: &i32, b: &i32, _s: PairSide| {
        if *a == 2 || *a == 3 { Some((*a, *b)) } else { None }
    });
    assert_eq!(r, Some((2, 1)));
}

#[test]
fn teleport_passes_the_side() {
    let pairs = vec![PortalPair::new(1, 2)];
    let r = first_portal_passage(&pairs, |a: &i32, _b: &i32, s: PairSide| {
        if s == PairSide::B { Some(*a) } else { None }
    });
    assert_eq!(r, Some(2));
}

#[test]
fn teleport_none_without_hits() {
    let pairs = vec![PortalPair::new(1, 2), PortalPair::new(3, 4)];
    let r: Option<i32> = first_portal_passage(&pairs, |_a: &i32, _b: &i32, _s: PairSide| None);
    assert_eq!(r, None);
    let empty: Vec<PortalPair<i32>> = Vec::new();
    assert_eq!(first_portal_passage(&empty, |a: &i32, _b: &i32, _s: PairSide| Some(*a)), None);
}

#[test]
fn bounce_colors_by_bounce() {
    assert_eq!(bounce_color(0), BounceColor::Yellow);
    assert_eq!(bounce_color(1), BounceColor::Green);
    assert_eq!(bounce_color(2), BounceColor::Blue);
    assert_eq!(bounce_color(3), BounceColor::Magenta);
    assert_eq!(bounce_color(4), BounceColor::Orange);
    assert_eq!(bounce_color(5), BounceColor::Cyan);
    assert_eq!(bounce_color(u32::MAX), BounceColor::Cyan);
    assert_eq!(segment_style(0), (SegmentKind::Primary, BounceColor::Yellow));
    assert_eq!(segment_style(7), (SegmentKind::ThroughPortal, BounceColor::Cyan));
}

#[test]
fn debug_ray_stops_at_first_stop() {
    // State is a position on a line; the ray passes two portals then hits a wall.
    let segs = trace_debug_ray(0i32, 10, |pos: i32, bounce: u32| {
        if bounce < 2 {
            BounceStep::Continue((pos, bounce), pos + 10)
        } else {
            BounceStep::Stop((pos, bounce))
        }
    });
    assert_eq!(segs, vec![(0, 0), (10, 1), (20, 2)]);
}

#[test]
fn debug_ray_capped_by_max_bounces() {
    let segs = trace_debug_ray(5u32, 3, |s: u32, b: u32| BounceStep::Continue(b, s));
    assert_eq!(segs, vec![0, 1, 2]);
    let none = trace_debug_ray(5u32, 0, |s: u32, b: u32| BounceStep::Continue(b, s));
    assert!(none.is_empty());
    let one = trace_debug_ray(5u32, 1, |s: u32, _b: u32| BounceStep::<u32, u32>::Stop(s));
    assert_eq!(one, vec![5]);
}

#[test]
fn switching_scenes() {
    let mut cursor = SceneCursor::new(1, 6);
    assert_eq!(cursor.switch_scene(4), SwitchOutcome::Switched(4));
    assert_eq!(cursor.current_scene(), 4);
    assert_eq!(cursor.switch_scene(6), SwitchOutcome::OutOfBounds(6));
    assert_eq!(cursor.current_scene(), 4);
    assert_eq!(cursor.scene_count(), 6);
}

#[test]
fn arrow_keys_stop_at_the_ends() {
    let mut cursor = SceneCursor::new(0, 2);
    assert_eq!(cursor.previous_scene(), None);
    assert_eq!(cursor.current_scene(), 0);
    assert_eq!(cursor.next_scene(), Some(SwitchOutcome::Switched(1)));
    assert_eq!(cursor.next_scene(), None);
    assert_eq!(cursor.current_scene(), 1);
    assert_eq!(cursor.previous_scene(), Some(SwitchOutcome::Switched(0)));
}

#[test]
fn right_then_left_returns() {
    let mut cursor = SceneCursor::new(2, 5);
    cursor.next_scene();
    cursor.previous_scene();
    assert_eq!(cursor.current_scene(), 2);
}

#[test]
fn numbered_scene_keys_ignore_missing_scenes() {
    let mut cursor = SceneCursor::new(0, 1);
    assert!(!cursor.switch_scene_u32(3));
    assert_eq!(cursor.current_scene(), 0);
    assert!(cursor.switch_scene_u32(0));
    let mut six = SceneCursor::new(0, 6);
    assert!(six.switch_scene_u32(5));
    assert_eq!(six.current_scene(), 5);
}

#[test]
fn movement_keys_sum_per_axis() {
    let only_w = movement_axes(keys(true, false, false, false, false, false));
    assert_eq!(only_w, MovementAxes { forward: 1, right: 0, up: 0, moved: true });
    let cancel = movement_axes(keys(true, false, true, false, false, false));
    assert_eq!(cancel, MovementAxes { forward: 0, right: 0, up: 0, moved: true });
    let diag = movement_axes(keys(false, true, false, false, false, true));
    assert_eq!(diag, MovementAxes { forward: 0, right: -1, up: -1, moved: true });
    let idle = movement_axes(keys(false, false, false, false, false, false));
    assert!(!idle.moved);
    let all = movement_axes(keys(true, true, true, true, true, true));
    assert_eq!(all, MovementAxes { forward: 0, right: 0, up: 0, moved: true });
    let d_space = movement_axes(keys(false, false, false, true, true, false));
    assert_eq!(d_space, MovementAxes { forward: 0, right: 1, up: 1, moved: true });
}

#[test]
fn roll_keys() {
    assert_eq!(roll_direction(true, false), 1);
    assert_eq!(roll_direction(false, true), -1);
    assert_eq!(roll_direction(true, true), 0);
    assert_eq!(roll_direction(false, false), 0);
}

#[test]
fn tab_toggles_focused_lock() {
    let mut locks = MouseLocks::new(2);
    assert_eq!(locks.toggle(Some(1)), Some(true));
    assert!(locks.is_locked(1));
    assert!(!locks.is_locked(0));
    assert_eq!(locks.toggle(Some(1)), Some(false));
    assert_eq!(locks.toggle(None), None);
    assert_eq!(locks.toggle(Some(5)), None);
}

#[test]
fn mouse_move_unlocks_unfocused_viewports() {
    let mut locks = MouseLocks::new(3);
    locks.toggle(Some(0));
    locks.toggle(Some(2));
    assert!(locks.grabs_on_click(Some(2)));
    assert!(!locks.grabs_on_click(Some(1)));
    assert!(!locks.grabs_on_click(None));
    assert_eq!(locks.on_mouse_moved(Some(2)), Some(2));
    assert!(!locks.is_locked(0));
    assert!(locks.is_locked(2));
    assert_eq!(locks.on_mouse_moved(None), None);
    assert!(!locks.is_locked(2));
}

#[test]
fn click_locks_once() {
    let mut locks = MouseLocks::new(1);
    assert!(locks.lock_on_click(0));
    assert!(!locks.lock_on_click(0));
    assert!(locks.is_locked(0));
}

#[test]
fn focus_is_first_match() {
    let ids = vec![7u64, 3, 3];
    assert_eq!(focused_viewport(&ids, |v: &u64| *v == 3), Some(1));
    assert_eq!(focused_viewport(&ids, |v: &u64| *v == 4), None);
}

#[test]
fn clip_strategy_by_visible_ends() {
    assert_eq!(clip_strategy(true, true), SegmentClip::Direct);
    assert_eq!(clip_strategy(true, false), SegmentClip::ClipEnd);
    assert_eq!(clip_strategy(false, true), SegmentClip::ClipStart);
    assert_eq!(clip_strategy(false, false), SegmentClip::ClipBoth);
}

#[test]
fn first_sample_finds_earliest() {
    assert_eq!(first_sample(1, 100, |i: u32| if i * i > 50 { Some(i) } else { None }), Some(8));
    assert_eq!(first_sample(1, 100, |_i: u32| None::<u32>), None);
    assert_eq!(first_sample(5, 5, |i: u32| Some(i)), None);
}

#[test]
fn first_and_last_visible_needs_two() {
    let middle = first_and_last_visible(50, |i: u32| if (10..=20).contains(&i) { Some(i * 2) } else { None });
    assert_eq!(middle, Some((20, 40)));
    let single = first_and_last_visible(50, |i: u32| if i == 7 { Some(i) } else { None });
    assert_eq!(single, None);
    let none = first_and_last_visible(50, |_i: u32| None::<u32>);
    assert_eq!(none, None);
    let all = first_and_last_visible(50, |i: u32| Some(i));
    assert_eq!(all, Some((0, 50)));
}

#[test]
fn ring_closes_on_itself() {
    let edges = ring_edges(4);
    assert_eq!(edges, vec![(0, 1), (1, 2), (2, 3), (3, 0)]);
    assert_eq!(ring_edges(1), vec![(0, 0)]);
    assert!(ring_edges(0).is_empty());
    assert_eq!(ring_edges(100)[99], (99, 0));
}

#[test]
fn nearest_hit_keeps_closest_in_front() {
    // Distances along a ray; negative means no intersection, as the tracer reports.
    let ts = vec![-1.0f32, 4.0, 2.5, 0.0005, 2.5, 7.0];
    let (best, winner) = nearest_hit(1000.0f32, &ts, |t: &f32, best: &f32| *t > 0.001 && *t < *best);
    assert_eq!(best, 2.5);
    // Ties go to the earlier candidate.
    assert_eq!(winner, Some(2));
}

#[test]
fn nearest_hit_without_candidates_keeps_init() {
    let none: Vec<i32> = vec![5, 9];
    assert_eq!(nearest_hit(3, &none, |a: &i32, b: &i32| *a < *b), (3, None));
    let empty: Vec<i32> = Vec::new();
    assert_eq!(nearest_hit(3, &empty, |a: &i32, b: &i32| *a < *b), (3, None));
}
