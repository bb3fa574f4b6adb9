use portal_scenes::bounded::{fill_from, AddOutcome, BoundedList, SlotArray};
use portal_scenes::builder::SceneBuilder;
use portal_scenes::scene::{Scene, SceneData, MAX_CUBES, MAX_ELLIPSES, MAX_PLANES, MAX_PORTAL_PAIRS};
use portal_scenes::scene_buffer;

#[test]
fn bounded_list_turns_away_when_full() {
    let mut list: BoundedList<u32> = BoundedList::new(2);
    assert_eq!(list.push_bounded(10), AddOutcome::Added);
    assert!(!list.is_full());
    assert_eq!(list.push_bounded(20), AddOutcome::Added);
    assert!(list.is_full());
    assert_eq!(list.push_bounded(30), AddOutcome::Full);
    assert_eq!(list.as_vec(), &vec![10, 20]);
    assert_eq!(list.len(), 2);
    assert_eq!(list.capacity_exec(), 2);
}

#[test]
fn bounded_list_with_zero_capacity_accepts_nothing() {
    let mut list: BoundedList<u8> = BoundedList::new(0);
    assert_eq!(list.push_bounded(1), AddOutcome::Full);
    assert_eq!(list.len(), 0);
}

#[test]
fn bounded_list_set_replaces_one_item() {
    let mut list: BoundedList<u32> = BoundedList::new(3);
    list.push_bounded(1);
    list.push_bounded(2);
    list.set(0, 9);
    assert_eq!(list.as_vec(), &vec![9, 2]);
    assert_eq!(*list.get(1), 2);
}

#[test]
fn padded_layout_converts_then_fills() {
    let mut list: BoundedList<u32> = BoundedList::new(4);
    list.push_bounded(3);
    list.push_bounded(5);
    let raw = list.to_padded(|x: &u32| (*x as u64) * 2, 0u64);
    assert_eq!(raw, vec![6, 10, 0, 0]);
}

#[test]
fn fill_from_keeps_the_first_that_fit() {
    let mut list: BoundedList<char> = BoundedList::new(3);
    list.push_bounded('a');
    let dropped = fill_from(&mut list, vec!['b', 'c', 'd', 'e']);
    assert_eq!(dropped, 2);
    assert_eq!(list.as_vec(), &vec!['a', 'b', 'c']);
}

#[test]
fn slot_array_fills_from_the_front() {
    let mut slots: SlotArray<i32> = SlotArray::new(-1, 3);
    assert_eq!(slots.as_vec(), &vec![-1, -1, -1]);
    assert_eq!(slots.add(7), AddOutcome::Added);
    assert_eq!(slots.add(8), AddOutcome::Added);
    assert_eq!(slots.as_vec(), &vec![7, 8, -1]);
    assert_eq!(slots.used(), vec![7, 8]);
    assert_eq!(slots.add(9), AddOutcome::Added);
    assert_eq!(slots.add(10), AddOutcome::Full);
    assert_eq!(slots.as_vec(), &vec![7, 8, 9]);
    assert_eq!(slots.count_exec(), 3);
    assert_eq!(slots.size(), 3);
    slots.set(2, 0);
    assert_eq!(slots.get(2), 0);
    assert_eq!(slots.count_exec(), 3);
}

#[test]
fn scene_caps_each_kind_at_its_maximum() {
    let mut scene: Scene<u32, u32, u32, u32> = Scene::new("Rooms");
    assert_eq!(scene.name, "Rooms");
    for i in 0..MAX_PLANES {
        assert_eq!(scene.add_plane(i), AddOutcome::Added);
    }
    assert_eq!(scene.add_plane(99), AddOutcome::Full);
    assert_eq!(scene.data.planes().len(), MAX_PLANES);
    assert_eq!(*scene.data.planes().get(9), 9);
    for i in 0..MAX_ELLIPSES {
        assert_eq!(scene.add_ellipse(i), AddOutcome::Added);
    }
    assert_eq!(scene.add_ellipse(99), AddOutcome::Full);
    for i in 0..MAX_PORTAL_PAIRS {
        assert_eq!(scene.add_portal_pair(i), AddOutcome::Added);
    }
    assert_eq!(scene.add_portal_pair(99), AddOutcome::Full);
    for i in 0..MAX_CUBES {
        assert_eq!(scene.add_cube(i), AddOutcome::Added);
    }
    assert_eq!(scene.add_cube(99), AddOutcome::Full);
    assert_eq!(scene.data.cubes().as_vec(), &vec![0, 1, 2, 3]);
}

#[test]
fn scene_adds_leave_other_kinds_alone() {
    let mut data: SceneData<u8, u8, u8, u8> = SceneData::new();
    data.add_ellipse(4);
    data.add_plane(1);
    assert_eq!(data.ellipses().as_vec(), &vec![4]);
    assert_eq!(data.planes().as_vec(), &vec![1]);
    assert_eq!(data.portal_pairs().len(), 0);
    assert_eq!(data.cubes().len(), 0);
    data.set_plane(0, 2);
    data.set_ellipse(0, 5);
    assert_eq!(data.planes().as_vec(), &vec![2]);
    assert_eq!(data.ellipses().as_vec(), &vec![5]);
}

#[test]
fn scene_to_raw_pads_every_block() {
    let mut scene: Scene<u8, u8, u8, u8> = Scene::new("test");
    scene.add_plane(1);
    scene.add_plane(2);
    scene.add_ellipse(3);
    scene.add_cube(4);
    let raw = scene.to_raw(
        |p: &u8| *p as u32 + 100,
        0u32,
        |e: &u8| *e as u32 + 200,
        0u32,
        |q: &u8| *q as u32 + 300,
        0u32,
        |c: &u8| *c as u32 + 400,
        7u32,
    );
    assert_eq!(raw.plane_count, 2);
    assert_eq!(raw.ellipse_count, 1);
    assert_eq!(raw.portal_pair_count, 0);
    assert_eq!(raw.cube_count, 1);
    assert_eq!(raw.planes.len(), MAX_PLANES as usize);
    assert_eq!(&raw.planes[..3], &[101, 102, 0]);
    assert_eq!(raw.ellipses, vec![203, 0, 0, 0]);
    assert_eq!(raw.portal_pairs, vec![0, 0, 0, 0]);
    assert_eq!(raw.cubes, vec![404, 7, 7, 7]);
}

#[test]
fn scene_buffer_keeps_fillers_past_the_count() {
    let mut data: scene_buffer::SceneData<u8, u8, u8> = scene_buffer::SceneData::new(0, 50, 60);
    assert_eq!(data.ellipses(), &vec![50, 50, 50, 50]);
    for e in 1..=5u8 {
        let outcome = data.add_ellipse(e);
        assert_eq!(outcome, if e <= 4 { AddOutcome::Added } else { AddOutcome::Full });
    }
    assert_eq!(data.ellipses(), &vec![1, 2, 3, 4]);
    assert_eq!(data.ellipse_count_exec(), 4);
    data.add_plane(9);
    assert_eq!(data.plane_count_exec(), 1);
    assert_eq!(data.planes()[0], 9);
    assert_eq!(data.planes()[1], 0);
    assert_eq!(data.planes().len(), scene_buffer::MAX_PLANES as usize);
    data.add_portal_pair(1);
    assert_eq!(data.used_portal_pairs(), vec![1]);
    assert_eq!(data.portal_pairs(), &vec![1, 60, 60, 60]);
    assert_eq!(data.portal_pair_count_exec(), 1);
    data.set_portal_pair(0, 2);
    data.set_ellipse(3, 8);
    assert_eq!(data.portal_pairs()[0], 2);
    assert_eq!(data.ellipses()[3], 8);
}

#[test]
fn scene_buffer_plane_cap() {
    let mut data: scene_buffer::SceneData<u32, u32, u32> = scene_buffer::SceneData::new(0, 0, 0);
    for p in 0..scene_buffer::MAX_PLANES {
        assert_eq!(data.add_plane(p + 1), AddOutcome::Added);
    }
    assert_eq!(data.add_plane(100), AddOutcome::Full);
    assert_eq!(data.planes()[9], 10);
}

#[test]
fn builder_grid_is_row_major() {
    let b: SceneBuilder<(usize, usize), u8, u8> = SceneBuilder::new();
    let b = b.add_sphere((9, 9)).spheres_grid(2, 3, |r: usize, c: usize| (r, c));
    let built = b.build(10, 10, 10);
    assert_eq!(
        built.spheres.as_vec(),
        &vec![(9, 9), (0, 0), (0, 1), (0, 2), (1, 0), (1, 1), (1, 2)]
    );
}

#[test]
fn builder_build_turns_away_extras() {
    let b: SceneBuilder<u8, u8, u8> = SceneBuilder::new();
    let b = b.add_plane(1).add_plane(2).add_plane(3).add_ellipse(4).add_sphere(5);
    let built = b.build(0, 2, 1);
    assert_eq!(built.spheres.len(), 0);
    assert_eq!(built.planes.as_vec(), &vec![1, 2]);
    assert_eq!(built.ellipses.as_vec(), &vec![4]);
}

#[test]
fn builder_empty_grid_adds_nothing() {
    let b: SceneBuilder<u8, u8, u8> = SceneBuilder::new();
    let b = b.spheres_grid(0, 5, |_r: usize, _c: usize| 1u8).spheres_grid(3, 0, |_r: usize, _c: usize| 2u8);
    assert_eq!(b.build(4, 4, 4).spheres.len(), 0);
}
