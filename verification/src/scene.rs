use vstd::prelude::*;

use crate::bounded::{is_padded_layout, AddOutcome, BoundedList};

verus! {

/// Most planes a scene holds.
pub const MAX_PLANES: u32 = 10;

/// Most ellipses a scene holds.
pub const MAX_ELLIPSES: u32 = 4;

/// Most portal pairs a scene holds.
pub const MAX_PORTAL_PAIRS: u32 = 4;

/// Most cubes a scene holds.
pub const MAX_CUBES: u32 = 4;

/// The objects of one scene, each kind in a list capped at its maximum.
///
/// The object types are left open: the geometry lives with the caller, and
/// this type only decides which objects a scene keeps and in what order.
pub struct SceneData<P, E, Q, C> {
    planes: BoundedList<P>,
    ellipses: BoundedList<E>,
    portal_pairs: BoundedList<Q>,
    cubes: BoundedList<C>,
}

/// The fixed-size layout of a scene that the renderer reads: one count per
/// kind, and for each kind a block of exactly its maximum number of slots.
pub struct SceneDataRaw<RP, RE, RQ, RC> {
    pub plane_count: u32,
    pub ellipse_count: u32,
    pub portal_pair_count: u32,
    pub cube_count: u32,
    pub planes: Vec<RP>,
    pub ellipses: Vec<RE>,
    pub portal_pairs: Vec<RQ>,
    pub cubes: Vec<RC>,
}

impl<P, E, Q, C> SceneData<P, E, Q, C> {
    /// Each list is well formed and capped at the maximum for its kind.
    pub closed spec fn wf(&self) -> bool {
        &&& self.planes.wf()
        &&& self.ellipses.wf()
        &&& self.portal_pairs.wf()
        &&& self.cubes.wf()
        &&& self.planes.capacity() == MAX_PLANES
        &&& self.ellipses.capacity() == MAX_ELLIPSES
        &&& self.portal_pairs.capacity() == MAX_PORTAL_PAIRS
        &&& self.cubes.capacity() == MAX_CUBES
    }

    /// The planes, in the order they were added.
    pub closed spec fn plane_seq(&self) -> Seq<P> {
        self.planes@
    }

    /// The ellipses, in the order they were added.
    pub closed spec fn ellipse_seq(&self) -> Seq<E> {
        self.ellipses@
    }

    /// The portal pairs, in the order they were added.
    pub closed spec fn portal_pair_seq(&self) -> Seq<Q> {
        self.portal_pairs@
    }

    /// The cubes, in the order they were added.
    pub closed spec fn cube_seq(&self) -> Seq<C> {
        self.cubes@
    }

    /// A well-formed scene holds at most the maximum number of objects of
    /// each kind.
    pub proof fn lemma_within_limits(&self)
        requires
            self.wf(),
        ensures
            self.plane_seq().len() <= MAX_PLANES,
            self.ellipse_seq().len() <= MAX_ELLIPSES,
            self.portal_pair_seq().len() <= MAX_PORTAL_PAIRS,
            self.cube_seq().len() <= MAX_CUBES,
    {
        self.planes.lemma_within_capacity();
        self.ellipses.lemma_within_capacity();
        self.portal_pairs.lemma_within_capacity();
        self.cubes.lemma_within_capacity();
    }

    /// A scene with no objects.
    pub fn new() -> (r: Self)
        ensures
            r.wf(),
            r.plane_seq() == Seq::<P>::empty(),
            r.ellipse_seq() == Seq::<E>::empty(),
            r.portal_pair_seq() == Seq::<Q>::empty(),
            r.cube_seq() == Seq::<C>::empty(),
    {
        SceneData {
            planes: BoundedList::new(MAX_PLANES),
            ellipses: BoundedList::new(MAX_ELLIPSES),
            portal_pairs: BoundedList::new(MAX_PORTAL_PAIRS),
            cubes: BoundedList::new(MAX_CUBES),
        }
    }

    /// The list of planes.
    pub fn planes(&self) -> (r: &BoundedList<P>)
        ensures
            r@ == self.plane_seq(),
            self.wf() ==> r.wf() && r.capacity() == MAX_PLANES,
    {
        &self.planes
    }

    /// The list of ellipses.
    pub fn ellipses(&self) -> (r: &BoundedList<E>)
        ensures
            r@ == self.ellipse_seq(),
            self.wf() ==> r.wf() && r.capacity() == MAX_ELLIPSES,
    {
        &self.ellipses
    }

    /// The list of portal pairs.
    pub fn portal_pairs(&self) -> (r: &BoundedList<Q>)
        ensures
            r@ == self.portal_pair_seq(),
            self.wf() ==> r.wf() && r.capacity() == MAX_PORTAL_PAIRS,
    {
        &self.portal_pairs
    }

    /// The list of cubes.
    pub fn cubes(&self) -> (r: &BoundedList<C>)
        ensures
            r@ == self.cube_seq(),
            self.wf() ==> r.wf() && r.capacity() == MAX_CUBES,
    {
        &self.cubes
    }

    /// Adds a plane unless the scene already holds `MAX_PLANES` of them.
    pub fn add_plane(&mut self, plane: P) -> (r: AddOutcome)
        requires
            old(self).wf(),
        ensures
            final(self).wf(),
            final(self).ellipse_seq() == old(self).ellipse_seq(),
            final(self).portal_pair_seq() == old(self).portal_pair_seq(),
            final(self).cube_seq() == old(self).cube_seq(),
            old(self).plane_seq().len() < MAX_PLANES ==> r == AddOutcome::Added
                && final(self).plane_seq() == old(self).plane_seq().push(plane),
            old(self).plane_seq().len() >= MAX_PLANES ==> r == AddOutcome::Full
                && final(self).plane_seq() == old(self).plane_seq(),
    {
        self.planes.push_bounded(plane)
    }

    /// Adds an ellipse unless the scene already holds `MAX_ELLIPSES` of them.
    pub fn add_ellipse(&mut self, ellipse: E) -> (r: AddOutcome)
        requires
            old(self).wf(),
        ensures
            final(self).wf(),
            final(self).plane_seq() == old(self).plane_seq(),
            final(self).portal_pair_seq() == old(self).portal_pair_seq(),
            final(self).cube_seq() == old(self).cube_seq(),
            old(self).ellipse_seq().len() < MAX_ELLIPSES ==> r == AddOutcome::Added
                && final(self).ellipse_seq() == old(self).ellipse_seq().push(ellipse),
            old(self).ellipse_seq().len() >= MAX_ELLIPSES ==> r == AddOutcome::Full
                && final(self).ellipse_seq() == old(self).ellipse_seq(),
    {
        self.ellipses.push_bounded(ellipse)
    }

    /// Adds a portal pair unless the scene already holds `MAX_PORTAL_PAIRS` of them.
    pub fn add_portal_pair(&mut self, portal_pair: Q) -> (r: AddOutcome)
        requires
            old(self).wf(),
        ensures
            final(self).wf(),
            final(self).plane_seq() == old(self).plane_seq(),
            final(self).ellipse_seq() == old(self).ellipse_seq(),
            final(self).cube_seq() == old(self).cube_seq(),
            old(self).portal_pair_seq().len() < MAX_PORTAL_PAIRS ==> r == AddOutcome::Added
                && final(self).portal_pair_seq() == old(self).portal_pair_seq().push(portal_pair),
            old(self).portal_pair_seq().len() >= MAX_PORTAL_PAIRS ==> r == AddOutcome::Full
                && final(self).portal_pair_seq() == old(self).portal_pair_seq(),
    {
        self.portal_pairs.push_bounded(portal_pair)
    }

    /// Adds a cube unless the scene already holds `MAX_CUBES` of them.
    pub fn add_cube(&mut self, cube: C) -> (r: AddOutcome)
        requires
            old(self).wf(),
        ensures
            final(self).wf(),
            final(self).plane_seq() == old(self).plane_seq(),
            final(self).ellipse_seq() == old(self).ellipse_seq(),
            final(self).portal_pair_seq() == old(self).portal_pair_seq(),
            old(self).cube_seq().len() < MAX_CUBES ==> r == AddOutcome::Added
                && final(self).cube_seq() == old(self).cube_seq().push(cube),
            old(self).cube_seq().len() >= MAX_CUBES ==> r == AddOutcome::Full
                && final(self).cube_seq() == old(self).cube_seq(),
    {
        self.cubes.push_bounded(cube)
    }

    /// Replaces the plane at position `i`.
    pub fn set_plane(&mut self, i: usize, plane: P)
        requires
            old(self).wf(),
            i < old(self).plane_seq().len(),
        ensures
            final(self).wf(),
            final(self).plane_seq() == old(self).plane_seq().update(i as int, plane),
            final(self).ellipse_seq() == old(self).ellipse_seq(),
            final(self).portal_pair_seq() == old(self).portal_pair_seq(),
            final(self).cube_seq() == old(self).cube_seq(),
    {
        self.planes.set(i, plane);
    }

    /// Replaces the ellipse at position `i`.
    pub fn set_ellipse(&mut self, i: usize, ellipse: E)
        requires
            old(self).wf(),
            i < old(self).ellipse_seq().len(),
        ensures
            final(self).wf(),
            final(self).ellipse_seq() == old(self).ellipse_seq().update(i as int, ellipse),
            final(self).plane_seq() == old(self).plane_seq(),
            final(self).portal_pair_seq() == old(self).portal_pair_seq(),
            final(self).cube_seq() == old(self).cube_seq(),
    {
        self.ellipses.set(i, ellipse);
    }

    /// Replaces the portal pair at position `i`.
    pub fn set_portal_pair(&mut self, i: usize, portal_pair: Q)
        requires
            old(self).wf(),
            i < old(self).portal_pair_seq().len(),
        ensures
            final(self).wf(),
            final(self).portal_pair_seq() == old(self).portal_pair_seq().update(
                i as int,
                portal_pair,
            ),
            final(self).plane_seq() == old(self).plane_seq(),
            final(self).ellipse_seq() == old(self).ellipse_seq(),
            final(self).cube_seq() == old(self).cube_seq(),
    {
        self.portal_pairs.set(i, portal_pair);
    }

    /// Replaces the cube at position `i`.
    pub fn set_cube(&mut self, i: usize, cube: C)
        requires
            old(self).wf(),
            i < old(self).cube_seq().len(),
        ensures
            final(self).wf(),
            final(self).cube_seq() == old(self).cube_seq().update(i as int, cube),
            final(self).plane_seq() == old(self).plane_seq(),
            final(self).ellipse_seq() == old(self).ellipse_seq(),
            final(self).portal_pair_seq() == old(self).portal_pair_seq(),
    {
        self.cubes.set(i, cube);
    }

    /// The renderer's layout of this scene: each count is the number of
    /// objects of that kind, and each block has exactly the maximum number of
    /// slots, the objects (converted) first and fillers after.
    pub fn to_raw<RP: Copy, RE: Copy, RQ: Copy, RC: Copy>(
        &self,
        plane_raw: impl Fn(&P) -> RP,
        plane_filler: RP,
        ellipse_raw: impl Fn(&E) -> RE,
        ellipse_filler: RE,
        portal_pair_raw: impl Fn(&Q) -> RQ,
        portal_pair_filler: RQ,
        cube_raw: impl Fn(&C) -> RC,
        cube_filler: RC,
    ) -> (r: SceneDataRaw<RP, RE, RQ, RC>)
        requires
            self.wf(),
            forall|x: &P| call_requires(plane_raw, (x,)),
            forall|x: &E| call_requires(ellipse_raw, (x,)),
            forall|x: &Q| call_requires(portal_pair_raw, (x,)),
            forall|x: &C| call_requires(cube_raw, (x,)),
        ensures
            r.plane_count == self.plane_seq().len(),
            r.ellipse_count == self.ellipse_seq().len(),
            r.portal_pair_count == self.portal_pair_seq().len(),
            r.cube_count == self.cube_seq().len(),
            is_padded_layout(self.plane_seq(), r.planes@, MAX_PLANES as nat, plane_raw, plane_filler),
            is_padded_layout(
                self.ellipse_seq(),
                r.ellipses@,
                MAX_ELLIPSES as nat,
                ellipse_raw,
                ellipse_filler,
            ),
            is_padded_layout(
                self.portal_pair_seq(),
                r.portal_pairs@,
                MAX_PORTAL_PAIRS as nat,
                portal_pair_raw,
                portal_pair_filler,
            ),
            is_padded_layout(self.cube_seq(), r.cubes@, MAX_CUBES as nat, cube_raw, cube_filler),
    {
        SceneDataRaw {
            plane_count: self.planes.len(),
            ellipse_count: self.ellipses.len(),
            portal_pair_count: self.portal_pairs.len(),
            cube_count: self.cubes.len(),
            planes: self.planes.to_padded(plane_raw, plane_filler),
            ellipses: self.ellipses.to_padded(ellipse_raw, ellipse_filler),
            portal_pairs: self.portal_pairs.to_padded(portal_pair_raw, portal_pair_filler),
            cubes: self.cubes.to_padded(cube_raw, cube_filler),
        }
    }
}

/// A named scene.
pub struct Scene<P, E, Q, C> {
    pub name: String,
    pub data: SceneData<P, E, Q, C>,
}

impl<P, E, Q, C> Scene<P, E, Q, C> {
    /// The scene's objects are well formed.
    pub open spec fn wf(&self) -> bool {
        self.data.wf()
    }

    /// An empty scene called `name`.
    pub fn new(name: &str) -> (r: Self)
        ensures
            r.wf(),
            r.name@ == name@,
            r.data.plane_seq() == Seq::<P>::empty(),
            r.data.ellipse_seq() == Seq::<E>::empty(),
            r.data.portal_pair_seq() == Seq::<Q>::empty(),
            r.data.cube_seq() == Seq::<C>::empty(),
    {
        Scene { name: name.to_owned(), data: SceneData::new() }
    }

    /// Adds a plane unless the scene already holds `MAX_PLANES` of them.
    pub fn add_plane(&mut self, plane: P) -> (r: AddOutcome)
        requires
            old(self).wf(),
        ensures
            final(self).wf(),
            final(self).name == old(self).name,
            final(self).data.ellipse_seq() == old(self).data.ellipse_seq(),
            final(self).data.portal_pair_seq() == old(self).data.portal_pair_seq(),
            final(self).data.cube_seq() == old(self).data.cube_seq(),
            old(self).data.plane_seq().len() < MAX_PLANES ==> r == AddOutcome::Added
                && final(self).data.plane_seq() == old(self).data.plane_seq().push(plane),
            old(self).data.plane_seq().len() >= MAX_PLANES ==> r == AddOutcome::Full
                && final(self).data.plane_seq() == old(self).data.plane_seq(),
    {
        self.data.add_plane(plane)
    }

    /// Adds an ellipse unless the scene already holds `MAX_ELLIPSES` of them.
    pub fn add_ellipse(&mut self, ellipse: E) -> (r: AddOutcome)
        requires
            old(self).wf(),
        ensures
            final(self).wf(),
            final(self).name == old(self).name,
            final(self).data.plane_seq() == old(self).data.plane_seq(),
            final(self).data.portal_pair_seq() == old(self).data.portal_pair_seq(),
            final(self).data.cube_seq() == old(self).data.cube_seq(),
            old(self).data.ellipse_seq().len() < MAX_ELLIPSES ==> r == AddOutcome::Added
                && final(self).data.ellipse_seq() == old(self).data.ellipse_seq().push(ellipse),
            old(self).data.ellipse_seq().len() >= MAX_ELLIPSES ==> r == AddOutcome::Full
                && final(self).data.ellipse_seq() == old(self).data.ellipse_seq(),
    {
        self.data.add_ellipse(ellipse)
    }

    /// Adds a portal pair unless the scene already holds `MAX_PORTAL_PAIRS` of them.
    pub fn add_portal_pair(&mut self, portal_pair: Q) -> (r: AddOutcome)
        requires
            old(self).wf(),
        ensures
            final(self).wf(),
            final(self).name == old(self).name,
            final(self).data.plane_seq() == old(self).data.plane_seq(),
            final(self).data.ellipse_seq() == old(self).data.ellipse_seq(),
            final(self).data.cube_seq() == old(self).data.cube_seq(),
            old(self).data.portal_pair_seq().len() < MAX_PORTAL_PAIRS ==> r == AddOutcome::Added
                && final(self).data.portal_pair_seq() == old(self).data.portal_pair_seq().push(
                portal_pair,
            ),
            old(self).data.portal_pair_seq().len() >= MAX_PORTAL_PAIRS ==> r == AddOutcome::Full
                && final(self).data.portal_pair_seq() == old(self).data.portal_pair_seq(),
    {
        self.data.add_portal_pair(portal_pair)
    }

    /// Adds a cube unless the scene already holds `MAX_CUBES` of them.
    pub fn add_cube(&mut self, cube: C) -> (r: AddOutcome)
        requires
            old(self).wf(),
        ensures
            final(self).wf(),
            final(self).name == old(self).name,
            final(self).data.plane_seq() == old(self).data.plane_seq(),
            final(self).data.ellipse_seq() == old(self).data.ellipse_seq(),
            final(self).data.portal_pair_seq() == old(self).data.portal_pair_seq(),
            old(self).data.cube_seq().len() < MAX_CUBES ==> r == AddOutcome::Added
                && final(self).data.cube_seq() == old(self).data.cube_seq().push(cube),
            old(self).data.cube_seq().len() >= MAX_CUBES ==> r == AddOutcome::Full
                && final(self).data.cube_seq() == old(self).data.cube_seq(),
    {
        self.data.add_cube(cube)
    }

    /// The renderer's layout of this scene (see [`SceneData::to_raw`]).
    pub fn to_raw<RP: Copy, RE: Copy, RQ: Copy, RC: Copy>(
        &self,
        plane_raw: impl Fn(&P) -> RP,
        plane_filler: RP,
        ellipse_raw: impl Fn(&E) -> RE,
        ellipse_filler: RE,
        portal_pair_raw: impl Fn(&Q) -> RQ,
        portal_pair_filler: RQ,
        cube_raw: impl Fn(&C) -> RC,
        cube_filler: RC,
    ) -> (r: SceneDataRaw<RP, RE, RQ, RC>)
        requires
            self.wf(),
            forall|x: &P| call_requires(plane_raw, (x,)),
            forall|x: &E| call_requires(ellipse_raw, (x,)),
            forall|x: &Q| call_requires(portal_pair_raw, (x,)),
            forall|x: &C| call_requires(cube_raw, (x,)),
        ensures
            r.plane_count == self.data.plane_seq().len(),
            r.ellipse_count == self.data.ellipse_seq().len(),
            r.portal_pair_count == self.data.portal_pair_seq().len(),
            r.cube_count == self.data.cube_seq().len(),
            is_padded_layout(
                self.data.plane_seq(),
                r.planes@,
                MAX_PLANES as nat,
                plane_raw,
                plane_filler,
            ),
            is_padded_layout(
                self.data.ellipse_seq(),
                r.ellipses@,
                MAX_ELLIPSES as nat,
                ellipse_raw,
                ellipse_filler,
            ),
            is_padded_layout(
                self.data.portal_pair_seq(),
                r.portal_pairs@,
                MAX_PORTAL_PAIRS as nat,
                portal_pair_raw,
                portal_pair_filler,
            ),
            is_padded_layout(
                self.data.cube_seq(),
                r.cubes@,
                MAX_CUBES as nat,
                cube_raw,
                cube_filler,
            ),
    {
        self.data.to_raw(
            plane_raw,
            plane_filler,
            ellipse_raw,
            ellipse_filler,
            portal_pair_raw,
            portal_pair_filler,
            cube_raw,
            cube_filler,
        )
    }
}

} // verus!
