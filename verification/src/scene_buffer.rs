use vstd::prelude::*;

use crate::bounded::{AddOutcome, SlotArray};

verus! {

/// Plane slots in a scene buffer.
pub const MAX_PLANES: u32 = 10;

/// Ellipse slots in a scene buffer.
pub const MAX_ELLIPSES: u32 = 4;

/// Portal pair slots in a scene buffer.
pub const MAX_PORTAL_PAIRS: u32 = 4;

/// A scene kept directly in the layout the renderer reads: for each kind a
/// count and a fixed block of slots, filled from the front.
///
/// The slots start as the filler objects given to [`SceneData::new`]; an
/// object offered once every slot of its kind is used is turned away.
pub struct SceneData<P, E, Q> {
    planes: SlotArray<P>,
    ellipses: SlotArray<E>,
    portal_pairs: SlotArray<Q>,
}

impl<P: Copy, E: Copy, Q: Copy> SceneData<P, E, Q> {
    /// Each block is well formed and has the fixed number of slots for its kind.
    pub closed spec fn wf(&self) -> bool {
        &&& self.planes.wf()
        &&& self.ellipses.wf()
        &&& self.portal_pairs.wf()
        &&& self.planes.slots().len() == MAX_PLANES
        &&& self.ellipses.slots().len() == MAX_ELLIPSES
        &&& self.portal_pairs.slots().len() == MAX_PORTAL_PAIRS
    }

    /// All plane slots.
    pub closed spec fn plane_slots(&self) -> Seq<P> {
        self.planes.slots()
    }

    /// Number of plane slots in use.
    pub closed spec fn plane_count(&self) -> nat {
        self.planes.count()
    }

    /// All ellipse slots.
    pub closed spec fn ellipse_slots(&self) -> Seq<E> {
        self.ellipses.slots()
    }

    /// Number of ellipse slots in use.
    pub closed spec fn ellipse_count(&self) -> nat {
        self.ellipses.count()
    }

    /// All portal pair slots.
    pub closed spec fn portal_pair_slots(&self) -> Seq<Q> {
        self.portal_pairs.slots()
    }

    /// Number of portal pair slots in use.
    pub closed spec fn portal_pair_count(&self) -> nat {
        self.portal_pairs.count()
    }

    /// A well-formed scene buffer has the fixed number of slots for each kind,
    /// and counts at most that many objects of each kind.
    pub proof fn lemma_within_limits(&self)
        requires
            self.wf(),
        ensures
            self.plane_count() <= MAX_PLANES,
            self.ellipse_count() <= MAX_ELLIPSES,
            self.portal_pair_count() <= MAX_PORTAL_PAIRS,
            self.plane_slots().len() == MAX_PLANES,
            self.ellipse_slots().len() == MAX_ELLIPSES,
            self.portal_pair_slots().len() == MAX_PORTAL_PAIRS,
    {
        self.planes.lemma_count_within_size();
        self.ellipses.lemma_count_within_size();
        self.portal_pairs.lemma_count_within_size();
    }

    /// An empty scene whose slots all hold the given fillers.
    pub fn new(plane_filler: P, ellipse_filler: E, portal_pair_filler: Q) -> (r: Self)
        ensures
            r.wf(),
            r.plane_count() == 0,
            r.ellipse_count() == 0,
            r.portal_pair_count() == 0,
            r.plane_slots() == Seq::new(MAX_PLANES as nat, |i: int| plane_filler),
            r.ellipse_slots() == Seq::new(MAX_ELLIPSES as nat, |i: int| ellipse_filler),
            r.portal_pair_slots() == Seq::new(MAX_PORTAL_PAIRS as nat, |i: int| portal_pair_filler),
    {
        SceneData {
            planes: SlotArray::new(plane_filler, MAX_PLANES),
            ellipses: SlotArray::new(ellipse_filler, MAX_ELLIPSES),
            portal_pairs: SlotArray::new(portal_pair_filler, MAX_PORTAL_PAIRS),
        }
    }

    /// Number of planes added.
    pub fn plane_count_exec(&self) -> (r: u32)
        ensures
            r == self.plane_count(),
    {
        self.planes.count_exec()
    }

    /// Number of ellipses added.
    pub fn ellipse_count_exec(&self) -> (r: u32)
        ensures
            r == self.ellipse_count(),
    {
        self.ellipses.count_exec()
    }

    /// Number of portal pairs added.
    pub fn portal_pair_count_exec(&self) -> (r: u32)
        ensures
            r == self.portal_pair_count(),
    {
        self.portal_pairs.count_exec()
    }

    /// The plane block, every slot.
    pub fn planes(&self) -> (r: &Vec<P>)
        ensures
            r@ == self.plane_slots(),
    {
        self.planes.as_vec()
    }

    /// The ellipse block, every slot.
    pub fn ellipses(&self) -> (r: &Vec<E>)
        ensures
            r@ == self.ellipse_slots(),
    {
        self.ellipses.as_vec()
    }

    /// The portal pair block, every slot.
    pub fn portal_pairs(&self) -> (r: &Vec<Q>)
        ensures
            r@ == self.portal_pair_slots(),
    {
        self.portal_pairs.as_vec()
    }

    /// The portal pairs that were added, in order.
    pub fn used_portal_pairs(&self) -> (r: Vec<Q>)
        requires
            self.wf(),
        ensures
            r@ == self.portal_pair_slots().subrange(0, self.portal_pair_count() as int),
    {
        self.portal_pairs.used()
    }

    /// Writes a plane into the first unused plane slot, if there is one.
    pub fn add_plane(&mut self, plane: P) -> (r: AddOutcome)
        requires
            old(self).wf(),
        ensures
            final(self).wf(),
            final(self).ellipse_slots() == old(self).ellipse_slots(),
            final(self).ellipse_count() == old(self).ellipse_count(),
            final(self).portal_pair_slots() == old(self).portal_pair_slots(),
            final(self).portal_pair_count() == old(self).portal_pair_count(),
            old(self).plane_count() < MAX_PLANES ==> {
                &&& r == AddOutcome::Added
                &&& final(self).plane_count() == old(self).plane_count() + 1
                &&& final(self).plane_slots() == old(self).plane_slots().update(
                    old(self).plane_count() as int,
                    plane,
                )
            },
            old(self).plane_count() >= MAX_PLANES ==> {
                &&& r == AddOutcome::Full
                &&& final(self).plane_count() == old(self).plane_count()
                &&& final(self).plane_slots() == old(self).plane_slots()
            },
    {
        self.planes.add(plane)
    }

    /// Writes an ellipse into the first unused ellipse slot, if there is one.
    pub fn add_ellipse(&mut self, ellipse: E) -> (r: AddOutcome)
        requires
            old(self).wf(),
        ensures
            final(self).wf(),
            final(self).plane_slots() == old(self).plane_slots(),
            final(self).plane_count() == old(self).plane_count(),
            final(self).portal_pair_slots() == old(self).portal_pair_slots(),
            final(self).portal_pair_count() == old(self).portal_pair_count(),
            old(self).ellipse_count() < MAX_ELLIPSES ==> {
                &&& r == AddOutcome::Added
                &&& final(self).ellipse_count() == old(self).ellipse_count() + 1
                &&& final(self).ellipse_slots() == old(self).ellipse_slots().update(
                    old(self).ellipse_count() as int,
                    ellipse,
                )
            },
            old(self).ellipse_count() >= MAX_ELLIPSES ==> {
                &&& r == AddOutcome::Full
                &&& final(self).ellipse_count() == old(self).ellipse_count()
                &&& final(self).ellipse_slots() == old(self).ellipse_slots()
            },
    {
        self.ellipses.add(ellipse)
    }

    /// Writes a portal pair into the first unused portal pair slot, if there is one.
    pub fn add_portal_pair(&mut self, portal_pair: Q) -> (r: AddOutcome)
        requires
            old(self).wf(),
        ensures
            final(self).wf(),
            final(self).plane_slots() == old(self).plane_slots(),
            final(self).plane_count() == old(self).plane_count(),
            final(self).ellipse_slots() == old(self).ellipse_slots(),
            final(self).ellipse_count() == old(self).ellipse_count(),
            old(self).portal_pair_count() < MAX_PORTAL_PAIRS ==> {
                &&& r == AddOutcome::Added
                &&& final(self).portal_pair_count() == old(self).portal_pair_count() + 1
                &&& final(self).portal_pair_slots() == old(self).portal_pair_slots().update(
                    old(self).portal_pair_count() as int,
                    portal_pair,
                )
            },
            old(self).portal_pair_count() >= MAX_PORTAL_PAIRS ==> {
                &&& r == AddOutcome::Full
                &&& final(self).portal_pair_count() == old(self).portal_pair_count()
                &&& final(self).portal_pair_slots() == old(self).portal_pair_slots()
            },
    {
        self.portal_pairs.add(portal_pair)
    }

    /// Replaces the ellipse in slot `i`; counts stay.
    pub fn set_ellipse(&mut self, i: usize, ellipse: E)
        requires
            old(self).wf(),
            i < MAX_ELLIPSES,
        ensures
            final(self).wf(),
            final(self).ellipse_slots() == old(self).ellipse_slots().update(i as int, ellipse),
            final(self).ellipse_count() == old(self).ellipse_count(),
            final(self).plane_slots() == old(self).plane_slots(),
            final(self).plane_count() == old(self).plane_count(),
            final(self).portal_pair_slots() == old(self).portal_pair_slots(),
            final(self).portal_pair_count() == old(self).portal_pair_count(),
    {
        self.ellipses.set(i, ellipse);
    }

    /// Replaces the portal pair in slot `i`; counts stay.
    pub fn set_portal_pair(&mut self, i: usize, portal_pair: Q)
        requires
            old(self).wf(),
            i < MAX_PORTAL_PAIRS,
        ensures
            final(self).wf(),
            final(self).portal_pair_slots() == old(self).portal_pair_slots().update(
                i as int,
                portal_pair,
            ),
            final(self).portal_pair_count() == old(self).portal_pair_count(),
            final(self).plane_slots() == old(self).plane_slots(),
            final(self).plane_count() == old(self).plane_count(),
            final(self).ellipse_slots() == old(self).ellipse_slots(),
            final(self).ellipse_count() == old(self).ellipse_count(),
    {
        self.portal_pairs.set(i, portal_pair);
    }
}

} // verus!
