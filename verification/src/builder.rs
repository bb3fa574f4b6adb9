use vstd::prelude::*;

use crate::bounded::{fill_from, filled, BoundedList};

verus! {

/// Collects spheres, planes and ellipses, in the order they are given, for a
/// scene to be built from them in one go.
pub struct SceneBuilder<S, P, E> {
    spheres: Vec<S>,
    planes: Vec<P>,
    ellipses: Vec<E>,
}

/// The scene a builder produced: one capped list per kind.
pub struct BuiltScene<S, P, E> {
    pub spheres: BoundedList<S>,
    pub planes: BoundedList<P>,
    pub ellipses: BoundedList<E>,
}

/// `grid` is the row-major grid of `rows` by `cols` objects that `make`
/// gives for each (row, column): object `k` was made for row `k / cols` and
/// column `k % cols`.
pub open spec fn is_grid<S, F: Fn(usize, usize) -> S>(
    make: F,
    rows: usize,
    cols: usize,
    grid: Seq<S>,
) -> bool {
    &&& grid.len() == rows * cols
    &&& forall|k: int|
        0 <= k < grid.len() ==> call_ensures(
            make,
            ((k / cols as int) as usize, (k % cols as int) as usize),
            #[trigger] grid[k],
        )
}

impl<S, P, E> SceneBuilder<S, P, E> {
    /// Spheres collected so far.
    pub closed spec fn sphere_seq(&self) -> Seq<S> {
        self.spheres@
    }

    /// Planes collected so far.
    pub closed spec fn plane_seq(&self) -> Seq<P> {
        self.planes@
    }

    /// Ellipses collected so far.
    pub closed spec fn ellipse_seq(&self) -> Seq<E> {
        self.ellipses@
    }

    /// A builder with nothing collected.
    pub fn new() -> (r: Self)
        ensures
            r.sphere_seq() == Seq::<S>::empty(),
            r.plane_seq() == Seq::<P>::empty(),
            r.ellipse_seq() == Seq::<E>::empty(),
    {
        SceneBuilder { spheres: Vec::new(), planes: Vec::new(), ellipses: Vec::new() }
    }

    /// Appends a sphere.
    pub fn add_sphere(self, sphere: S) -> (r: Self)
        ensures
            r.sphere_seq() == self.sphere_seq().push(sphere),
            r.plane_seq() == self.plane_seq(),
            r.ellipse_seq() == self.ellipse_seq(),
    {
        let mut b = self;
        b.spheres.push(sphere);
        b
    }

    /// Appends a plane.
    pub fn add_plane(self, plane: P) -> (r: Self)
        ensures
            r.sphere_seq() == self.sphere_seq(),
            r.plane_seq() == self.plane_seq().push(plane),
            r.ellipse_seq() == self.ellipse_seq(),
    {
        let mut b = self;
        b.planes.push(plane);
        b
    }

    /// Appends an ellipse.
    pub fn add_ellipse(self, ellipse: E) -> (r: Self)
        ensures
            r.sphere_seq() == self.sphere_seq(),
            r.plane_seq() == self.plane_seq(),
            r.ellipse_seq() == self.ellipse_seq().push(ellipse),
    {
        let mut b = self;
        b.ellipses.push(ellipse);
        b
    }

    /// Appends a `rows` by `cols` grid of spheres, row by row; `make` gives
    /// the sphere for a (row, column).
    pub fn spheres_grid(self, rows: usize, cols: usize, make: impl Fn(usize, usize) -> S) -> (r:
        Self)
        requires
            self.sphere_seq().len() + rows * cols <= usize::MAX,
            forall|i: usize, j: usize| call_requires(make, (i, j)),
        ensures
            r.sphere_seq().subrange(0, self.sphere_seq().len() as int) == self.sphere_seq(),
            is_grid(make, rows, cols, r.sphere_seq().skip(self.sphere_seq().len() as int)),
            r.plane_seq() == self.plane_seq(),
            r.ellipse_seq() == self.ellipse_seq(),
    {
        let ghost base = self.spheres@;
        let mut b = self;
        proof {
            assert(0 <= rows * cols) by (nonlinear_arith);
        }
        let total = rows * cols;
        let mut k: usize = 0;
        while k < total
            invariant
                total == rows * cols,
                k <= total,
                b.spheres@.len() == base.len() + k,
                base.len() + total <= usize::MAX,
                b.spheres@.subrange(0, base.len() as int) == base,
                b.planes@ == self.planes@,
                b.ellipses@ == self.ellipses@,
                forall|i: usize, j: usize| call_requires(make, (i, j)),
                forall|m: int|
                    0 <= m < k ==> call_ensures(
                        make,
                        ((m / cols as int) as usize, (m % cols as int) as usize),
                        #[trigger] b.spheres@.skip(base.len() as int)[m],
                    ),
            decreases total - k,
        {
            proof {
                assert(cols > 0) by (nonlinear_arith)
                    requires
                        k < total,
                        total == rows * cols,
                ;
            }
            let row = k / cols;
            let col = k % cols;
            let sphere = make(row, col);
            let ghost before = b.spheres@;
            b.spheres.push(sphere);
            proof {
                assert(b.spheres@.subrange(0, base.len() as int) =~= base);
                assert forall|m: int| 0 <= m < k + 1 implies call_ensures(
                    make,
                    ((m / cols as int) as usize, (m % cols as int) as usize),
                    #[trigger] b.spheres@.skip(base.len() as int)[m],
                ) by {
                    assert(b.spheres@.skip(base.len() as int)[m] == b.spheres@[base.len() + m]);
                    if m < k {
                        assert(before.skip(base.len() as int)[m] == before[base.len() + m]);
                    }
                }
            }
            k = k + 1;
        }
        proof {
            assert(b.spheres@.skip(base.len() as int).len() == total);
        }
        b
    }

    /// Builds the scene: every collected object is offered, spheres then
    /// planes then ellipses, each kind in the order collected, to an empty
    /// list of the given capacity; those past the capacity are turned away.
    pub fn build(self, sphere_cap: u32, plane_cap: u32, ellipse_cap: u32) -> (r: BuiltScene<
        S,
        P,
        E,
    >)
        ensures
            r.spheres.wf(),
            r.planes.wf(),
            r.ellipses.wf(),
            r.spheres.capacity() == sphere_cap,
            r.planes.capacity() == plane_cap,
            r.ellipses.capacity() == ellipse_cap,
            r.spheres@ == filled(Seq::<S>::empty(), self.sphere_seq(), sphere_cap as nat),
            r.planes@ == filled(Seq::<P>::empty(), self.plane_seq(), plane_cap as nat),
            r.ellipses@ == filled(Seq::<E>::empty(), self.ellipse_seq(), ellipse_cap as nat),
    {
        let SceneBuilder { spheres, planes, ellipses } = self;
        let mut sphere_list = BoundedList::new(sphere_cap);
        let mut plane_list = BoundedList::new(plane_cap);
        let mut ellipse_list = BoundedList::new(ellipse_cap);
        fill_from(&mut sphere_list, spheres);
        fill_from(&mut plane_list, planes);
        fill_from(&mut ellipse_list, ellipses);
        BuiltScene { spheres: sphere_list, planes: plane_list, ellipses: ellipse_list }
    }
}

} // verus!
