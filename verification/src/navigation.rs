use vstd::prelude::*;

verus! {

/// What a request to show another scene came to.
#[derive(Debug, Clone, Copy, PartialEq, Eq, Structural)]
pub enum SwitchOutcome {
    /// The scene with this index is now the current one.
    Switched(usize),
    /// There is no scene with this index; the current scene stays.
    OutOfBounds(usize),
}

/// Index the Right key moves to from `current`: the next scene, or `current`
/// itself when it is the last one.
pub open spec fn next_index(current: usize, count: usize) -> usize {
    if current + 1 < count {
        (current + 1) as usize
    } else {
        current
    }
}

/// Index the Left key moves to from `current`: the previous scene, or
/// `current` itself when it is the first one.
pub open spec fn previous_index(current: usize) -> usize {
    if current > 0 {
        (current - 1) as usize
    } else {
        current
    }
}

/// Which of a fixed number of scenes is on screen.
pub struct SceneCursor {
    current: usize,
    count: usize,
}

impl SceneCursor {
    /// Index of the scene on screen.
    pub closed spec fn current(&self) -> usize {
        self.current
    }

    /// Number of scenes.
    pub closed spec fn count(&self) -> usize {
        self.count
    }

    /// The scene on screen is one of the scenes.
    pub closed spec fn wf(&self) -> bool {
        self.current < self.count
    }

    /// In a well-formed cursor the scene on screen is one of the scenes.
    pub proof fn lemma_current_in_range(&self)
        requires
            self.wf(),
        ensures
            self.current() < self.count(),
    {
    }

    /// `count` scenes with scene `initial` on screen.
    pub fn new(initial: usize, count: usize) -> (r: Self)
        requires
            initial < count,
        ensures
            r.wf(),
            r.current() == initial,
            r.count() == count,
    {
        SceneCursor { current: initial, count }
    }

    /// Index of the scene on screen.
    pub fn current_scene(&self) -> (r: usize)
        ensures
            r == self.current(),
    {
        self.current
    }

    /// Number of scenes.
    pub fn scene_count(&self) -> (r: usize)
        ensures
            r == self.count(),
    {
        self.count
    }

    /// Puts scene `scene_id` on screen if there is such a scene; otherwise
    /// keeps the current one and says so.
    pub fn switch_scene(&mut self, scene_id: usize) -> (r: SwitchOutcome)
        requires
            old(self).wf(),
        ensures
            final(self).wf(),
            final(self).count() == old(self).count(),
            scene_id < old(self).count() ==> r == SwitchOutcome::Switched(scene_id)
                && final(self).current() == scene_id,
            scene_id >= old(self).count() ==> r == SwitchOutcome::OutOfBounds(scene_id)
                && final(self).current() == old(self).current(),
    {
        if scene_id < self.count {
            self.current = scene_id;
            SwitchOutcome::Switched(scene_id)
        } else {
            SwitchOutcome::OutOfBounds(scene_id)
        }
    }

    /// Puts scene `scene_id` on screen if `scene_id` is below the number of
    /// scenes taken as a `u32` (as the renderer's scene id is); otherwise
    /// does nothing. Returns whether the scene changed hands.
    pub fn switch_scene_u32(&mut self, scene_id: u32) -> (r: bool)
        requires
            old(self).wf(),
        ensures
            final(self).wf(),
            final(self).count() == old(self).count(),
            r <==> scene_id < (old(self).count() as u32),
            r ==> final(self).current() == scene_id,
            !r ==> final(self).current() == old(self).current(),
    {
        let count = self.count;
        if scene_id < count as u32 {
            proof {
                assert((count as u32) <= count) by (bit_vector);
            }
            self.current = scene_id as usize;
            true
        } else {
            false
        }
    }

    /// The Right key: moves to the next scene unless the last one is on
    /// screen, in which case nothing happens and `None` is returned.
    pub fn next_scene(&mut self) -> (r: Option<SwitchOutcome>)
        requires
            old(self).wf(),
        ensures
            final(self).wf(),
            final(self).count() == old(self).count(),
            final(self).current() == next_index(old(self).current(), old(self).count()),
            old(self).current() + 1 < old(self).count() ==> r == Some(
                SwitchOutcome::Switched((old(self).current() + 1) as usize),
            ),
            old(self).current() + 1 >= old(self).count() ==> r is None,
    {
        if self.current + 1 < self.count {
            let target = self.current + 1;
            Some(self.switch_scene(target))
        } else {
            None
        }
    }

    /// The Left key: moves to the previous scene unless the first one is on
    /// screen, in which case nothing happens and `None` is returned.
    pub fn previous_scene(&mut self) -> (r: Option<SwitchOutcome>)
        requires
            old(self).wf(),
        ensures
            final(self).wf(),
            final(self).count() == old(self).count(),
            final(self).current() == previous_index(old(self).current()),
            old(self).current() > 0 ==> r == Some(
                SwitchOutcome::Switched((old(self).current() - 1) as usize),
            ),
            old(self).current() == 0 ==> r is None,
    {
        if self.current > 0 {
            let target = self.current - 1;
            Some(self.switch_scene(target))
        } else {
            None
        }
    }
}

/// Moving by the arrow keys never leaves the range of scenes.
pub proof fn lemma_arrows_stay_in_range(current: usize, count: usize)
    requires
        current < count,
    ensures
        next_index(current, count) < count,
        previous_index(current) < count,
{
}

/// Right then Left comes back to the scene it started from, whenever Right
/// moved; Left then Right likewise, whenever Left moved.
pub proof fn lemma_arrows_undo(current: usize, count: usize)
    requires
        current < count,
    ensures
        current + 1 < count ==> previous_index(next_index(current, count)) == current,
        current > 0 ==> next_index(previous_index(current), count) == current,
{
}

} // verus!
