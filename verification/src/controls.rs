use vstd::prelude::*;

verus! {

/// The movement keys held down this frame.
#[derive(Debug, Clone, Copy, PartialEq, Eq, Structural)]
pub struct MovementKeys {
    /// W
    pub forward: bool,
    /// A
    pub left: bool,
    /// S
    pub back: bool,
    /// D
    pub right: bool,
    /// Space
    pub up: bool,
    /// Left shift
    pub down: bool,
}

/// How the held keys move the camera, along the camera's own axes: each
/// component is -1, 0 or 1, and `moved` says whether any movement key was
/// held (even when opposite keys cancel).
#[derive(Debug, Clone, Copy, PartialEq, Eq, Structural)]
pub struct MovementAxes {
    pub forward: i8,
    pub right: i8,
    pub up: i8,
    pub moved: bool,
}

/// 1 for a held key, 0 otherwise.
pub open spec fn held(b: bool) -> int {
    if b {
        1
    } else {
        0
    }
}

/// Sums the held movement keys into one step along the camera axes:
/// W minus S forward, D minus A to the right, Space minus left shift up.
pub fn movement_axes(keys: MovementKeys) -> (r: MovementAxes)
    ensures
        r.forward == held(keys.forward) - held(keys.back),
        r.right == held(keys.right) - held(keys.left),
        r.up == held(keys.up) - held(keys.down),
        r.moved <==> (keys.forward || keys.left || keys.back || keys.right || keys.up || keys.down),
{
    let mut forward: i8 = 0;
    let mut right: i8 = 0;
    let mut up: i8 = 0;
    let mut moved = false;
    if keys.forward {
        forward = forward + 1;
        moved = true;
    }
    if keys.left {
        right = right - 1;
        moved = true;
    }
    if keys.back {
        forward = forward - 1;
        moved = true;
    }
    if keys.right {
        right = right + 1;
        moved = true;
    }
    if keys.up {
        up = up + 1;
        moved = true;
    }
    if keys.down {
        up = up - 1;
        moved = true;
    }
    MovementAxes { forward, right, up, moved }
}

/// Direction the view rolls this frame: 1 with E held, -1 with Q held,
/// 0 with both or neither.
pub fn roll_direction(e_held: bool, q_held: bool) -> (r: i8)
    ensures
        r == held(e_held) - held(q_held),
{
    let mut rotation: i8 = 0;
    if e_held {
        rotation = rotation + 1;
    }
    if q_held {
        rotation = rotation - 1;
    }
    rotation
}

/// Whether the mouse steers the camera of each viewport.
pub struct MouseLocks {
    locked: Vec<bool>,
}

impl View for MouseLocks {
    type V = Seq<bool>;

    closed spec fn view(&self) -> Seq<bool> {
        self.locked@
    }
}

impl MouseLocks {
    /// `viewports` viewports, none of them locked.
    pub fn new(viewports: usize) -> (r: Self)
        ensures
            r@ == Seq::new(viewports as nat, |i: int| false),
    {
        let mut locked: Vec<bool> = Vec::new();
        let mut i: usize = 0;
        while i < viewports
            invariant
                i <= viewports,
                locked@ == Seq::new(i as nat, |k: int| false),
            decreases viewports - i,
        {
            locked.push(false);
            i = i + 1;
            assert(locked@ =~= Seq::new(i as nat, |k: int| false));
        }
        MouseLocks { locked }
    }

    /// Whether viewport `i` is locked.
    pub fn is_locked(&self, i: usize) -> (r: bool)
        requires
            i < self@.len(),
        ensures
            r == self@[i as int],
    {
        self.locked[i]
    }

    /// The Tab key: flips the lock of the focused viewport and returns its
    /// new state; with no focused viewport nothing changes.
    pub fn toggle(&mut self, focused: Option<usize>) -> (r: Option<bool>)
        ensures
            (match focused {
                Some(i) => if i < old(self)@.len() {
                    r == Some(!old(self)@[i as int]) && final(self)@ == old(self)@.update(
                        i as int,
                        !old(self)@[i as int],
                    )
                } else {
                    r is None && final(self)@ == old(self)@
                },
                None => r is None && final(self)@ == old(self)@,
            }),
    {
        match focused {
            Some(i) => {
                if i < self.locked.len() {
                    let now = !self.locked[i];
                    self.locked.set(i, now);
                    Some(now)
                } else {
                    None
                }
            },
            None => None,
        }
    }

    /// A mouse click: whether the cursor should be grabbed, which is when the
    /// focused viewport is locked.
    pub fn grabs_on_click(&self, focused: Option<usize>) -> (r: bool)
        ensures
            r <==> (focused matches Some(i) && i < self@.len() && self@[i as int]),
    {
        match focused {
            Some(i) => i < self.locked.len() && self.locked[i],
            None => false,
        }
    }

    /// A mouse click in the mode where clicking takes hold of the mouse:
    /// locks viewport `i` if it was not locked, and says whether it did.
    pub fn lock_on_click(&mut self, i: usize) -> (r: bool)
        requires
            i < old(self)@.len(),
        ensures
            r == !old(self)@[i as int],
            final(self)@ == old(self)@.update(i as int, true),
    {
        if !self.locked[i] {
            self.locked.set(i, true);
            true
        } else {
            proof {
                assert(self@ =~= self@.update(i as int, true));
            }
            false
        }
    }

    /// A mouse move: the focused viewport, if locked, keeps its lock and has
    /// its camera turned (its index is returned); every other viewport loses
    /// its lock.
    pub fn on_mouse_moved(&mut self, focused: Option<usize>) -> (r: Option<usize>)
        ensures
            final(self)@.len() == old(self)@.len(),
            forall|j: int|
                0 <= j < old(self)@.len() ==> #[trigger] final(self)@[j] == (old(self)@[j]
                    && focused == Some(j as usize)),
            r matches Some(i) ==> focused == Some(i) && i < old(self)@.len() && old(self)@[i as int],
            r is None ==> !(focused matches Some(i) && i < old(self)@.len() && old(self)@[i as int]),
    {
        let mut steered: Option<usize> = None;
        let n = self.locked.len();
        let mut j: usize = 0;
        while j < n
            invariant
                n == self.locked@.len(),
                n == old(self)@.len(),
                j <= n,
                forall|k: int|
                    0 <= k < j ==> #[trigger] self.locked@[k] == (old(self)@[k] && focused == Some(
                        k as usize,
                    )),
                forall|k: int| j <= k < n ==> #[trigger] self.locked@[k] == old(self)@[k],
                steered matches Some(i) ==> focused == Some(i) && i < j && old(self)@[i as int],
                steered is None ==> !(focused matches Some(i) && i < j && old(self)@[i as int]),
            decreases n - j,
        {
            let is_focused = match focused {
                Some(i) => i == j,
                None => false,
            };
            if is_focused && self.locked[j] {
                steered = Some(j);
            } else {
                self.locked.set(j, false);
            }
            j = j + 1;
        }
        steered
    }
}

/// Index of the first viewport for which `is_focused` holds, if any.
pub fn focused_viewport<V>(viewports: &Vec<V>, is_focused: impl Fn(&V) -> bool) -> (r: Option<
    usize,
>)
    requires
        forall|v: &V| call_requires(is_focused, (v,)),
    ensures
        r matches Some(i) ==> i < viewports@.len() && call_ensures(
            is_focused,
            (&viewports@[i as int],),
            true,
        ) && forall|j: int|
            0 <= j < i ==> #[trigger] call_ensures(is_focused, (&viewports@[j],), false),
        r is None ==> forall|j: int|
            0 <= j < viewports@.len() ==> #[trigger] call_ensures(is_focused, (&viewports@[j],), false),
{
    let n = viewports.len();
    let mut i: usize = 0;
    while i < n
        invariant
            n == viewports@.len(),
            i <= n,
            forall|v: &V| call_requires(is_focused, (v,)),
            forall|j: int| 0 <= j < i ==> #[trigger] call_ensures(is_focused, (&viewports@[j],), false),
        decreases n - i,
    {
        if is_focused(&viewports[i]) {
            return Some(i);
        }
        i = i + 1;
    }
    None
}

/// After a mouse move at most one viewport stays locked, and it is the
/// focused one.
pub proof fn lemma_mouse_move_keeps_only_focused(
    before: Seq<bool>,
    after: Seq<bool>,
    focused: Option<usize>,
    j: int,
)
    requires
        after.len() == before.len(),
        forall|k: int|
            0 <= k < before.len() ==> #[trigger] after[k] == (before[k] && focused == Some(
                k as usize,
            )),
        0 <= j < after.len(),
        after[j],
    ensures
        focused == Some(j as usize),
{
}

} // verus!
