use vstd::prelude::*;

verus! {

/// What became of an object offered to a list whose size is capped.
#[derive(Debug, Clone, Copy, PartialEq, Eq, Structural)]
pub enum AddOutcome {
    /// The object was appended.
    Added,
    /// The list was already at its capacity; nothing changed.
    Full,
}

/// `out` is `items` laid out in a block of `cap` slots: slot `i` holds what
/// `convert` gives for the `i`-th item, and the slots past the last item hold
/// `filler`.
pub open spec fn is_padded_layout<T, R, F: Fn(&T) -> R>(
    items: Seq<T>,
    out: Seq<R>,
    cap: nat,
    convert: F,
    filler: R,
) -> bool {
    &&& out.len() == cap
    &&& forall|i: int| 0 <= i < items.len() ==> call_ensures(convert, (&items[i],), #[trigger] out[i])
    &&& forall|i: int| items.len() <= i < cap ==> #[trigger] out[i] == filler
}

/// An ordered list of scene objects that never grows past a fixed capacity.
///
/// Objects keep the order in which they were added; an object offered to a
/// full list is turned away and the list stays as it was.
pub struct BoundedList<T> {
    items: Vec<T>,
    cap: u32,
}

impl<T> View for BoundedList<T> {
    type V = Seq<T>;

    closed spec fn view(&self) -> Seq<T> {
        self.items@
    }
}

impl<T> BoundedList<T> {
    /// The most objects the list will ever hold.
    pub closed spec fn capacity(&self) -> nat {
        self.cap as nat
    }

    /// The list holds no more objects than its capacity.
    pub closed spec fn wf(&self) -> bool {
        self.items@.len() <= self.cap
    }

    /// A well-formed list never holds more objects than its capacity.
    pub proof fn lemma_within_capacity(&self)
        requires
            self.wf(),
        ensures
            self@.len() <= self.capacity(),
    {
    }

    /// An empty list that accepts up to `cap` objects.
    pub fn new(cap: u32) -> (r: Self)
        ensures
            r.wf(),
            r@ == Seq::<T>::empty(),
            r.capacity() == cap,
    {
        BoundedList { items: Vec::new(), cap }
    }

    /// Number of objects held.
    pub fn len(&self) -> (r: u32)
        requires
            self.wf(),
        ensures
            r == self@.len(),
            r <= self.capacity(),
    {
        self.items.len() as u32
    }

    /// The capacity given at construction.
    pub fn capacity_exec(&self) -> (r: u32)
        ensures
            r == self.capacity(),
    {
        self.cap
    }

    /// Whether another object would be turned away.
    pub fn is_full(&self) -> (r: bool)
        requires
            self.wf(),
        ensures
            r <==> self@.len() == self.capacity(),
    {
        self.items.len() as u32 == self.cap
    }

    /// Appends `item` when there is room, and reports which way it went.
    pub fn push_bounded(&mut self, item: T) -> (r: AddOutcome)
        requires
            old(self).wf(),
        ensures
            final(self).wf(),
            final(self).capacity() == old(self).capacity(),
            old(self)@.len() < old(self).capacity() ==> r == AddOutcome::Added && final(self)@
                == old(self)@.push(item),
            old(self)@.len() >= old(self).capacity() ==> r == AddOutcome::Full && final(self)@
                == old(self)@,
    {
        if (self.items.len() as u32) < self.cap {
            self.items.push(item);
            AddOutcome::Added
        } else {
            AddOutcome::Full
        }
    }

    /// The object at position `i`.
    pub fn get(&self, i: usize) -> (r: &T)
        requires
            i < self@.len(),
        ensures
            *r == self@[i as int],
    {
        &self.items[i]
    }

    /// Replaces the object at position `i`, keeping every other one.
    pub fn set(&mut self, i: usize, item: T)
        requires
            old(self).wf(),
            i < old(self)@.len(),
        ensures
            final(self).wf(),
            final(self).capacity() == old(self).capacity(),
            final(self)@ == old(self)@.update(i as int, item),
    {
        self.items.set(i, item);
    }

    /// All objects, in the order they were added.
    pub fn as_vec(&self) -> (r: &Vec<T>)
        ensures
            r@ == self@,
    {
        &self.items
    }

    /// Lays the objects out in a block of exactly `capacity` slots: slot `i`
    /// holds `convert` of the `i`-th object, and the slots past the last
    /// object hold `filler`.
    pub fn to_padded<R: Copy>(&self, convert: impl Fn(&T) -> R, filler: R) -> (r: Vec<R>)
        requires
            self.wf(),
            forall|i: int| 0 <= i < self@.len() ==> call_requires(convert, (&self@[i],)),
        ensures
            is_padded_layout(self@, r@, self.capacity(), convert, filler),
    {
        let mut out: Vec<R> = Vec::new();
        let n = self.items.len();
        let mut i: usize = 0;
        while i < n
            invariant
                n == self@.len(),
                n <= self.cap,
                i <= n,
                out@.len() == i,
                forall|k: int| 0 <= k < self@.len() ==> call_requires(convert, (&self@[k],)),
                forall|k: int| 0 <= k < i ==> call_ensures(convert, (&self@[k],), #[trigger] out@[k]),
            decreases n - i,
        {
            let v = convert(&self.items[i]);
            out.push(v);
            i = i + 1;
        }
        let cap = self.cap as usize;
        while i < cap
            invariant
                n == self@.len(),
                n <= i <= cap,
                cap == self.cap,
                out@.len() == i,
                forall|k: int| 0 <= k < n ==> call_ensures(convert, (&self@[k],), #[trigger] out@[k]),
                forall|k: int| n <= k < i ==> #[trigger] out@[k] == filler,
            decreases cap - i,
        {
            out.push(filler);
            i = i + 1;
        }
        out
    }
}

/// What a list holding `current` with room for `cap` objects holds after
/// being offered each of `offered` in turn: the offered objects that still
/// fit are appended in order, the rest are turned away.
pub open spec fn filled<T>(current: Seq<T>, offered: Seq<T>, cap: nat) -> Seq<T>
    recommends
        current.len() <= cap,
{
    let room = (cap - current.len()) as nat;
    if offered.len() <= room {
        current + offered
    } else {
        current + offered.take(room as int)
    }
}

/// Offers each object of `offered`, in order, to `list`; those that arrive
/// once the list is full are turned away. Returns how many were turned away.
pub fn fill_from<T>(list: &mut BoundedList<T>, offered: Vec<T>) -> (r: usize)
    requires
        old(list).wf(),
    ensures
        final(list).wf(),
        final(list).capacity() == old(list).capacity(),
        final(list)@ == filled(old(list)@, offered@, old(list).capacity()),
        r == offered@.len() - (final(list)@.len() - old(list)@.len()),
{
    let ghost start = list@;
    let ghost all = offered@;
    let total = offered.len();
    let mut rest = offered;
    let mut dropped: usize = 0;
    let ghost mut k: int = 0;
    while rest.len() > 0
        invariant
            list.wf(),
            list.capacity() == old(list).capacity(),
            start == old(list)@,
            0 <= k <= all.len(),
            all.len() == total,
            rest@ == all.skip(k),
            list@ == filled(start, all.take(k), list.capacity()),
            dropped == k - (list@.len() - start.len()),
            dropped <= k,
        decreases rest@.len(),
    {
        let item = rest.remove(0);
        let ghost before = list@;
        let outcome = list.push_bounded(item);
        match outcome {
            AddOutcome::Added => {},
            AddOutcome::Full => {
                dropped = dropped + 1;
            },
        }
        proof {
            assert(all.take(k + 1) =~= all.take(k).push(item));
            assert(rest@ =~= all.skip(k + 1));
            let room = (list.capacity() - start.len()) as nat;
            if all.take(k).len() < room {
                assert(filled(start, all.take(k + 1), list.capacity()) =~= before.push(item));
            } else {
                assert(all.take(k + 1).take(room as int) =~= all.take(k).take(room as int));
            }
            k = k + 1;
        }
    }
    proof {
        assert(all.take(k) =~= all);
    }
    dropped
}

/// A block of slots of fixed length, filled from the front.
///
/// The block starts as copies of a filler value; each accepted object
/// overwrites the first slot not yet used. This is the layout the renderer
/// reads: a count followed by a fixed-size array.
pub struct SlotArray<T> {
    slots: Vec<T>,
    count: u32,
}

impl<T: Copy> SlotArray<T> {
    /// All slots, used or not.
    pub closed spec fn slots(&self) -> Seq<T> {
        self.slots@
    }

    /// How many slots, from the front, hold objects that were added.
    pub closed spec fn count(&self) -> nat {
        self.count as nat
    }

    /// The used slots never outnumber the slots, and the slots fit a `u32` count.
    pub closed spec fn wf(&self) -> bool {
        &&& self.count <= self.slots@.len()
        &&& self.slots@.len() <= u32::MAX
    }

    /// A well-formed block never counts more used slots than it has.
    pub proof fn lemma_count_within_size(&self)
        requires
            self.wf(),
        ensures
            self.count() <= self.slots().len(),
    {
    }

    /// `size` slots, each holding `filler`, none used.
    pub fn new(filler: T, size: u32) -> (r: Self)
        ensures
            r.wf(),
            r.count() == 0,
            r.slots() == Seq::new(size as nat, |i: int| filler),
    {
        let mut slots: Vec<T> = Vec::new();
        let mut i: u32 = 0;
        while i < size
            invariant
                i <= size,
                slots@ == Seq::new(i as nat, |k: int| filler),
            decreases size - i,
        {
            slots.push(filler);
            i = i + 1;
            assert(slots@ =~= Seq::new(i as nat, |k: int| filler));
        }
        SlotArray { slots, count: 0 }
    }

    /// Number of used slots.
    pub fn count_exec(&self) -> (r: u32)
        ensures
            r == self.count(),
    {
        self.count
    }

    /// Number of slots.
    pub fn size(&self) -> (r: u32)
        requires
            self.wf(),
        ensures
            r == self.slots().len(),
    {
        self.slots.len() as u32
    }

    /// Writes `item` into the first unused slot when there is one.
    pub fn add(&mut self, item: T) -> (r: AddOutcome)
        requires
            old(self).wf(),
        ensures
            final(self).wf(),
            final(self).slots().len() == old(self).slots().len(),
            old(self).count() < old(self).slots().len() ==> {
                &&& r == AddOutcome::Added
                &&& final(self).count() == old(self).count() + 1
                &&& final(self).slots() == old(self).slots().update(old(self).count() as int, item)
            },
            old(self).count() >= old(self).slots().len() ==> {
                &&& r == AddOutcome::Full
                &&& final(self).count() == old(self).count()
                &&& final(self).slots() == old(self).slots()
            },
    {
        if (self.count as usize) < self.slots.len() {
            let c = self.count as usize;
            self.slots.set(c, item);
            self.count = self.count + 1;
            AddOutcome::Added
        } else {
            AddOutcome::Full
        }
    }

    /// The object in slot `i`, used or not.
    pub fn get(&self, i: usize) -> (r: T)
        requires
            i < self.slots().len(),
        ensures
            r == self.slots()[i as int],
    {
        self.slots[i]
    }

    /// Replaces the object in slot `i`; the count of used slots stays.
    pub fn set(&mut self, i: usize, item: T)
        requires
            old(self).wf(),
            i < old(self).slots().len(),
        ensures
            final(self).wf(),
            final(self).count() == old(self).count(),
            final(self).slots() == old(self).slots().update(i as int, item),
    {
        self.slots.set(i, item);
    }

    /// Every slot, used or not, in order.
    pub fn as_vec(&self) -> (r: &Vec<T>)
        ensures
            r@ == self.slots(),
    {
        &self.slots
    }

    /// The used slots only, in order.
    pub fn used(&self) -> (r: Vec<T>)
        requires
            self.wf(),
        ensures
            r@ == self.slots().subrange(0, self.count() as int),
    {
        let mut out: Vec<T> = Vec::new();
        let mut i: usize = 0;
        let c = self.count as usize;
        while i < c
            invariant
                c == self.count(),
                c <= self.slots@.len(),
                i <= c,
                out@ == self.slots@.subrange(0, i as int),
            decreases c - i,
        {
            out.push(self.slots[i]);
            i = i + 1;
            assert(out@ =~= self.slots@.subrange(0, i as int));
        }
        out
    }
}

} // verus!
