//! A cursor whose handles can read and remove, and nothing more.
use crate::inplace_item::InplaceItem;
use crate::inplace_vec_iterator::{InplaceVecItem, InplaceVecIterator};
use crate::removable_iterator::RemovableItem;
use vstd::prelude::*;

verus! {

/// A cursor over a vector whose handles allow the removal of the visited
/// element. A removal moves the last element into the gap, so the vector may
/// come back in another order: do not use it where the order matters.
pub struct RemovableVecIterator<T, const GUARD: bool> {
    /// The cursor that does the work.
    inner: InplaceVecIterator<T, GUARD>,
}

/// A handle on an element that can be removed from the vector.
///
/// The handle is good until its cursor advances or the element is removed.
/// Using it after that is an error, which a cursor with the guard on detects:
/// it stops the program.
pub struct RemovableVecItem<T, const GUARD: bool> {
    /// The handle of the underlying cursor.
    item: InplaceVecItem<T, GUARD>,
}

impl<T, const GUARD: bool> View for RemovableVecIterator<T, GUARD> {
    type V = Seq<T>;

    /// The elements of the vector as they stand now.
    closed spec fn view(&self) -> Seq<T> {
        self.inner@
    }
}

impl<T> RemovableVecIterator<T, true> {
    /// Starts a pass over `v` with the guard on: a stale handle is refused
    /// when it is used. Nothing has been visited yet.
    pub fn new(v: Vec<T>) -> (cursor: Self)
        ensures
            cursor.wf(),
            cursor@ == v@,
            cursor.upcoming() == 0,
            cursor.issued() == 0,
            !cursor.has_live_item(),
    {
        Self { inner: InplaceVecIterator::new(v) }
    }
}

impl<T> RemovableVecIterator<T, false> {
    /// Starts a pass over `v` with the guard off: the handle operations do
    /// not test for staleness when they run, and it is left to the caller
    /// never to use a stale handle. Nothing has been visited yet.
    pub fn new_unguarded(v: Vec<T>) -> (cursor: Self)
        ensures
            cursor.wf(),
            cursor@ == v@,
            cursor.upcoming() == 0,
            cursor.issued() == 0,
            !cursor.has_live_item(),
    {
        Self { inner: InplaceVecIterator::new_unguarded(v) }
    }
}

impl<T, const GUARD: bool> RemovableVecIterator<T, GUARD> {
    /// The position that the next advance will look at.
    pub closed spec fn upcoming(&self) -> int {
        self.inner.upcoming()
    }

    /// How many handles this cursor has issued.
    pub closed spec fn issued(&self) -> nat {
        self.inner.issued()
    }

    /// Whether the handle issued last is still usable.
    pub closed spec fn has_live_item(&self) -> bool {
        self.inner.has_live_item()
    }

    /// The invariant of the cursor.
    pub closed spec fn wf(&self) -> bool {
        self.inner.wf()
    }

    /// Advances the cursor and issues the handle for the position it reaches.
    ///
    /// The position is the one after the element visited last, or that same
    /// position if the element was removed, since another element has taken
    /// its place. When that position lies past the end the pass is over:
    /// `None` is returned, now and on every later call. The vector itself is
    /// never touched, and every handle issued earlier becomes unusable.
    pub fn next(&mut self) -> (item: Option<RemovableVecItem<T, GUARD>>)
        requires
            old(self).wf(),
        ensures
            final(self).wf(),
            final(self)@ == old(self)@,
            old(self).upcoming() < old(self)@.len() ==> {
                &&& item matches Some(handle)
                &&& handle.index() == old(self).upcoming()
                &&& handle.live_in(final(self))
                &&& final(self).upcoming() == old(self).upcoming() + 1
                &&& final(self).issued() == old(self).issued() + 1
            },
            old(self).upcoming() >= old(self)@.len() ==> {
                &&& item is None
                &&& final(self).upcoming() == old(self).upcoming()
                &&& final(self).issued() == old(self).issued()
                &&& !final(self).has_live_item()
            },
            forall|earlier: RemovableVecItem<T, GUARD>|
                earlier.stamp() <= old(self).issued() ==> !earlier.live_in(final(self)),
    {
        match self.inner.next() {
            Some(item) => Some(RemovableVecItem { item }),
            None => None,
        }
    }

    /// Ends the pass and gives the vector back as the removals left it.
    pub fn into_inner(self) -> (v: Vec<T>)
        ensures
            v@ == self@,
    {
        self.inner.into_inner()
    }
}

impl<T, const GUARD: bool> RemovableVecItem<T, GUARD> {
    /// The position this handle stands for.
    pub closed spec fn index(&self) -> int {
        self.item.index()
    }

    /// The number of handles its cursor had issued when this one came out,
    /// itself included.
    pub closed spec fn stamp(&self) -> nat {
        self.item.stamp()
    }

    /// Whether this handle is the usable handle of `cursor`: the one issued
    /// last, not yet retired by an advance or a removal.
    pub open spec fn live_in(&self, cursor: &RemovableVecIterator<T, GUARD>) -> bool {
        &&& cursor.has_live_item()
        &&& self.stamp() == cursor.issued()
        &&& self.index() + 1 == cursor.upcoming()
    }

    /// A usable handle stands for a position inside the vector, the one that
    /// its cursor visited last.
    pub proof fn lemma_live_item_in_range(&self, cursor: &RemovableVecIterator<T, GUARD>)
        requires
            cursor.wf(),
            self.live_in(cursor),
        ensures
            0 <= self.index() < cursor@.len(),
    {
        self.item.lemma_live_item_in_range(&cursor.inner);
    }

    /// Tells whether this handle has gone stale for `cursor`.
    pub fn check_rotten(&self, cursor: &RemovableVecIterator<T, GUARD>) -> (rotten: bool)
        requires
            cursor.wf(),
        ensures
            rotten == !self.live_in(cursor),
    {
        self.item.check_rotten(&cursor.inner)
    }
}

impl<T, const GUARD: bool> InplaceItem<T> for RemovableVecItem<T, GUARD> {
    type Cursor = RemovableVecIterator<T, GUARD>;

    open spec fn in_order(cursor: &RemovableVecIterator<T, GUARD>) -> bool {
        cursor.wf()
    }

    open spec fn usable(&self, cursor: &RemovableVecIterator<T, GUARD>) -> bool {
        cursor.wf() && self.live_in(cursor)
    }

    open spec fn position(&self) -> int {
        self.index()
    }

    open spec fn elements(cursor: &RemovableVecIterator<T, GUARD>) -> Seq<T> {
        cursor@
    }

    open spec fn upcoming(cursor: &RemovableVecIterator<T, GUARD>) -> int {
        cursor.upcoming()
    }

    proof fn lemma_usable_in_range(&self, cursor: &RemovableVecIterator<T, GUARD>) {
        self.lemma_live_item_in_range(cursor);
    }
}

impl<T, const GUARD: bool> RemovableItem<T> for RemovableVecItem<T, GUARD> {
    /// Removes the element from the vector. The last element moves into its
    /// place, unless the element is itself the last one.
    fn remove(self, cursor: &mut RemovableVecIterator<T, GUARD>) {
        let _ = self.item.take_value(&mut cursor.inner);
    }

    /// The element under the handle.
    fn get<'c>(&self, cursor: &'c RemovableVecIterator<T, GUARD>) -> (value: &'c T) {
        self.item.get_value(&cursor.inner)
    }
}

} // verus!
