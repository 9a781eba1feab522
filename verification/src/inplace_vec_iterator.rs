//! The cursor that supports every per-element operation: read, modify,
//! remove and take.
use crate::inplace_item::InplaceItem;
use crate::removable_iterator::{RemovableItem, RemovableItemMut};
use crate::staleness_guard::{StalenessGuard, Stamp};
use crate::takeable_iterator::{TakeableItem, TakeableItemMut};
use crate::swap_removal::swap_removed;
use std::marker::PhantomData;
use vstd::prelude::*;

verus! {

/// A cursor that owns a vector for the length of one pass and hands out one
/// handle per visited position.
///
/// The vector is changed only through the handle issued last. When the pass
/// is over, [`InplaceVecIterator::into_inner`] gives the vector back.
pub struct InplaceVecIterator<T, const GUARD: bool> {
    /// The vector under iteration.
    data: Vec<T>,
    /// Set by a removal: the position in `index` holds a new element and has
    /// to be visited again.
    removed: bool,
    /// The position visited last, or `None` before the first advance.
    index: Option<usize>,
    /// Tells the handle issued last from the earlier ones.
    last_rotten: StalenessGuard,
}

/// A handle on the element at one position of the vector that an
/// [`InplaceVecIterator`] owns.
///
/// The handle is good until its cursor advances or the element is taken.
/// Using it after that is an error. A cursor with the guard on detects the
/// error and stops the program rather than reach into the vector at a
/// position that may hold something else by now; with the guard off nothing
/// tests for it when the program runs.
pub struct InplaceVecItem<T, const GUARD: bool> {
    /// The position of the element.
    index: usize,
    /// The mark by which the cursor recognises this handle.
    rotten: Stamp,
    _element: PhantomData<T>,
}

impl<T, const GUARD: bool> View for InplaceVecIterator<T, GUARD> {
    type V = Seq<T>;

    /// The elements of the vector as they stand now.
    closed spec fn view(&self) -> Seq<T> {
        self.data@
    }
}

impl<T> InplaceVecIterator<T, true> {
    /// Starts a pass over `v` with the guard on: a stale handle is refused
    /// when it is used. Nothing has been visited yet.
    pub fn new(v: Vec<T>) -> (cursor: Self)
        ensures
            cursor.wf(),
            cursor@ == v@,
            cursor.upcoming() == 0,
            cursor.issued() == 0,
            !cursor.has_live_item(),
    {
        proof {
            vstd::std_specs::vec::axiom_spec_len(&v);
        }
        Self { data: v, removed: false, index: None, last_rotten: StalenessGuard::new() }
    }
}

impl<T> InplaceVecIterator<T, false> {
    /// Starts a pass over `v` with the guard off: the handle operations do
    /// not test for staleness when they run, and it is left to the caller
    /// never to use a stale handle. Nothing has been visited yet.
    pub fn new_unguarded(v: Vec<T>) -> (cursor: Self)
        ensures
            cursor.wf(),
            cursor@ == v@,
            cursor.upcoming() == 0,
            cursor.issued() == 0,
            !cursor.has_live_item(),
    {
        proof {
            vstd::std_specs::vec::axiom_spec_len(&v);
        }
        Self { data: v, removed: false, index: None, last_rotten: StalenessGuard::new() }
    }
}

impl<T, const GUARD: bool> InplaceVecIterator<T, GUARD> {
    /// The position that the next advance will look at.
    pub closed spec fn upcoming(&self) -> int {
        match self.index {
            None => 0,
            Some(i) => if self.removed {
                i as int
            } else {
                i + 1
            },
        }
    }

    /// How many handles this cursor has issued.
    pub closed spec fn issued(&self) -> nat {
        self.last_rotten.issued()
    }

    /// Whether the handle issued last is still usable.
    pub closed spec fn has_live_item(&self) -> bool {
        self.last_rotten.active()
    }

    /// The invariant of the cursor.
    pub closed spec fn wf(&self) -> bool {
        &&& self.removed ==> self.index is Some
        &&& 0 <= self.upcoming() <= self.data@.len()
        &&& self.last_rotten.active() ==> !self.removed && self.index is Some
        &&& self.last_rotten.issued() + (self.data@.len() - self.upcoming()) <= u64::MAX
    }

    /// Makes the handle issued last unusable.
    pub fn rotten_item(&mut self)
        requires
            old(self).wf(),
        ensures
            final(self).wf(),
            final(self)@ == old(self)@,
            final(self).upcoming() == old(self).upcoming(),
            final(self).issued() == old(self).issued(),
            !final(self).has_live_item(),
    {
        self.last_rotten.invalidate_previous();
    }

    /// Advances the cursor and issues the handle for the position it reaches.
    ///
    /// The position is the one after the element visited last, or that same
    /// position if the element was removed, since another element has taken
    /// its place. When that position lies past the end the pass is over:
    /// `None` is returned, now and on every later call. The vector itself is
    /// never touched, and every handle issued earlier becomes unusable.
    pub fn next(&mut self) -> (item: Option<InplaceVecItem<T, GUARD>>)
        requires
            old(self).wf(),
        ensures
            final(self).wf(),
            final(self)@ == old(self)@,
            old(self).upcoming() < old(self)@.len() ==> {
                &&& item matches Some(handle)
                &&& handle.index() == old(self).upcoming()
                &&& handle.live_in(final(self))
                &&& final(self).upcoming() == old(self).upcoming() + 1
                &&& final(self).issued() == old(self).issued() + 1
            },
            old(self).upcoming() >= old(self)@.len() ==> {
                &&& item is None
                &&& final(self).upcoming() == old(self).upcoming()
                &&& final(self).issued() == old(self).issued()
                &&& !final(self).has_live_item()
            },
            forall|earlier: InplaceVecItem<T, GUARD>|
                earlier.stamp() <= old(self).issued() ==> !earlier.live_in(final(self)),
    {
        self.rotten_item();
        let len: usize = self.data.len();
        if len == 0 {
            return None;
        }
        let index: usize = if self.removed {
            // the element at this position is new: visit it before moving on
            self.index.unwrap()
        } else if let Some(index) = self.index {
            index + 1
        } else {
            0
        };
        if index < len {
            self.removed = false;
            self.index = Some(index);
            let rotten = self.last_rotten.issue();
            Some(InplaceVecItem::new(index, rotten))
        } else {
            None
        }
    }

    /// Ends the pass and gives the vector back as the removals left it.
    pub fn into_inner(self) -> (v: Vec<T>)
        ensures
            v@ == self@,
    {
        self.data
    }
}

impl<T, const GUARD: bool> InplaceVecItem<T, GUARD> {
    /// The position this handle stands for.
    pub closed spec fn index(&self) -> int {
        self.index as int
    }

    /// The number of handles its cursor had issued when this one came out,
    /// itself included.
    pub closed spec fn stamp(&self) -> nat {
        self.rotten@
    }

    /// Whether this handle is the usable handle of `cursor`: the one issued
    /// last, not yet retired by an advance or a removal.
    pub open spec fn live_in(&self, cursor: &InplaceVecIterator<T, GUARD>) -> bool {
        &&& cursor.has_live_item()
        &&& self.stamp() == cursor.issued()
        &&& self.index() + 1 == cursor.upcoming()
    }

    /// A usable handle stands for a position inside the vector, the one that
    /// its cursor visited last.
    pub proof fn lemma_live_item_in_range(&self, cursor: &InplaceVecIterator<T, GUARD>)
        requires
            cursor.wf(),
            self.live_in(cursor),
        ensures
            0 <= self.index() < cursor@.len(),
    {
    }

    pub(crate) fn new(index: usize, rotten: Stamp) -> (item: Self)
        ensures
            item.index() == index,
            item.stamp() == rotten@,
    {
        Self { index, rotten, _element: PhantomData }
    }

    /// Tells whether this handle has gone stale for `cursor`.
    pub fn check_rotten(&self, cursor: &InplaceVecIterator<T, GUARD>) -> (rotten: bool)
        requires
            cursor.wf(),
        ensures
            rotten == !self.live_in(cursor),
    {
        !(cursor.last_rotten.check(&self.rotten) && !cursor.removed && cursor.index == Some(
            self.index,
        ))
    }

    /// Removes the element from the vector and returns it.
    ///
    /// The last element of the vector moves into the gap, unless the element
    /// is itself the last one, and the vector gets shorter by one. The cursor
    /// will visit this position again.
    pub fn take_value(self, cursor: &mut InplaceVecIterator<T, GUARD>) -> (value: T)
        requires
            old(cursor).wf(),
            self.live_in(old(cursor)),
        ensures
            final(cursor).wf(),
            value == old(cursor)@[self.index()],
            final(cursor)@ == swap_removed(old(cursor)@, self.index()),
            final(cursor).upcoming() == self.index(),
            final(cursor).issued() == old(cursor).issued(),
            !final(cursor).has_live_item(),
    {
        if GUARD && self.check_rotten(cursor) {
            return vstd::pervasive::unreached();
        }
        let len: usize = cursor.data.len();
        cursor.last_rotten.invalidate_previous();
        cursor.removed = true;
        if self.index + 1 == len {
            // the element is the last one: nothing has to move
            cursor.data.pop().unwrap()
        } else {
            cursor.data.swap_remove(self.index)
        }
    }

    /// The element under the handle.
    pub fn get_value<'c>(&self, cursor: &'c InplaceVecIterator<T, GUARD>) -> (value: &'c T)
        requires
            cursor.wf(),
            self.live_in(cursor),
        ensures
            *value == cursor@[self.index()],
    {
        if GUARD && self.check_rotten(cursor) {
            return vstd::pervasive::unreached();
        }
        &cursor.data[self.index]
    }

    /// The element under the handle, for writing. Whatever is written stays
    /// in the vector; nothing else about the cursor changes.
    pub fn get_value_mut<'c>(&self, cursor: &'c mut InplaceVecIterator<T, GUARD>) -> (value: &'c mut T)
        requires
            old(cursor).wf(),
            self.live_in(old(cursor)),
        ensures
            *value == old(cursor)@[self.index()],
            final(cursor).wf(),
            final(cursor)@ == old(cursor)@.update(self.index(), *final(value)),
            final(cursor).upcoming() == old(cursor).upcoming(),
            final(cursor).issued() == old(cursor).issued(),
            self.live_in(final(cursor)),
    {
        if GUARD && self.check_rotten(cursor) {
            return vstd::pervasive::unreached();
        }
        &mut cursor.data[self.index]
    }
}

impl<T, const GUARD: bool> InplaceItem<T> for InplaceVecItem<T, GUARD> {
    type Cursor = InplaceVecIterator<T, GUARD>;

    open spec fn in_order(cursor: &InplaceVecIterator<T, GUARD>) -> bool {
        cursor.wf()
    }

    open spec fn usable(&self, cursor: &InplaceVecIterator<T, GUARD>) -> bool {
        cursor.wf() && self.live_in(cursor)
    }

    open spec fn position(&self) -> int {
        self.index()
    }

    open spec fn elements(cursor: &InplaceVecIterator<T, GUARD>) -> Seq<T> {
        cursor@
    }

    open spec fn upcoming(cursor: &InplaceVecIterator<T, GUARD>) -> int {
        cursor.upcoming()
    }

    proof fn lemma_usable_in_range(&self, cursor: &InplaceVecIterator<T, GUARD>) {
        self.lemma_live_item_in_range(cursor);
    }
}

impl<T, const GUARD: bool> RemovableItem<T> for InplaceVecItem<T, GUARD> {
    fn remove(self, cursor: &mut InplaceVecIterator<T, GUARD>)
    {
        let _ = self.take_value(cursor);
    }

    fn get<'c>(&self, cursor: &'c InplaceVecIterator<T, GUARD>) -> (value: &'c T) {
        self.get_value(cursor)
    }
}

impl<T, const GUARD: bool> TakeableItem<T> for InplaceVecItem<T, GUARD> {
    fn take(self, cursor: &mut InplaceVecIterator<T, GUARD>) -> (value: T)
    {
        self.take_value(cursor)
    }

    fn get<'c>(&self, cursor: &'c InplaceVecIterator<T, GUARD>) -> (value: &'c T) {
        self.get_value(cursor)
    }
}

impl<T, const GUARD: bool> TakeableItemMut<T> for InplaceVecItem<T, GUARD> {
    fn take(self, cursor: &mut InplaceVecIterator<T, GUARD>) -> (value: T)
    {
        self.take_value(cursor)
    }

    fn get<'c>(&self, cursor: &'c InplaceVecIterator<T, GUARD>) -> (value: &'c T) {
        self.get_value(cursor)
    }

    fn get_mut<'c>(&self, cursor: &'c mut InplaceVecIterator<T, GUARD>) -> (value: &'c mut T)
    {
        self.get_value_mut(cursor)
    }
}

impl<T, const GUARD: bool> RemovableItemMut<T> for InplaceVecItem<T, GUARD> {
    fn remove(self, cursor: &mut InplaceVecIterator<T, GUARD>)
    {
        let _ = self.take_value(cursor);
    }

    fn get<'c>(&self, cursor: &'c InplaceVecIterator<T, GUARD>) -> (value: &'c T) {
        self.get_value(cursor)
    }

    fn get_mut<'c>(&mut self, cursor: &'c mut InplaceVecIterator<T, GUARD>) -> (value: &'c mut T)
    {
        self.get_value_mut(cursor)
    }
}

} // verus!
