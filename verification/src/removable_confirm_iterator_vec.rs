//! The cursor whose removals take effect only when they are confirmed.
//!
//! A removal through this cursor moves the element behind a boundary inside
//! the vector instead of dropping it. The elements in front of the boundary
//! are what later passes see; confirming cuts the vector at the boundary,
//! cancelling leaves the vector at its full length.
use crate::inplace_item::InplaceItem;
use crate::removable_iterator::{RemovableItem, RemovableItemMut};
use crate::staleness_guard::{StalenessGuard, Stamp};
use crate::swap_removal::{swap_removed, swapped};
use std::marker::PhantomData;
use vstd::prelude::*;

verus! {

/// `<[T]>::swap`: the elements at `a` and `b` trade places and nothing else
/// changes; with `a == b` the slice stays as it is. Both positions have to
/// lie inside the slice, since the function panics otherwise.
pub assume_specification<E>[ <[E]>::swap ](slice: &mut [E], a: usize, b: usize)
    requires
        a < old(slice)@.len(),
        b < old(slice)@.len(),
    ensures
        final(slice)@ == old(slice)@.update(a as int, old(slice)@[b as int]).update(
            b as int,
            old(slice)@[a as int],
        ),
;

/// A cursor with a pending set of removals, to be confirmed or cancelled.
pub trait RemovableConfirmIterator: Sized {
    /// The handles that the cursor issues.
    type Item: InplaceItem<Self::Element, Cursor = Self>;

    /// The elements of the sequence.
    type Element;

    /// The invariant of the cursor.
    spec fn in_order(&self) -> bool;

    /// The elements that have not been removed, in their current order.
    spec fn kept(&self) -> Seq<Self::Element>;

    /// Every element of the sequence, removed or not, in its current order.
    spec fn everything(&self) -> Seq<Self::Element>;

    /// The position that the next advance looks at.
    spec fn upcoming(&self) -> int;

    /// Whether the cursor can still stamp the handles of one more pass.
    spec fn can_restart(&self) -> bool;

    /// Starts a new pass over the elements that have not been removed. What
    /// earlier passes removed or changed stays removed or changed.
    fn iter(&mut self)
        requires
            old(self).in_order(),
            old(self).can_restart(),
        ensures
            final(self).in_order(),
            final(self).kept() == old(self).kept(),
            final(self).everything() == old(self).everything(),
            final(self).upcoming() == 0,
            forall|earlier: Self::Item| !earlier.usable(final(self)),
    ;

    /// Advances the pass and issues the handle for the position it reaches,
    /// or `None` when every element that has not been removed was visited.
    fn advance(&mut self) -> (item: Option<Self::Item>)
        requires
            old(self).in_order(),
        ensures
            final(self).in_order(),
            final(self).kept() == old(self).kept(),
            final(self).everything() == old(self).everything(),
            old(self).upcoming() < old(self).kept().len() ==> {
                &&& item matches Some(handle)
                &&& handle.position() == old(self).upcoming()
                &&& handle.usable(final(self))
                &&& final(self).upcoming() == old(self).upcoming() + 1
            },
            old(self).upcoming() >= old(self).kept().len() ==> {
                &&& item is None
                &&& final(self).upcoming() == old(self).upcoming()
                &&& forall|earlier: Self::Item| !earlier.usable(final(self))
            },
    ;

    /// Drops the removed elements and returns the rest.
    fn confirm_removals(self) -> (v: Vec<Self::Element>)
        requires
            self.in_order(),
        ensures
            v@ == self.kept(),
    ;

    /// Returns the sequence at its full length. The removed elements are
    /// part of it again, though not at their old places, and whatever was
    /// written into an element stays written.
    fn cancel_removals(self) -> (v: Vec<Self::Element>)
        requires
            self.in_order(),
        ensures
            v@ == self.everything(),
    ;
}

/// A cursor that owns a vector and records removals against a boundary, the
/// logical size, until they are confirmed or cancelled.
pub struct InplaceRemovableConfirmVecIterator<T, const GUARD: bool> {
    /// The vector under iteration, always at its full length.
    vector: Vec<T>,
    /// Set by a removal: the position in `index` holds a new element and has
    /// to be visited again.
    removed: bool,
    /// The position visited last, or `None` at the start of a pass.
    index: Option<usize>,
    /// The number of elements that have not been removed. They stand in
    /// front of the removed ones.
    size: usize,
    /// Tells the handle issued last from the earlier ones.
    last_rotten: StalenessGuard,
}

/// A handle on the element at one position of the vector that an
/// [`InplaceRemovableConfirmVecIterator`] owns.
///
/// The handle is good until its cursor advances, a new pass starts or the
/// element is removed. Using it after that is an error. A cursor with the
/// guard on detects the error and stops the program rather than reach into
/// the vector; with the guard off nothing tests for it when the program
/// runs.
pub struct InplaceRemovableConfirmVecItem<T, const GUARD: bool> {
    /// The position of the element.
    index: usize,
    /// The mark by which the cursor recognises this handle.
    rotten: Stamp,
    _element: PhantomData<T>,
}

impl<T, const GUARD: bool> View for InplaceRemovableConfirmVecIterator<T, GUARD> {
    type V = Seq<T>;

    /// The elements that have not been removed, in their current order.
    closed spec fn view(&self) -> Seq<T> {
        self.vector@.subrange(0, self.size as int)
    }
}

impl<T> InplaceRemovableConfirmVecIterator<T, true> {
    /// Starts with nothing removed and nothing visited, and with the guard
    /// on: a stale handle is refused when it is used.
    pub fn new(v: Vec<T>) -> (cursor: Self)
        ensures
            cursor.wf(),
            cursor@ == v@,
            cursor.set_aside() == Seq::<T>::empty(),
            cursor.upcoming() == 0,
            cursor.issued() == 0,
            !cursor.has_live_item(),
    {
        proof {
            vstd::std_specs::vec::axiom_spec_len(&v);
            assert(v@.subrange(0, v@.len() as int) =~= v@);
            assert(v@.subrange(v@.len() as int, v@.len() as int) =~= Seq::<T>::empty());
        }
        Self {
            size: v.len(),
            vector: v,
            index: None,
            removed: false,
            last_rotten: StalenessGuard::new(),
        }
    }
}

impl<T> InplaceRemovableConfirmVecIterator<T, false> {
    /// Starts with nothing removed and nothing visited, and with the guard
    /// off: the handle operations do not test for staleness when they run,
    /// and it is left to the caller never to use a stale handle.
    pub fn new_unguarded(v: Vec<T>) -> (cursor: Self)
        ensures
            cursor.wf(),
            cursor@ == v@,
            cursor.set_aside() == Seq::<T>::empty(),
            cursor.upcoming() == 0,
            cursor.issued() == 0,
            !cursor.has_live_item(),
    {
        proof {
            vstd::std_specs::vec::axiom_spec_len(&v);
            assert(v@.subrange(0, v@.len() as int) =~= v@);
            assert(v@.subrange(v@.len() as int, v@.len() as int) =~= Seq::<T>::empty());
        }
        Self {
            size: v.len(),
            vector: v,
            index: None,
            removed: false,
            last_rotten: StalenessGuard::new(),
        }
    }
}

impl<T, const GUARD: bool> InplaceRemovableConfirmVecIterator<T, GUARD> {
    /// The elements that have been removed and not yet dropped, the one
    /// removed last in front.
    pub closed spec fn set_aside(&self) -> Seq<T> {
        self.vector@.subrange(self.size as int, self.vector@.len() as int)
    }

    /// The whole vector as it stands: the kept elements, then the removed
    /// ones.
    pub open spec fn physical(&self) -> Seq<T> {
        self@ + self.set_aside()
    }

    /// The number of elements that have not been removed.
    pub open spec fn size(&self) -> nat {
        self@.len()
    }

    /// The position that the next advance will look at.
    pub closed spec fn upcoming(&self) -> int {
        match self.index {
            None => 0,
            Some(i) => if self.removed {
                i as int
            } else {
                i + 1
            },
        }
    }

    /// How many handles this cursor has issued.
    pub closed spec fn issued(&self) -> nat {
        self.last_rotten.issued()
    }

    /// Whether the handle issued last is still usable.
    pub closed spec fn has_live_item(&self) -> bool {
        self.last_rotten.active()
    }

    /// The invariant of the cursor.
    pub closed spec fn wf(&self) -> bool {
        &&& self.removed ==> self.index is Some
        &&& 0 <= self.upcoming() <= self.size <= self.vector@.len()
        &&& self.last_rotten.active() ==> !self.removed && self.index is Some
        &&& self.last_rotten.issued() + (self.size - self.upcoming()) <= u64::MAX
    }

    /// Makes the handle issued last unusable.
    pub fn rotten_item(&mut self)
        requires
            old(self).wf(),
        ensures
            final(self).wf(),
            final(self)@ == old(self)@,
            final(self).set_aside() == old(self).set_aside(),
            final(self).upcoming() == old(self).upcoming(),
            final(self).issued() == old(self).issued(),
            !final(self).has_live_item(),
    {
        self.last_rotten.invalidate_previous();
    }

    /// Advances the cursor and issues the handle for the position it reaches.
    ///
    /// The position is the one after the element visited last, or that same
    /// position if the element was removed. Only positions in front of the
    /// boundary are visited, so an element that was removed is never handed
    /// out again. Past the boundary the pass is over: `None` is returned, now
    /// and on every later call of this pass. The vector is never touched, and
    /// every handle issued earlier becomes unusable.
    pub fn next_item(&mut self) -> (item: Option<InplaceRemovableConfirmVecItem<T, GUARD>>)
        requires
            old(self).wf(),
        ensures
            final(self).wf(),
            final(self)@ == old(self)@,
            final(self).set_aside() == old(self).set_aside(),
            old(self).upcoming() < old(self).size() ==> {
                &&& item matches Some(handle)
                &&& handle.index() == old(self).upcoming()
                &&& handle.live_in(final(self))
                &&& final(self).upcoming() == old(self).upcoming() + 1
                &&& final(self).issued() == old(self).issued() + 1
            },
            old(self).upcoming() >= old(self).size() ==> {
                &&& item is None
                &&& final(self).upcoming() == old(self).upcoming()
                &&& final(self).issued() == old(self).issued()
                &&& !final(self).has_live_item()
            },
            forall|earlier: InplaceRemovableConfirmVecItem<T, GUARD>|
                earlier.stamp() <= old(self).issued() ==> !earlier.live_in(final(self)),
    {
        self.rotten_item();
        if self.vector.is_empty() {
            return None;
        }
        let index: usize = if self.removed {
            // the element at this position is new: visit it before moving on
            self.index.unwrap()
        } else if let Some(index) = self.index {
            index + 1
        } else {
            0
        };
        if index >= self.size {
            // the end of what has not been removed
            return None;
        }
        self.removed = false;
        self.index = Some(index);
        let rotten = self.last_rotten.issue();
        Some(InplaceRemovableConfirmVecItem::build_new(index, rotten))
    }

    /// Advances the cursor: see [`InplaceRemovableConfirmVecIterator::next_item`].
    pub fn next(&mut self) -> (item: Option<InplaceRemovableConfirmVecItem<T, GUARD>>)
        requires
            old(self).wf(),
        ensures
            final(self).wf(),
            final(self)@ == old(self)@,
            final(self).set_aside() == old(self).set_aside(),
            old(self).upcoming() < old(self).size() ==> {
                &&& item matches Some(handle)
                &&& handle.index() == old(self).upcoming()
                &&& handle.live_in(final(self))
                &&& final(self).upcoming() == old(self).upcoming() + 1
                &&& final(self).issued() == old(self).issued() + 1
            },
            old(self).upcoming() >= old(self).size() ==> {
                &&& item is None
                &&& final(self).upcoming() == old(self).upcoming()
                &&& final(self).issued() == old(self).issued()
                &&& !final(self).has_live_item()
            },
            forall|earlier: InplaceRemovableConfirmVecItem<T, GUARD>|
                earlier.stamp() <= old(self).issued() ==> !earlier.live_in(final(self)),
    {
        self.next_item()
    }
}

impl<T, const GUARD: bool> RemovableConfirmIterator for InplaceRemovableConfirmVecIterator<T, GUARD> {
    type Item = InplaceRemovableConfirmVecItem<T, GUARD>;

    type Element = T;

    open spec fn in_order(&self) -> bool {
        self.wf()
    }

    open spec fn kept(&self) -> Seq<T> {
        self@
    }

    open spec fn everything(&self) -> Seq<T> {
        self@ + self.set_aside()
    }

    open spec fn upcoming(&self) -> int {
        InplaceRemovableConfirmVecIterator::<T, GUARD>::upcoming(self)
    }

    open spec fn can_restart(&self) -> bool {
        self.issued() + self.size() <= u64::MAX
    }

    fn iter(&mut self)
        ensures
            final(self).set_aside() == old(self).set_aside(),
            final(self).issued() == old(self).issued(),
            !final(self).has_live_item(),
    {
        self.rotten_item();
        self.index = None;
        self.removed = false;
    }

    fn advance(&mut self) -> (item: Option<InplaceRemovableConfirmVecItem<T, GUARD>>) {
        self.next_item()
    }

    fn confirm_removals(self) -> (v: Vec<T>) {
        let mut vector = self.vector;
        if self.size < vector.len() {
            vector.truncate(self.size);
        }
        proof {
            assert(vector@ =~= self@);
        }
        vector
    }

    fn cancel_removals(self) -> (v: Vec<T>) {
        proof {
            assert(self.vector@ =~= self@ + self.set_aside());
        }
        self.vector
    }
}

impl<T, const GUARD: bool> InplaceRemovableConfirmVecItem<T, GUARD> {
    /// The position this handle stands for.
    pub closed spec fn index(&self) -> int {
        self.index as int
    }

    /// The number of handles its cursor had issued when this one came out,
    /// itself included.
    pub closed spec fn stamp(&self) -> nat {
        self.rotten@
    }

    /// Whether this handle is the usable handle of `cursor`: the one issued
    /// last, not yet retired by an advance, a removal or a new pass.
    pub open spec fn live_in(&self, cursor: &InplaceRemovableConfirmVecIterator<T, GUARD>) -> bool {
        &&& cursor.has_live_item()
        &&& self.stamp() == cursor.issued()
        &&& self.index() + 1 == cursor.upcoming()
    }

    /// A usable handle stands for a position in front of the boundary: for
    /// an element that has not been removed.
    pub proof fn lemma_live_item_in_range(&self, cursor: &InplaceRemovableConfirmVecIterator<T, GUARD>)
        requires
            cursor.wf(),
            self.live_in(cursor),
        ensures
            0 <= self.index() < cursor@.len(),
            cursor.physical()[self.index()] == cursor@[self.index()],
    {
    }

    pub(crate) fn build_new(index: usize, rotten: Stamp) -> (item: Self)
        ensures
            item.index() == index,
            item.stamp() == rotten@,
    {
        Self { index, rotten, _element: PhantomData }
    }

    /// Tells whether this handle has gone stale for `cursor`.
    pub fn check_rotten(&self, cursor: &InplaceRemovableConfirmVecIterator<T, GUARD>) -> (rotten: bool)
        requires
            cursor.wf(),
        ensures
            rotten == !self.live_in(cursor),
    {
        !(cursor.last_rotten.check(&self.rotten) && !cursor.removed && cursor.index == Some(
            self.index,
        ))
    }

    /// Marks the element as removed.
    ///
    /// The element trades places with the last element in front of the
    /// boundary, unless it is that element, and the boundary moves down by
    /// one. The vector keeps its length: the removed elements pile up behind
    /// the boundary, the one removed last in front. The cursor will visit
    /// this position again.
    pub fn remove_value(self, cursor: &mut InplaceRemovableConfirmVecIterator<T, GUARD>)
        requires
            old(cursor).wf(),
            self.live_in(old(cursor)),
        ensures
            final(cursor).wf(),
            final(cursor)@ == swap_removed(old(cursor)@, self.index()),
            final(cursor).set_aside() == seq![old(cursor)@[self.index()]] + old(cursor).set_aside(),
            final(cursor).physical() == swapped(
                old(cursor).physical(),
                self.index(),
                old(cursor).size() - 1,
            ),
            final(cursor).upcoming() == self.index(),
            final(cursor).issued() == old(cursor).issued(),
            !final(cursor).has_live_item(),
    {
        if GUARD && self.check_rotten(cursor) {
            return vstd::pervasive::unreached();
        }
        cursor.last_rotten.invalidate_previous();
        cursor.removed = true;
        cursor.size = cursor.size - 1;
        if self.index < cursor.size {
            // trade places with the last element that is still kept
            cursor.vector.as_mut_slice().swap(self.index, cursor.size);
        }
        proof {
            assert(final(cursor)@ =~= swap_removed(old(cursor)@, self.index()));
            assert(final(cursor).set_aside() =~= seq![old(cursor)@[self.index()]] + old(
                cursor,
            ).set_aside());
            assert(final(cursor).physical() =~= final(cursor).vector@);
            assert(old(cursor).physical() =~= old(cursor).vector@);
        }
    }

    /// The element under the handle.
    pub fn get_value<'c>(&self, cursor: &'c InplaceRemovableConfirmVecIterator<T, GUARD>) -> (value: &'c T)
        requires
            cursor.wf(),
            self.live_in(cursor),
        ensures
            *value == cursor@[self.index()],
    {
        if GUARD && self.check_rotten(cursor) {
            return vstd::pervasive::unreached();
        }
        &cursor.vector[self.index]
    }

    /// The element under the handle, for writing. Whatever is written stays
    /// in the vector, also when the removals are cancelled; nothing else
    /// about the cursor changes.
    pub fn get_value_mut<'c>(&self, cursor: &'c mut InplaceRemovableConfirmVecIterator<T, GUARD>) -> (value:
        &'c mut T)
        requires
            old(cursor).wf(),
            self.live_in(old(cursor)),
        ensures
            *value == old(cursor)@[self.index()],
            final(cursor).wf(),
            final(cursor)@ == old(cursor)@.update(self.index(), *final(value)),
            final(cursor).set_aside() == old(cursor).set_aside(),
            final(cursor).upcoming() == old(cursor).upcoming(),
            final(cursor).issued() == old(cursor).issued(),
            self.live_in(final(cursor)),
    {
        if GUARD && self.check_rotten(cursor) {
            return vstd::pervasive::unreached();
        }
        &mut cursor.vector[self.index]
    }
}

impl<T, const GUARD: bool> InplaceItem<T> for InplaceRemovableConfirmVecItem<T, GUARD> {
    type Cursor = InplaceRemovableConfirmVecIterator<T, GUARD>;

    open spec fn in_order(cursor: &InplaceRemovableConfirmVecIterator<T, GUARD>) -> bool {
        cursor.wf()
    }

    open spec fn usable(&self, cursor: &InplaceRemovableConfirmVecIterator<T, GUARD>) -> bool {
        cursor.wf() && self.live_in(cursor)
    }

    open spec fn position(&self) -> int {
        self.index()
    }

    open spec fn elements(cursor: &InplaceRemovableConfirmVecIterator<T, GUARD>) -> Seq<T> {
        cursor@
    }

    open spec fn upcoming(cursor: &InplaceRemovableConfirmVecIterator<T, GUARD>) -> int {
        cursor.upcoming()
    }

    proof fn lemma_usable_in_range(&self, cursor: &InplaceRemovableConfirmVecIterator<T, GUARD>) {
        self.lemma_live_item_in_range(cursor);
    }
}

impl<T, const GUARD: bool> RemovableItem<T> for InplaceRemovableConfirmVecItem<T, GUARD> {
    fn remove(self, cursor: &mut InplaceRemovableConfirmVecIterator<T, GUARD>) {
        self.remove_value(cursor);
    }

    fn get<'c>(&self, cursor: &'c InplaceRemovableConfirmVecIterator<T, GUARD>) -> (value: &'c T) {
        self.get_value(cursor)
    }
}

impl<T, const GUARD: bool> RemovableItemMut<T> for InplaceRemovableConfirmVecItem<T, GUARD> {
    fn remove(self, cursor: &mut InplaceRemovableConfirmVecIterator<T, GUARD>) {
        self.remove_value(cursor);
    }

    fn get<'c>(&self, cursor: &'c InplaceRemovableConfirmVecIterator<T, GUARD>) -> (value: &'c T) {
        self.get_value(cursor)
    }

    fn get_mut<'c>(&mut self, cursor: &'c mut InplaceRemovableConfirmVecIterator<T, GUARD>) -> (value:
        &'c mut T) {
        self.get_value_mut(cursor)
    }
}

} // verus!
