//! The entry points on the vector itself.
use crate::inplace_vec_iterator::InplaceVecIterator;
use crate::removable_confirm_iterator_vec::InplaceRemovableConfirmVecIterator;
use vstd::prelude::*;

verus! {

/// A collection that can be handed to a cursor for a pass in which elements
/// are removed or taken.
///
/// Each method moves the collection into the cursor. The cursor gives it
/// back when the pass is over. The cursors made here have the guard on: a
/// stale handle is refused when it is used.
pub trait InplaceVector<T>: Sized {
    /// The elements of the collection, in order.
    spec fn elements(&self) -> Seq<T>;

    /// A cursor whose handles can take the visited element.
    fn takeable_iter(self) -> (cursor: InplaceVecIterator<T, true>)
        ensures
            cursor.wf(),
            cursor@ == self.elements(),
            cursor.upcoming() == 0,
            cursor.issued() == 0,
            !cursor.has_live_item(),
    ;

    /// A cursor whose handles can change or take the visited element.
    fn takeable_iter_mut(self) -> (cursor: InplaceVecIterator<T, true>)
        ensures
            cursor.wf(),
            cursor@ == self.elements(),
            cursor.upcoming() == 0,
            cursor.issued() == 0,
            !cursor.has_live_item(),
    ;

    /// A cursor whose handles can remove the visited element.
    fn removable_iter(self) -> (cursor: InplaceVecIterator<T, true>)
        ensures
            cursor.wf(),
            cursor@ == self.elements(),
            cursor.upcoming() == 0,
            cursor.issued() == 0,
            !cursor.has_live_item(),
    ;

    /// A cursor whose handles can change or remove the visited element.
    fn removable_iter_mut(self) -> (cursor: InplaceVecIterator<T, true>)
        ensures
            cursor.wf(),
            cursor@ == self.elements(),
            cursor.upcoming() == 0,
            cursor.issued() == 0,
            !cursor.has_live_item(),
    ;

    /// A cursor whose handles can remove the visited element, the removals
    /// taking effect only when they are confirmed.
    fn removable_confirm_iter(self) -> (cursor: InplaceRemovableConfirmVecIterator<T, true>)
        ensures
            cursor.wf(),
            cursor@ == self.elements(),
            cursor.set_aside() == Seq::<T>::empty(),
            cursor.upcoming() == 0,
            cursor.issued() == 0,
            !cursor.has_live_item(),
    ;

    /// A cursor whose handles can change or remove the visited element, the
    /// removals taking effect only when they are confirmed. A change stays
    /// even if the removals are cancelled.
    fn removable_confirm_iter_mut(self) -> (cursor: InplaceRemovableConfirmVecIterator<T, true>)
        ensures
            cursor.wf(),
            cursor@ == self.elements(),
            cursor.set_aside() == Seq::<T>::empty(),
            cursor.upcoming() == 0,
            cursor.issued() == 0,
            !cursor.has_live_item(),
    ;
}

impl<T> InplaceVector<T> for Vec<T> {
    open spec fn elements(&self) -> Seq<T> {
        self@
    }

    fn takeable_iter(self) -> (cursor: InplaceVecIterator<T, true>) {
        InplaceVecIterator::new(self)
    }

    fn takeable_iter_mut(self) -> (cursor: InplaceVecIterator<T, true>) {
        InplaceVecIterator::new(self)
    }

    fn removable_iter(self) -> (cursor: InplaceVecIterator<T, true>) {
        InplaceVecIterator::new(self)
    }

    fn removable_iter_mut(self) -> (cursor: InplaceVecIterator<T, true>) {
        InplaceVecIterator::new(self)
    }

    fn removable_confirm_iter(self) -> (cursor: InplaceRemovableConfirmVecIterator<T, true>) {
        InplaceRemovableConfirmVecIterator::new(self)
    }

    fn removable_confirm_iter_mut(self) -> (cursor: InplaceRemovableConfirmVecIterator<T, true>) {
        InplaceRemovableConfirmVecIterator::new(self)
    }
}

} // verus!
