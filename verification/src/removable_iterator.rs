//! Handles that can remove their element from the sequence under iteration.
use crate::inplace_item::InplaceItem;
use crate::swap_removal::swap_removed;
use vstd::prelude::*;

verus! {

/// A handle whose element can be read and removed.
///
/// A removal costs constant time: the last element of the sequence takes the
/// place of the removed one. The order of the sequence is therefore kept only
/// when the removed element was the last.
pub trait RemovableItem<T>: InplaceItem<T> {
    /// Removes the element from the sequence. The cursor will look at the
    /// same position again, since another element may have moved there.
    fn remove(self, cursor: &mut Self::Cursor)
        requires
            self.usable(old(cursor)),
        ensures
            Self::in_order(final(cursor)),
            Self::elements(final(cursor)) == swap_removed(
                Self::elements(old(cursor)),
                self.position(),
            ),
            Self::upcoming(final(cursor)) == self.position(),
            forall|other: Self| !other.usable(final(cursor)),
    ;

    /// The element under the handle.
    fn get<'c>(&self, cursor: &'c Self::Cursor) -> (value: &'c T)
        requires
            self.usable(cursor),
        ensures
            *value == Self::elements(cursor)[self.position()],
    ;
}

/// A handle whose element can be read, changed in place and removed.
pub trait RemovableItemMut<T>: InplaceItem<T> {
    /// Removes the element from the sequence. The cursor will look at the
    /// same position again, since another element may have moved there.
    fn remove(self, cursor: &mut Self::Cursor)
        requires
            self.usable(old(cursor)),
        ensures
            Self::in_order(final(cursor)),
            Self::elements(final(cursor)) == swap_removed(
                Self::elements(old(cursor)),
                self.position(),
            ),
            Self::upcoming(final(cursor)) == self.position(),
            forall|other: Self| !other.usable(final(cursor)),
    ;

    /// The element under the handle.
    fn get<'c>(&self, cursor: &'c Self::Cursor) -> (value: &'c T)
        requires
            self.usable(cursor),
        ensures
            *value == Self::elements(cursor)[self.position()],
    ;

    /// The element under the handle, for writing. The handle stays usable and
    /// the cursor stays where it is.
    fn get_mut<'c>(&mut self, cursor: &'c mut Self::Cursor) -> (value: &'c mut T)
        requires
            old(self).usable(old(cursor)),
        ensures
            *final(self) == *old(self),
            Self::in_order(final(cursor)),
            *value == Self::elements(old(cursor))[old(self).position()],
            Self::elements(final(cursor)) == Self::elements(old(cursor)).update(
                old(self).position(),
                *final(value),
            ),
            Self::upcoming(final(cursor)) == Self::upcoming(old(cursor)),
            old(self).usable(final(cursor)),
    ;
}

} // verus!
