//! Handles that can move their element out of the sequence under iteration.
use crate::inplace_item::InplaceItem;
use crate::swap_removal::swap_removed;
use vstd::prelude::*;

verus! {

/// A handle whose element can be read and taken.
///
/// Taking does to the sequence what a removal does, and hands the element to
/// the caller instead of dropping it.
pub trait TakeableItem<T>: InplaceItem<T> {
    /// Moves the element out of the sequence and returns it. The cursor will
    /// look at the same position again.
    fn take(self, cursor: &mut Self::Cursor) -> (value: T)
        requires
            self.usable(old(cursor)),
        ensures
            Self::in_order(final(cursor)),
            value == Self::elements(old(cursor))[self.position()],
            Self::elements(final(cursor)) == swap_removed(
                Self::elements(old(cursor)),
                self.position(),
            ),
            Self::upcoming(final(cursor)) == self.position(),
            forall|other: Self| !other.usable(final(cursor)),
    ;

    /// The element under the handle.
    fn get<'c>(&self, cursor: &'c Self::Cursor) -> (value: &'c T)
        requires
            self.usable(cursor),
        ensures
            *value == Self::elements(cursor)[self.position()],
    ;
}

/// A handle whose element can be read, changed in place and taken.
pub trait TakeableItemMut<T>: InplaceItem<T> {
    /// Moves the element out of the sequence and returns it. The cursor will
    /// look at the same position again.
    fn take(self, cursor: &mut Self::Cursor) -> (value: T)
        requires
            self.usable(old(cursor)),
        ensures
            Self::in_order(final(cursor)),
            value == Self::elements(old(cursor))[self.position()],
            Self::elements(final(cursor)) == swap_removed(
                Self::elements(old(cursor)),
                self.position(),
            ),
            Self::upcoming(final(cursor)) == self.position(),
            forall|other: Self| !other.usable(final(cursor)),
    ;

    /// The element under the handle.
    fn get<'c>(&self, cursor: &'c Self::Cursor) -> (value: &'c T)
        requires
            self.usable(cursor),
        ensures
            *value == Self::elements(cursor)[self.position()],
    ;

    /// The element under the handle, for writing. The handle stays usable and
    /// the cursor stays where it is.
    fn get_mut<'c>(&self, cursor: &'c mut Self::Cursor) -> (value: &'c mut T)
        requires
            self.usable(old(cursor)),
        ensures
            Self::in_order(final(cursor)),
            *value == Self::elements(old(cursor))[self.position()],
            Self::elements(final(cursor)) == Self::elements(old(cursor)).update(
                self.position(),
                *final(value),
            ),
            Self::upcoming(final(cursor)) == Self::upcoming(old(cursor)),
            self.usable(final(cursor)),
    ;
}

} // verus!
