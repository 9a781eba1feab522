//! What every handle has in common: the cursor it belongs to, and the
//! vocabulary in which the handle traits state their contracts.
use vstd::prelude::*;

verus! {

/// A handle on one element of a sequence that a cursor is passing over.
pub trait InplaceItem<T>: Sized {
    /// The cursor that issues handles of this type. Every operation on a
    /// handle goes through it.
    type Cursor;

    /// The invariant of the cursor. Every operation keeps it.
    spec fn in_order(cursor: &Self::Cursor) -> bool;

    /// Whether the handle may be used with `cursor`: the cursor is in order
    /// and the handle is the one it issued last, not yet retired.
    spec fn usable(&self, cursor: &Self::Cursor) -> bool;

    /// The position of the element the handle stands for.
    spec fn position(&self) -> int;

    /// The elements that `cursor` passes over, in their current order.
    spec fn elements(cursor: &Self::Cursor) -> Seq<T>;

    /// The position that the next advance of `cursor` looks at.
    spec fn upcoming(cursor: &Self::Cursor) -> int;

    /// A usable handle stands for an element of the sequence, the one that
    /// its cursor visited last.
    proof fn lemma_usable_in_range(&self, cursor: &Self::Cursor)
        requires
            self.usable(cursor),
        ensures
            Self::in_order(cursor),
            0 <= self.position() < Self::elements(cursor).len(),
            Self::upcoming(cursor) == self.position() + 1,
    ;
}

} // verus!
