//! The traits a caller needs in scope.
pub use crate::inplace_item::InplaceItem;
pub use crate::inplace_vector::InplaceVector;
pub use crate::removable_confirm_iterator_vec::RemovableConfirmIterator;
pub use crate::removable_iterator::RemovableItem;
pub use crate::removable_iterator::RemovableItemMut;
pub use crate::takeable_iterator::TakeableItem;
pub use crate::takeable_iterator::TakeableItemMut;
