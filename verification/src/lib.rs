//! Cursors over a vector that let the caller remove or take the element
//! under the cursor while the scan is still running.
//!
//! A removal fills the hole with the last element of the vector and shortens
//! the vector by one, so it costs constant time and disturbs the order of at
//! most one element. The cursor then looks at the same position again, because
//! a different element now lives there.
//!
//! Every cursor hands out one handle per visited position. A handle is only an
//! index and a stamp; all access to the element goes through the cursor that
//! issued it, and only the handle issued last may be used. The contracts of
//! the handle operations demand this of every verified caller. For callers
//! that are not verified a cursor can be made with the guard on, in which case
//! the use of a stale handle stops the program, or with the guard off, in
//! which case nothing tests for it. The choice is part of the cursor's type,
//! so it costs nothing when the program runs.
pub mod inplace_item;
pub mod inplace_vec_iterator;
pub mod inplace_vector;
pub mod prelude;
pub mod removable_confirm_iterator_vec;
pub mod removable_iterator;
pub mod removable_iterator_vec;
pub mod staleness_guard;
pub mod swap_removal;
pub mod takeable_iterator;
pub mod takeable_iterator_vec;
