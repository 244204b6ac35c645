//! Mutable iteration over slices, as the bit matrices hand out their cells.

use vstd::prelude::*;

verus! {

#[verifier::external_type_specification]
#[verifier::external_body]
#[verifier::reject_recursive_types(Item)]
pub struct ExIterMut<'a, Item: 'a>(core::slice::IterMut<'a, Item>);

/// An iterator over mutable references to the elements of `slice`.
///
/// Calls `<[T]>::iter_mut`; nothing is claimed of the iterator beyond its type.
pub assume_specification<Elem>[ <[Elem]>::iter_mut ](slice: &mut [Elem]) -> core::slice::IterMut<'_, Elem>;

} // verus!
