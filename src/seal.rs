use vstd::prelude::*;

verus! {

/// Sealing trait: `&'short Self: Seal<&'short Self>` holds exactly, which lets the view
/// traits carry the implied bound `Self: 'short` through a defaulted parameter.
pub trait Seal<T: ?Sized> {}

impl<T: ?Sized> Seal<T> for T {}

} // verus!
