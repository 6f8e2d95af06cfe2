//! Emulated reborrowing for user-defined view types.
//!
//! A view over borrowed data can be narrowed to a shorter lifetime (`rb`, `rb_mut`)
//! without giving up the original, or consumed into its immutable counterpart
//! (`into_const`). The `generator` module computes, from a plain description of a
//! record declaration, the source of these operations for that record.
pub mod generator;
pub mod records;
pub mod seal;
pub mod view;

pub use generator::{derive_reborrow, derive_reborrow_copy, derive_reborrow_with_const, unzip3};
pub use records::{I32Ref, I32RefMut, I32TupleRef, I32TupleRefMut, Ref};
pub use seal::Seal;
pub use view::{AsPseudoMut, AsPseudoRef, IntoConst, Reborrow, ReborrowMut};
