//! The view operations: narrowing to a shorter lifetime, shared or exclusive, and
//! consuming into the immutable counterpart, with their behaviour on references,
//! optional values and results.
use vstd::prelude::*;

use crate::seal::Seal;

verus! {

/// Immutable reborrowing: a shared view of `self` at the shorter lifetime `'short`.
pub trait Reborrow<'short, _Outlives: Seal<&'short Self> = &'short Self> where Self: 'short {
    type Target;

    /// Whether `r` is the view of `self` that `rb` produces. Implementations outside
    /// verified code promise nothing.
    open spec fn rb_spec(&self, r: &Self::Target) -> bool {
        true
    }

    #[must_use]
    fn rb(&'short self) -> (r: Self::Target)
        ensures
            self.rb_spec(&r),
    ;
}

/// Mutable reborrowing: an exclusive view of `self` at the shorter lifetime `'short`.
///
/// While the returned view lives, `self` cannot be reached; once it ends, `self` is
/// usable again and holds what was written through the view.
pub trait ReborrowMut<'short, _Outlives: Seal<&'short Self> = &'short Self> where Self: 'short {
    type Target;

    /// How the view that `rb_mut` returns relates, on entry, to the value it was taken from.
    /// Implementations outside verified code promise nothing.
    open spec fn rb_mut_spec(pre: &Self, r: &Self::Target) -> bool {
        true
    }

    /// What the receiver holds after the call, beside what is later written through the
    /// returned view. Implementations outside verified code promise nothing.
    open spec fn rb_mut_keeps(pre: &Self, post: &Self) -> bool {
        true
    }

    #[must_use]
    fn rb_mut(&'short mut self) -> (r: Self::Target)
        ensures
            Self::rb_mut_spec(old(self), &r),
            Self::rb_mut_keeps(old(self), final(self)),
    ;
}

/// Consumes a view and produces its immutable counterpart at the original lifetimes.
pub trait IntoConst: Sized {
    type Target;

    /// Whether `r` is the counterpart of `self` that `into_const` produces.
    /// Implementations outside verified code promise nothing.
    open spec fn into_const_spec(&self, r: &Self::Target) -> bool {
        true
    }

    #[must_use]
    fn into_const(self) -> (r: Self::Target)
        ensures
            self.into_const_spec(&r),
    ;
}

/// Like `AsRef`, but the produced value may be any reference proxy type.
pub trait AsPseudoRef<'short, Target, _Outlives: Seal<&'short Self> = &'short Self> where
    Self: 'short,
 {
    /// Whether `r` is a faithful view of `self`. Implementations outside verified code
    /// promise nothing.
    open spec fn pseudo_ref_spec(&self, r: &Target) -> bool {
        true
    }

    #[must_use]
    fn as_pseudo_ref(&'short self) -> (r: Target)
        ensures
            self.pseudo_ref_spec(&r),
    ;
}

/// Like `AsMut`, but the produced value may be any reference proxy type.
pub trait AsPseudoMut<'short, Target, _Outlives: Seal<&'short Self> = &'short Self> where
    Self: 'short,
 {
    /// Whether `r` is, on entry, a faithful exclusive view of `pre`. Implementations
    /// outside verified code promise nothing.
    open spec fn pseudo_mut_spec(pre: &Self, r: &Target) -> bool {
        true
    }

    #[must_use]
    fn as_pseudo_mut(&'short mut self) -> (r: Target)
        ensures
            Self::pseudo_mut_spec(old(self), &r),
    ;
}

impl<'short, 'a, T: ?Sized> Reborrow<'short> for &'a T {
    type Target = &'short T;

    open spec fn rb_spec(&self, r: &&'short T) -> bool {
        *r == *self
    }

    fn rb(&'short self) -> (r: &'short T) {
        *self
    }
}

impl<'short, 'a, T: ?Sized> ReborrowMut<'short> for &'a T {
    type Target = &'short T;

    open spec fn rb_mut_spec(pre: &&'a T, r: &&'short T) -> bool {
        *r == *pre
    }

    open spec fn rb_mut_keeps(pre: &&'a T, post: &&'a T) -> bool {
        *post == *pre
    }

    fn rb_mut(&'short mut self) -> (r: &'short T)
        ensures
            *final(self) == *old(self),
    {
        *self
    }
}

impl<'a, T: ?Sized> IntoConst for &'a T {
    type Target = &'a T;

    open spec fn into_const_spec(&self, r: &&'a T) -> bool {
        *r == *self
    }

    fn into_const(self) -> (r: &'a T) {
        self
    }
}

impl<'short, 'a, T: ?Sized> Reborrow<'short> for &'a mut T {
    type Target = &'short T;

    open spec fn rb_spec(&self, r: &&'short T) -> bool {
        *r == &**self
    }

    fn rb(&'short self) -> (r: &'short T) {
        *self
    }
}

impl<'short, 'a, T: ?Sized> ReborrowMut<'short> for &'a mut T {
    type Target = &'short mut T;

    open spec fn rb_mut_spec(pre: &&'a mut T, r: &&'short mut T) -> bool {
        &**r == &**pre
    }

    fn rb_mut(&'short mut self) -> (r: &'short mut T)
        ensures
            &**final(self) == &*final(r),
            &*final(*final(self)) == &*final(*old(self)),
    {
        *self
    }
}

impl<'a, T: ?Sized> IntoConst for &'a mut T {
    type Target = &'a T;

    open spec fn into_const_spec(&self, r: &&'a T) -> bool {
        *r == &**self
    }

    fn into_const(self) -> (r: &'a T)
        ensures
            &*final(self) == &*old(self),
    {
        self
    }
}

impl<'short, T: Reborrow<'short>> Reborrow<'short> for Option<T> {
    type Target = Option<T::Target>;

    open spec fn rb_spec(&self, r: &Option<T::Target>) -> bool {
        match (self, r) {
            (None, None) => true,
            (Some(x), Some(y)) => x.rb_spec(y),
            _ => false,
        }
    }

    fn rb(&'short self) -> (r: Option<T::Target>) {
        match self {
            None => None,
            Some(x) => Some(x.rb()),
        }
    }
}

impl<'short, T: ReborrowMut<'short>> ReborrowMut<'short> for Option<T> {
    type Target = Option<T::Target>;

    open spec fn rb_mut_spec(pre: &Option<T>, r: &Option<T::Target>) -> bool {
        match (pre, r) {
            (None, None) => true,
            (Some(x), Some(y)) => T::rb_mut_spec(x, y),
            _ => false,
        }
    }

    open spec fn rb_mut_keeps(pre: &Option<T>, post: &Option<T>) -> bool {
        match (pre, post) {
            (None, None) => true,
            (Some(x), Some(y)) => T::rb_mut_keeps(x, y),
            _ => false,
        }
    }

    fn rb_mut(&'short mut self) -> (r: Option<T::Target>)
        ensures
            *old(self) is None ==> *final(self) is None,
            *old(self) is Some ==> *final(self) is Some,
    {
        match self {
            None => None,
            Some(x) => Some(x.rb_mut()),
        }
    }
}

impl<T: IntoConst> IntoConst for Option<T> {
    type Target = Option<T::Target>;

    open spec fn into_const_spec(&self, r: &Option<T::Target>) -> bool {
        match (self, r) {
            (None, None) => true,
            (Some(x), Some(y)) => x.into_const_spec(y),
            _ => false,
        }
    }

    fn into_const(self) -> (r: Option<T::Target>) {
        match self {
            None => None,
            Some(x) => Some(x.into_const()),
        }
    }
}

impl<'short, T: Reborrow<'short>, E: Reborrow<'short>> Reborrow<'short> for Result<T, E> {
    type Target = Result<T::Target, E::Target>;

    open spec fn rb_spec(&self, r: &Result<T::Target, E::Target>) -> bool {
        match (self, r) {
            (Ok(v), Ok(w)) => v.rb_spec(w),
            (Err(e), Err(f)) => e.rb_spec(f),
            _ => false,
        }
    }

    fn rb(&'short self) -> (r: Result<T::Target, E::Target>) {
        match self {
            Ok(v) => Ok(v.rb()),
            Err(e) => Err(e.rb()),
        }
    }
}

impl<'short, T: ReborrowMut<'short>, E: ReborrowMut<'short>> ReborrowMut<'short> for Result<
    T,
    E,
> {
    type Target = Result<T::Target, E::Target>;

    open spec fn rb_mut_spec(pre: &Result<T, E>, r: &Result<T::Target, E::Target>) -> bool {
        match (pre, r) {
            (Ok(v), Ok(w)) => T::rb_mut_spec(v, w),
            (Err(e), Err(f)) => E::rb_mut_spec(e, f),
            _ => false,
        }
    }

    open spec fn rb_mut_keeps(pre: &Result<T, E>, post: &Result<T, E>) -> bool {
        match (pre, post) {
            (Ok(v), Ok(w)) => T::rb_mut_keeps(v, w),
            (Err(e), Err(f)) => E::rb_mut_keeps(e, f),
            _ => false,
        }
    }

    fn rb_mut(&'short mut self) -> (r: Result<T::Target, E::Target>)
        ensures
            *old(self) is Ok <==> *final(self) is Ok,
    {
        match self {
            Ok(v) => Ok(v.rb_mut()),
            Err(e) => Err(e.rb_mut()),
        }
    }
}

impl<T: IntoConst, E: IntoConst> IntoConst for Result<T, E> {
    type Target = Result<T::Target, E::Target>;

    open spec fn into_const_spec(&self, r: &Result<T::Target, E::Target>) -> bool {
        match (self, r) {
            (Ok(v), Ok(w)) => v.into_const_spec(w),
            (Err(e), Err(f)) => e.into_const_spec(f),
            _ => false,
        }
    }

    fn into_const(self) -> (r: Result<T::Target, E::Target>) {
        match self {
            Ok(v) => Ok(v.into_const()),
            Err(e) => Err(e.into_const()),
        }
    }
}

impl<'short, T> AsPseudoRef<'short, &'short [T]> for Vec<T> {
    open spec fn pseudo_ref_spec(&self, r: &&'short [T]) -> bool {
        r@ == self@
    }

    fn as_pseudo_ref(&'short self) -> (r: &'short [T]) {
        self.as_slice()
    }
}

impl<'short, T> AsPseudoMut<'short, &'short mut [T]> for Vec<T> {
    open spec fn pseudo_mut_spec(pre: &Vec<T>, r: &&'short mut [T]) -> bool {
        r@ == pre@
    }

    fn as_pseudo_mut(&'short mut self) -> (r: &'short mut [T])
        ensures
            final(self)@ == final(r)@,
    {
        self.as_mut_slice()
    }
}

/// Relies on `String::as_mut_str`: the whole contents of the string, borrowed mutably, so
/// that what is written through the slice is what the string holds afterwards.
#[verifier::external_body]
fn string_as_mut_str(s: &mut String) -> (r: &mut str)
    ensures
        r@ == old(s)@,
        final(s)@ == final(r)@,
{
    s.as_mut_str()
}

impl<'short> AsPseudoMut<'short, &'short mut str> for String {
    open spec fn pseudo_mut_spec(pre: &String, r: &&'short mut str) -> bool {
        r@ == pre@
    }

    fn as_pseudo_mut(&'short mut self) -> (r: &'short mut str)
        ensures
            final(self)@ == final(r)@,
    {
        string_as_mut_str(self)
    }
}

impl<'short> AsPseudoRef<'short, &'short str> for String {
    open spec fn pseudo_ref_spec(&self, r: &&'short str) -> bool {
        r@ == self@
    }

    fn as_pseudo_ref(&'short self) -> (r: &'short str) {
        self.as_str()
    }
}

/// Narrowing a shared view of an exclusive reference a second time gives back the view
/// that the first narrowing gave.
pub proof fn rb_twice_is_rb_once<'t, 's: 't, 'a: 's, T: ?Sized>(
    v: &&'a mut T,
    once: &&'s T,
    twice: &&'t T,
)
    requires
        <&'a mut T as Reborrow<'s>>::rb_spec(v, once),
        <&'s T as Reborrow<'t>>::rb_spec(once, twice),
    ensures
        *twice == *once,
{
}

/// The same through an optional value.
pub proof fn option_rb_twice_is_rb_once<'t, 's: 't, 'a: 's, T>(
    v: &Option<&'a mut T>,
    once: &Option<&'s T>,
    twice: &Option<&'t T>,
)
    requires
        <Option<&'a mut T> as Reborrow<'s>>::rb_spec(v, once),
        <Option<&'s T> as Reborrow<'t>>::rb_spec(once, twice),
    ensures
        *twice == *once,
{
}

} // verus!
