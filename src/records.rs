//! Example view records: shared records that are duplicated whole, and exclusive records
//! whose borrowed fields are narrowed one by one.
use vstd::prelude::*;

use crate::view::{AsPseudoMut, AsPseudoRef, IntoConst, Reborrow, ReborrowMut};

verus! {

/// Shared view over two integers, with one plain value beside them.
#[derive(Clone, Copy)]
pub struct I32Ref<'a, 'b> {
    pub i: i32,
    pub j: &'a i32,
    pub k: &'b i32,
}

/// Positional form of `I32Ref`.
#[derive(Clone, Copy)]
pub struct I32TupleRef<'a, 'b>(pub i32, pub &'a i32, pub &'b i32);

/// Shared view over two values of any type.
pub struct Ref<'a, 'b, T> {
    pub i: i32,
    pub j: &'a T,
    pub k: &'b T,
}

/// Exclusive view over two integers; `I32Ref` is its immutable counterpart.
pub struct I32RefMut<'a, 'b> {
    pub i: i32,
    pub j: &'a mut i32,
    pub k: &'b mut i32,
}

/// Positional form of `I32RefMut`; `I32TupleRef` is its immutable counterpart.
pub struct I32TupleRefMut<'a, 'b>(pub i32, pub &'a mut i32, pub &'b mut i32);

impl<'a, 'b, T> Clone for Ref<'a, 'b, T> {
    fn clone(&self) -> (r: Self)
        ensures
            r == *self,
    {
        *self
    }
}

impl<'a, 'b, T> Copy for Ref<'a, 'b, T> {

}

// Shared views are duplicable: every operation hands back a copy of the receiver.
impl<'a, 'b> IntoConst for I32Ref<'a, 'b> {
    type Target = I32Ref<'a, 'b>;

    open spec fn into_const_spec(&self, r: &I32Ref<'a, 'b>) -> bool {
        *r == *self
    }

    fn into_const(self) -> (r: I32Ref<'a, 'b>) {
        self
    }
}

impl<'short, 'a, 'b> ReborrowMut<'short> for I32Ref<'a, 'b> {
    type Target = I32Ref<'short, 'short>;

    open spec fn rb_mut_spec(pre: &I32Ref<'a, 'b>, r: &I32Ref<'short, 'short>) -> bool {
        *r == *pre
    }

    open spec fn rb_mut_keeps(pre: &I32Ref<'a, 'b>, post: &I32Ref<'a, 'b>) -> bool {
        *post == *pre
    }

    fn rb_mut(&'short mut self) -> (r: I32Ref<'short, 'short>)
        ensures
            *final(self) == *old(self),
    {
        *self
    }
}

impl<'short, 'a, 'b> Reborrow<'short> for I32Ref<'a, 'b> {
    type Target = I32Ref<'short, 'short>;

    open spec fn rb_spec(&self, r: &I32Ref<'short, 'short>) -> bool {
        *r == *self
    }

    fn rb(&'short self) -> (r: I32Ref<'short, 'short>) {
        *self
    }
}

impl<'short, 'a, 'b> AsPseudoMut<'short, I32Ref<'short, 'short>> for I32Ref<'a, 'b> {
    open spec fn pseudo_mut_spec(pre: &I32Ref<'a, 'b>, r: &I32Ref<'short, 'short>) -> bool {
        *r == *pre
    }

    fn as_pseudo_mut(&'short mut self) -> (r: I32Ref<'short, 'short>) {
        *self
    }
}

impl<'short, 'a, 'b> AsPseudoRef<'short, I32Ref<'short, 'short>> for I32Ref<'a, 'b> {
    open spec fn pseudo_ref_spec(&self, r: &I32Ref<'short, 'short>) -> bool {
        *r == *self
    }

    fn as_pseudo_ref(&'short self) -> (r: I32Ref<'short, 'short>) {
        *self
    }
}

impl<'a, 'b> IntoConst for I32TupleRef<'a, 'b> {
    type Target = I32TupleRef<'a, 'b>;

    open spec fn into_const_spec(&self, r: &I32TupleRef<'a, 'b>) -> bool {
        *r == *self
    }

    fn into_const(self) -> (r: I32TupleRef<'a, 'b>) {
        self
    }
}

impl<'short, 'a, 'b> ReborrowMut<'short> for I32TupleRef<'a, 'b> {
    type Target = I32TupleRef<'short, 'short>;

    open spec fn rb_mut_spec(pre: &I32TupleRef<'a, 'b>, r: &I32TupleRef<'short, 'short>) -> bool {
        *r == *pre
    }

    open spec fn rb_mut_keeps(pre: &I32TupleRef<'a, 'b>, post: &I32TupleRef<'a, 'b>) -> bool {
        *post == *pre
    }

    fn rb_mut(&'short mut self) -> (r: I32TupleRef<'short, 'short>)
        ensures
            *final(self) == *old(self),
    {
        *self
    }
}

impl<'short, 'a, 'b> Reborrow<'short> for I32TupleRef<'a, 'b> {
    type Target = I32TupleRef<'short, 'short>;

    open spec fn rb_spec(&self, r: &I32TupleRef<'short, 'short>) -> bool {
        *r == *self
    }

    fn rb(&'short self) -> (r: I32TupleRef<'short, 'short>) {
        *self
    }
}

impl<'short, 'a, 'b> AsPseudoMut<'short, I32TupleRef<'short, 'short>> for I32TupleRef<'a, 'b> {
    open spec fn pseudo_mut_spec(pre: &I32TupleRef<'a, 'b>, r: &I32TupleRef<'short, 'short>) -> bool {
        *r == *pre
    }

    fn as_pseudo_mut(&'short mut self) -> (r: I32TupleRef<'short, 'short>) {
        *self
    }
}

impl<'short, 'a, 'b> AsPseudoRef<'short, I32TupleRef<'short, 'short>> for I32TupleRef<'a, 'b> {
    open spec fn pseudo_ref_spec(&self, r: &I32TupleRef<'short, 'short>) -> bool {
        *r == *self
    }

    fn as_pseudo_ref(&'short self) -> (r: I32TupleRef<'short, 'short>) {
        *self
    }
}

impl<'a, 'b, T> IntoConst for Ref<'a, 'b, T> {
    type Target = Ref<'a, 'b, T>;

    open spec fn into_const_spec(&self, r: &Ref<'a, 'b, T>) -> bool {
        *r == *self
    }

    fn into_const(self) -> (r: Ref<'a, 'b, T>) {
        self
    }
}

impl<'short, 'a, 'b, T> ReborrowMut<'short> for Ref<'a, 'b, T> {
    type Target = Ref<'short, 'short, T>;

    open spec fn rb_mut_spec(pre: &Ref<'a, 'b, T>, r: &Ref<'short, 'short, T>) -> bool {
        *r == *pre
    }

    open spec fn rb_mut_keeps(pre: &Ref<'a, 'b, T>, post: &Ref<'a, 'b, T>) -> bool {
        *post == *pre
    }

    fn rb_mut(&'short mut self) -> (r: Ref<'short, 'short, T>)
        ensures
            *final(self) == *old(self),
    {
        *self
    }
}

impl<'short, 'a, 'b, T> Reborrow<'short> for Ref<'a, 'b, T> {
    type Target = Ref<'short, 'short, T>;

    open spec fn rb_spec(&self, r: &Ref<'short, 'short, T>) -> bool {
        *r == *self
    }

    fn rb(&'short self) -> (r: Ref<'short, 'short, T>) {
        *self
    }
}

impl<'short, 'a, 'b, T> AsPseudoMut<'short, Ref<'short, 'short, T>> for Ref<'a, 'b, T> {
    open spec fn pseudo_mut_spec(pre: &Ref<'a, 'b, T>, r: &Ref<'short, 'short, T>) -> bool {
        *r == *pre
    }

    fn as_pseudo_mut(&'short mut self) -> (r: Ref<'short, 'short, T>) {
        *self
    }
}

impl<'short, 'a, 'b, T> AsPseudoRef<'short, Ref<'short, 'short, T>> for Ref<'a, 'b, T> {
    open spec fn pseudo_ref_spec(&self, r: &Ref<'short, 'short, T>) -> bool {
        *r == *self
    }

    fn as_pseudo_ref(&'short self) -> (r: Ref<'short, 'short, T>) {
        *self
    }
}

// Exclusive views: the plain field `i` is copied through, the borrowed fields are narrowed.
impl<'a, 'b> IntoConst for I32RefMut<'a, 'b> {
    type Target = I32Ref<'a, 'b>;

    open spec fn into_const_spec(&self, r: &I32Ref<'a, 'b>) -> bool {
        &&& r.i == self.i
        &&& self.j.into_const_spec(&r.j)
        &&& self.k.into_const_spec(&r.k)
    }

    fn into_const(self) -> (r: I32Ref<'a, 'b>) {
        I32Ref { i: self.i, j: self.j.into_const(), k: self.k.into_const() }
    }
}

impl<'short, 'a, 'b> ReborrowMut<'short> for I32RefMut<'a, 'b> {
    type Target = I32RefMut<'short, 'short>;

    open spec fn rb_mut_spec(pre: &I32RefMut<'a, 'b>, r: &I32RefMut<'short, 'short>) -> bool {
        &&& r.i == pre.i
        &&& *r.j == *pre.j
        &&& *r.k == *pre.k
    }

    open spec fn rb_mut_keeps(pre: &I32RefMut<'a, 'b>, post: &I32RefMut<'a, 'b>) -> bool {
        post.i == pre.i
    }

    fn rb_mut(&'short mut self) -> (r: I32RefMut<'short, 'short>)
        ensures
            final(self).i == old(self).i,
            *final(self).j == *final(r.j),
            *final(self).k == *final(r.k),
            *final(final(self).j) == *final(old(self).j),
            *final(final(self).k) == *final(old(self).k),
    {
        I32RefMut { i: self.i, j: &mut *self.j, k: &mut *self.k }
    }
}

impl<'short, 'a, 'b> Reborrow<'short> for I32RefMut<'a, 'b> {
    type Target = I32Ref<'short, 'short>;

    open spec fn rb_spec(&self, r: &I32Ref<'short, 'short>) -> bool {
        &&& r.i == self.i
        &&& self.j.rb_spec(&r.j)
        &&& self.k.rb_spec(&r.k)
    }

    fn rb(&'short self) -> (r: I32Ref<'short, 'short>) {
        I32Ref { i: self.i, j: &*self.j, k: &*self.k }
    }
}

impl<'short, 'a, 'b> AsPseudoMut<'short, I32RefMut<'short, 'short>> for I32RefMut<'a, 'b> {
    open spec fn pseudo_mut_spec(pre: &I32RefMut<'a, 'b>, r: &I32RefMut<'short, 'short>) -> bool {
        <I32RefMut<'a, 'b> as ReborrowMut<'short>>::rb_mut_spec(pre, r)
    }

    fn as_pseudo_mut(&'short mut self) -> (r: I32RefMut<'short, 'short>)
        ensures
            final(self).i == old(self).i,
            *final(self).j == *final(r.j),
            *final(self).k == *final(r.k),
            *final(final(self).j) == *final(old(self).j),
            *final(final(self).k) == *final(old(self).k),
    {
        I32RefMut { i: self.i, j: &mut *self.j, k: &mut *self.k }
    }
}

impl<'short, 'a, 'b> AsPseudoRef<'short, I32Ref<'short, 'short>> for I32RefMut<'a, 'b> {
    open spec fn pseudo_ref_spec(&self, r: &I32Ref<'short, 'short>) -> bool {
        self.rb_spec(r)
    }

    fn as_pseudo_ref(&'short self) -> (r: I32Ref<'short, 'short>) {
        self.rb()
    }
}

impl<'a, 'b> IntoConst for I32TupleRefMut<'a, 'b> {
    type Target = I32TupleRef<'a, 'b>;

    open spec fn into_const_spec(&self, r: &I32TupleRef<'a, 'b>) -> bool {
        &&& r.0 == self.0
        &&& self.1.into_const_spec(&r.1)
        &&& self.2.into_const_spec(&r.2)
    }

    fn into_const(self) -> (r: I32TupleRef<'a, 'b>) {
        I32TupleRef(self.0, self.1.into_const(), self.2.into_const())
    }
}

impl<'short, 'a, 'b> ReborrowMut<'short> for I32TupleRefMut<'a, 'b> {
    type Target = I32TupleRefMut<'short, 'short>;

    open spec fn rb_mut_spec(pre: &I32TupleRefMut<'a, 'b>, r: &I32TupleRefMut<'short, 'short>) -> bool {
        &&& r.0 == pre.0
        &&& *r.1 == *pre.1
        &&& *r.2 == *pre.2
    }

    open spec fn rb_mut_keeps(pre: &I32TupleRefMut<'a, 'b>, post: &I32TupleRefMut<'a, 'b>) -> bool {
        post.0 == pre.0
    }

    fn rb_mut(&'short mut self) -> (r: I32TupleRefMut<'short, 'short>)
        ensures
            final(self).0 == old(self).0,
            *final(self).1 == *final(r.1),
            *final(self).2 == *final(r.2),
            *final(final(self).1) == *final(old(self).1),
            *final(final(self).2) == *final(old(self).2),
    {
        I32TupleRefMut(self.0, &mut *self.1, &mut *self.2)
    }
}

impl<'short, 'a, 'b> Reborrow<'short> for I32TupleRefMut<'a, 'b> {
    type Target = I32TupleRef<'short, 'short>;

    open spec fn rb_spec(&self, r: &I32TupleRef<'short, 'short>) -> bool {
        &&& r.0 == self.0
        &&& self.1.rb_spec(&r.1)
        &&& self.2.rb_spec(&r.2)
    }

    fn rb(&'short self) -> (r: I32TupleRef<'short, 'short>) {
        I32TupleRef(self.0, &*self.1, &*self.2)
    }
}

impl<'short, 'a, 'b> AsPseudoMut<'short, I32TupleRefMut<'short, 'short>> for I32TupleRefMut<'a, 'b> {
    open spec fn pseudo_mut_spec(pre: &I32TupleRefMut<'a, 'b>, r: &I32TupleRefMut<'short, 'short>) -> bool {
        <I32TupleRefMut<'a, 'b> as ReborrowMut<'short>>::rb_mut_spec(pre, r)
    }

    fn as_pseudo_mut(&'short mut self) -> (r: I32TupleRefMut<'short, 'short>)
        ensures
            final(self).0 == old(self).0,
            *final(self).1 == *final(r.1),
            *final(self).2 == *final(r.2),
            *final(final(self).1) == *final(old(self).1),
            *final(final(self).2) == *final(old(self).2),
    {
        I32TupleRefMut(self.0, &mut *self.1, &mut *self.2)
    }
}

impl<'short, 'a, 'b> AsPseudoRef<'short, I32TupleRef<'short, 'short>> for I32TupleRefMut<'a, 'b> {
    open spec fn pseudo_ref_spec(&self, r: &I32TupleRef<'short, 'short>) -> bool {
        self.rb_spec(r)
    }

    fn as_pseudo_ref(&'short self) -> (r: I32TupleRef<'short, 'short>) {
        self.rb()
    }
}

/// Narrowing a shared view a second time gives back the view that the first narrowing gave.
pub proof fn rb_twice_is_rb_once<'t, 's: 't, 'a: 's, 'b: 's>(
    v: &I32RefMut<'a, 'b>,
    once: &I32Ref<'s, 's>,
    twice: &I32Ref<'t, 't>,
)
    requires
        <I32RefMut<'a, 'b> as Reborrow<'s>>::rb_spec(v, once),
        <I32Ref<'s, 's> as Reborrow<'t>>::rb_spec(once, twice),
    ensures
        *twice == *once,
{
}

/// The same for the positional record.
pub proof fn tuple_rb_twice_is_rb_once<'t, 's: 't, 'a: 's, 'b: 's>(
    v: &I32TupleRefMut<'a, 'b>,
    once: &I32TupleRef<'s, 's>,
    twice: &I32TupleRef<'t, 't>,
)
    requires
        <I32TupleRefMut<'a, 'b> as Reborrow<'s>>::rb_spec(v, once),
        <I32TupleRef<'s, 's> as Reborrow<'t>>::rb_spec(once, twice),
    ensures
        *twice == *once,
{
}

/// Consuming an exclusive view keeps the plain field as it was and turns each borrowed
/// field into that field's own immutable counterpart.
pub proof fn into_const_keeps_fields<'a, 'b>(v: &I32RefMut<'a, 'b>, r: &I32Ref<'a, 'b>)
    requires
        v.into_const_spec(r),
    ensures
        r.i == v.i,
        v.j.into_const_spec(&r.j),
        v.k.into_const_spec(&r.k),
{
}

/// A positional record behaves as the named record with the same fields in the same order.
pub proof fn tuple_matches_named<'s, 'a: 's, 'b: 's>(v: &I32RefMut<'a, 'b>, w: &I32TupleRefMut<'a, 'b>)
    requires
        v.i == w.0,
        *v.j == *w.1,
        *v.k == *w.2,
    ensures
        forall|x: &I32Ref<'a, 'b>, y: &I32TupleRef<'a, 'b>|
            x.i == y.0 && *x.j == *y.1 && *x.k == *y.2 ==> (v.into_const_spec(x)
                <==> w.into_const_spec(y)),
        forall|x: &I32Ref<'s, 's>, y: &I32TupleRef<'s, 's>|
            x.i == y.0 && *x.j == *y.1 && *x.k == *y.2 ==> (<I32RefMut<'a, 'b> as Reborrow<
                's,
            >>::rb_spec(v, x) <==> <I32TupleRefMut<'a, 'b> as Reborrow<'s>>::rb_spec(w, y)),
        forall|x: &I32RefMut<'s, 's>, y: &I32TupleRefMut<'s, 's>|
            x.i == y.0 && *x.j == *y.1 && *x.k == *y.2 ==> (<I32RefMut<
                'a,
                'b,
            > as ReborrowMut<'s>>::rb_mut_spec(v, x) <==> <I32TupleRefMut<
                'a,
                'b,
            > as ReborrowMut<'s>>::rb_mut_spec(w, y)),
{
}

} // verus!
