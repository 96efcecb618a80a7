use vstd::prelude::*;
use core::marker::PhantomData;
use crate::low_level::basis::Bowl;
use crate::low_level::stable_deref::CloneStableDeref;

verus! {

/// An owner detached from any view, waiting to be bound to a new one.
pub struct Anchor<'life, 'ub, P>(PhantomData<(&'life (), &'ub ())>, P);

impl<'life, 'ub, P> Anchor<'life, 'ub, P> {
    /// The owner held by the anchor.
    pub closed spec fn inner(&self) -> P {
        self.1
    }

    /// An anchor holding `owner`.
    pub fn new(owner: P) -> (r: Self)
        ensures
            r.inner() == owner,
    {
        Anchor(PhantomData, owner)
    }

    /// Gives the owner back.
    pub fn into_inner(self) -> (r: P)
        ensures
            r == self.inner(),
    {
        self.1
    }

    /// Pairs the owner with `view` in a bowl.
    pub fn bind<V>(self, view: V) -> (r: Bowl<'ub, P, V>)
        ensures
            r.owner() == self.inner(),
            r.view() == view,
    {
        Bowl::from_parts(self.1, view)
    }
}

impl<'life, 'ub, P: CloneStableDeref> Clone for Anchor<'life, 'ub, P> {
    /// Clones the owner into a new anchor.
    fn clone(&self) -> (r: Self)
        ensures
            cloned(self.inner(), r.inner()),
            r.inner().target() == self.inner().target(),
    {
        Anchor(PhantomData, self.1.clone_pointer())
    }
}

} // verus!
