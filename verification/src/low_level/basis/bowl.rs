use vstd::prelude::*;
use core::marker::PhantomData;
use crate::low_level::basis::existential::{Exists, Stamp};
use crate::low_level::polyfill::MaybeDangling;
use crate::low_level::stable_deref::{CloneStableDeref, StableDeref, StableDerefMut};
use crate::owned::{DerefMove, Owned};

verus! {

/// Stores an owner (in a `Slot`) together with a view.
///
/// `owner()` and `view()` describe it; `slot()` is the slot that holds the
/// owner. A bowl starts from `Bowl::new`, whose view is the `OwnerRef`
/// token that grants access to the owner, and is transformed with `map`.
pub struct Bowl<'ub, P, V> {
    view: MaybeDangling<V>,
    owner: Slot<'ub, Owned<P>>,
}

/// A zero-sized token that grants access to the owner held in a `Slot`
/// with the same lifetime; `UNIQUE` tokens also grant mutable access.
pub struct OwnerRef<'life, const UNIQUE: bool>(PhantomData<&'life ()>);

impl<'life, const UNIQUE: bool> OwnerRef<'life, UNIQUE> {
    /// The token value (every token of a type is this one).
    pub closed spec fn token() -> Self {
        OwnerRef(PhantomData)
    }
}

impl<'life> OwnerRef<'life, true> {
    /// A shared-access token for the same owner.
    pub fn downgrade(&self) -> (r: OwnerRef<'life, false>)
        ensures
            r == OwnerRef::<'life, false>::token(),
    {
        OwnerRef(PhantomData)
    }
}

impl<'life> Clone for OwnerRef<'life, false> {
    /// Shared-access tokens are freely copied.
    fn clone(&self) -> (r: Self)
        ensures
            r == *self,
    {
        OwnerRef(PhantomData)
    }
}

impl<'life> Copy for OwnerRef<'life, false> {

}

/// Holds the owner of a bowl while its view is being worked on.
pub struct Slot<'life, O: ?Sized>(PhantomData<&'life ()>, O);

impl<'life, O> Slot<'life, O> {
    /// What the slot holds.
    pub closed spec fn content(&self) -> O {
        self.1
    }
}

impl<'life, P> Slot<'life, Owned<P>> {
    /// The owner held by the slot.
    pub closed spec fn owner(&self) -> P {
        self.1.value()
    }

    /// Puts the owner back into a bowl together with `view`.
    pub fn fill<'ub, V, X: ?Sized>(self, view: V, stamp: Stamp<'life, 'ub, X>) -> (r: Bowl<'ub, P, V>)
        ensures
            r.owner() == self.owner(),
            r.view() == view,
    {
        Bowl::from_parts(self.1.deref_move(), view)
    }

    /// Drops the slot and returns the owner.
    pub fn into_owner(self) -> (r: P)
        ensures
            r == self.owner(),
    {
        self.1.deref_move()
    }

    pub(crate) fn holding(owner: P) -> (r: Self)
        ensures
            r.owner() == owner,
    {
        Slot(PhantomData, Owned::new(owner))
    }

    /// A slot holding a clone of this slot's owner.
    pub fn spawn(&self) -> (r: Slot<'life, Owned<P>>)
        where P: CloneStableDeref
        ensures
            cloned(self.owner(), r.owner()),
            r.owner().target() == self.owner().target(),
    {
        Slot::holding(self.1.get().clone_pointer())
    }

    /// Returns a reference to the owner's target, given a token for this slot.
    pub fn deref<'a, const U: bool>(&'a self, _token: &'a OwnerRef<'life, U>) -> (r: &'a P::Target)
        where P: StableDeref
        ensures
            r == self.owner().target(),
    {
        self.1.get().stable_deref()
    }

    /// Returns a mutable reference to the owner's target, given a unique
    /// token for this slot; what is left behind it becomes the new target.
    pub fn deref_mut<'a>(&'a mut self, _token: &'a OwnerRef<'life, true>) -> (r: &'a mut P::Target)
        where P: StableDerefMut
        ensures
            &*r == old(self).owner().target(),
            final(self).owner().target() == &*final(r),
    {
        self.owner_mut().stable_deref_mut()
    }

    fn owner_mut(&mut self) -> (r: &mut P)
        ensures
            *r == old(self).owner(),
            final(self).owner() == *final(r),
    {
        self.1.get_mut()
    }
}

impl<'life, P: CloneStableDeref> Clone for Slot<'life, Owned<P>> {
    /// Clones the owner into a new slot.
    fn clone(&self) -> (r: Self)
        ensures
            cloned(self.owner(), r.owner()),
            r.owner().target() == self.owner().target(),
    {
        self.spawn()
    }
}

impl<'ub, P> Bowl<'ub, P, OwnerRef<'ub, true>> {
    /// A bowl whose view is the unique token for its owner.
    pub fn new(owner: P) -> (r: Self)
        ensures
            r.owner() == owner,
            r.view() == OwnerRef::<'ub, true>::token(),
    {
        Bowl::from_parts(owner, OwnerRef(PhantomData))
    }
}

impl<'ub, P, V> Bowl<'ub, P, V> {
    /// The owner held by the bowl: the one in its slot.
    pub open spec fn owner(&self) -> P {
        self.slot().owner()
    }

    /// The view held by the bowl.
    pub closed spec fn view(&self) -> V {
        self.view.value()
    }

    /// The slot that holds the owner.
    pub closed spec fn slot(&self) -> Slot<'ub, Owned<P>> {
        self.owner
    }

    pub(crate) fn from_parts(owner: P, view: V) -> (r: Self)
        ensures
            r.owner() == owner,
            r.view() == view,
    {
        Bowl { view: MaybeDangling::new(view), owner: Slot::holding(owner) }
    }

    pub(crate) fn into_raw(self) -> (r: (V, Slot<'ub, Owned<P>>))
        ensures
            r.0 == self.view(),
            r.1 == self.slot(),
            r.1.owner() == self.owner(),
    {
        (self.view.into_inner(), self.owner)
    }

    pub(crate) fn view_ref(&self) -> (r: &V)
        ensures
            *r == self.view(),
    {
        self.view.as_ref()
    }

    pub(crate) fn parts_mut(&mut self) -> (r: (&mut V, &Slot<'ub, Owned<P>>))
        ensures
            *r.0 == old(self).view(),
            *r.1 == old(self).slot(),
            final(self).view() == *final(r.0),
            final(self).slot() == old(self).slot(),
            final(self).owner() == old(self).owner(),
    {
        (self.view.as_mut(), &self.owner)
    }

    pub(crate) fn slot_ref(&self) -> (r: &Slot<'ub, Owned<P>>)
        ensures
            *r == self.slot(),
            r.owner() == self.owner(),
    {
        &self.owner
    }

    /// Shared references to the view and the slot, in an `Exists`.
    pub fn borrow<'a>(&'a self) -> (r: Exists<'ub, (&'a V, &'a Slot<'ub, Owned<P>>)>)
        ensures
            r.value() == (&self.view(), &self.slot()),
    {
        let s: Stamp<'ub, 'ub> = Stamp::new();
        s.stamp((self.view.as_ref(), &self.owner))
    }

    /// Mutable references to the view and the slot, in an `Exists`; the
    /// bowl is left as they are left.
    pub fn borrow_mut<'a>(&'a mut self) -> (r: Exists<'ub, (&'a mut V, &'a mut Slot<'ub, Owned<P>>)>)
        ensures
            *r.value().0 == old(self).view(),
            *r.value().1 == old(self).slot(),
            final(self).view() == *final(r.value().0),
            final(self).slot() == *final(r.value().1),
    {
        let s: Stamp<'ub, 'ub> = Stamp::new();
        s.stamp((self.view.as_mut(), &mut self.owner))
    }

    /// Hands the view, the slot holding the owner and a stamp to `f`.
    pub fn map<R, G>(self, f: G) -> (r: R)
        where G: FnOnce(V, Slot<'ub, Owned<P>>, Stamp<'ub, 'ub>) -> R
        requires
            f.requires((self.view(), self.slot(), Stamp::token())),
        ensures
            f.ensures((self.view(), self.slot(), Stamp::token()), r),
    {
        let (view, slot) = self.into_raw();
        f(view, slot, Stamp::new())
    }
}

} // verus!
