use vstd::prelude::*;
use core::ops::{Deref, DerefMut};
use crate::aliasable_deref::AliasableDeref;
use crate::low_level::stable_deref::StableDeref;

verus! {

/// Any type; used to hide the concrete type of an owner.
pub trait Erased {

}

impl<T> Erased for T {

}

/// A pointer that can be converted into a type-erased pointer.
pub trait IntoErased<'a> {
    /// The type-erased pointer.
    type Erased;

    /// Erases the pointee type.
    fn into_erased(self) -> Self::Erased;
}

/// A type from which a handle can be built, given a reference to it.
///
/// `handle_ens` names what `to_handle` guarantees of the handle it builds.
pub trait ToHandle {
    /// The handle type.
    type Handle: Deref;

    /// What `to_handle` guarantees of the handle built from `x`; by default nothing.
    open spec fn handle_ens(x: &Self, handle: Self::Handle) -> bool {
        true
    }

    /// Builds a handle from a reference.
    fn to_handle(x: &Self) -> (r: Self::Handle)
        ensures
            Self::handle_ens(x, r),
    ;
}

/// A type from which a mutable handle can be built, given a reference to it.
///
/// `handle_mut_ens` names what `to_handle_mut` guarantees of the handle it builds.
pub trait ToHandleMut {
    /// The handle type.
    type HandleMut: DerefMut;

    /// What `to_handle_mut` guarantees of the handle built from `x`; by default nothing.
    open spec fn handle_mut_ens(x: &Self, handle: Self::HandleMut) -> bool {
        true
    }

    /// Builds a mutable handle from a reference.
    fn to_handle_mut(x: &Self) -> (r: Self::HandleMut)
        ensures
            Self::handle_mut_ens(x, r),
    ;
}

/// Keeps an owner alive next to a handle built from the owner's target.
///
/// `owner()` and `handle()` describe it.
pub struct OwningHandle<O: StableDeref, H: Deref> {
    handle: H,
    _owner: AliasableDeref<O>,
}

impl<O: StableDeref, H: Deref> OwningHandle<O, H> {
    /// The owner kept alive.
    pub closed spec fn owner(&self) -> O {
        self._owner.inner()
    }

    /// The handle built from the owner's target.
    pub closed spec fn handle(&self) -> H {
        self.handle
    }

    /// Builds the handle by calling `f` once on the owner's target.
    pub fn new_with_fn<F>(o: O, f: F) -> (r: Self)
        where F: FnOnce(&O::Target) -> H
        requires
            f.requires((o.target(),)),
        ensures
            r.owner() == o,
            f.ensures((o.target(),), r.handle()),
    {
        let h = f(o.stable_deref());
        OwningHandle { handle: h, _owner: AliasableDeref::new(o) }
    }

    /// Builds the handle by calling the fallible `f` once on the owner's
    /// target; on failure the error is returned and the owner dropped.
    pub fn try_new<F, E>(o: O, f: F) -> (r: Result<Self, E>)
        where F: FnOnce(&O::Target) -> Result<H, E>
        requires
            f.requires((o.target(),)),
        ensures
            match r {
                Ok(h) => h.owner() == o && f.ensures((o.target(),), Ok::<H, E>(h.handle())),
                Err(e) => f.ensures((o.target(),), Err::<H, E>(e)),
            },
    {
        let h = f(o.stable_deref());
        match h {
            Ok(h) => Ok(OwningHandle { handle: h, _owner: AliasableDeref::new(o) }),
            Err(e) => Err(e),
        }
    }

    /// Returns a reference to the owner.
    pub fn as_owner(&self) -> (r: &O)
        ensures
            *r == self.owner(),
    {
        self._owner.get()
    }

    /// Drops the handle and returns the owner.
    pub fn into_owner(self) -> (r: O)
        ensures
            r == self.owner(),
    {
        self._owner.into_inner()
    }
}

impl<O: StableDeref, H: Deref> OwningHandle<O, H> where O::Target: ToHandle<Handle = H> {
    /// Builds the handle with `ToHandle::to_handle` on the owner's target.
    pub fn new(o: O) -> (r: Self)
        ensures
            r.owner() == o,
            O::Target::handle_ens(o.target(), r.handle()),
    {
        let h = O::Target::to_handle(o.stable_deref());
        OwningHandle { handle: h, _owner: AliasableDeref::new(o) }
    }
}

impl<O: StableDeref, H: DerefMut> OwningHandle<O, H> where O::Target: ToHandleMut<HandleMut = H> {
    /// Builds the handle with `ToHandleMut::to_handle_mut` on the owner's target.
    pub fn new_mut(o: O) -> (r: Self)
        ensures
            r.owner() == o,
            O::Target::handle_mut_ens(o.target(), r.handle()),
    {
        let h = O::Target::to_handle_mut(o.stable_deref());
        OwningHandle { handle: h, _owner: AliasableDeref::new(o) }
    }
}

impl<O: StableDeref, H: Deref> Deref for OwningHandle<O, H> {
    type Target = H::Target;

    /// Dereferences the handle: the result is what `H::deref` returns on it.
    fn deref(&self) -> (r: &H::Target)
        ensures
            call_ensures(H::deref, (&self.handle(),), r),
    {
        self.handle.deref()
    }
}

impl<O: StableDeref, H: DerefMut> DerefMut for OwningHandle<O, H> {
    /// Dereferences the handle mutably: the result is what `H::deref_mut`
    /// returns on a unique reference to it, the handle is left as that call
    /// leaves it, and the owner is kept.
    fn deref_mut(&mut self) -> (r: &mut H::Target)
        ensures
            final(self).owner() == old(self).owner(),
            exists|m: &mut H|
                *m == old(self).handle() && *final(m) == final(self).handle()
                    && call_ensures(H::deref_mut, (m,), r),
    {
        self.handle.deref_mut()
    }
}

} // verus!
