use vstd::prelude::*;
use crate::helper::clones_exactly;
use crate::low_level::polyfill::MaybeDangling;

verus! {

/// A pointer wrapper that may be aliased by views derived from its target.
///
/// It holds exactly one pointer, named by `inner()`.
pub struct AliasableDeref<T>(MaybeDangling<T>);

impl<T> AliasableDeref<T> {
    /// The wrapped pointer.
    pub closed spec fn inner(&self) -> T {
        self.0.value()
    }

    /// Wraps a pointer.
    pub fn new(inner: T) -> (r: Self)
        ensures
            r.inner() == inner,
    {
        Self(MaybeDangling::new(inner))
    }

    /// Returns a reference to the wrapped pointer.
    pub fn get(&self) -> (r: &T)
        ensures
            *r == self.inner(),
    {
        self.0.as_ref()
    }

    /// Returns a mutable reference to the wrapped pointer.
    pub fn get_mut(&mut self) -> (r: &mut T)
        ensures
            *r == old(self).inner(),
            final(self).inner() == *final(r),
    {
        self.0.as_mut()
    }

    /// Unwraps the pointer.
    pub fn into_inner(self) -> (r: T)
        ensures
            r == self.inner(),
    {
        self.0.into_inner()
    }
}

/// Where `T` clones exactly, a clone of the wrapper holds a pointer equal
/// to the original's, and unwrapping it gives that pointer back.
pub proof fn lemma_clone_exact<T: Clone>(a: AliasableDeref<T>, c: AliasableDeref<T>)
    requires
        cloned(a.inner(), c.inner()),
        clones_exactly::<T>(),
    ensures
        c.inner() == a.inner(),
{
}

impl<T: Clone> Clone for AliasableDeref<T> {
    /// Clones the wrapped pointer.
    fn clone(&self) -> (r: Self)
        ensures
            cloned(self.inner(), r.inner()),
    {
        Self(self.0.clone())
    }
}

impl<T: core::ops::Deref> core::ops::Deref for AliasableDeref<T> {
    type Target = T::Target;

    /// Dereferences the wrapped pointer: the result is what `T::deref`
    /// returns on it.
    fn deref(&self) -> (r: &T::Target)
        ensures
            call_ensures(T::deref, (&self.inner(),), r),
    {
        self.get().deref()
    }
}

impl<T: core::ops::DerefMut> core::ops::DerefMut for AliasableDeref<T> {
    /// Dereferences the wrapped pointer mutably: the result is what
    /// `T::deref_mut` returns on a unique reference to it, and the pointer is
    /// left as that call leaves it.
    fn deref_mut(&mut self) -> (r: &mut T::Target)
        ensures
            exists|m: &mut T|
                *m == old(self).inner() && *final(m) == final(self).inner()
                    && call_ensures(T::deref_mut, (m,), r),
    {
        self.get_mut().deref_mut()
    }
}

} // verus!
