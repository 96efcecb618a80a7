use vstd::prelude::*;
use crate::low_level::aliasable::Aliasable;
use crate::low_level::polyfill::MaybeDangling;
use crate::low_level::stable_deref::StableDeref;

verus! {

/// A pointer wrapper whose target may be referred to by views that outlive
/// a borrow of the wrapper.
///
/// It holds exactly one pointer, named by `inner()`.
pub struct DanglingDeref<T>(MaybeDangling<T>);

impl<T> DanglingDeref<T> {
    /// The wrapped pointer.
    pub closed spec fn inner(&self) -> T {
        self.0.value()
    }

    /// Wraps a pointer.
    pub fn new(inner: T) -> (r: Self)
        ensures
            r.inner() == inner,
    {
        DanglingDeref(MaybeDangling::new(inner))
    }

    /// Unwraps the pointer.
    pub fn into_inner(self) -> (r: T)
        ensures
            r == self.inner(),
    {
        self.0.into_inner()
    }
}

impl<T: core::ops::Deref> core::ops::Deref for DanglingDeref<T> {
    type Target = T::Target;

    /// Dereferences the wrapped pointer: the result is what `T::deref`
    /// returns on it.
    fn deref(&self) -> (r: &T::Target)
        ensures
            call_ensures(T::deref, (&self.inner(),), r),
    {
        self.0.as_ref().deref()
    }
}

impl<T: core::ops::DerefMut> core::ops::DerefMut for DanglingDeref<T> {
    /// Dereferences the wrapped pointer mutably: the result is what
    /// `T::deref_mut` returns on a unique reference to it, and the pointer is
    /// left as that call leaves it.
    fn deref_mut(&mut self) -> (r: &mut T::Target)
        ensures
            exists|m: &mut T|
                *m == old(self).inner() && *final(m) == final(self).inner()
                    && call_ensures(T::deref_mut, (m,), r),
    {
        self.0.as_mut().deref_mut()
    }
}

impl<T: StableDeref> Aliasable for DanglingDeref<T> {

}

} // verus!
