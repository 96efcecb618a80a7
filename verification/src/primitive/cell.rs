use vstd::prelude::*;
use core::marker::PhantomData;
use crate::low_level::basis::OwnerRef;
use crate::low_level::polyfill::MaybeDangling;

verus! {

/// A value branded with the lifetime `'id` of an owner; it can only be
/// consumed by someone holding a token for that owner.
pub struct Cell<'id, T>(PhantomData<&'id ()>, MaybeDangling<T>);

impl<'id, T> Cell<'id, T> {
    /// The branded value.
    pub closed spec fn value(&self) -> T {
        self.1.value()
    }

    /// Brands `value`.
    pub fn new(value: T) -> (r: Self)
        ensures
            r.value() == value,
    {
        Cell(PhantomData, MaybeDangling::new(value))
    }

    /// A cell with the same brand holding a shared reference to the value.
    pub fn borrow<'a>(&'a self) -> (r: Cell<'id, &'a T>)
        ensures
            *r.value() == self.value(),
    {
        Cell::new(self.1.as_ref())
    }

    /// A cell with the same brand holding a mutable reference to the value;
    /// the value is left as that reference leaves it.
    pub fn borrow_mut<'a>(&'a mut self) -> (r: Cell<'id, &'a mut T>)
        ensures
            *r.value() == old(self).value(),
            final(self).value() == *final(r.value()),
    {
        Cell::new(self.1.as_mut())
    }

    /// Hands the value to `f`, given a token for the owner of the brand.
    pub fn map<R, F, const UNIQUE: bool>(self, _token: &OwnerRef<'id, UNIQUE>, f: F) -> (r: R)
        where F: FnOnce(T) -> R
        requires
            f.requires((self.value(),)),
        ensures
            f.ensures((self.value(),), r),
    {
        f(self.1.into_inner())
    }
}

} // verus!
