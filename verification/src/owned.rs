use vstd::prelude::*;

verus! {

/// A pointer type whose target can be moved out of it.
pub trait DerefMove: core::ops::DerefMut where Self::Target: Sized {
    /// The value that `deref_move` hands out.
    spec fn moved(&self) -> Self::Target;

    /// Consumes the pointer and returns its target by value.
    fn deref_move(self) -> (r: Self::Target)
        ensures
            r == self.moved(),
    ;
}

/// A value held by value that behaves like a pointer to itself.
pub struct Owned<T: ?Sized>(T);

impl<T> Owned<T> {
    /// The held value.
    pub closed spec fn value(&self) -> T {
        self.0
    }

    /// Wraps a value.
    pub fn new(value: T) -> (r: Self)
        ensures
            r.value() == value,
    {
        Owned(value)
    }

    /// Returns a reference to the held value.
    pub fn get(&self) -> (r: &T)
        ensures
            *r == self.value(),
    {
        &self.0
    }

    /// Returns a mutable reference to the held value.
    pub fn get_mut(&mut self) -> (r: &mut T)
        ensures
            *r == old(self).value(),
            final(self).value() == *final(r),
    {
        &mut self.0
    }
}

impl<T> core::ops::Deref for Owned<T> {
    type Target = T;

    /// Returns a reference to the held value.
    fn deref(&self) -> (r: &T)
        ensures
            *r == self.value(),
    {
        &self.0
    }
}

impl<T> core::ops::DerefMut for Owned<T> {
    /// Returns a mutable reference to the held value.
    fn deref_mut(&mut self) -> (r: &mut T)
        ensures
            *r == old(self).value(),
            final(self).value() == *final(r),
    {
        &mut self.0
    }
}

impl<T> DerefMove for Owned<T> {
    open spec fn moved(&self) -> T {
        self.value()
    }

    fn deref_move(self) -> (r: T) {
        self.0
    }
}

} // verus!
