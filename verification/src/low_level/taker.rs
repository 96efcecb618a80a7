use vstd::prelude::*;

verus! {

/// A unique reference to an `Option` that is known to hold a value, used
/// as a pointer to that value.
pub struct Taker<'a, T>(&'a mut Option<T>);

impl<'a, T> Taker<'a, T> {
    #[verifier::type_invariant]
    spec fn holds_value(self) -> bool {
        (*self.0) is Some
    }

    /// The value behind the reference.
    pub closed spec fn value(&self) -> T {
        (*self.0)->Some_0
    }

    /// Wraps a reference to an `Option` that holds a value.
    pub fn new(value: &'a mut Option<T>) -> (r: Self)
        requires
            *old(value) is Some,
        ensures
            r.value() == (*old(value))->Some_0,
    {
        Taker(value)
    }
}

impl<'a, T> core::ops::Deref for Taker<'a, T> {
    type Target = T;

    /// Returns a reference to the value.
    fn deref(&self) -> (r: &T)
        ensures
            *r == self.value(),
    {
        proof {
            use_type_invariant(self);
        }
        self.0.as_ref().unwrap()
    }
}

} // verus!
