use vstd::prelude::*;

verus! {

/// A wrapper that holds a value which may be referred to from elsewhere.
///
/// It always holds exactly one initialized value, which `value()` names.
pub struct MaybeDangling<P> {
    value: P,
}

impl<P> MaybeDangling<P> {
    /// The wrapped value.
    pub closed spec fn value(self) -> P {
        self.value
    }

    /// Wraps a value in a `MaybeDangling`, allowing it to dangle.
    pub fn new(x: P) -> (r: Self)
        ensures
            r.value() == x,
    {
        MaybeDangling { value: x }
    }

    /// Returns a reference to the inner value.
    pub fn as_ref(&self) -> (r: &P)
        ensures
            *r == self.value(),
    {
        &self.value
    }

    /// Returns a mutable reference to the inner value.
    pub fn as_mut(&mut self) -> (r: &mut P)
        ensures
            *r == old(self).value(),
            final(self).value() == *final(r),
    {
        &mut self.value
    }

    /// Extracts the value from the `MaybeDangling` container.
    pub fn into_inner(self) -> (r: P)
        ensures
            r == self.value(),
    {
        self.value
    }
}

impl<P: Clone> Clone for MaybeDangling<P> {
    /// Clones the wrapped value.
    fn clone(&self) -> (r: Self)
        ensures
            cloned(self.value(), r.value()),
    {
        MaybeDangling::new(self.as_ref().clone())
    }
}

impl<P: Default> Default for MaybeDangling<P> {
    /// Wraps the default value of `P`.
    fn default() -> (r: Self)
        ensures
            call_ensures(P::default, (), r.value()),
    {
        MaybeDangling::new(P::default())
    }
}

} // verus!
