use vstd::prelude::*;
use core::marker::PhantomData;

verus! {

/// Holds a value that is valid for every lifetime `'x` shorter than `'ub`;
/// the value is reached through closures that are generic over that
/// lifetime.
///
/// `value()` names the held value.
pub struct ForAll<'ub, V> {
    value: V,
    ub: PhantomData<&'ub ()>,
}

impl ForAll<'static, ()> {
    /// A `ForAll` holding the unit value.
    pub fn new() -> (r: Self)
        ensures
            r.value() == (),
    {
        ForAll { value: (), ub: PhantomData }
    }
}

impl<'ub, V> ForAll<'ub, V> {
    /// The held value.
    pub closed spec fn value(&self) -> V {
        self.value
    }

    /// Passes a shared reference to the value, with a stamp, to `f`.
    pub fn borrow<'a, R, G>(&'a self, f: G) -> (r: R)
        where G: for<'x> FnOnce(&'a V, Stamp<'x, 'ub>) -> R
        requires
            f.requires((&self.value(), Stamp::token())),
        ensures
            f.ensures((&self.value(), Stamp::token()), r),
    {
        f(&self.value, Stamp(PhantomData))
    }

    /// Passes a mutable reference to the value, with a stamp, to `f`; the
    /// value is left as `f` leaves it.
    pub fn borrow_mut<'a, R, G>(&'a mut self, f: G) -> (r: R)
        where G: for<'x> FnOnce(&'a mut V, Stamp<'x, 'ub>) -> R
        requires
            forall|m: &'a mut V| *m == old(self).value() ==> f.requires((m, Stamp::token())),
        ensures
            exists|m: &'a mut V|
                *m == old(self).value() && *final(m) == final(self).value() && f.ensures((m, Stamp::token()), r),
    {
        f(&mut self.value, Stamp(PhantomData))
    }

    /// Passes the value, with a stamp, to `f`.
    pub fn map<R, G>(self, f: G) -> (r: R)
        where G: for<'x> FnOnce(V, Stamp<'x, 'ub>) -> R
        requires
            f.requires((self.value(), Stamp::token())),
        ensures
            f.ensures((self.value(), Stamp::token()), r),
    {
        f(self.value, Stamp(PhantomData))
    }
}

/// A zero-sized witness that a lifetime `'life` lies below `'ub`.
pub struct Stamp<'life, 'ub>(PhantomData<(&'life (), &'ub ())>);

impl<'life, 'ub> Stamp<'life, 'ub> {
    /// The stamp value (every stamp of a type is this one).
    pub closed spec fn token() -> Self {
        Stamp(PhantomData)
    }

    /// Puts `view` into a `ForAll` under `'ub`.
    pub fn stamp<V>(&self, view: V) -> (r: ForAll<'ub, V>)
        ensures
            r.value() == view,
    {
        ForAll { value: view, ub: PhantomData }
    }
}

} // verus!
