use vstd::prelude::*;
use core::marker::PhantomData;
use crate::polyfill::PhantomInvariantLifetime;

verus! {

/// Holds a value that is valid for at least one lifetime `'x` shorter than
/// `'ub`; the value is reached through closures that are generic over that
/// lifetime.
///
/// `value()` names the held value.
pub struct Exists<'ub, V> {
    value: V,
    ub: PhantomData<&'ub ()>,
}

impl Exists<'static, ()> {
    /// An `Exists` holding the unit value.
    pub fn new() -> (r: Self)
        ensures
            r.value() == (),
    {
        Exists { value: (), ub: PhantomData }
    }
}

impl<'ub, V> Exists<'ub, V> {
    /// The held value.
    pub closed spec fn value(&self) -> V {
        self.value
    }

    pub(crate) fn value_ref(&self) -> (r: &V)
        ensures
            *r == self.value(),
    {
        &self.value
    }

    pub(crate) fn into_value(self) -> (r: V)
        ensures
            r == self.value(),
    {
        self.value
    }

    /// Passes a shared reference to the value, with a stamp, to `f`.
    pub fn borrow<'a, R, G>(&'a self, f: G) -> (r: R)
        where G: for<'x> FnOnce(&'a V, Stamp<'x, 'ub>) -> R
        requires
            f.requires((&self.value(), Stamp::token())),
        ensures
            f.ensures((&self.value(), Stamp::token()), r),
    {
        f(&self.value, Stamp::new())
    }

    /// Passes a mutable reference to the value, with a stamp, to `f`; the
    /// value is left as `f` leaves it.
    pub fn borrow_mut<'a, R, G>(&'a mut self, f: G) -> (r: R)
        where G: for<'x> FnOnce(&'a mut V, Stamp<'x, 'ub>) -> R
        requires
            forall|m: &'a mut V| *m == old(self).value() ==> f.requires((m, Stamp::token())),
        ensures
            exists|m: &'a mut V|
                *m == old(self).value() && *final(m) == final(self).value() && f.ensures((m, Stamp::token()), r),
    {
        f(&mut self.value, Stamp::new())
    }

    /// Passes the value, with a stamp, to `f`.
    pub fn map<R, G>(self, f: G) -> (r: R)
        where G: for<'x> FnOnce(V, Stamp<'x, 'ub>) -> R
        requires
            f.requires((self.value(), Stamp::token())),
        ensures
            f.ensures((self.value(), Stamp::token()), r),
    {
        f(self.value, Stamp::new())
    }
}

/// A zero-sized witness that a lifetime `'life` lies below `'ub`; it is the
/// only way to put a value back into an `Exists` under `'ub`.
pub struct Stamp<'life, 'ub, X: ?Sized = &'life &'ub ()>(
    PhantomData<(PhantomInvariantLifetime<'life>, &'ub (), X)>,
);

impl<'life, 'ub, X: ?Sized> Stamp<'life, 'ub, X> {
    /// The stamp value (every stamp of a type is this one).
    pub closed spec fn token() -> Self {
        Stamp(PhantomData)
    }

    pub(crate) fn new() -> (r: Self)
        ensures
            r == Self::token(),
    {
        Stamp(PhantomData)
    }

    /// The same stamp with another bound marker.
    pub fn cast<Y: ?Sized>(&self) -> (r: Stamp<'life, 'ub, Y>)
        ensures
            r == Stamp::<'life, 'ub, Y>::token(),
    {
        Stamp(PhantomData)
    }

    /// Puts `view` into an `Exists` under `'ub`.
    pub fn stamp<V>(&self, view: V) -> (r: Exists<'ub, V>)
        ensures
            r.value() == view,
    {
        Exists { value: view, ub: PhantomData }
    }
}

} // verus!
