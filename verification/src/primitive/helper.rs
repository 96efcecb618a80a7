use vstd::prelude::*;
use crate::helper::{Derive, Result};
use crate::low_level::basis::{Bowl, Exists, Slot, Stamp};
use crate::low_level::stable_deref::CloneStableDeref;
use crate::owned::Owned;

verus! {

impl<'ub, P, V> Bowl<'ub, P, V> {
    /// Hands shared references to the view and the slot, and a stamp, to `f`.
    pub fn with<'a, R, G>(&'a self, f: G) -> (r: R)
        where G: FnOnce(&'a V, &'a Slot<'ub, Owned<P>>, Stamp<'ub, 'ub>) -> R
        requires
            f.requires((&self.view(), &self.slot(), Stamp::token())),
        ensures
            f.ensures((&self.view(), &self.slot(), Stamp::token()), r),
    {
        f(self.view_ref(), self.slot_ref(), Stamp::new())
    }

    /// Hands a mutable reference to the view, a shared reference to the
    /// slot and a stamp to `f`; the view is left as `f` leaves it and the
    /// owner is kept.
    pub fn with_mut<'a, R, G>(&'a mut self, f: G) -> (r: R)
        where G: FnOnce(&'a mut V, &'a Slot<'ub, Owned<P>>, Stamp<'ub, 'ub>) -> R
        requires
            forall|m: &'a mut V| *m == old(self).view() ==> f.requires((m, &old(self).slot(), Stamp::token())),
        ensures
            final(self).owner() == old(self).owner(),
            exists|m: &'a mut V|
                *m == old(self).view() && *final(m) == final(self).view()
                    && f.ensures((m, &old(self).slot(), Stamp::token()), r),
    {
        let (view, slot) = self.parts_mut();
        f(view, slot, Stamp::new())
    }

    /// Transforms the view with `f`; the owner is kept.
    pub fn map_view<W, G>(self, f: G) -> (r: Bowl<'ub, P, W>)
        where G: Derive<V, Output = W>
        requires
            f.call_req(self.view()),
        ensures
            r.owner() == self.owner(),
            f.call_ens(self.view(), r.view()),
    {
        let (view, slot) = self.into_raw();
        slot.fill(f.call(view), Stamp::<'ub, 'ub, ()>::new())
    }

    /// Re-labels the view type; the value is unchanged.
    pub fn cast_view(self) -> (r: Bowl<'ub, P, V>)
        ensures
            r.owner() == self.owner(),
            r.view() == self.view(),
    {
        self
    }

    /// Drops the owner and returns the view.
    pub fn into_view(self) -> (r: V)
        ensures
            r == self.view(),
    {
        let (view, slot) = self.into_raw();
        let _ = slot.into_owner();
        view
    }

    /// Drops the view and returns the owner.
    pub fn into_owner(self) -> (r: P)
        ensures
            r == self.owner(),
    {
        let (view, slot) = self.into_raw();
        let _ = view;
        slot.into_owner()
    }

    /// Returns both the owner and the view.
    pub fn into_parts(self) -> (r: (P, V))
        ensures
            r.0 == self.owner(),
            r.1 == self.view(),
    {
        let (view, slot) = self.into_raw();
        (slot.into_owner(), view)
    }

    /// Unwraps a result-like view, branching into `Ok` or `Err`.
    /// Both branches keep the owner.
    pub fn into_result(self) -> (r: core::result::Result<Bowl<'ub, P, V::Ok>, Bowl<'ub, P, V::Err>>)
        where V: Result
        ensures
            match r {
                Ok(b) => b.owner() == self.owner() && self.view().outcome() == Ok::<V::Ok, V::Err>(b.view()),
                Err(b) => b.owner() == self.owner() && self.view().outcome() == Err::<V::Ok, V::Err>(b.view()),
            },
    {
        let (view, slot) = self.into_raw();
        match Result::into(view) {
            Ok(ok) => Ok(slot.fill(ok, Stamp::<'ub, 'ub, ()>::new())),
            Err(err) => Err(slot.fill(err, Stamp::<'ub, 'ub, ()>::new())),
        }
    }

    /// Changes the lifetime placeholder without modifying the value.
    pub fn cast_life<'short>(self) -> (r: Bowl<'short, P, V>)
        ensures
            r.owner() == self.owner(),
            r.view() == self.view(),
    {
        let (view, slot) = self.into_raw();
        Bowl::from_parts(slot.into_owner(), view)
    }

    /// Combines `cast_life` and `cast_view`.
    pub fn cast<'short>(self) -> (r: Bowl<'short, P, V>)
        ensures
            r.owner() == self.owner(),
            r.view() == self.view(),
    {
        self.cast_view().cast_life()
    }
}

impl<'ub, P: CloneStableDeref, V: Clone> Clone for Bowl<'ub, P, V> {
    /// Clones the owner and the view.
    fn clone(&self) -> (r: Self)
        ensures
            cloned(self.owner(), r.owner()),
            r.owner().target() == self.owner().target(),
            cloned(self.view(), r.view()),
    {
        let slot = self.slot_ref().spawn();
        let view = self.view_ref().clone();
        slot.fill(view, Stamp::<'ub, 'ub, ()>::new())
    }
}

impl<'ub, V: Default> Default for Exists<'ub, V> {
    /// An `Exists` holding the default value of `V`.
    fn default() -> (r: Self)
        ensures
            call_ensures(V::default, (), r.value()),
    {
        Stamp::<'ub, 'ub, ()>::new().stamp(V::default())
    }
}

impl<'ub, V: Clone> Clone for Exists<'ub, V> {
    /// An `Exists` holding a clone of the value.
    fn clone(&self) -> (r: Self)
        ensures
            cloned(self.value(), r.value()),
    {
        Stamp::<'ub, 'ub, ()>::new().stamp(self.value_ref().clone())
    }
}

impl<'ub, V> Exists<'ub, V> {
    /// Lowers the lifetime bound without modifying the value.
    pub fn cast<'short>(self) -> (r: Exists<'short, V>)
        ensures
            r.value() == self.value(),
    {
        Stamp::<'short, 'short, ()>::new().stamp(self.into_value())
    }
}

} // verus!
