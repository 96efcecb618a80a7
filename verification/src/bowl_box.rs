use vstd::prelude::*;
use crate::bowl_mut::BowlMut;
use crate::helper::{Derive, Result};
use crate::low_level::stable_deref::StableDeref;
use vstd::std_specs::convert::FromSpecImpl;

verus! {

/// Stores a value on the heap together with a view derived from a unique
/// reference to it.
///
/// This is a thin wrapper around `BowlMut<Box<T>, V>`; its `owner()` is the
/// boxed value itself.
pub struct BowlBox<'a, T, V>(pub(crate) BowlMut<'a, Box<T>, V>);

impl<'a, T, V> BowlBox<'a, T, V> {
    /// The boxed owner value.
    pub closed spec fn owner(&self) -> T {
        *self.0.owner()
    }

    /// The derived view held by the bowl.
    pub closed spec fn view(&self) -> V {
        self.0.view()
    }

    /// The bowl seen as a `BowlMut` over the box.
    pub closed spec fn as_bowl_mut(self) -> BowlMut<'a, Box<T>, V> {
        self.0
    }

    /// The bowl built from a `BowlMut` over a box.
    pub closed spec fn of_bowl_mut(b: BowlMut<'a, Box<T>, V>) -> Self {
        BowlBox(b)
    }

    /// Boxes `owner` and derives the view from a unique reference to it;
    /// the owner value is whatever `derive` left behind.
    pub fn new<F>(owner: T, derive: F) -> (r: Self)
        where F: for<'b> Derive<&'b mut T, Output = V>
        requires
            forall|m: &mut T| *m == owner ==> derive.call_req(m),
        ensures
            exists|m: &mut T| *m == owner && r.owner() == *final(m) && derive.call_ens(m, r.view()),
    {
        Self::from_derive(owner, derive)
    }

    /// See `BowlMut::from_derive`. Boxes the owner automatically.
    pub fn from_derive<D>(owner: T, derive: D) -> (r: Self)
        where D: for<'b> Derive<&'b mut T, Output = V>
        requires
            forall|m: &mut T| *m == owner ==> derive.call_req(m),
        ensures
            exists|m: &mut T| *m == owner && r.owner() == *final(m) && derive.call_ens(m, r.view()),
    {
        let b = Box::new(owner);
        let inner = BowlMut::from_derive(b, derive);
        let ghost w = choose|m: &mut T|
            &*m == b.target() && inner.owner().target() == &*final(m) && derive.call_ens(m, inner.view());
        let r = BowlBox(inner);
        assert(*w == owner && r.owner() == *final(w) && derive.call_ens(w, r.view()));
        r
    }

    /// See `BowlMut::from_fn`. Boxes the owner automatically.
    pub fn from_fn<F>(owner: T, derive: &F) -> (r: Self)
        where F: Fn(&mut T) -> V
        requires
            forall|m: &mut T| *m == owner ==> (*derive).requires((m,)),
        ensures
            exists|m: &mut T| *m == owner && r.owner() == *final(m) && (*derive).ensures((m,), r.view()),
    {
        BowlBox(BowlMut::from_fn(Box::new(owner), derive))
    }

    /// See `BowlMut::from_fn_mut`. Boxes the owner automatically.
    pub fn from_fn_mut<F>(owner: T, derive: &mut F) -> (r: Self)
        where F: FnMut(&mut T) -> V
        requires
            forall|m: &mut T| *m == owner ==> (*old(derive)).requires((m,)),
        ensures
            exists|m: &mut T| *m == owner && r.owner() == *final(m) && (*old(derive)).ensures((m,), r.view()),
    {
        BowlBox(BowlMut::from_fn_mut(Box::new(owner), derive))
    }

    /// See `BowlMut::from_fn_once`. Boxes the owner automatically.
    pub fn from_fn_once<F>(owner: T, derive: Box<F>) -> (r: Self)
        where F: FnOnce(&mut T) -> V
        requires
            forall|m: &mut T| *m == owner ==> (*derive).requires((m,)),
        ensures
            exists|m: &mut T| *m == owner && r.owner() == *final(m) && (*derive).ensures((m,), r.view()),
    {
        BowlBox(BowlMut::from_fn_once(Box::new(owner), derive))
    }

    /// Drops the view and returns the unboxed owner.
    pub fn into_owner(self) -> (r: T)
        ensures
            r == self.owner(),
    {
        *self.0.into_owner()
    }

    /// Returns the unboxed owner and the view.
    pub fn into_parts(self) -> (r: (T, V))
        ensures
            r.0 == self.owner(),
            r.1 == self.view(),
    {
        let (owner, view) = self.0.into_parts();
        (*owner, view)
    }

    /// Transforms the view with `f`; the owner is kept.
    pub fn map<W, G>(self, f: G) -> (r: BowlBox<'a, T, W>)
        where G: Derive<V, Output = W>
        requires
            f.call_req(self.view()),
        ensures
            r.owner() == self.owner(),
            f.call_ens(self.view(), r.view()),
    {
        BowlBox(self.0.map(f))
    }

    /// Changes the lifetime placeholder without modifying the value.
    pub fn cast_life<'b>(self) -> (r: BowlBox<'b, T, V>)
        ensures
            r.owner() == self.owner(),
            r.view() == self.view(),
    {
        BowlBox(self.0.cast_life())
    }

    /// Re-labels the view type; the value is unchanged.
    pub fn cast_view(self) -> (r: BowlBox<'a, T, V>)
        ensures
            r.owner() == self.owner(),
            r.view() == self.view(),
    {
        BowlBox(self.0.cast_view())
    }

    /// Combines `cast_life` and `cast_view`.
    pub fn cast<'b>(self) -> (r: BowlBox<'b, T, V>)
        ensures
            r.owner() == self.owner(),
            r.view() == self.view(),
    {
        BowlBox(self.0.cast())
    }

    /// Drops the owner and returns the view.
    pub fn into_view(self) -> (r: V)
        ensures
            r == self.view(),
    {
        self.0.into_view()
    }

    /// Unwraps a result-like view, branching into `Ok` or `Err`.
    /// Both branches keep the owner.
    pub fn into_result(self) -> (r: core::result::Result<
        BowlBox<'a, T, V::Ok>,
        BowlBox<'a, T, V::Err>,
    >)
        where V: Result
        ensures
            match r {
                Ok(b) => b.owner() == self.owner() && self.view().outcome() == Ok::<V::Ok, V::Err>(b.view()),
                Err(b) => b.owner() == self.owner() && self.view().outcome() == Err::<V::Ok, V::Err>(b.view()),
            },
    {
        match self.0.into_result() {
            Ok(v) => Ok(BowlBox(v)),
            Err(e) => Err(BowlBox(e)),
        }
    }

    /// Returns a reference to the view.
    pub fn get(&self) -> (r: &V)
        ensures
            *r == self.view(),
    {
        self.0.get()
    }

    /// Returns a mutable reference to the view; the owner is untouched.
    pub fn get_mut(&mut self) -> (r: &mut V)
        ensures
            *r == old(self).view(),
            final(self).view() == *final(r),
            final(self).owner() == old(self).owner(),
    {
        self.0.get_mut()
    }

    /// Runs `spawn` on a shared reference to the view and returns its result.
    pub fn spawn<'b, S, G>(&'b self, spawn: G) -> (r: S)
        where G: Derive<&'b V, Output = S>
        requires
            spawn.call_req(&self.view()),
        ensures
            spawn.call_ens(&self.view(), r),
    {
        self.0.spawn(spawn)
    }

    /// Runs `spawn` on a mutable reference to the view and returns its
    /// result; the view is left as `spawn` leaves it and the owner is kept.
    pub fn spawn_mut<S, G>(&mut self, spawn: G) -> (r: S)
        where G: for<'c> Derive<&'c mut V, Output = S>
        requires
            forall|m: &mut V| *m == old(self).view() ==> spawn.call_req(m),
        ensures
            final(self).owner() == old(self).owner(),
            exists|m: &mut V|
                *m == old(self).view() && *final(m) == final(self).view() && spawn.call_ens(m, r),
    {
        self.0.spawn_mut(spawn)
    }
}

/// Converting a `BowlBox` into a `BowlMut` over its box and back gives the
/// same bowl; the `BowlMut` holds the boxed owner and the same view.
pub proof fn lemma_bowl_box_round_trip<'a, T, V>(b: BowlBox<'a, T, V>)
    ensures
        *b.as_bowl_mut().owner() == b.owner(),
        b.as_bowl_mut().view() == b.view(),
        BowlBox::of_bowl_mut(b.as_bowl_mut()) == b,
{
}

/// Converting a `BowlMut` over a box into a `BowlBox` and back gives the
/// same bowl; the `BowlBox` holds the unboxed owner and the same view.
pub proof fn lemma_bowl_mut_round_trip<'a, T, V>(m: BowlMut<'a, Box<T>, V>)
    ensures
        BowlBox::of_bowl_mut(m).owner() == *m.owner(),
        BowlBox::of_bowl_mut(m).view() == m.view(),
        BowlBox::of_bowl_mut(m).as_bowl_mut() == m,
{
}

impl<'a, T, V> From<BowlMut<'a, Box<T>, V>> for BowlBox<'a, T, V> {
    /// Wraps a `BowlMut` over a box; owner and view are unchanged.
    fn from(value: BowlMut<'a, Box<T>, V>) -> (r: Self) {
        BowlBox(value)
    }
}

impl<'a, T, V> FromSpecImpl<BowlMut<'a, Box<T>, V>> for BowlBox<'a, T, V> {
    open spec fn obeys_from_spec() -> bool {
        true
    }

    open spec fn from_spec(v: BowlMut<'a, Box<T>, V>) -> Self {
        Self::of_bowl_mut(v)
    }
}

impl<'a, T, V> From<BowlBox<'a, T, V>> for BowlMut<'a, Box<T>, V> {
    /// Unwraps the `BowlMut` inside a `BowlBox`; owner and view are unchanged.
    fn from(value: BowlBox<'a, T, V>) -> (r: Self) {
        value.0
    }
}

impl<'a, T, V> FromSpecImpl<BowlBox<'a, T, V>> for BowlMut<'a, Box<T>, V> {
    open spec fn obeys_from_spec() -> bool {
        true
    }

    open spec fn from_spec(v: BowlBox<'a, T, V>) -> Self {
        v.as_bowl_mut()
    }
}

} // verus!
