use vstd::prelude::*;
use core::ops::Deref;
use crate::bowl_ref::{BowlRef, lemma_relabel_round_trip};
use crate::helper::{Derive, Result};
use crate::low_level::polyfill::MaybeDangling;
use crate::low_level::stable_deref::{StableDeref, StableDerefMut};
use vstd::std_specs::convert::FromSpecImpl;

verus! {

/// Stores an owner and a view derived from a unique reference to the
/// value the owner points to.
///
/// The derivation may change that value; what it leaves behind is the
/// owner's new target. The owner itself is only reachable again through
/// `into_owner` / `into_parts`, once the view is gone.
pub struct BowlMut<'a, T: Deref, V>(pub(crate) BowlRef<'a, T, V>);

impl<'a, T: Deref, V> BowlMut<'a, T, V> {
    /// The owner held by the bowl.
    pub closed spec fn owner(&self) -> T {
        self.0.owner()
    }

    /// The derived view held by the bowl.
    pub closed spec fn view(&self) -> V {
        self.0.view()
    }

    /// The unique bowl with the owner and view of a shared bowl.
    pub closed spec fn of_bowl_ref<'c>(b: BowlRef<'c, T, V>) -> Self {
        BowlMut(b.relabeled::<'a>())
    }
}

/// Turning a shared bowl into a unique one (`From<BowlRef>`) keeps its
/// owner and its view.
pub proof fn lemma_from_bowl_ref<'a, 'c, T: Deref, V>(b: BowlRef<'c, T, V>)
    ensures
        BowlMut::<'a, T, V>::of_bowl_ref(b).owner() == b.owner(),
        BowlMut::<'a, T, V>::of_bowl_ref(b).view() == b.view(),
{
    lemma_relabel_round_trip(b);
}

impl<'a, T: StableDerefMut, V> BowlMut<'a, T, V> {
    /// Builds a bowl whose view is `derive` applied to a unique reference
    /// to the owner's target.
    pub fn new<F>(owner: T, derive: F) -> (r: Self)
        where F: for<'b> Derive<&'b mut T::Target, Output = V>
        requires
            forall|m: &mut T::Target| &*m == owner.target() ==> derive.call_req(m),
        ensures
            exists|m: &mut T::Target|
                &*m == owner.target() && r.owner().target() == &*final(m) && derive.call_ens(m, r.view()),
    {
        Self::from_derive(owner, derive)
    }

    /// The primary constructor: `derive` is called exactly once on a unique
    /// reference to the owner's target; the view is its result and the
    /// owner's target is whatever `derive` left behind.
    pub fn from_derive<D>(owner: T, derive: D) -> (r: Self)
        where D: for<'b> Derive<&'b mut T::Target, Output = V>
        requires
            forall|m: &mut T::Target| &*m == owner.target() ==> derive.call_req(m),
        ensures
            exists|m: &mut T::Target|
                &*m == owner.target() && r.owner().target() == &*final(m) && derive.call_ens(m, r.view()),
    {
        let ghost old_target = owner.target();
        let mut owner = owner;
        let mref = owner.stable_deref_mut();
        let view = derive.call(mref);
        assert(exists|m: &mut T::Target|
            &*m == old_target && &*final(m) == owner.target() && derive.call_ens(m, view));
        let ghost w = choose|m: &mut T::Target|
            &*m == old_target && &*final(m) == owner.target() && derive.call_ens(m, view);
        let r = BowlMut(BowlRef::from_parts(MaybeDangling::new(owner), MaybeDangling::new(view)));
        assert(&*w == old_target && r.owner().target() == &*final(w) && derive.call_ens(w, r.view()));
        r
    }

    /// Builds a bowl from a shared reference to a closure.
    pub fn from_fn<F>(owner: T, derive: &F) -> (r: Self)
        where F: Fn(&mut T::Target) -> V
        requires
            forall|m: &mut T::Target| &*m == owner.target() ==> (*derive).requires((m,)),
        ensures
            exists|m: &mut T::Target|
                &*m == owner.target() && r.owner().target() == &*final(m) && (*derive).ensures((m,), r.view()),
    {
        Self::from_derive(owner, derive)
    }

    /// Builds a bowl from a mutable reference to a closure.
    pub fn from_fn_mut<F>(owner: T, derive: &mut F) -> (r: Self)
        where F: FnMut(&mut T::Target) -> V
        requires
            forall|m: &mut T::Target| &*m == owner.target() ==> (*old(derive)).requires((m,)),
        ensures
            exists|m: &mut T::Target|
                &*m == owner.target() && r.owner().target() == &*final(m) && (*old(derive)).ensures((m,), r.view()),
    {
        Self::from_derive(owner, derive)
    }

    /// Builds a bowl from a boxed closure, consumed on construction.
    pub fn from_fn_once<F>(owner: T, derive: Box<F>) -> (r: Self)
        where F: FnOnce(&mut T::Target) -> V
        requires
            forall|m: &mut T::Target| &*m == owner.target() ==> (*derive).requires((m,)),
        ensures
            exists|m: &mut T::Target|
                &*m == owner.target() && r.owner().target() == &*final(m) && (*derive).ensures((m,), r.view()),
    {
        Self::from_derive(owner, derive)
    }
}

impl<'a, T: Deref, V> BowlMut<'a, T, V> {
    /// Transforms the view with `f`; the owner is kept.
    pub fn map<W, G>(self, f: G) -> (r: BowlMut<'a, T, W>)
        where G: Derive<V, Output = W>
        requires
            f.call_req(self.view()),
        ensures
            r.owner() == self.owner(),
            f.call_ens(self.view(), r.view()),
    {
        BowlMut(self.0.map(f))
    }

    /// Changes the lifetime placeholder without modifying the value.
    pub fn cast_life<'b>(self) -> (r: BowlMut<'b, T, V>)
        ensures
            r.owner() == self.owner(),
            r.view() == self.view(),
    {
        BowlMut(self.0.cast_life())
    }

    /// Re-labels the view type; the value is unchanged.
    pub fn cast_view(self) -> (r: BowlMut<'a, T, V>)
        ensures
            r.owner() == self.owner(),
            r.view() == self.view(),
    {
        BowlMut(self.0.cast_view())
    }

    /// Combines `cast_life` and `cast_view`.
    pub fn cast<'b>(self) -> (r: BowlMut<'b, T, V>)
        ensures
            r.owner() == self.owner(),
            r.view() == self.view(),
    {
        BowlMut(self.0.cast())
    }

    /// Drops the view and returns the owner.
    pub fn into_owner(self) -> (r: T)
        ensures
            r == self.owner(),
    {
        self.0.into_owner()
    }

    /// Drops the owner and returns the view.
    pub fn into_view(self) -> (r: V)
        ensures
            r == self.view(),
    {
        self.0.into_view()
    }

    /// Returns both the owner and the view.
    pub fn into_parts(self) -> (r: (T, V))
        ensures
            r.0 == self.owner(),
            r.1 == self.view(),
    {
        self.0.into_parts()
    }

    /// Unwraps a result-like view, branching into `Ok` or `Err`.
    /// Both branches keep the owner.
    pub fn into_result(self) -> (r: core::result::Result<
        BowlMut<'a, T, V::Ok>,
        BowlMut<'a, T, V::Err>,
    >)
        where V: Result
        ensures
            match r {
                Ok(b) => b.owner() == self.owner() && self.view().outcome() == Ok::<V::Ok, V::Err>(b.view()),
                Err(b) => b.owner() == self.owner() && self.view().outcome() == Err::<V::Ok, V::Err>(b.view()),
            },
    {
        match self.0.into_result() {
            Ok(v) => Ok(BowlMut(v.cast_view())),
            Err(e) => Err(BowlMut(e.cast_view())),
        }
    }

    /// Returns a reference to the view.
    pub fn get(&self) -> (r: &V)
        ensures
            *r == self.view(),
    {
        self.0.get()
    }

    /// Returns a mutable reference to the view; the owner is untouched.
    pub fn get_mut(&mut self) -> (r: &mut V)
        ensures
            *r == old(self).view(),
            final(self).view() == *final(r),
            final(self).owner() == old(self).owner(),
    {
        self.0.get_mut()
    }

    /// Runs `spawn` on a shared reference to the view and returns its result.
    pub fn spawn<'b, S, G>(&'b self, spawn: G) -> (r: S)
        where G: Derive<&'b V, Output = S>
        requires
            spawn.call_req(&self.view()),
        ensures
            spawn.call_ens(&self.view(), r),
    {
        self.0.spawn(spawn)
    }

    /// Runs `spawn` on a mutable reference to the view and returns its
    /// result; the view is left as `spawn` leaves it and the owner is kept.
    pub fn spawn_mut<S, G>(&mut self, spawn: G) -> (r: S)
        where G: for<'c> Derive<&'c mut V, Output = S>
        requires
            forall|m: &mut V| *m == old(self).view() ==> spawn.call_req(m),
        ensures
            final(self).owner() == old(self).owner(),
            exists|m: &mut V|
                *m == old(self).view() && *final(m) == final(self).view() && spawn.call_ens(m, r),
    {
        self.0.spawn_mut(spawn)
    }
}

impl<'a, 'b, T: Deref, V> From<BowlRef<'a, T, V>> for BowlMut<'b, T, V> {
    /// A shared bowl becomes a unique one with the same owner and view:
    /// a view derivable from a shared reference is derivable from a unique one.
    fn from(bowl_ref: BowlRef<'a, T, V>) -> (r: Self) {
        BowlMut(bowl_ref.cast())
    }
}

impl<'a, 'b, T: Deref, V> FromSpecImpl<BowlRef<'a, T, V>> for BowlMut<'b, T, V> {
    open spec fn obeys_from_spec() -> bool {
        true
    }

    open spec fn from_spec(v: BowlRef<'a, T, V>) -> Self {
        Self::of_bowl_ref(v)
    }
}

} // verus!
