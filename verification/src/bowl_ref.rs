use vstd::prelude::*;
use core::marker::PhantomData;
use core::ops::Deref;
use crate::helper::{clones_exactly, Derive, Result};
use crate::low_level::polyfill::MaybeDangling;
use crate::low_level::stable_deref::{CloneStableDeref, StableDeref};
use vstd::std_specs::cmp::{PartialEqSpec, PartialEqSpecImpl};

verus! {

/// Stores an owner and a view derived from the value the owner points to.
///
/// `T` is the owner container (e.g. `Box<String>` or `Rc<String>`) and `V`
/// is the type of the view. `'a` is a placeholder lifetime that
/// `cast_life` changes freely.
///
/// A bowl is described by `owner()` and `view()`; every operation below
/// states how it changes them.
pub struct BowlRef<'a, T: Deref, V> {
    pub(crate) view: MaybeDangling<V>,
    pub(crate) owner: MaybeDangling<T>,
    pub(crate) life: PhantomData<&'a ()>,
}

impl<'a, T: Deref, V> BowlRef<'a, T, V> {
    /// The owner held by the bowl.
    pub closed spec fn owner(&self) -> T {
        self.owner.value()
    }

    /// The derived view held by the bowl.
    pub closed spec fn view(&self) -> V {
        self.view.value()
    }

    /// The same bowl under another lifetime placeholder.
    pub closed spec fn relabeled<'b>(self) -> BowlRef<'b, T, V> {
        BowlRef { view: self.view, owner: self.owner, life: PhantomData }
    }

    pub(crate) fn from_parts(owner: MaybeDangling<T>, view: MaybeDangling<V>) -> (r: Self)
        ensures
            r.owner() == owner.value(),
            r.view() == view.value(),
            r.owner == owner,
            r.view == view,
    {
        BowlRef { view, owner, life: PhantomData }
    }
}

/// Changing the lifetime placeholder and changing it back gives the same
/// bowl, and neither step touches the owner or the view.
pub proof fn lemma_relabel_round_trip<'a, 'b, T: Deref, V>(b: BowlRef<'a, T, V>)
    ensures
        b.relabeled::<'b>().owner() == b.owner(),
        b.relabeled::<'b>().view() == b.view(),
        b.relabeled::<'b>().relabeled::<'a>() == b,
{
}

/// A clone of a bowl over a stable pointer points at the same target, and
/// where the view type clones exactly, it holds an equal view.
pub proof fn lemma_clone_same_view<'a, T: CloneStableDeref, V: Clone>(
    b: BowlRef<'a, T, V>,
    c: BowlRef<'a, T, V>,
)
    requires
        cloned(b.owner(), c.owner()),
        c.owner().target() == b.owner().target(),
        cloned(b.view(), c.view()),
        clones_exactly::<V>(),
    ensures
        c.owner().target() == b.owner().target(),
        c.view() == b.view(),
{
}

impl<'a, T: StableDeref, V> BowlRef<'a, T, V> {
    /// Builds a bowl whose view is `derive` applied to the owner's target.
    pub fn new<F>(owner: T, derive: F) -> (r: Self)
        where F: for<'b> Derive<&'b T::Target, Output = V>
        requires
            derive.call_req(owner.target()),
        ensures
            r.owner() == owner,
            derive.call_ens(owner.target(), r.view()),
    {
        Self::from_derive(owner, derive)
    }

    /// The primary constructor: `derive` is called exactly once, on the
    /// value the owner points to, and its result is stored as the view.
    pub fn from_derive<D>(owner: T, derive: D) -> (r: Self)
        where D: for<'b> Derive<&'b T::Target, Output = V>
        requires
            derive.call_req(owner.target()),
        ensures
            r.owner() == owner,
            derive.call_ens(owner.target(), r.view()),
    {
        let view = derive.call(owner.stable_deref());
        Self::from_parts(MaybeDangling::new(owner), MaybeDangling::new(view))
    }

    /// Builds a bowl from a shared reference to a closure.
    pub fn from_fn<F>(owner: T, derive: &F) -> (r: Self)
        where F: Fn(&T::Target) -> V
        requires
            (*derive).requires((owner.target(),)),
        ensures
            r.owner() == owner,
            (*derive).ensures((owner.target(),), r.view()),
    {
        Self::from_derive(owner, derive)
    }

    /// Builds a bowl from a mutable reference to a closure.
    pub fn from_fn_mut<F>(owner: T, derive: &mut F) -> (r: Self)
        where F: FnMut(&T::Target) -> V
        requires
            (*old(derive)).requires((owner.target(),)),
        ensures
            r.owner() == owner,
            (*old(derive)).ensures((owner.target(),), r.view()),
    {
        Self::from_derive(owner, derive)
    }

    /// Builds a bowl from a boxed closure, consumed on construction.
    pub fn from_fn_once<F>(owner: T, derive: Box<F>) -> (r: Self)
        where F: FnOnce(&T::Target) -> V
        requires
            (*derive).requires((owner.target(),)),
        ensures
            r.owner() == owner,
            (*derive).ensures((owner.target(),), r.view()),
    {
        Self::from_derive(owner, derive)
    }
}

impl<'a, T: Deref, V> BowlRef<'a, T, V> {
    /// Transforms the view with `f` and changes the lifetime placeholder;
    /// the owner is kept.
    pub fn map_into<'b, W, H>(self, f: H) -> (r: BowlRef<'b, T, W>)
        where H: Derive<V, Output = W>
        requires
            f.call_req(self.view()),
        ensures
            r.owner() == self.owner(),
            f.call_ens(self.view(), r.view()),
    {
        let BowlRef { view, owner, life: _ } = self;
        let view = f.call(view.into_inner());
        BowlRef::from_parts(owner, MaybeDangling::new(view))
    }

    /// Transforms the view with `f`; the owner is kept.
    pub fn map<W, G>(self, f: G) -> (r: BowlRef<'a, T, W>)
        where G: Derive<V, Output = W>
        requires
            f.call_req(self.view()),
        ensures
            r.owner() == self.owner(),
            f.call_ens(self.view(), r.view()),
    {
        self.map_into(f)
    }

    /// Changes the lifetime placeholder without modifying the value.
    pub fn cast_life<'b>(self) -> (r: BowlRef<'b, T, V>)
        ensures
            r.owner() == self.owner(),
            r.view() == self.view(),
            r == self.relabeled::<'b>(),
    {
        let BowlRef { view, owner, life: _ } = self;
        BowlRef::from_parts(owner, view)
    }

    /// Re-labels the view type; the view type is the type parameter `V`,
    /// so the value is unchanged.
    pub fn cast_view(self) -> (r: BowlRef<'a, T, V>)
        ensures
            r.owner() == self.owner(),
            r.view() == self.view(),
            r == self,
    {
        self
    }

    /// Combines `cast_life` and `cast_view`.
    pub fn cast<'b>(self) -> (r: BowlRef<'b, T, V>)
        ensures
            r.owner() == self.owner(),
            r.view() == self.view(),
            r == self.relabeled::<'b>(),
    {
        self.cast_life().cast_view()
    }

    /// Drops the view and returns the owner.
    pub fn into_owner(self) -> (r: T)
        ensures
            r == self.owner(),
    {
        let BowlRef { view, owner, life: _ } = self;
        let _ = view.into_inner();
        owner.into_inner()
    }

    /// Drops the owner and returns the view.
    pub fn into_view(self) -> (r: V)
        ensures
            r == self.view(),
    {
        let BowlRef { view, owner, life: _ } = self;
        let _ = owner.into_inner();
        view.into_inner()
    }

    /// Returns both the owner and the view.
    pub fn into_parts(self) -> (r: (T, V))
        ensures
            r.0 == self.owner(),
            r.1 == self.view(),
    {
        let BowlRef { view, owner, life: _ } = self;
        (owner.into_inner(), view.into_inner())
    }

    /// Unwraps a result-like view, branching into `Ok` or `Err`.
    /// Both branches keep the owner.
    pub fn into_result(self) -> (r: core::result::Result<
        BowlRef<'a, T, V::Ok>,
        BowlRef<'a, T, V::Err>,
    >)
        where V: Result
        ensures
            match r {
                Ok(b) => b.owner() == self.owner() && self.view().outcome() == Ok::<V::Ok, V::Err>(b.view()),
                Err(b) => b.owner() == self.owner() && self.view().outcome() == Err::<V::Ok, V::Err>(b.view()),
            },
    {
        let BowlRef { view, owner, life: _ } = self;
        match Result::into(view.into_inner()) {
            Ok(v) => Ok(BowlRef::from_parts(owner, MaybeDangling::new(v))),
            Err(e) => Err(BowlRef::from_parts(owner, MaybeDangling::new(e))),
        }
    }

    /// Returns a reference to the view.
    pub fn get(&self) -> (r: &V)
        ensures
            *r == self.view(),
    {
        self.view.as_ref()
    }

    /// Returns a mutable reference to the view; the owner is untouched.
    pub fn get_mut(&mut self) -> (r: &mut V)
        ensures
            *r == old(self).view(),
            final(self).view() == *final(r),
            final(self).owner() == old(self).owner(),
    {
        self.view.as_mut()
    }

    /// Runs `spawn` on a shared reference to the view and returns its result.
    pub fn spawn<'b, S, G>(&'b self, spawn: G) -> (r: S)
        where G: Derive<&'b V, Output = S>
        requires
            spawn.call_req(&self.view()),
        ensures
            spawn.call_ens(&self.view(), r),
    {
        spawn.call(self.view.as_ref())
    }

    /// Runs `spawn` on a mutable reference to the view and returns its
    /// result; the view is left as `spawn` leaves it and the owner is kept.
    pub fn spawn_mut<S, G>(&mut self, spawn: G) -> (r: S)
        where G: for<'c> Derive<&'c mut V, Output = S>
        requires
            forall|m: &mut V| *m == old(self).view() ==> spawn.call_req(m),
        ensures
            final(self).owner() == old(self).owner(),
            exists|m: &mut V|
                *m == old(self).view() && *final(m) == final(self).view() && spawn.call_ens(m, r),
    {
        let ghost old_view = self.view();
        let mref = self.view.as_mut();
        let r = spawn.call(mref);
        assert(exists|m: &mut V| *m == old_view && *final(m) == self.view() && spawn.call_ens(m, r));
        r
    }
}

impl<'a, T: CloneStableDeref, V: Clone> Clone for BowlRef<'a, T, V> {
    /// Clones the owner and the view; the clone of a stable pointer points
    /// at the same target, so the cloned view still belongs to it.
    fn clone(&self) -> (r: Self)
        ensures
            cloned(self.owner(), r.owner()),
            r.owner().target() == self.owner().target(),
            cloned(self.view(), r.view()),
    {
        let owner = MaybeDangling::new(self.owner.as_ref().clone_pointer());
        let view = self.view.clone();
        Self::from_parts(owner, view)
    }
}

impl<'a, 'b, T, V, W> PartialEq<BowlRef<'b, T, W>> for BowlRef<'a, T, V> where
    T: Deref + PartialEq,
    V: PartialEq<W>,
 {
    /// Two bowls are equal when their owners are equal and their views are equal.
    fn eq(&self, other: &BowlRef<'b, T, W>) -> (r: bool)
        ensures
            T::obeys_eq_spec() && V::obeys_eq_spec() ==> r == (self.owner().eq_spec(&other.owner())
                && self.view().eq_spec(&other.view())),
    {
        self.owner.as_ref().eq(other.owner.as_ref()) && self.view.as_ref().eq(other.view.as_ref())
    }
}

impl<'a, 'b, T, V, W> PartialEqSpecImpl<BowlRef<'b, T, W>> for BowlRef<'a, T, V> where
    T: Deref + PartialEq,
    V: PartialEq<W>,
 {
    open spec fn obeys_eq_spec() -> bool {
        T::obeys_eq_spec() && V::obeys_eq_spec()
    }

    open spec fn eq_spec(&self, other: &BowlRef<'b, T, W>) -> bool {
        self.owner().eq_spec(&other.owner()) && self.view().eq_spec(&other.view())
    }
}

impl<'a, T, V> Eq for BowlRef<'a, T, V> where T: Deref + Eq, V: Eq {

}

/// Comparing two bowls with `==` compares both parts: the result is true
/// exactly when the owners compare equal and the views compare equal, for
/// owner and view types whose `==` follows their specification.
pub proof fn lemma_eq_compares_owner_and_view<'a, 'b, T, V, W>(
    a: BowlRef<'a, T, V>,
    b: BowlRef<'b, T, W>,
    r: bool,
)
    where
        T: Deref + PartialEq,
        V: PartialEq<W>,
    requires
        call_ensures(<BowlRef<'a, T, V> as PartialEq<BowlRef<'b, T, W>>>::eq, (&a, &b), r),
        T::obeys_eq_spec(),
        V::obeys_eq_spec(),
    ensures
        r == (a.owner().eq_spec(&b.owner()) && a.view().eq_spec(&b.view())),
{
}

/// Where `==` on the owner type and on the view type is equality of values,
/// two bowls compare equal exactly when they hold equal owners and equal
/// views: bowls with different owners, or with different views, never
/// compare equal.
pub proof fn lemma_eq_iff_same_owner_and_view<'a, 'b, T, V>(
    a: BowlRef<'a, T, V>,
    b: BowlRef<'b, T, V>,
    r: bool,
)
    where
        T: Deref + PartialEq,
        V: PartialEq,
    requires
        call_ensures(<BowlRef<'a, T, V> as PartialEq<BowlRef<'b, T, V>>>::eq, (&a, &b), r),
        T::obeys_eq_spec(),
        V::obeys_eq_spec(),
        forall|x: T, y: T| #[trigger] x.eq_spec(&y) <==> x == y,
        forall|x: V, y: V| #[trigger] x.eq_spec(&y) <==> x == y,
    ensures
        r == (a.owner() == b.owner() && a.view() == b.view()),
{
    lemma_eq_compares_owner_and_view(a, b, r);
}

} // verus!
