use vstd::prelude::*;
use core::marker::PhantomData;
use crate::low_level::polyfill::MaybeDangling;
use crate::low_level::stable_deref::CloneStableDeref;

verus! {

/// A pointer whose target may be borrowed while the pointer is aliased.
pub trait AliasableDeref {
    /// The pointed-to type.
    type Target: ?Sized;

    /// Dereferences the pointer.
    fn deref(&self) -> &Self::Target;
}

/// An `AliasableDeref` pointer that can also hand out a unique reference.
pub trait AliasableDerefMut: AliasableDeref {
    /// Dereferences the pointer mutably.
    fn deref_mut(&mut self) -> &mut Self::Target;
}

/// A family of view types indexed by a lifetime `'x` below `'ub`.
pub trait View<'x, 'ub, ImplyBound = &'x &'ub ()> {
    /// The view type at `'x`.
    type Output;
}

/// A function of two arguments, consumed by the call.
///
/// `derive_req` and `derive_ens` name the pre- and postcondition of `derive`.
pub trait Derive2<T, S> {
    /// The derived value.
    type Output;

    /// What `derive` requires of its inputs.
    spec fn derive_req(&self, a: T, b: S) -> bool;

    /// What `derive` guarantees of its inputs and result.
    spec fn derive_ens(&self, a: T, b: S, output: Self::Output) -> bool;

    /// Runs the function.
    fn derive(self, a: T, b: S) -> (r: Self::Output)
        requires
            self.derive_req(a, b),
        ensures
            self.derive_ens(a, b, r),
    ;
}

impl<T, S, R, F> Derive2<T, S> for F where F: FnOnce(T, S) -> R {
    type Output = R;

    open spec fn derive_req(&self, a: T, b: S) -> bool {
        call_requires(*self, (a, b))
    }

    open spec fn derive_ens(&self, a: T, b: S, output: R) -> bool {
        call_ensures(*self, (a, b), output)
    }

    fn derive(self, a: T, b: S) -> (r: R) {
        self(a, b)
    }
}

/// A type that is `T`; `get` is the identity.
pub trait IsType<T> {
    /// The value seen as a `T`.
    spec fn as_type(self) -> T;

    /// Returns the value as a `T`.
    fn get(self) -> (r: T)
        ensures
            r == self.as_type(),
    ;
}

impl<T> IsType<T> for T {
    open spec fn as_type(self) -> T {
        self
    }

    fn get(self) -> (r: T) {
        self
    }
}

/// The view family `'x -> &'x T`.
pub struct RefView<'ub, T: ?Sized>(PhantomData<&'ub T>);

impl<'a, 'ub, T: ?Sized> View<'a, 'ub> for RefView<'ub, T> {
    type Output = &'a T;
}

/// The view family `'x -> &'x mut T`.
pub struct MutView<'ub, T: ?Sized>(PhantomData<&'ub mut T>);

impl<'a, 'ub, T: ?Sized> View<'a, 'ub> for MutView<'ub, T> {
    type Output = &'a mut T;
}

/// An owner kept together with a view, the owner held in a `Token4`.
///
/// `owner()` and `view()` describe it. A bowl is built by putting an owner
/// into a `Token4` (`Token4::new`) and consuming the token with a view
/// (`Token4::consume`); `map` takes it apart into a view for a `Token1`
/// brand and an owner in a `Token3`, which `Token3::consume` puts back
/// together with a view branded by `Token1::make`.
pub struct Bowl<'ub, P, V> {
    view: MaybeDangling<V>,
    owner: Token4<'ub, 'ub, P, &'ub &'ub ()>,
}

impl<'ub, P, V> Bowl<'ub, P, V> {
    /// The owner held by the bowl.
    pub closed spec fn owner(&self) -> P {
        self.owner.inner()
    }

    /// The view held by the bowl.
    pub closed spec fn view(&self) -> V {
        self.view.value()
    }

    /// The token through which the bowl holds its owner.
    pub closed spec fn owner_token(&self) -> Token4<'ub, 'ub, P, &'ub &'ub ()> {
        self.owner
    }

    /// Hands a shared reference to the view and one to the owner's token
    /// to `g`, and returns what `g` returns.
    pub fn with<'a, R, G>(&'a self, g: G) -> (r: R)
        where G: Derive2<&'a V, &'a Token4<'ub, 'ub, P, &'ub &'ub ()>, Output = R>
        requires
            g.derive_req(&self.view(), &self.owner_token()),
        ensures
            g.derive_ens(&self.view(), &self.owner_token(), r),
            self.owner_token().inner() == self.owner(),
    {
        g.derive(self.view.as_ref(), &self.owner)
    }

    /// Hands a mutable reference to the view and a shared one to the
    /// owner's token to `g`; the view is left as `g` leaves it and the
    /// owner is kept.
    pub fn with_mut<'a, R, G>(&'a mut self, g: G) -> (r: R)
        where G: Derive2<&'a mut V, &'a Token4<'ub, 'ub, P, &'ub &'ub ()>, Output = R>
        requires
            forall|m: &'a mut V| *m == old(self).view() ==> g.derive_req(m, &old(self).owner_token()),
        ensures
            final(self).owner() == old(self).owner(),
            old(self).owner_token().inner() == old(self).owner(),
            exists|m: &'a mut V|
                *m == old(self).view() && *final(m) == final(self).view()
                    && g.derive_ens(m, &old(self).owner_token(), r),
    {
        let Bowl { view, owner } = self;
        g.derive(view.as_mut(), &*owner)
    }

    /// Takes the bowl apart: `g` turns the view into an intermediate value,
    /// given a brand, and `h` turns that value and the branded owner into
    /// the result.
    pub fn map<X, R, G, H>(self, g: G, h: H) -> (r: R)
        where
            G: Derive2<V, Token1<'static, 'ub, 'ub>, Output = X>,
            H: Derive2<X, Token3<'static, 'ub, P>, Output = R>,
        requires
            g.derive_req(self.view(), Token1::token()),
            forall|x: X| g.derive_ens(self.view(), Token1::token(), x)
                ==> h.derive_req(x, Token3::holding(self.owner())),
        ensures
            exists|x: X|
                g.derive_ens(self.view(), Token1::token(), x)
                    && h.derive_ens(x, Token3::holding(self.owner()), r),
    {
        let Bowl { view, owner } = self;
        let x = g.derive(view.into_inner(), Token1(PhantomData));
        h.derive(x, Token3(owner.into_inner(), PhantomData))
    }
}

/// A zero-sized brand for a lifetime `'life` below `'ub`.
pub struct Token1<'brand, 'life, 'ub>(PhantomData<(&'brand (), &'life (), &'ub ())>);

impl<'brand, 'life, 'ub> Token1<'brand, 'life, 'ub> {
    /// The brand value (every brand of a type is this one).
    pub closed spec fn token() -> Self {
        Token1(PhantomData)
    }

    /// Brands `view` so that `Token3::consume` can put it into a bowl.
    pub fn make<V>(&self, view: V) -> (r: Token2<'brand, 'ub, V>)
        ensures
            r.value() == view,
    {
        Token2(view, PhantomData)
    }
}

/// A view branded with `'brand`.
pub struct Token2<'brand, 'ub, V>(V, PhantomData<(&'brand (), &'ub ())>);

impl<'brand, 'ub, V> Token2<'brand, 'ub, V> {
    /// The branded view.
    pub closed spec fn value(&self) -> V {
        self.0
    }
}

/// An owner branded with `'brand`.
pub struct Token3<'brand, 'ub, P>(P, PhantomData<(&'brand (), &'ub ())>);

impl<'brand, 'ub, P> Token3<'brand, 'ub, P> {
    /// The branded owner.
    pub closed spec fn inner(&self) -> P {
        self.0
    }

    /// The token holding `owner`.
    pub closed spec fn holding(owner: P) -> Self {
        Token3(owner, PhantomData)
    }

    /// The token built by `holding(owner)` holds `owner`.
    pub proof fn lemma_holding(owner: P)
        ensures
            Self::holding(owner).inner() == owner,
    {
    }

    /// Puts the owner back into a bowl together with the view branded with
    /// the same brand.
    pub fn consume<V>(self, view: Token2<'brand, 'ub, V>) -> (r: Bowl<'ub, P, V>)
        ensures
            r.owner() == self.inner(),
            r.view() == view.value(),
    {
        Bowl { view: MaybeDangling::new(view.0), owner: Token4(self.0, PhantomData) }
    }

    /// Removes the brand.
    pub fn into_inner(self) -> (r: P)
        ensures
            r == self.inner(),
    {
        self.0
    }
}

impl<'brand, 'ub, P: CloneStableDeref> Clone for Token3<'brand, 'ub, P> {
    /// Clones the owner under the same brand.
    fn clone(&self) -> (r: Self)
        ensures
            cloned(self.inner(), r.inner()),
            r.inner().target() == self.inner().target(),
    {
        Self(self.0.clone_pointer(), PhantomData)
    }
}

/// An owner held for a lifetime `'life` below `'ub`.
pub struct Token4<'life, 'ub, P, X>(P, PhantomData<(&'life (), &'ub (), X)>);

impl<'life, 'ub, P, X> Token4<'life, 'ub, P, X> {
    /// The held owner.
    pub closed spec fn inner(&self) -> P {
        self.0
    }

    /// A token holding `owner`.
    pub fn new(owner: P) -> (r: Self)
        ensures
            r.inner() == owner,
    {
        Token4(owner, PhantomData)
    }

    /// Puts the owner into a bowl together with `view`.
    pub fn consume<V>(self, view: V) -> (r: Bowl<'ub, P, V>)
        ensures
            r.owner() == self.inner(),
            r.view() == view,
    {
        Bowl { view: MaybeDangling::new(view), owner: Token4(self.0, PhantomData) }
    }

    /// Returns the held owner.
    pub fn into_inner(self) -> (r: P)
        ensures
            r == self.inner(),
    {
        self.0
    }
}

impl<'life, 'ub, P: CloneStableDeref, X> Clone for Token4<'life, 'ub, P, X> {
    /// Clones the owner.
    fn clone(&self) -> (r: Self)
        ensures
            cloned(self.inner(), r.inner()),
            r.inner().target() == self.inner().target(),
    {
        Self(self.0.clone_pointer(), PhantomData)
    }
}

} // verus!
