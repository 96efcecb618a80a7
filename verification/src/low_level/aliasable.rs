use vstd::prelude::*;
use crate::aliasable_deref::AliasableDeref;
use crate::low_level::stable_deref::StableDeref;
use std::rc::Rc;
use std::sync::Arc;

verus! {

/// A pointer that stays valid to borrow from even while views derived from
/// its target are alive.
pub trait Aliasable: core::ops::Deref {

}

impl<'a, T: ?Sized> Aliasable for &'a T {

}

impl<T: StableDeref> Aliasable for AliasableDeref<T> {

}

impl<T: ?Sized> Aliasable for Rc<T> {

}

impl<T: ?Sized> Aliasable for Arc<T> {

}

} // verus!
