//! Oyakodon stores an owner together with a value derived from it (its view),
//! and lets the pair be transformed, split and recombined while the owner
//! is kept intact.
//!
//! Every container in this crate is modelled by two spec functions,
//! `owner()` and `view()`, and each operation states exactly how it
//! changes them.  The derivation functions are described by the
//! [`Derive`] trait, whose `call_req` / `call_ens` spec functions carry the
//! pre- and postconditions of the function that computed a view.
use vstd::prelude::*;

pub mod aliasable_deref;
pub mod bowl;
pub mod bowl_box;
pub mod bowl_mut;
pub mod bowl_ref;
pub mod helper;
pub mod low_level;
pub mod owned;
pub mod owning_ref;
pub mod polyfill;
pub mod primitive;

pub use aliasable_deref::AliasableDeref;
pub use bowl_box::BowlBox;
pub use low_level::aliasable::Aliasable;
pub use bowl_mut::BowlMut;
pub use bowl_ref::BowlRef;
pub use helper::{Derive, ViewIn};
pub use low_level::polyfill::MaybeDangling;
pub use low_level::stable_deref::{CloneStableDeref, StableDeref, StableDerefMut};
pub use owned::{DerefMove, Owned};
pub use polyfill::{PhantomInvariant, PhantomInvariantLifetime};

verus! {

} // verus!
