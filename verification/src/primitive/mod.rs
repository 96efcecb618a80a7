//! Primitive types and traits: the `Bowl` with its `Slot` / `OwnerRef`,
//! and the `Exists` / `Stamp` pair it is built on.
pub mod aliasable;
pub mod anchor;
pub mod cell;
pub mod helper;
pub mod low_level;
pub mod view;

pub use self::aliasable::DanglingDeref;
pub use self::anchor::Anchor;
pub use self::cell::Cell;
pub use crate::aliasable_deref::AliasableDeref;
pub use crate::low_level::aliasable::Aliasable;
pub use crate::low_level::basis::{Bowl, Exists, OwnerRef, Slot, Stamp};
pub use crate::low_level::stable_deref::{CloneStableDeref, StableDeref, StableDerefMut};
pub use crate::owned::{DerefMove, Owned};
pub use self::low_level::ForAll;
pub use self::view::View;
