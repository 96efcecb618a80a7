//! The basic primitives: `Exists` / `Stamp` and the `Bowl` built on them.
pub mod bowl;
pub mod existential;

pub use self::bowl::{Bowl, OwnerRef, Slot};
pub use self::existential::{Exists, Stamp};
