//! A handle that keeps an owner alive next to a value built from it.
pub mod handle;

pub use self::handle::{Erased, IntoErased, OwningHandle, ToHandle, ToHandleMut};
